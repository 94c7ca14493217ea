use stellar_grants::audit::{get_recent, log, log_length, AuditAction, AuditEntry};
use stellar_grants::constants::MAX_PAGE_SIZE;
use stellar_grants::pagination::{page_count, paginate};
use stellar_grants::types::Address;

fn make_vec(n: u32) -> Vec<u32> {
    let mut v = Vec::new();
    for i in 0..n {
        v.push(i);
    }
    v
}

#[test]
fn test_paginate_basic_slice() {
    let items = make_vec(10);
    let page = paginate(&items, 2, 3);
    assert_eq!(page.len(), 3);
    assert_eq!(page.get(0), Some(&2));
    assert_eq!(page.get(2), Some(&4));
}

#[test]
fn test_paginate_offset_past_end_returns_empty() {
    let items = make_vec(5);
    let page = paginate(&items, 10, 3);
    assert_eq!(page.len(), 0);
}

#[test]
fn test_paginate_limit_clamped_to_max_page_size() {
    let items = make_vec(MAX_PAGE_SIZE + 20);
    let page = paginate(&items, 0, MAX_PAGE_SIZE + 20);
    assert_eq!(page.len(), MAX_PAGE_SIZE as usize);
}

#[test]
fn test_paginate_zero_limit_returns_empty() {
    let items = make_vec(5);
    let page = paginate(&items, 0, 0);
    assert_eq!(page.len(), 0);
}

#[test]
fn test_paginate_last_partial_page() {
    let items = make_vec(7);
    let page = paginate(&items, 5, 10);
    assert_eq!(page.len(), 2);
    assert_eq!(page.get(0), Some(&5));
    assert_eq!(page.get(1), Some(&6));
}

#[test]
fn test_paginate_empty_input() {
    let items: Vec<u32> = Vec::new();
    let page = paginate(&items, 0, 10);
    assert_eq!(page.len(), 0);
}

#[test]
fn test_page_count_exact_division() {
    assert_eq!(page_count(20, 10), 2);
}

#[test]
fn test_page_count_remainder_rounds_up() {
    assert_eq!(page_count(21, 10), 3);
}

#[test]
fn test_page_count_zero_total() {
    assert_eq!(page_count(0, 10), 0);
}

#[test]
fn test_page_count_zero_page_size_treated_as_one() {
    assert_eq!(page_count(5, 0), 5);
}

#[test]
fn page_count_is_ceiling_on_examples() {
    for total in 0..50u32 {
        for size in 1..12u32 {
            let pages = page_count(total, size);
            assert!(pages * size >= total);
            if total > 0 {
                assert!((pages - 1) * size < total);
            }
        }
    }
    assert_eq!(page_count(u32::MAX, 1), u32::MAX);
    assert_eq!(page_count(u32::MAX, u32::MAX), 1);
}

#[test]
fn paginate_middle_page_is_exact_slice() {
    let items = make_vec(250);
    let page = paginate(&items, 120, 500);
    assert_eq!(page.len(), MAX_PAGE_SIZE as usize);
    assert_eq!(page, items[120..120 + MAX_PAGE_SIZE as usize].to_vec());
}

fn entry(n: u64) -> AuditEntry {
    AuditEntry {
        action: AuditAction::FundsReleased,
        actor: Address { id: 7 },
        grant_id: 1,
        milestone_idx: Some(0),
        amount: Some(n as i128),
        timestamp: n,
        ledger_sequence: n as u32,
    }
}

#[test]
fn audit_log_appends_stamped_entry() {
    let mut entries = Vec::new();
    log(&mut entries, 1, AuditAction::GrantCreated, Address { id: 9 }, None, Some(100), 55, 6);
    assert_eq!(log_length(&entries), 1);
    assert_eq!(
        entries[0],
        AuditEntry {
            action: AuditAction::GrantCreated,
            actor: Address { id: 9 },
            grant_id: 1,
            milestone_idx: None,
            amount: Some(100),
            timestamp: 55,
            ledger_sequence: 6,
        }
    );
}

#[test]
fn audit_recent_returns_last_entries_oldest_first() {
    let entries: Vec<AuditEntry> = (0..10).map(entry).collect();
    let recent = get_recent(&entries, 3);
    assert_eq!(recent, vec![entry(7), entry(8), entry(9)]);
    assert_eq!(get_recent(&entries, 0).len(), 0);
    assert_eq!(get_recent(&entries, 50).len(), 10);
    let empty: Vec<AuditEntry> = Vec::new();
    assert_eq!(get_recent(&empty, 5).len(), 0);
}

#[test]
fn audit_recent_beyond_one_page_returns_the_whole_tail() {
    let entries: Vec<AuditEntry> = (0..300).map(entry).collect();
    let recent = get_recent(&entries, 150);
    assert_eq!(recent.len(), 150);
    assert!(recent.len() > MAX_PAGE_SIZE as usize);
    assert_eq!(recent[0], entry(150));
    assert_eq!(recent[149], entry(299));

    let entries: Vec<AuditEntry> = (0..200).map(entry).collect();
    let recent = get_recent(&entries, 150);
    let expected: Vec<AuditEntry> = (50..200).map(entry).collect();
    assert_eq!(recent, expected);
}

#[test]
fn walking_pages_covers_the_list_once() {
    for (n, p) in [(0u32, 3u32), (7, 3), (9, 3), (250, 100), (5, 1)] {
        let items = make_vec(n);
        let pages = page_count(n, p);
        let mut walked = Vec::new();
        for k in 0..pages {
            let page = paginate(&items, k * p, p);
            assert!(!page.is_empty());
            walked.extend(page);
        }
        assert_eq!(walked, items);
        assert!(paginate(&items, pages * p, p).is_empty());
    }
}
