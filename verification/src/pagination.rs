use vstd::prelude::*;

use crate::constants::MAX_PAGE_SIZE;

verus! {

/// The number of items a page of `limit` holds at most.
pub open spec fn page_limit(limit: u32) -> int {
    if limit > MAX_PAGE_SIZE {
        MAX_PAGE_SIZE as int
    } else {
        limit as int
    }
}

/// The items of the page that starts at `offset` and holds up to `limit`
/// items (clamped to `MAX_PAGE_SIZE`).
pub open spec fn page_of<T>(items: Seq<T>, offset: u32, limit: u32) -> Seq<T> {
    if offset >= items.len() {
        Seq::empty()
    } else {
        let end = if offset + page_limit(limit) < items.len() {
            offset + page_limit(limit)
        } else {
            items.len() as int
        };
        items.subrange(offset as int, end)
    }
}

/// Slice `items[offset..offset+limit]` (clamped to `MAX_PAGE_SIZE` and the
/// length of `items`) into a new `Vec`. Used by any module that needs
/// offset/limit pagination (registry, audit log, grants, etc.) so the slicing
/// logic lives in exactly one place.
pub fn paginate<T: Copy>(items: &Vec<T>, offset: u32, limit: u32) -> (page: Vec<T>)
    requires
        items@.len() <= u32::MAX,
    ensures
        page@ == page_of(items@, offset, limit),
{
    let total = items.len();
    let effective_limit = if limit > MAX_PAGE_SIZE {
        MAX_PAGE_SIZE
    } else {
        limit
    };
    let mut result: Vec<T> = Vec::new();
    if offset as usize >= total || effective_limit == 0 {
        assert(result@ =~= page_of(items@, offset, limit));
        return result;
    }
    let start = offset as usize;
    let mut i: usize = start;
    while i < total && i - start < effective_limit as usize
        invariant
            total == items@.len(),
            start == offset,
            start < total,
            start <= i <= total,
            i - start <= effective_limit,
            effective_limit == page_limit(limit),
            result@ =~= items@.subrange(start as int, i as int),
        decreases total - i,
    {
        result.push(items[i]);
        i += 1;
    }
    assert(result@ =~= page_of(items@, offset, limit));
    result
}

/// Number of pages of `page_size` items needed to hold `total_len` items,
/// where a page size of zero counts as one.
pub open spec fn spec_page_count(total_len: nat, page_size: nat) -> nat {
    let size: nat = if page_size == 0 { 1 } else { page_size };
    if total_len == 0 { 0 } else { ((total_len - 1) as nat / size + 1) as nat }
}

/// Total number of pages needed to cover `total_len` items at `page_size` per page.
/// Page size is clamped to at least 1 to avoid division by zero.
pub fn page_count(total_len: u32, page_size: u32) -> (pages: u32)
    ensures
        pages == spec_page_count(total_len as nat, page_size as nat),
{
    let size: u32 = if page_size == 0 { 1 } else { page_size };
    if total_len == 0 { 0 } else { (total_len - 1) / size + 1 }
}

/// The page count is the rounded-up quotient: that many pages hold all the
/// items, and one page fewer does not.
pub proof fn lemma_page_count_is_ceiling(total_len: nat, page_size: nat)
    ensures
        ({
            let size: nat = if page_size == 0 { 1 } else { page_size };
            let pages = spec_page_count(total_len, page_size);
            &&& pages * size >= total_len
            &&& total_len > 0 ==> (pages - 1) * size < total_len
        }),
{
    let size: nat = if page_size == 0 { 1 } else { page_size };
    if total_len > 0 {
        let q = (total_len - 1) as nat / size;
        vstd::arithmetic::div_mod::lemma_fundamental_div_mod((total_len - 1) as int, size as int);
        assert((q + 1) * size == q * size + size) by (nonlinear_arith);
    }
}

/// A page never holds more than `MAX_PAGE_SIZE` items, nor more than asked for.
pub proof fn lemma_page_is_bounded<T>(items: Seq<T>, offset: u32, limit: u32)
    ensures
        page_of(items, offset, limit).len() <= MAX_PAGE_SIZE,
        page_of(items, offset, limit).len() <= limit,
{
}

/// The first `k` pages of `page_size` items, at offsets 0, `page_size`,
/// 2 * `page_size`, ..., concatenated.
pub open spec fn first_pages<T>(items: Seq<T>, page_size: u32, k: nat) -> Seq<T>
    decreases k,
{
    if k == 0 {
        Seq::empty()
    } else {
        first_pages(items, page_size, (k - 1) as nat) + page_of(
            items,
            ((k - 1) * page_size) as u32,
            page_size,
        )
    }
}

proof fn lemma_first_pages_prefix<T>(items: Seq<T>, page_size: u32, k: nat)
    requires
        1 <= page_size <= MAX_PAGE_SIZE,
        items.len() + page_size <= u32::MAX,
        k * page_size <= items.len() + page_size,
    ensures
        first_pages(items, page_size, k) == items.subrange(
            0,
            if k * page_size < items.len() { k * page_size } else { items.len() as int },
        ),
    decreases k,
{
    let p = page_size as int;
    let n = items.len() as int;
    if k == 0 {
        assert(items.subrange(0, 0) =~= Seq::<T>::empty());
    } else {
        let j = (k - 1) as nat;
        assert(k * p == j * p + p) by (nonlinear_arith)
            requires
                j == k - 1,
        ;
        assert(j * p >= 0) by (nonlinear_arith)
            requires
                p >= 1,
        ;
        lemma_first_pages_prefix(items, page_size, j);
        let o = j * p;
        assert(((j * page_size) as u32) as int == o);
        if o < n {
            assert(first_pages(items, page_size, k) =~= items.subrange(
                0,
                if k * p < n { k * p } else { n },
            ));
        } else {
            assert(first_pages(items, page_size, k) =~= items.subrange(0, n));
        }
    }
}

/// Walking a list page by page covers it exactly: the pages at offsets 0,
/// `page_size`, ..., up to the page count, each non-empty, concatenate to the
/// whole list, and the page at the page count's offset is empty.
pub proof fn lemma_pages_cover_items<T>(items: Seq<T>, page_size: u32)
    requires
        1 <= page_size <= MAX_PAGE_SIZE,
        items.len() + page_size <= u32::MAX,
    ensures
        first_pages(items, page_size, spec_page_count(items.len(), page_size as nat)) == items,
        forall|k: nat|
            k < spec_page_count(items.len(), page_size as nat) ==> #[trigger] page_of(
                items,
                (k * page_size) as u32,
                page_size,
            ).len() > 0,
        page_of(
            items,
            (spec_page_count(items.len(), page_size as nat) * page_size) as u32,
            page_size,
        ).len() == 0,
{
    let p = page_size as int;
    let n = items.len() as int;
    let pc = spec_page_count(items.len(), page_size as nat);
    lemma_page_count_is_ceiling(items.len(), page_size as nat);
    assert((pc - 1) * p == pc * p - p) by (nonlinear_arith);
    if n == 0 {
        assert(pc == 0);
        assert(pc * p == 0) by (nonlinear_arith)
            requires
                pc == 0,
        ;
    }
    assert(pc * p <= n + p);
    lemma_first_pages_prefix(items, page_size, pc);
    assert(items.subrange(0, n) =~= items);
    assert forall|k: nat| k < pc implies #[trigger] page_of(
        items,
        (k * page_size) as u32,
        page_size,
    ).len() > 0 by {
        assert(k * p <= (pc - 1) * p) by (nonlinear_arith)
            requires
                k < pc,
                p >= 1,
        ;
        assert(k * p >= 0) by (nonlinear_arith)
            requires
                p >= 1,
        ;
    }
}

} // verus!
