use stellar_grants::grant_timer::{
    cancel_timer, execute_timer_action, pending_timers, register_timer, trigger_timers,
    TimerRecord, TimerTriggerType,
};
use stellar_grants::types::{Address, ContractError, Grant, GrantStatus};

fn grant(owner: Address, id: u64) -> Grant {
    Grant {
        id,
        owner,
        title: b"Grant".to_vec(),
        description: b"desc".to_vec(),
        token: Address { id: 100 },
        status: GrantStatus::Active,
        total_amount: 1_000,
        milestone_amount: 500,
        reviewers: Vec::new(),
        total_milestones: 2,
        milestones_paid_out: 0,
        escrow_balance: 0,
        funders: Vec::new(),
        reason: None,
        timestamp: 0,
    }
}

#[test]
fn register_timer_appends_and_refuses_duplicates() {
    let owner = Address { id: 1 };
    let admin = Address { id: 2 };
    let stranger = Address { id: 3 };
    let g = grant(owner, 5);
    let mut timers = Vec::new();
    assert_eq!(
        register_timer(None, Some(admin), owner, &mut timers, 5, TimerTriggerType::AutoExpire, 10),
        Err(ContractError::GrantNotFound)
    );
    assert_eq!(
        register_timer(Some(&g), Some(admin), stranger, &mut timers, 5, TimerTriggerType::AutoExpire, 10),
        Err(ContractError::Unauthorized)
    );
    register_timer(Some(&g), Some(admin), owner, &mut timers, 5, TimerTriggerType::AutoExpire, 10).unwrap();
    register_timer(Some(&g), Some(admin), admin, &mut timers, 5, TimerTriggerType::AutoCancel, 20).unwrap();
    assert_eq!(
        register_timer(Some(&g), Some(admin), owner, &mut timers, 5, TimerTriggerType::AutoExpire, 30),
        Err(ContractError::InvalidInput)
    );
    assert_eq!(timers.len(), 2);
    assert_eq!(
        timers[0],
        TimerRecord {
            grant_id: 5,
            trigger_type: TimerTriggerType::AutoExpire,
            fires_at: 10,
            fires_at_ledger: None,
            fired: false,
            fired_at: None,
            triggered_by: None,
        }
    );
}

#[test]
fn trigger_timers_fires_due_eligible_timers_once() {
    let owner = Address { id: 1 };
    let caller = Address { id: 9 };
    let g = grant(owner, 5);
    let mut timers = Vec::new();
    register_timer(Some(&g), None, owner, &mut timers, 5, TimerTriggerType::AutoExpire, 10).unwrap();
    register_timer(Some(&g), None, owner, &mut timers, 5, TimerTriggerType::AutoActivate, 10).unwrap();
    register_timer(Some(&g), None, owner, &mut timers, 5, TimerTriggerType::CustomCallback, 50).unwrap();

    let (count, stored) = trigger_timers(Some(&g), Some(g.clone()), &mut timers, caller, 5, 5);
    assert_eq!(count, 0);
    assert_eq!(stored, Some(g.clone()));

    let (count, stored) = trigger_timers(Some(&g), Some(g.clone()), &mut timers, caller, 5, 20);
    assert_eq!(count, 1);
    let stored = stored.unwrap();
    assert_eq!(stored.status, GrantStatus::Cancelled);
    assert_eq!(stored.reason, Some(b"auto-expired by timer".to_vec()));
    assert_eq!(stored.timestamp, 20);
    assert!(timers[0].fired);
    assert_eq!(timers[0].fired_at, Some(20));
    assert_eq!(timers[0].triggered_by, Some(caller));
    assert!(!timers[1].fired);
    assert!(!timers[2].fired);

    let (count, _) = trigger_timers(Some(&stored), Some(stored.clone()), &mut timers, caller, 5, 60);
    assert_eq!(count, 1);
    assert!(timers[2].fired);
    assert!(!timers[1].fired);

    let mut again = timers.clone();
    let (count, _) = trigger_timers(Some(&stored), Some(stored.clone()), &mut again, caller, 5, 100);
    assert_eq!(count, 0);
    assert_eq!(again, timers);
}

#[test]
fn trigger_timers_judges_eligibility_on_grant_as_read() {
    let owner = Address { id: 1 };
    let g = grant(owner, 5);
    let mut timers = Vec::new();
    register_timer(Some(&g), None, owner, &mut timers, 5, TimerTriggerType::AutoExpire, 0).unwrap();
    register_timer(Some(&g), None, owner, &mut timers, 5, TimerTriggerType::AutoCancel, 0).unwrap();
    let (count, stored) = trigger_timers(Some(&g), Some(g.clone()), &mut timers, Address { id: 2 }, 5, 1);
    assert_eq!(count, 2);
    assert_eq!(
        stored.unwrap().reason,
        Some(b"auto-cancelled: not funded by deadline".to_vec())
    );
}

#[test]
fn trigger_timers_without_grant_does_nothing() {
    let mut timers = vec![TimerRecord {
        grant_id: 5,
        trigger_type: TimerTriggerType::CustomCallback,
        fires_at: 0,
        fires_at_ledger: None,
        fired: false,
        fired_at: None,
        triggered_by: None,
    }];
    let before = timers.clone();
    assert_eq!(trigger_timers(None, None, &mut timers, Address { id: 1 }, 5, 100), (0, None));
    assert_eq!(timers, before);
}

#[test]
fn trigger_timers_skips_other_grants_and_ineligible() {
    let owner = Address { id: 1 };
    let mut g = grant(owner, 5);
    g.escrow_balance = 10;
    let mut timers = vec![
        TimerRecord {
            grant_id: 6,
            trigger_type: TimerTriggerType::CustomCallback,
            fires_at: 0,
            fires_at_ledger: None,
            fired: false,
            fired_at: None,
            triggered_by: None,
        },
        TimerRecord {
            grant_id: 5,
            trigger_type: TimerTriggerType::AutoCancel,
            fires_at: 0,
            fires_at_ledger: None,
            fired: false,
            fired_at: None,
            triggered_by: None,
        },
    ];
    let (count, stored) = trigger_timers(Some(&g), Some(g.clone()), &mut timers, owner, 5, 1);
    assert_eq!(count, 0);
    assert_eq!(stored, Some(g));
}

#[test]
fn execute_timer_action_only_closing_types_change_grant() {
    let g = grant(Address { id: 1 }, 5);
    let timer = |t| TimerRecord {
        grant_id: 5,
        trigger_type: t,
        fires_at: 0,
        fires_at_ledger: None,
        fired: false,
        fired_at: None,
        triggered_by: None,
    };
    let mut same = g.clone();
    execute_timer_action(&mut same, &timer(TimerTriggerType::AutoReleaseLockup), 7);
    assert_eq!(same, g);
    let mut closed = g.clone();
    execute_timer_action(&mut closed, &timer(TimerTriggerType::AutoCancel), 7);
    assert_eq!(closed.status, GrantStatus::Cancelled);
    assert_eq!(closed.timestamp, 7);
}

#[test]
fn pending_and_cancel_timers() {
    let owner = Address { id: 1 };
    let g = grant(owner, 5);
    let mut timers = Vec::new();
    register_timer(Some(&g), None, owner, &mut timers, 5, TimerTriggerType::AutoExpire, 10).unwrap();
    register_timer(Some(&g), None, owner, &mut timers, 5, TimerTriggerType::CustomCallback, 30).unwrap();
    assert_eq!(pending_timers(&timers, 5).len(), 0);
    assert_eq!(pending_timers(&timers, 10), vec![timers[0]]);
    assert_eq!(pending_timers(&timers, 30).len(), 2);

    assert_eq!(
        cancel_timer(Some(&g), None, Address { id: 4 }, &mut timers, TimerTriggerType::AutoExpire),
        Err(ContractError::Unauthorized)
    );
    assert_eq!(
        cancel_timer(None, None, owner, &mut timers, TimerTriggerType::AutoExpire),
        Err(ContractError::GrantNotFound)
    );
    assert_eq!(
        cancel_timer(Some(&g), None, owner, &mut timers, TimerTriggerType::AutoCancel),
        Err(ContractError::TimerNotFound)
    );
    let second = timers[1];
    cancel_timer(Some(&g), None, owner, &mut timers, TimerTriggerType::AutoExpire).unwrap();
    assert_eq!(timers, vec![second]);
}

#[test]
fn trigger_timers_closes_grant_stored_under_its_own_id() {
    let owner = Address { id: 1 };
    // The record read under id 5 names itself grant 7; the action falls on grant 7.
    let read = grant(owner, 7);
    let other = grant(Address { id: 2 }, 7);
    let mut timers = vec![TimerRecord {
        grant_id: 5,
        trigger_type: TimerTriggerType::AutoExpire,
        fires_at: 0,
        fires_at_ledger: None,
        fired: false,
        fired_at: None,
        triggered_by: None,
    }];
    let (count, target) = trigger_timers(Some(&read), Some(other.clone()), &mut timers, owner, 5, 3);
    assert_eq!(count, 1);
    let target = target.unwrap();
    assert_eq!(target.owner, Address { id: 2 });
    assert_eq!(target.status, GrantStatus::Cancelled);
    assert_eq!(target.reason, Some(b"auto-expired by timer".to_vec()));

    let mut again = vec![TimerRecord { fired: false, ..timers[0] }];
    let (count, target) = trigger_timers(Some(&read), None, &mut again, owner, 5, 3);
    assert_eq!(count, 1);
    assert_eq!(target, None);
    assert!(again[0].fired);
}
