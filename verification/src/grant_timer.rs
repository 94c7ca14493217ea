use vstd::prelude::*;

use crate::types::{opt_deref, Address, ContractError, Grant, GrantStatus};

verus! {

#[derive(Clone, Copy, Debug, PartialEq, Eq, Structural)]
pub enum TimerTriggerType {
    AutoExpire,
    AutoActivate,
    AutoCancel,
    AutoReleaseLockup,
    CustomCallback,
}

/// A timer registered on a grant, which anyone may fire once it is due.
#[derive(Clone, Copy, Debug, PartialEq, Eq, Structural)]
pub struct TimerRecord {
    pub grant_id: u64,
    pub trigger_type: TimerTriggerType,
    pub fires_at: u64,
    pub fires_at_ledger: Option<u32>,
    pub fired: bool,
    pub fired_at: Option<u64>,
    pub triggered_by: Option<Address>,
}

pub open spec fn is_pending_of(t: TimerRecord, trigger_type: TimerTriggerType) -> bool {
    t.trigger_type == trigger_type && !t.fired
}

pub open spec fn has_pending(timers: Seq<TimerRecord>, trigger_type: TimerTriggerType) -> bool {
    exists|i: int| 0 <= i < timers.len() && is_pending_of(#[trigger] timers[i], trigger_type)
}

/// No two unfired timers of a grant share a trigger type.
pub open spec fn at_most_one_pending_per_type(timers: Seq<TimerRecord>) -> bool {
    forall|i: int, j: int|
        0 <= i < timers.len() && 0 <= j < timers.len() && i != j && !timers[i].fired
            && !timers[j].fired ==> #[trigger] timers[i].trigger_type != #[trigger] timers[j].trigger_type
}

/// The owner of the grant and the global admin may manage its timers.
pub open spec fn may_manage_timers(grant: Grant, global_admin: Option<Address>, caller: Address) -> bool {
    grant.owner == caller || global_admin == Some(caller)
}

pub open spec fn new_timer(grant_id: u64, trigger_type: TimerTriggerType, fires_at: u64) -> TimerRecord {
    TimerRecord {
        grant_id,
        trigger_type,
        fires_at,
        fires_at_ledger: None,
        fired: false,
        fired_at: None,
        triggered_by: None,
    }
}

pub open spec fn register_refusal(
    grant: Option<Grant>,
    global_admin: Option<Address>,
    caller: Address,
    timers: Seq<TimerRecord>,
    trigger_type: TimerTriggerType,
) -> Option<ContractError> {
    match grant {
        None => Some(ContractError::GrantNotFound),
        Some(g) => if !may_manage_timers(g, global_admin, caller) {
            Some(ContractError::Unauthorized)
        } else if has_pending(timers, trigger_type) {
            Some(ContractError::InvalidInput)
        } else {
            None
        },
    }
}

fn may_manage(grant: &Grant, global_admin: Option<Address>, caller: Address) -> (ok: bool)
    ensures
        ok == may_manage_timers(*grant, global_admin, caller),
{
    let is_owner = grant.owner == caller;
    let is_admin = global_admin == Some(caller);
    is_owner || is_admin
}

/// Register a new timer for a grant. Owner or protocol (for defaults).
/// `timers` are the grant's timers; the new one is appended to them.
pub fn register_timer(
    grant: Option<&Grant>,
    global_admin: Option<Address>,
    caller: Address,
    timers: &mut Vec<TimerRecord>,
    grant_id: u64,
    trigger_type: TimerTriggerType,
    fires_at: u64,
) -> (result: Result<(), ContractError>)
    ensures
        result == (match register_refusal(
            opt_deref(grant),
            global_admin,
            caller,
            old(timers)@,
            trigger_type,
        ) {
            Some(e) => Err(e),
            None => Ok(()),
        }),
        result is Err ==> final(timers)@ == old(timers)@,
        result is Ok ==> final(timers)@ == old(timers)@.push(new_timer(grant_id, trigger_type, fires_at)),
        at_most_one_pending_per_type(old(timers)@) ==> at_most_one_pending_per_type(final(timers)@),
{
    let g = match grant {
        Some(g) => g,
        None => return Err(ContractError::GrantNotFound),
    };
    if !may_manage(g, global_admin, caller) {
        return Err(ContractError::Unauthorized);
    }
    let n = timers.len();
    let mut i: usize = 0;
    while i < n
        invariant
            n == timers.len(),
            timers@ == old(timers)@,
            opt_deref(grant) == Some(*g),
            may_manage_timers(*g, global_admin, caller),
            i <= n,
            forall|j: int| 0 <= j < i ==> !is_pending_of(#[trigger] timers@[j], trigger_type),
        decreases n - i,
    {
        if timers[i].trigger_type == trigger_type && !timers[i].fired {
            assert(is_pending_of(timers@[i as int], trigger_type));
            assert(has_pending(old(timers)@, trigger_type));
            return Err(ContractError::InvalidInput);
        }
        i += 1;
    }
    let record = TimerRecord {
        grant_id,
        trigger_type,
        fires_at,
        fires_at_ledger: None,
        fired: false,
        fired_at: None,
        triggered_by: None,
    };
    let ghost before = timers@;
    timers.push(record);
    assert forall|a: int, b: int|
        0 <= a < timers@.len() && 0 <= b < timers@.len() && a != b && !timers@[a].fired
            && !timers@[b].fired && at_most_one_pending_per_type(before) implies #[trigger] timers@[a].trigger_type
        != #[trigger] timers@[b].trigger_type by {
        if a == n {
            assert(!is_pending_of(before[b], trigger_type));
        } else if b == n {
            assert(!is_pending_of(before[a], trigger_type));
        } else {
            assert(before[a] == timers@[a] && before[b] == timers@[b]);
        }
    }
    Ok(())
}

/// The grant's fields that decide whether a due timer may fire.
pub open spec fn timer_eligible(grant: Grant, trigger_type: TimerTriggerType) -> bool {
    match trigger_type {
        TimerTriggerType::AutoExpire => grant.status == GrantStatus::Active
            && grant.milestones_paid_out < grant.total_milestones,
        TimerTriggerType::AutoActivate => grant.status == GrantStatus::Active
            && grant.escrow_balance >= grant.total_amount,
        TimerTriggerType::AutoCancel => grant.status == GrantStatus::Active && grant.escrow_balance
            == 0,
        TimerTriggerType::AutoReleaseLockup => grant.status == GrantStatus::Active,
        TimerTriggerType::CustomCallback => true,
    }
}

/// Whether `timer` fires when the timers of grant `grant_id` are triggered at
/// `now`, eligibility being judged on the grant as it was read at the start.
pub open spec fn fires(timer: TimerRecord, grant: Grant, grant_id: u64, now: u64) -> bool {
    &&& !timer.fired
    &&& timer.grant_id == grant_id
    &&& now >= timer.fires_at
    &&& timer_eligible(grant, timer.trigger_type)
}

pub open spec fn fired_timer(timer: TimerRecord, now: u64, caller: Address) -> TimerRecord {
    TimerRecord { fired: true, fired_at: Some(now), triggered_by: Some(caller), ..timer }
}

/// How many of `timers` fire.
pub open spec fn count_firing(timers: Seq<TimerRecord>, grant: Grant, grant_id: u64, now: u64) -> nat
    decreases timers.len(),
{
    if timers.len() == 0 {
        0
    } else {
        count_firing(timers.drop_last(), grant, grant_id, now) + if fires(
            timers.last(),
            grant,
            grant_id,
            now,
        ) {
            1nat
        } else {
            0nat
        }
    }
}

pub open spec fn closes_grant(trigger_type: TimerTriggerType) -> bool {
    trigger_type == TimerTriggerType::AutoExpire || trigger_type == TimerTriggerType::AutoCancel
}

/// The trigger type of the last of `timers` that fires and closes the grant.
pub open spec fn last_closing(timers: Seq<TimerRecord>, grant: Grant, grant_id: u64, now: u64) -> Option<
    TimerTriggerType,
>
    decreases timers.len(),
{
    if timers.len() == 0 {
        None
    } else if fires(timers.last(), grant, grant_id, now) && closes_grant(timers.last().trigger_type) {
        Some(timers.last().trigger_type)
    } else {
        last_closing(timers.drop_last(), grant, grant_id, now)
    }
}

/// The bytes of the reason a closing timer gives.
pub open spec fn closing_reason(trigger_type: TimerTriggerType) -> Seq<u8> {
    if trigger_type == TimerTriggerType::AutoExpire {
        vstd::utf8::encode_utf8("auto-expired by timer"@)
    } else {
        vstd::utf8::encode_utf8("auto-cancelled: not funded by deadline"@)
    }
}

/// `after` is `before` cancelled at `now` by a timer of `trigger_type`, with the
/// timer's reason; every other field is kept.
pub open spec fn closed_by_timer(before: Grant, after: Grant, trigger_type: TimerTriggerType, now: u64) -> bool {
    &&& after.status == GrantStatus::Cancelled
    &&& after.reason is Some
    &&& after.reason.unwrap()@ == closing_reason(trigger_type)
    &&& after.timestamp == now
    &&& after.id == before.id
    &&& after.owner == before.owner
    &&& after.title == before.title
    &&& after.description == before.description
    &&& after.token == before.token
    &&& after.total_amount == before.total_amount
    &&& after.milestone_amount == before.milestone_amount
    &&& after.reviewers == before.reviewers
    &&& after.total_milestones == before.total_milestones
    &&& after.milestones_paid_out == before.milestones_paid_out
    &&& after.escrow_balance == before.escrow_balance
    &&& after.funders == before.funders
}

/// Apply the effect of a firing timer to the grant as currently stored:
/// expiring and cancelling timers cancel the grant with their reason.
pub fn execute_timer_action(grant: &mut Grant, timer: &TimerRecord, now: u64)
    ensures
        closes_grant(timer.trigger_type) ==> closed_by_timer(
            *old(grant),
            *final(grant),
            timer.trigger_type,
            now,
        ),
        !closes_grant(timer.trigger_type) ==> *final(grant) == *old(grant),
{
    match timer.trigger_type {
        TimerTriggerType::AutoExpire => {
            grant.status = GrantStatus::Cancelled;
            grant.reason = Some(vstd::slice::slice_to_vec("auto-expired by timer".as_bytes()));
            grant.timestamp = now;
        },
        TimerTriggerType::AutoCancel => {
            grant.status = GrantStatus::Cancelled;
            grant.reason = Some(
                vstd::slice::slice_to_vec("auto-cancelled: not funded by deadline".as_bytes()),
            );
            grant.timestamp = now;
        },
        TimerTriggerType::AutoActivate => {},
        TimerTriggerType::AutoReleaseLockup => {},
        TimerTriggerType::CustomCallback => {},
    }
}

fn timer_is_eligible(grant: &Grant, trigger_type: TimerTriggerType) -> (ok: bool)
    ensures
        ok == timer_eligible(*grant, trigger_type),
{
    match trigger_type {
        TimerTriggerType::AutoExpire => grant.status == GrantStatus::Active
            && grant.milestones_paid_out < grant.total_milestones,
        TimerTriggerType::AutoActivate => grant.status == GrantStatus::Active
            && grant.escrow_balance >= grant.total_amount,
        TimerTriggerType::AutoCancel => grant.status == GrantStatus::Active && grant.escrow_balance
            == 0,
        TimerTriggerType::AutoReleaseLockup => grant.status == GrantStatus::Active,
        TimerTriggerType::CustomCallback => true,
    }
}

/// The timers after triggering: those that fire are marked fired at `now` by
/// `caller`, the others are kept.
pub open spec fn fire_all(
    timers: Seq<TimerRecord>,
    grant: Grant,
    grant_id: u64,
    now: u64,
    caller: Address,
) -> Seq<TimerRecord> {
    Seq::new(
        timers.len(),
        |i: int|
            if fires(timers[i], grant, grant_id, now) {
                fired_timer(timers[i], now, caller)
            } else {
                timers[i]
            },
    )
}

/// The grant that closing timers act on, once the timers of a grant read as
/// `grant` have fired.
pub open spec fn acted_on_after(
    target: Grant,
    after: Grant,
    timers: Seq<TimerRecord>,
    grant: Grant,
    grant_id: u64,
    now: u64,
) -> bool {
    match last_closing(timers, grant, grant_id, now) {
        None => after == target,
        Some(t) => closed_by_timer(target, after, t, now),
    }
}

fn act_on(target: Option<Grant>, timer: &TimerRecord, now: u64) -> (result: Option<Grant>)
    ensures
        target is None ==> result is None,
        target matches Some(t) ==> (result matches Some(r) && (closes_grant(timer.trigger_type)
            ==> closed_by_timer(t, r, timer.trigger_type, now)) && (!closes_grant(
            timer.trigger_type,
        ) ==> r == t)),
{
    match target {
        Some(mut t) => {
            execute_timer_action(&mut t, timer, now);
            Some(t)
        },
        None => None,
    }
}

/// Attempt to fire all eligible timers for a grant. Anyone can call.
/// `grant` is the grant stored under `grant_id`, read once: eligibility is
/// judged on it. `target` is the grant stored under `grant`'s own id, which
/// expiring and cancelling timers act on (the same record whenever grants
/// are stored under their own id). Returns the number of timers fired and
/// `target` as it is to be stored.
pub fn trigger_timers(
    grant: Option<&Grant>,
    target: Option<Grant>,
    timers: &mut Vec<TimerRecord>,
    caller: Address,
    grant_id: u64,
    now: u64,
) -> (result: (u32, Option<Grant>))
    requires
        old(timers)@.len() <= u32::MAX,
    ensures
        grant is None ==> result.0 == 0 && result.1 == target && final(timers)@ == old(timers)@,
        grant matches Some(g) ==> {
            &&& final(timers)@ == fire_all(old(timers)@, *g, grant_id, now, caller)
            &&& result.0 == count_firing(old(timers)@, *g, grant_id, now)
            &&& target is None ==> result.1 is None
            &&& target matches Some(t) ==> (result.1 matches Some(r) && acted_on_after(
                t,
                r,
                old(timers)@,
                *g,
                grant_id,
                now,
            ))
        },
        at_most_one_pending_per_type(old(timers)@) ==> at_most_one_pending_per_type(final(timers)@),
{
    let g = match grant {
        Some(g) => g,
        None => return (0, target),
    };
    let ghost t0 = target;
    let ghost before = timers@;
    let mut current = target;
    let n = timers.len();
    let mut fired_count: u32 = 0;
    let mut i: usize = 0;
    while i < n
        invariant
            n == before.len(),
            n <= u32::MAX,
            timers@.len() == n,
            i <= n,
            forall|j: int|
                0 <= j < i ==> #[trigger] timers@[j] == if fires(before[j], *g, grant_id, now) {
                    fired_timer(before[j], now, caller)
                } else {
                    before[j]
                },
            forall|j: int| i <= j < n ==> #[trigger] timers@[j] == before[j],
            fired_count == count_firing(before.take(i as int), *g, grant_id, now),
            fired_count <= i,
            t0 is None ==> current is None,
            t0 matches Some(t) ==> (current matches Some(c) && acted_on_after(
                t,
                c,
                before.take(i as int),
                *g,
                grant_id,
                now,
            )),
        decreases n - i,
    {
        assert(before.take(i + 1).drop_last() =~= before.take(i as int));
        assert(before.take(i + 1).last() == before[i as int]);
        let timer = timers[i];
        let ok = timer_is_eligible(g, timer.trigger_type);
        if !timer.fired && timer.grant_id == grant_id && now >= timer.fires_at && ok {
            current = act_on(current, &timer, now);
            let updated = TimerRecord {
                fired: true,
                fired_at: Some(now),
                triggered_by: Some(caller),
                ..timer
            };
            timers.set(i, updated);
            fired_count += 1;
        }
        i += 1;
    }
    assert(before.take(n as int) =~= before);
    assert(timers@ =~= fire_all(before, *g, grant_id, now, caller));
    proof {
        if at_most_one_pending_per_type(before) {
            assert forall|a: int, b: int|
                0 <= a < timers@.len() && 0 <= b < timers@.len() && a != b && !timers@[a].fired
                    && !timers@[b].fired implies #[trigger] timers@[a].trigger_type
                != #[trigger] timers@[b].trigger_type by {
                assert(timers@[a] == before[a] || timers@[a].fired);
                assert(timers@[b] == before[b] || timers@[b].fired);
                assert(before[a].trigger_type != before[b].trigger_type);
            }
        }
    }
    (fired_count, current)
}

proof fn lemma_none_fire_counts_zero(timers: Seq<TimerRecord>, grant: Grant, grant_id: u64, now: u64)
    requires
        forall|i: int| 0 <= i < timers.len() ==> !fires(#[trigger] timers[i], grant, grant_id, now),
    ensures
        count_firing(timers, grant, grant_id, now) == 0,
    decreases timers.len(),
{
    if timers.len() > 0 {
        let init = timers.drop_last();
        assert forall|i: int| 0 <= i < init.len() implies !fires(#[trigger] init[i], grant, grant_id, now) by {
            assert(init[i] == timers[i]);
        }
        lemma_none_fire_counts_zero(init, grant, grant_id, now);
    }
}

/// Triggering a grant's timers again at the same time fires nothing and
/// changes no timer, whether the grant is read as it was or as the closing
/// timers of the first round left it.
pub proof fn lemma_trigger_again_fires_nothing(
    timers: Seq<TimerRecord>,
    grant: Grant,
    grant_id: u64,
    now: u64,
    caller: Address,
    later_caller: Address,
    later_grant: Grant,
    closing: TimerTriggerType,
)
    requires
        later_grant == grant || closed_by_timer(grant, later_grant, closing, now),
    ensures
        ({
            let after = fire_all(timers, grant, grant_id, now, caller);
            &&& count_firing(after, later_grant, grant_id, now) == 0
            &&& fire_all(after, later_grant, grant_id, now, later_caller) == after
        }),
{
    let after = fire_all(timers, grant, grant_id, now, caller);
    assert forall|i: int| 0 <= i < after.len() implies !fires(#[trigger] after[i], later_grant, grant_id, now) by {
        if !fires(timers[i], grant, grant_id, now) {
            assert(after[i] == timers[i]);
            if later_grant != grant {
                assert(timer_eligible(grant, TimerTriggerType::CustomCallback));
            }
        }
    }
    lemma_none_fire_counts_zero(after, later_grant, grant_id, now);
    assert(fire_all(after, later_grant, grant_id, now, later_caller) =~= after);
}

/// Return only unfired, eligible (past fires_at) timers.
pub fn pending_timers(timers: &Vec<TimerRecord>, now: u64) -> (pending: Vec<TimerRecord>)
    ensures
        pending@ == timers@.filter(|t: TimerRecord| !t.fired && now >= t.fires_at),
{
    let ghost due = |t: TimerRecord| !t.fired && now >= t.fires_at;
    let mut pending: Vec<TimerRecord> = Vec::new();
    let n = timers.len();
    let mut i: usize = 0;
    while i < n
        invariant
            n == timers@.len(),
            i <= n,
            due == (|t: TimerRecord| !t.fired && now >= t.fires_at),
            pending@ == timers@.take(i as int).filter(due),
        decreases n - i,
    {
        assert(timers@.take(i + 1).drop_last() =~= timers@.take(i as int));
        assert(timers@.take(i + 1).last() == timers@[i as int]);
        let timer = timers[i];
        if !timer.fired && now >= timer.fires_at {
            pending.push(timer);
        }
        assert(pending@ == timers@.take(i + 1).filter(due)) by {
            reveal_with_fuel(Seq::<TimerRecord>::filter, 1);
        }
        i += 1;
    }
    assert(timers@.take(n as int) =~= timers@);
    pending
}

/// The first unfired timer of this trigger type, if there is one.
pub open spec fn is_first_pending(timers: Seq<TimerRecord>, trigger_type: TimerTriggerType, i: int) -> bool {
    &&& 0 <= i < timers.len()
    &&& is_pending_of(timers[i], trigger_type)
    &&& forall|j: int| 0 <= j < i ==> !is_pending_of(#[trigger] timers[j], trigger_type)
}

/// Cancel a timer (owner or admin only): removes the first unfired timer of
/// the given trigger type from `timers`.
pub fn cancel_timer(
    grant: Option<&Grant>,
    global_admin: Option<Address>,
    caller: Address,
    timers: &mut Vec<TimerRecord>,
    trigger_type: TimerTriggerType,
) -> (result: Result<(), ContractError>)
    ensures
        grant is None ==> result == Err::<(), ContractError>(ContractError::GrantNotFound),
        grant matches Some(g) && !may_manage_timers(*g, global_admin, caller) ==> result == Err::<
            (),
            ContractError,
        >(ContractError::Unauthorized),
        grant matches Some(g) && may_manage_timers(*g, global_admin, caller) && !has_pending(
            old(timers)@,
            trigger_type,
        ) ==> result == Err::<(), ContractError>(ContractError::TimerNotFound),
        grant matches Some(g) && may_manage_timers(*g, global_admin, caller) && has_pending(
            old(timers)@,
            trigger_type,
        ) ==> result is Ok,
        result is Err ==> final(timers)@ == old(timers)@,
        result is Ok ==> exists|i: int|
            is_first_pending(old(timers)@, trigger_type, i) && final(timers)@ == old(timers)@.remove(i),
        at_most_one_pending_per_type(old(timers)@) ==> at_most_one_pending_per_type(final(timers)@),
{
    let g = match grant {
        Some(g) => g,
        None => return Err(ContractError::GrantNotFound),
    };
    if !may_manage(g, global_admin, caller) {
        return Err(ContractError::Unauthorized);
    }
    let ghost before = timers@;
    let n = timers.len();
    let mut i: usize = 0;
    while i < n
        invariant
            n == timers.len(),
            timers@ == before,
            before == old(timers)@,
            opt_deref(grant) == Some(*g),
            may_manage_timers(*g, global_admin, caller),
            i <= n,
            forall|j: int| 0 <= j < i ==> !is_pending_of(#[trigger] timers@[j], trigger_type),
        decreases n - i,
    {
        if timers[i].trigger_type == trigger_type && !timers[i].fired {
            timers.remove(i);
            assert(is_first_pending(before, trigger_type, i as int));
            proof {
                if at_most_one_pending_per_type(before) {
                    assert forall|a: int, b: int|
                        0 <= a < timers@.len() && 0 <= b < timers@.len() && a != b
                            && !timers@[a].fired && !timers@[b].fired implies #[trigger] timers@[a].trigger_type
                        != #[trigger] timers@[b].trigger_type by {
                        let a0 = if a < i { a } else { a + 1 };
                        let b0 = if b < i { b } else { b + 1 };
                        assert(timers@[a] == before[a0]);
                        assert(timers@[b] == before[b0]);
                    }
                }
            }
            return Ok(());
        }
        i += 1;
    }
    assert forall|j: int| 0 <= j < before.len() implies !is_pending_of(#[trigger] before[j], trigger_type) by {
        assert(!is_pending_of(timers@[j], trigger_type));
    }
    Err(ContractError::TimerNotFound)
}

/// On a grant that is not active only custom callbacks may fire: every other
/// kind of timer needs an active grant. So triggering the timers of a grant
/// read as completed or cancelled fires no expiring or cancelling timer,
/// changes no other timer, and leaves the grant it would act on as it was.
pub proof fn lemma_inactive_grant_only_fires_callbacks(
    timers: Seq<TimerRecord>,
    grant: Grant,
    grant_id: u64,
    now: u64,
    caller: Address,
    target: Grant,
    after: Grant,
)
    requires
        grant.status != GrantStatus::Active,
    ensures
        forall|t: TimerTriggerType| t != TimerTriggerType::CustomCallback ==> !#[trigger] timer_eligible(grant, t),
        forall|i: int|
            0 <= i < timers.len() && #[trigger] fire_all(timers, grant, grant_id, now, caller)[i] != timers[i]
                ==> timers[i].trigger_type == TimerTriggerType::CustomCallback,
        last_closing(timers, grant, grant_id, now) is None,
        acted_on_after(target, after, timers, grant, grant_id, now) ==> after == target,
    decreases timers.len(),
{
    if timers.len() > 0 {
        lemma_inactive_grant_only_fires_callbacks(
            timers.drop_last(),
            grant,
            grant_id,
            now,
            caller,
            target,
            after,
        );
    }
}

/// Triggering touches only due, unfired timers of the grant: a timer that
/// changes was not fired before, belongs to `grant_id` and was due at `now`,
/// and it is marked fired at `now` by `caller`; every other timer is kept.
pub proof fn lemma_trigger_fires_only_due_timers(
    timers: Seq<TimerRecord>,
    grant: Grant,
    grant_id: u64,
    now: u64,
    caller: Address,
)
    ensures
        fire_all(timers, grant, grant_id, now, caller).len() == timers.len(),
        forall|i: int|
            0 <= i < timers.len() && #[trigger] fire_all(timers, grant, grant_id, now, caller)[i] != timers[i]
                ==> {
                &&& !timers[i].fired
                &&& timers[i].grant_id == grant_id
                &&& now >= timers[i].fires_at
                &&& fire_all(timers, grant, grant_id, now, caller)[i].fired
                &&& fire_all(timers, grant, grant_id, now, caller)[i].fired_at == Some(now)
                &&& fire_all(timers, grant, grant_id, now, caller)[i].triggered_by == Some(caller)
            },
{
}

} // verus!
