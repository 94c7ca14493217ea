use vstd::prelude::*;

use crate::types::{opt_deref, Address, ContractError, Grant};

verus! {

#[derive(Clone, Copy, Debug, PartialEq, Eq, Structural)]
pub enum LockupStatus {
    Active,
    Released,
    Revoked,
}

/// A lockup that holds a milestone payout until `unlocks_at`. Its token is
/// the grant's when the grant is known, and the payout's once one is locked.
#[derive(Clone, Copy, Debug, PartialEq, Eq, Structural)]
pub struct LockupRecord {
    pub grant_id: u64,
    pub milestone_idx: u32,
    pub holder: Address,
    pub token: Option<Address>,
    pub amount: i128,
    pub unlocks_at: u64,
    pub unlocks_at_ledger: u32,
    pub status: LockupStatus,
    pub locked_at: u64,
    pub released_at: Option<u64>,
}

/// The storage key under which the lockup of a milestone is kept.
#[derive(Clone, Copy, Debug, PartialEq, Eq, Structural)]
pub enum DataKey {
    Lockup(u64, u32),
}

pub fn get_lockup_key(grant_id: u64, milestone_idx: u32) -> (key: DataKey)
    ensures
        key == DataKey::Lockup(grant_id, milestone_idx),
{
    DataKey::Lockup(grant_id, milestone_idx)
}

/// The outcome of attaching a lockup of `duration` seconds to a milestone at
/// time `now`, given the grant and the lockup already stored for it. When the
/// grant is stored, only its owner may attach a lockup, which then carries
/// the grant's token; with no grant stored the lockup carries no token yet.
pub open spec fn attach_lockup_outcome(
    grant: Option<Grant>,
    existing: Option<LockupRecord>,
    owner: Address,
    grant_id: u64,
    milestone_idx: u32,
    duration: u64,
    now: u64,
) -> Result<LockupRecord, ContractError> {
    if grant matches Some(g) && g.owner != owner {
        Err(ContractError::Unauthorized)
    } else if existing is Some {
        Err(ContractError::LockupAlreadyExists)
    } else if now + duration > u64::MAX {
        Err(ContractError::InvalidInput)
    } else {
        Ok(LockupRecord {
            grant_id,
            milestone_idx,
            holder: owner,
            token: match grant {
                Some(g) => Some(g.token),
                None => None,
            },
            amount: 0,
            unlocks_at: (now + duration) as u64,
            unlocks_at_ledger: 0,
            status: LockupStatus::Active,
            locked_at: 0,
            released_at: None,
        })
    }
}

/// Attach a lockup to a milestone, once per milestone; when the grant is
/// stored, only its owner may. Returns the record to store.
pub fn attach_lockup(
    grant: Option<&Grant>,
    existing: Option<&LockupRecord>,
    owner: Address,
    grant_id: u64,
    milestone_idx: u32,
    lockup_duration_seconds: u64,
    now: u64,
) -> (result: Result<LockupRecord, ContractError>)
    ensures
        result == attach_lockup_outcome(
            opt_deref(grant),
            opt_deref(existing),
            owner,
            grant_id,
            milestone_idx,
            lockup_duration_seconds,
            now,
        ),
{
    let token = match grant {
        Some(g) => {
            if g.owner != owner {
                return Err(ContractError::Unauthorized);
            }
            Some(g.token)
        },
        None => None,
    };
    if existing.is_some() {
        return Err(ContractError::LockupAlreadyExists);
    }
    let unlocks_at = match now.checked_add(lockup_duration_seconds) {
        Some(t) => t,
        None => return Err(ContractError::InvalidInput),
    };
    Ok(LockupRecord {
        grant_id,
        milestone_idx,
        holder: owner,
        token,
        amount: 0,
        unlocks_at,
        unlocks_at_ledger: 0,
        status: LockupStatus::Active,
        locked_at: 0,
        released_at: None,
    })
}

/// The ledger at which a lockup is expected to open: one ledger per five
/// seconds of the remaining time (taken modulo 2^32), added to the current
/// sequence and capped at `u32::MAX`.
pub open spec fn unlock_ledger(ledger_sequence: u32, remaining: u64) -> u32 {
    let steps = (remaining % 0x1_0000_0000) / 5;
    if ledger_sequence + steps > u32::MAX {
        u32::MAX
    } else {
        (ledger_sequence + steps) as u32
    }
}

pub open spec fn lock_payout_outcome(
    record: Option<LockupRecord>,
    holder: Address,
    token: Address,
    amount: i128,
    now: u64,
    ledger_sequence: u32,
) -> Result<LockupRecord, ContractError> {
    match record {
        None => Err(ContractError::LockupNotFound),
        Some(r) => if r.status != LockupStatus::Active {
            Err(ContractError::InvalidState)
        } else {
            Ok(LockupRecord {
                holder,
                token: Some(token),
                amount,
                locked_at: now,
                unlocks_at_ledger: unlock_ledger(ledger_sequence, (r.unlocks_at - now) as u64),
                ..r
            })
        },
    }
}

/// Put a payout into an active lockup. Returns the record to store.
pub fn lock_payout(
    record: Option<LockupRecord>,
    holder: Address,
    token: Address,
    amount: i128,
    now: u64,
    ledger_sequence: u32,
) -> (result: Result<LockupRecord, ContractError>)
    requires
        record matches Some(r) ==> (r.status == LockupStatus::Active ==> now <= r.unlocks_at),
    ensures
        result == lock_payout_outcome(record, holder, token, amount, now, ledger_sequence),
{
    let mut r = match record {
        Some(r) => r,
        None => return Err(ContractError::LockupNotFound),
    };
    if r.status != LockupStatus::Active {
        return Err(ContractError::InvalidState);
    }
    r.holder = holder;
    r.token = Some(token);
    r.amount = amount;
    r.locked_at = now;
    let remaining: u64 = r.unlocks_at - now;
    let truncated: u32 = remaining as u32;
    assert(truncated == remaining % 0x1_0000_0000) by (bit_vector)
        requires
            truncated == remaining as u32,
    ;
    r.unlocks_at_ledger = match ledger_sequence.checked_add(truncated / 5) {
        Some(l) => l,
        None => u32::MAX,
    };
    Ok(r)
}

pub open spec fn release_outcome(record: Option<LockupRecord>, holder: Address, now: u64) -> Result<
    (LockupRecord, i128),
    ContractError,
> {
    match record {
        None => Err(ContractError::LockupNotFound),
        Some(r) => if r.status != LockupStatus::Active {
            Err(ContractError::LockupAlreadyReleased)
        } else if r.holder != holder {
            Err(ContractError::Unauthorized)
        } else if now < r.unlocks_at {
            Err(ContractError::NotYetUnlocked)
        } else {
            Ok((LockupRecord { status: LockupStatus::Released, released_at: Some(now), ..r }, r.amount))
        },
    }
}

/// Release an unlocked lockup to its holder. Returns the record to store and
/// the amount released.
pub fn release(record: Option<LockupRecord>, holder: Address, now: u64) -> (result: Result<
    (LockupRecord, i128),
    ContractError,
>)
    ensures
        result == release_outcome(record, holder, now),
{
    let mut r = match record {
        Some(r) => r,
        None => return Err(ContractError::LockupNotFound),
    };
    if r.status != LockupStatus::Active {
        return Err(ContractError::LockupAlreadyReleased);
    }
    if r.holder != holder {
        return Err(ContractError::Unauthorized);
    }
    if now < r.unlocks_at {
        return Err(ContractError::NotYetUnlocked);
    }
    let amount = r.amount;
    r.status = LockupStatus::Released;
    r.released_at = Some(now);
    Ok((r, amount))
}

/// Whether the lockup of a milestone exists, is still active and has reached
/// its unlock time.
pub fn is_unlocked(record: Option<&LockupRecord>, now: u64) -> (unlocked: bool)
    ensures
        unlocked == (record matches Some(r) && r.status == LockupStatus::Active && now
            >= r.unlocks_at),
{
    match record {
        Some(r) => r.status == LockupStatus::Active && now >= r.unlocks_at,
        None => false,
    }
}

pub open spec fn revoke_outcome(
    global_admin: Option<Address>,
    record: Option<LockupRecord>,
    admin: Address,
    now: u64,
) -> Result<LockupRecord, ContractError> {
    if global_admin matches Some(a) && a != admin {
        Err(ContractError::LockupRevocationUnauthorized)
    } else {
        match record {
            None => Err(ContractError::LockupNotFound),
            Some(r) => if r.status != LockupStatus::Active {
                Err(ContractError::LockupAlreadyRevoked)
            } else {
                Ok(LockupRecord { status: LockupStatus::Revoked, released_at: Some(now), ..r })
            },
        }
    }
}

/// Revoke an active lockup; when a global admin is set, only it may.
/// Returns the record to store.
pub fn revoke(global_admin: Option<Address>, record: Option<LockupRecord>, admin: Address, now: u64) -> (result: Result<LockupRecord, ContractError>)
    ensures
        result == revoke_outcome(global_admin, record, admin, now),
{
    if let Some(a) = global_admin {
        if a != admin {
            return Err(ContractError::LockupRevocationUnauthorized);
        }
    }
    let mut r = match record {
        Some(r) => r,
        None => return Err(ContractError::LockupNotFound),
    };
    if r.status != LockupStatus::Active {
        return Err(ContractError::LockupAlreadyRevoked);
    }
    r.status = LockupStatus::Revoked;
    r.released_at = Some(now);
    Ok(r)
}

/// A lockup that is no longer active is settled for good: no payout can be
/// put into it, it cannot be released, and it cannot be revoked.
pub proof fn lemma_settled_lockup_is_final(
    record: LockupRecord,
    holder: Address,
    token: Address,
    amount: i128,
    admin: Address,
    now: u64,
    ledger_sequence: u32,
)
    requires
        record.status != LockupStatus::Active,
    ensures
        lock_payout_outcome(Some(record), holder, token, amount, now, ledger_sequence) == Err::<
            LockupRecord,
            ContractError,
        >(ContractError::InvalidState),
        release_outcome(Some(record), holder, now) == Err::<(LockupRecord, i128), ContractError>(
            ContractError::LockupAlreadyReleased,
        ),
        revoke_outcome(Some(admin), Some(record), admin, now) == Err::<LockupRecord, ContractError>(
            ContractError::LockupAlreadyRevoked,
        ),
{
}

/// What a payout locks is what its holder gets back: once the unlock time has
/// come, releasing a freshly locked payout hands the holder the locked amount
/// and settles the lockup as released.
pub proof fn lemma_release_returns_locked_amount(
    record: LockupRecord,
    holder: Address,
    token: Address,
    amount: i128,
    locked_now: u64,
    ledger_sequence: u32,
    release_now: u64,
)
    requires
        record.status == LockupStatus::Active,
        release_now >= record.unlocks_at,
    ensures
        ({
            let locked = lock_payout_outcome(
                Some(record),
                holder,
                token,
                amount,
                locked_now,
                ledger_sequence,
            )->Ok_0;
            release_outcome(Some(locked), holder, release_now) == Ok::<
                (LockupRecord, i128),
                ContractError,
            >(
                (
                    LockupRecord {
                        status: LockupStatus::Released,
                        released_at: Some(release_now),
                        ..locked
                    },
                    amount,
                ),
            )
        }),
{
}

/// A lockup can be released only once.
pub proof fn lemma_release_only_once(record: LockupRecord, holder: Address, now: u64, other: Address, later: u64)
    requires
        release_outcome(Some(record), holder, now) is Ok,
    ensures
        release_outcome(Some(release_outcome(Some(record), holder, now)->Ok_0.0), other, later)
            == Err::<(LockupRecord, i128), ContractError>(ContractError::LockupAlreadyReleased),
{
}

/// Nothing is released before its unlock time: releasing an active lockup to
/// its holder before `unlocks_at` is refused as not yet unlocked, and any
/// release that succeeds happens at or after `unlocks_at`, pays the locked
/// amount and settles the lockup as released at that time.
pub proof fn lemma_no_release_before_unlock(record: LockupRecord, holder: Address, now: u64)
    ensures
        now < record.unlocks_at ==> release_outcome(Some(record), holder, now) is Err,
        now < record.unlocks_at && record.status == LockupStatus::Active && record.holder == holder
            ==> release_outcome(Some(record), holder, now) == Err::<(LockupRecord, i128), ContractError>(
            ContractError::NotYetUnlocked,
        ),
        release_outcome(Some(record), holder, now) matches Ok((released, amount)) ==> {
            &&& now >= record.unlocks_at
            &&& record.status == LockupStatus::Active
            &&& record.holder == holder
            &&& amount == record.amount
            &&& released.status == LockupStatus::Released
            &&& released.released_at == Some(now)
        },
{
}

} // verus!
