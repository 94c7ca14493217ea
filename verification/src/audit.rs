use vstd::prelude::*;

use crate::types::Address;

verus! {

/// What an audit entry records.
#[derive(Clone, Copy, Debug, PartialEq, Eq, Structural)]
pub enum AuditAction {
    GrantCreated,
    GrantFunded,
    GrantCancelled,
    GrantCompleted,
    MilestoneSubmitted,
    MilestoneApproved,
    MilestoneRejected,
    FundsReleased,
    RefundIssued,
}

/// One entry of a grant's audit log.
#[derive(Clone, Copy, Debug, PartialEq, Eq, Structural)]
pub struct AuditEntry {
    pub action: AuditAction,
    pub actor: Address,
    pub grant_id: u64,
    pub milestone_idx: Option<u32>,
    pub amount: Option<i128>,
    pub timestamp: u64,
    pub ledger_sequence: u32,
}

/// Append a new audit entry to the grant's log, stamped with the ledger's
/// time and sequence.
pub fn log(
    entries: &mut Vec<AuditEntry>,
    grant_id: u64,
    action: AuditAction,
    actor: Address,
    milestone_idx: Option<u32>,
    amount: Option<i128>,
    timestamp: u64,
    ledger_sequence: u32,
)
    ensures
        final(entries)@ == old(entries)@.push(
            AuditEntry { action, actor, grant_id, milestone_idx, amount, timestamp, ledger_sequence },
        ),
{
    let entry = AuditEntry { action, actor, grant_id, milestone_idx, amount, timestamp, ledger_sequence };
    entries.push(entry);
}

/// The last `n` entries of a log (all of it when it is shorter), oldest first.
pub open spec fn last_entries(entries: Seq<AuditEntry>, n: u32) -> Seq<AuditEntry> {
    let k = if entries.len() > n { n as int } else { entries.len() as int };
    entries.subrange(entries.len() - k, entries.len() as int)
}

/// Return the last N entries from the audit log, oldest first.
pub fn get_recent(entries: &Vec<AuditEntry>, n: u32) -> (recent: Vec<AuditEntry>)
    ensures
        recent@ == last_entries(entries@, n),
{
    let len = entries.len();
    let start: usize = if len > n as usize {
        len - n as usize
    } else {
        0
    };
    let mut recent: Vec<AuditEntry> = Vec::new();
    let mut i: usize = start;
    while i < len
        invariant
            len == entries@.len(),
            start <= i <= len,
            start == len - (if entries@.len() > n { n as int } else { entries@.len() as int }),
            recent@ =~= entries@.subrange(start as int, i as int),
        decreases len - i,
    {
        recent.push(entries[i]);
        i += 1;
    }
    recent
}

/// Return the count of audit entries for a grant.
pub fn log_length(entries: &Vec<AuditEntry>) -> (count: u32)
    requires
        entries@.len() <= u32::MAX,
    ensures
        count == entries@.len(),
{
    entries.len() as u32
}

} // verus!
