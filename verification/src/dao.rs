use vstd::prelude::*;

use crate::constants::{MAX_DAO_DESCRIPTION_LEN, MAX_DAO_TITLE_LEN};
use crate::types::{Address, ContractError};

verus! {

#[derive(Clone, Copy, Debug, PartialEq, Eq, Structural)]
pub enum DaoProposalStatus {
    Active,
    Passed,
    Rejected,
    Executed,
    Cancelled,
}

/// What a proposal does once it has passed and is executed.
#[derive(Clone, Debug, PartialEq, Eq)]
pub enum DaoProposalType {
    /// Replace the protocol configuration with the one encoded in these bytes.
    UpdateConfig(Vec<u8>),
    /// Hand the global admin role to this address.
    ChangeAdmin(Address),
    /// Withdraw `amount` of `token` from the treasury to `to`: (token, to, amount).
    TreasuryWithdrawal(Address, Address, i128),
    Generic,
}

#[derive(Clone, Debug, PartialEq, Eq)]
pub struct DaoProposal {
    pub id: u64,
    pub proposer: Address,
    pub title: Vec<u8>,
    pub description: Vec<u8>,
    pub proposal_type: DaoProposalType,
    pub status: DaoProposalStatus,
    pub votes_for: u64,
    pub votes_against: u64,
    pub created_at: u64,
    pub voting_deadline: u64,
    pub executed_at: Option<u64>,
}

/// The on-chain effect that executing a passed proposal calls for.
#[derive(Clone, Debug, PartialEq, Eq)]
pub enum DaoEffect {
    /// Store the encoded protocol configuration that the proposal carries;
    /// it has been found valid.
    UpdateConfig,
    /// Store this address as the global admin.
    ChangeAdmin(Address),
    /// Withdraw from the treasury on behalf of `admin`.
    TreasuryWithdrawal { admin: Address, token: Address, to: Address, amount: i128 },
    Nothing,
}

pub open spec fn saturating_add_u64(a: u64, b: u64) -> u64 {
    if a + b > u64::MAX { u64::MAX } else { (a + b) as u64 }
}

/// Succeeds exactly when `caller` is the configured global admin.
pub fn require_global_admin(global_admin: Option<Address>, caller: Address) -> (result: Result<(), ContractError>)
    ensures
        result == (if global_admin == Some(caller) {
            Ok(())
        } else {
            Err(ContractError::Unauthorized)
        }),
{
    match global_admin {
        Some(admin) => if admin != caller {
            Err(ContractError::Unauthorized)
        } else {
            Ok(())
        },
        None => Err(ContractError::Unauthorized),
    }
}

/// Enable or disable DAO governance mode. While enabled, protocol-level
/// config/admin changes must be routed through a passed-and-executed
/// proposal rather than applied directly by the global admin.
/// Returns the flag to store.
pub fn set_dao_mode(global_admin: Option<Address>, admin: Address, enabled: bool) -> (result: Result<bool, ContractError>)
    ensures
        result == (if global_admin == Some(admin) {
            Ok(enabled)
        } else {
            Err(ContractError::Unauthorized)
        }),
{
    require_global_admin(global_admin, admin)?;
    Ok(enabled)
}

/// Whether DAO mode is on, given the stored flag; a flag never stored means off.
pub fn is_dao_mode_enabled(stored: Option<bool>) -> (enabled: bool)
    ensures
        enabled == (stored == Some(true)),
{
    match stored {
        Some(flag) => flag,
        None => false,
    }
}

/// Configure the voting period (in ledgers) applied to newly created proposals.
/// Returns the period to store.
pub fn set_voting_period(global_admin: Option<Address>, admin: Address, ledgers: u32) -> (result: Result<u32, ContractError>)
    ensures
        result == (if global_admin != Some(admin) {
            Err(ContractError::Unauthorized)
        } else if ledgers == 0 {
            Err(ContractError::InvalidInput)
        } else {
            Ok(ledgers)
        }),
{
    require_global_admin(global_admin, admin)?;
    if ledgers == 0 {
        return Err(ContractError::InvalidInput);
    }
    Ok(ledgers)
}

/// Configure the minimum total vote weight (for + against) required before a
/// proposal can be finalized. Returns the quorum to store.
pub fn set_quorum_votes(global_admin: Option<Address>, admin: Address, quorum: u64) -> (result: Result<u64, ContractError>)
    ensures
        result == (if global_admin != Some(admin) {
            Err(ContractError::Unauthorized)
        } else if quorum == 0 {
            Err(ContractError::InvalidInput)
        } else {
            Ok(quorum)
        }),
{
    require_global_admin(global_admin, admin)?;
    if quorum == 0 {
        return Err(ContractError::InvalidInput);
    }
    Ok(quorum)
}

/// Whether a proposal's title and description are acceptable: a non-empty
/// title of at most `MAX_DAO_TITLE_LEN` bytes and a description of at most
/// `MAX_DAO_DESCRIPTION_LEN` bytes.
pub open spec fn valid_proposal_text(title: Seq<u8>, description: Seq<u8>) -> bool {
    &&& title.len() != 0
    &&& title.len() <= MAX_DAO_TITLE_LEN
    &&& description.len() <= MAX_DAO_DESCRIPTION_LEN
}

/// Submit a new governance proposal under the identifier `id` drawn for it.
/// Returns the proposal to store, active and without votes, whose voting
/// closes `voting_period` after `now`.
pub fn create_proposal(
    proposer: Address,
    title: Vec<u8>,
    description: Vec<u8>,
    proposal_type: DaoProposalType,
    id: u64,
    voting_period: u32,
    now: u64,
) -> (result: Result<DaoProposal, ContractError>)
    ensures
        result == (if valid_proposal_text(title@, description@) {
            Ok(DaoProposal {
                id,
                proposer,
                title,
                description,
                proposal_type,
                status: DaoProposalStatus::Active,
                votes_for: 0,
                votes_against: 0,
                created_at: now,
                voting_deadline: saturating_add_u64(now, voting_period as u64),
                executed_at: None,
            })
        } else {
            Err(ContractError::InvalidInput)
        }),
{
    let title_len = title.len();
    if title_len == 0 || title_len > MAX_DAO_TITLE_LEN as usize {
        return Err(ContractError::InvalidInput);
    }
    if description.len() > MAX_DAO_DESCRIPTION_LEN as usize {
        return Err(ContractError::InvalidInput);
    }
    let voting_deadline = now.saturating_add(voting_period as u64);
    Ok(DaoProposal {
        id,
        proposer,
        title,
        description,
        proposal_type,
        status: DaoProposalStatus::Active,
        votes_for: 0,
        votes_against: 0,
        created_at: now,
        voting_deadline,
        executed_at: None,
    })
}

/// Why a vote on this proposal is refused, if it is.
pub open spec fn vote_refusal(proposal: Option<DaoProposal>, already_voted: bool, now: u64) -> Option<
    ContractError,
> {
    match proposal {
        None => Some(ContractError::DaoProposalNotFound),
        Some(p) => if p.status != DaoProposalStatus::Active {
            Some(ContractError::DaoProposalNotActive)
        } else if now > p.voting_deadline {
            Some(ContractError::DaoProposalVotingClosed)
        } else if already_voted {
            Some(ContractError::AlreadyVoted)
        } else {
            None
        },
    }
}

/// The proposal after a vote of `weight` for (`support`) or against it.
pub open spec fn voted(p: DaoProposal, weight: u64, support: bool) -> DaoProposal {
    if support {
        DaoProposal { votes_for: saturating_add_u64(p.votes_for, weight), ..p }
    } else {
        DaoProposal { votes_against: saturating_add_u64(p.votes_against, weight), ..p }
    }
}

/// Cast a reputation-weighted vote on an active proposal: `weight` is the
/// voter's reputation and `already_voted` whether this voter has voted on the
/// proposal before. One vote per address. Returns the proposal to store.
pub fn vote(proposal: Option<DaoProposal>, already_voted: bool, weight: u64, support: bool, now: u64) -> (result: Result<DaoProposal, ContractError>)
    ensures
        result == (match vote_refusal(proposal, already_voted, now) {
            Some(e) => Err(e),
            None => Ok(voted(proposal.unwrap(), weight, support)),
        }),
{
    let mut p = match proposal {
        Some(p) => p,
        None => return Err(ContractError::DaoProposalNotFound),
    };
    if p.status != DaoProposalStatus::Active {
        return Err(ContractError::DaoProposalNotActive);
    }
    if now > p.voting_deadline {
        return Err(ContractError::DaoProposalVotingClosed);
    }
    if already_voted {
        return Err(ContractError::AlreadyVoted);
    }
    if support {
        p.votes_for = p.votes_for.saturating_add(weight);
    } else {
        p.votes_against = p.votes_against.saturating_add(weight);
    }
    Ok(p)
}

/// Why finalizing this proposal is refused, if it is.
pub open spec fn finalize_refusal(proposal: Option<DaoProposal>, quorum: u64, now: u64) -> Option<
    ContractError,
> {
    match proposal {
        None => Some(ContractError::DaoProposalNotFound),
        Some(p) => if p.status != DaoProposalStatus::Active {
            Some(ContractError::DaoProposalNotActive)
        } else if now <= p.voting_deadline {
            Some(ContractError::DaoProposalVotingClosed)
        } else if saturating_add_u64(p.votes_for, p.votes_against) < quorum {
            Some(ContractError::DaoProposalQuorumNotReached)
        } else {
            None
        },
    }
}

/// The proposal once its vote is counted: passed on a strict majority for it,
/// rejected otherwise.
pub open spec fn finalized(p: DaoProposal) -> DaoProposal {
    DaoProposal {
        status: if p.votes_for > p.votes_against {
            DaoProposalStatus::Passed
        } else {
            DaoProposalStatus::Rejected
        },
        ..p
    }
}

/// Finalize a proposal once its voting deadline has passed: marks it Passed
/// or Rejected based on simple majority, provided quorum was met.
/// Returns the proposal to store; its status is the outcome.
pub fn finalize(proposal: Option<DaoProposal>, quorum: u64, now: u64) -> (result: Result<DaoProposal, ContractError>)
    ensures
        result == (match finalize_refusal(proposal, quorum, now) {
            Some(e) => Err(e),
            None => Ok(finalized(proposal.unwrap())),
        }),
{
    let mut p = match proposal {
        Some(p) => p,
        None => return Err(ContractError::DaoProposalNotFound),
    };
    if p.status != DaoProposalStatus::Active {
        return Err(ContractError::DaoProposalNotActive);
    }
    if now <= p.voting_deadline {
        return Err(ContractError::DaoProposalVotingClosed);
    }
    let total_votes = p.votes_for.saturating_add(p.votes_against);
    if total_votes < quorum {
        return Err(ContractError::DaoProposalQuorumNotReached);
    }
    p.status = if p.votes_for > p.votes_against {
        DaoProposalStatus::Passed
    } else {
        DaoProposalStatus::Rejected
    };
    Ok(p)
}

/// The effect that executing a proposal of this type calls for, or why it
/// cannot be carried out. `config_verdict` is what validating the
/// configuration that an update proposal carries found.
pub open spec fn execution_effect(
    proposal_type: DaoProposalType,
    global_admin: Option<Address>,
    config_verdict: Result<(), ContractError>,
) -> Result<DaoEffect, ContractError> {
    match proposal_type {
        DaoProposalType::UpdateConfig(_) => match config_verdict {
            Ok(()) => Ok(DaoEffect::UpdateConfig),
            Err(e) => Err(e),
        },
        DaoProposalType::ChangeAdmin(new_admin) => Ok(DaoEffect::ChangeAdmin(new_admin)),
        DaoProposalType::TreasuryWithdrawal(token, to, amount) => match global_admin {
            Some(admin) => Ok(DaoEffect::TreasuryWithdrawal { admin, token, to, amount }),
            None => Err(ContractError::Unauthorized),
        },
        DaoProposalType::Generic => Ok(DaoEffect::Nothing),
    }
}

pub open spec fn execute_outcome(
    proposal: Option<DaoProposal>,
    global_admin: Option<Address>,
    config_verdict: Result<(), ContractError>,
    now: u64,
) -> Result<(DaoProposal, DaoEffect), ContractError> {
    match proposal {
        None => Err(ContractError::DaoProposalNotFound),
        Some(p) => if p.status != DaoProposalStatus::Passed {
            Err(ContractError::DaoProposalRejected)
        } else {
            match execution_effect(p.proposal_type, global_admin, config_verdict) {
                Err(e) => Err(e),
                Ok(effect) => Ok(
                    (DaoProposal { status: DaoProposalStatus::Executed, executed_at: Some(now), ..p }, effect),
                ),
            }
        },
    }
}

/// Execute a passed proposal. Anyone may trigger execution once a proposal
/// has passed: the payload itself is the authorization. A configuration
/// update whose configuration was found invalid (`config_verdict`) is refused
/// with that error. Returns the proposal to store, marked executed at `now`,
/// and the effect to carry out with it; when that effect fails, nothing is to
/// be stored.
pub fn execute(
    proposal: Option<DaoProposal>,
    global_admin: Option<Address>,
    config_verdict: Result<(), ContractError>,
    now: u64,
) -> (result: Result<
    (DaoProposal, DaoEffect),
    ContractError,
>)
    ensures
        result == execute_outcome(proposal, global_admin, config_verdict, now),
{
    let mut p = match proposal {
        Some(p) => p,
        None => return Err(ContractError::DaoProposalNotFound),
    };
    if p.status != DaoProposalStatus::Passed {
        return Err(ContractError::DaoProposalRejected);
    }
    let effect = match &p.proposal_type {
        DaoProposalType::UpdateConfig(_) => match config_verdict {
            Ok(()) => DaoEffect::UpdateConfig,
            Err(e) => return Err(e),
        },
        DaoProposalType::ChangeAdmin(new_admin) => DaoEffect::ChangeAdmin(*new_admin),
        DaoProposalType::TreasuryWithdrawal(token, to, amount) => match global_admin {
            Some(admin) => DaoEffect::TreasuryWithdrawal {
                admin,
                token: *token,
                to: *to,
                amount: *amount,
            },
            None => return Err(ContractError::Unauthorized),
        },
        DaoProposalType::Generic => DaoEffect::Nothing,
    };
    p.status = DaoProposalStatus::Executed;
    p.executed_at = Some(now);
    Ok((p, effect))
}

/// Why cancelling this proposal is refused, if it is.
pub open spec fn cancel_refusal(proposal: Option<DaoProposal>, global_admin: Option<Address>, caller: Address) -> Option<ContractError> {
    match proposal {
        None => Some(ContractError::DaoProposalNotFound),
        Some(p) => if p.status != DaoProposalStatus::Active {
            Some(ContractError::DaoProposalNotActive)
        } else if p.proposer != caller && global_admin != Some(caller) {
            Some(ContractError::Unauthorized)
        } else {
            None
        },
    }
}

/// Cancel a proposal before it is finalized. Only the original proposer or
/// the global admin may cancel. Returns the proposal to store.
pub fn cancel(proposal: Option<DaoProposal>, global_admin: Option<Address>, caller: Address) -> (result: Result<DaoProposal, ContractError>)
    ensures
        result == (match cancel_refusal(proposal, global_admin, caller) {
            Some(e) => Err(e),
            None => Ok(DaoProposal { status: DaoProposalStatus::Cancelled, ..proposal.unwrap() }),
        }),
{
    let mut p = match proposal {
        Some(p) => p,
        None => return Err(ContractError::DaoProposalNotFound),
    };
    if p.status != DaoProposalStatus::Active {
        return Err(ContractError::DaoProposalNotActive);
    }
    if p.proposer != caller && global_admin != Some(caller) {
        return Err(ContractError::Unauthorized);
    }
    p.status = DaoProposalStatus::Cancelled;
    Ok(p)
}

/// Require that DAO mode is disabled — used to gate the legacy admin-direct
/// config/admin-change entry points once governance takes over.
pub fn require_dao_mode_disabled(dao_mode_enabled: bool) -> (result: Result<(), ContractError>)
    ensures
        result == (if dao_mode_enabled {
            Err(ContractError::DaoModeDisabled)
        } else {
            Ok(())
        }),
{
    if dao_mode_enabled {
        return Err(ContractError::DaoModeDisabled);
    }
    Ok(())
}

/// Rejected, executed and cancelled proposals are settled: no vote,
/// finalization, cancellation or execution is accepted on them.
pub proof fn lemma_settled_proposal_is_final(
    p: DaoProposal,
    already_voted: bool,
    quorum: u64,
    global_admin: Option<Address>,
    config_verdict: Result<(), ContractError>,
    caller: Address,
    now: u64,
)
    requires
        p.status == DaoProposalStatus::Rejected || p.status == DaoProposalStatus::Executed
            || p.status == DaoProposalStatus::Cancelled,
    ensures
        vote_refusal(Some(p), already_voted, now) == Some(ContractError::DaoProposalNotActive),
        finalize_refusal(Some(p), quorum, now) == Some(ContractError::DaoProposalNotActive),
        cancel_refusal(Some(p), global_admin, caller) == Some(ContractError::DaoProposalNotActive),
        execute_outcome(Some(p), global_admin, config_verdict, now) == Err::<(DaoProposal, DaoEffect), ContractError>(
            ContractError::DaoProposalRejected,
        ),
{
}

/// Finalizing decides by strict majority: a proposal with more weight for it
/// than against it passes and can then be executed (a treasury withdrawal
/// needing a global admin, a configuration update a valid configuration);
/// any other finalized proposal is rejected, and executing it is refused.
pub proof fn lemma_majority_decides_execution(
    p: DaoProposal,
    quorum: u64,
    global_admin: Option<Address>,
    config_verdict: Result<(), ContractError>,
    now: u64,
    later: u64,
)
    requires
        finalize_refusal(Some(p), quorum, now) is None,
    ensures
        p.votes_for > p.votes_against ==> finalized(p).status == DaoProposalStatus::Passed,
        p.votes_for <= p.votes_against ==> finalized(p).status == DaoProposalStatus::Rejected,
        p.votes_for > p.votes_against && (global_admin is Some
            || !(p.proposal_type is TreasuryWithdrawal)) && (config_verdict is Ok
            || !(p.proposal_type is UpdateConfig)) ==> execute_outcome(
            Some(finalized(p)),
            global_admin,
            config_verdict,
            later,
        ) is Ok,
        p.votes_for <= p.votes_against ==> execute_outcome(
            Some(finalized(p)),
            global_admin,
            config_verdict,
            later,
        )
            == Err::<(DaoProposal, DaoEffect), ContractError>(ContractError::DaoProposalRejected),
{
}

/// A vote only ever adds weight: the side it supports grows by the voter's
/// weight (capped at `u64::MAX`), the other side and everything else stay.
pub proof fn lemma_vote_adds_weight(p: DaoProposal, weight: u64, support: bool)
    ensures
        support ==> voted(p, weight, support).votes_for >= p.votes_for
            && voted(p, weight, support).votes_against == p.votes_against,
        !support ==> voted(p, weight, support).votes_against >= p.votes_against
            && voted(p, weight, support).votes_for == p.votes_for,
        voted(p, weight, support).status == p.status,
        voted(p, weight, support).voting_deadline == p.voting_deadline,
        p.votes_for + weight <= u64::MAX && support ==> voted(p, weight, support).votes_for
            == p.votes_for + weight,
        p.votes_against + weight <= u64::MAX && !support ==> voted(p, weight, support).votes_against
            == p.votes_against + weight,
{
}

/// A proposal is finalized only after its voting deadline: while voting is
/// open (`now` at or before the deadline) finalizing an active proposal is
/// refused as voting closed, whatever the votes and the quorum; a finalization
/// that goes through happened after the deadline, on an active proposal whose
/// votes reach the quorum.
pub proof fn lemma_finalize_waits_for_deadline(p: DaoProposal, quorum: u64, now: u64)
    ensures
        p.status == DaoProposalStatus::Active && now <= p.voting_deadline ==> finalize_refusal(
            Some(p),
            quorum,
            now,
        ) == Some(ContractError::DaoProposalVotingClosed),
        finalize_refusal(Some(p), quorum, now) is None ==> {
            &&& p.status == DaoProposalStatus::Active
            &&& now > p.voting_deadline
            &&& p.votes_for + p.votes_against >= quorum
        },
{
}

/// Only an active proposal can be cancelled, and only by its proposer or the
/// global admin: once finalized (passed or rejected), executed or cancelled,
/// cancelling is refused as not active.
pub proof fn lemma_only_active_proposals_cancel(p: DaoProposal, global_admin: Option<Address>, caller: Address)
    ensures
        p.status != DaoProposalStatus::Active ==> cancel_refusal(Some(p), global_admin, caller) == Some(
            ContractError::DaoProposalNotActive,
        ),
        cancel_refusal(Some(p), global_admin, caller) is None ==> p.status == DaoProposalStatus::Active
            && (p.proposer == caller || global_admin == Some(caller)),
{
}

/// Voting and finalizing never overlap: a vote is accepted only on an active
/// proposal, by a voter who has not voted, while `now` is at or before the
/// deadline, and finalizing only after it; so at no time are both accepted
/// on the same proposal.
pub proof fn lemma_vote_and_finalize_never_overlap(p: DaoProposal, already_voted: bool, quorum: u64, now: u64)
    ensures
        vote_refusal(Some(p), already_voted, now) is None ==> p.status == DaoProposalStatus::Active
            && now <= p.voting_deadline && !already_voted,
        !(vote_refusal(Some(p), already_voted, now) is None && finalize_refusal(Some(p), quorum, now) is None),
{
}

} // verus!
