use vstd::prelude::*;

use crate::types::{opt_deref, Address, ContractError, Grant, Milestone, MilestoneState};

verus! {

/// Most release conditions a milestone may carry.
pub const MAX_CONDITIONS_PER_MILESTONE: u32 = 5;

#[derive(Clone, Copy, Debug, PartialEq, Eq, Structural)]
pub enum ConditionType {
    LedgerSequenceAfter,
    TimestampAfter,
    OraclePriceAbove,
    OraclePriceBelow,
    CustomContractCall,
    AlwaysTrue,
}

/// A condition that must hold before a milestone's funds are released.
#[derive(Clone, Debug, PartialEq, Eq)]
pub struct ReleaseCondition {
    pub condition_type: ConditionType,
    pub threshold: i128,
    pub oracle_token: Option<Address>,
    pub custom_contract: Option<Address>,
    pub custom_fn_name: Option<String>,
}

#[derive(Clone, Copy, Debug, PartialEq, Eq, Structural)]
pub struct ConditionResult {
    pub condition_idx: u32,
    pub met: bool,
    pub current_value: i128,
    pub threshold: i128,
    pub checked_at: u64,
}

/// A value that only another contract can supply.
#[derive(Clone, Debug, PartialEq, Eq)]
pub enum ExternalQuery {
    /// The oracle's price of this token, in the base asset.
    OraclePrice(Address),
    /// The `i128` that calling this function of this contract, without
    /// arguments, returns.
    ContractCall(Address, String),
}

/// A milestone has been submitted once it has left the pending state.
pub open spec fn submitted(milestone: Option<Milestone>) -> bool {
    milestone matches Some(m) && m.state != MilestoneState::Pending
}

pub open spec fn attach_conditions_refusal(
    grant: Option<Grant>,
    milestone: Option<Milestone>,
    owner: Address,
    milestone_idx: u32,
    count: nat,
) -> Option<ContractError> {
    match grant {
        None => Some(ContractError::GrantNotFound),
        Some(g) => if g.owner != owner {
            Some(ContractError::Unauthorized)
        } else if milestone_idx >= g.total_milestones {
            Some(ContractError::MilestoneIndexOutOfBounds)
        } else if count > MAX_CONDITIONS_PER_MILESTONE {
            Some(ContractError::MaxConditionsExceeded)
        } else if submitted(milestone) {
            Some(ContractError::MilestoneAlreadySubmitted)
        } else {
            None
        },
    }
}

/// Attach release conditions to a milestone. Owner only, before submission.
/// `milestone` is the milestone as stored, if it is. Returns the conditions to store.
pub fn attach_conditions(
    grant: Option<&Grant>,
    milestone: Option<&Milestone>,
    owner: Address,
    grant_id: u64,
    milestone_idx: u32,
    conditions: Vec<ReleaseCondition>,
) -> (result: Result<Vec<ReleaseCondition>, ContractError>)
    ensures
        attach_conditions_refusal(opt_deref(grant), opt_deref(milestone), owner, milestone_idx, conditions@.len()) matches Some(
            e,
        ) ==> (result matches Err(e2) && e2 == e),
        attach_conditions_refusal(opt_deref(grant), opt_deref(milestone), owner, milestone_idx, conditions@.len()) is None
            ==> (result matches Ok(stored) && stored@ == conditions@),
{
    let g = match grant {
        Some(g) => g,
        None => return Err(ContractError::GrantNotFound),
    };
    if g.owner != owner {
        return Err(ContractError::Unauthorized);
    }
    if milestone_idx >= g.total_milestones {
        return Err(ContractError::MilestoneIndexOutOfBounds);
    }
    if conditions.len() > MAX_CONDITIONS_PER_MILESTONE as usize {
        return Err(ContractError::MaxConditionsExceeded);
    }
    if let Some(m) = milestone {
        if m.state != MilestoneState::Pending {
            return Err(ContractError::MilestoneAlreadySubmitted);
        }
    }
    Ok(conditions)
}

pub open spec fn query_for(condition: ReleaseCondition) -> Option<ExternalQuery> {
    match condition.condition_type {
        ConditionType::OraclePriceAbove | ConditionType::OraclePriceBelow => match condition.oracle_token {
            Some(token) => Some(ExternalQuery::OraclePrice(token)),
            None => None,
        },
        ConditionType::CustomContractCall => match (condition.custom_contract, condition.custom_fn_name) {
            (Some(contract), Some(name)) => Some(ExternalQuery::ContractCall(contract, name)),
            _ => None,
        },
        _ => None,
    }
}

/// The outside value that evaluating this condition needs, if any.
pub fn external_query(condition: &ReleaseCondition) -> (query: Option<ExternalQuery>)
    ensures
        query == query_for(*condition),
{
    match condition.condition_type {
        ConditionType::OraclePriceAbove | ConditionType::OraclePriceBelow => match condition.oracle_token {
            Some(token) => Some(ExternalQuery::OraclePrice(token)),
            None => None,
        },
        ConditionType::CustomContractCall => match (&condition.custom_contract, &condition.custom_fn_name) {
            (Some(contract), Some(name)) => Some(ExternalQuery::ContractCall(*contract, name.clone())),
            _ => None,
        },
        _ => None,
    }
}

/// Whether a condition is met and the value it was judged on. `external` is
/// the answer to the condition's outside query: the oracle's price, or what
/// the contract call returned; `None` when the oracle failed or the call
/// returned nothing.
pub open spec fn condition_outcome(
    condition: ReleaseCondition,
    ledger_sequence: u32,
    timestamp: u64,
    external: Option<i128>,
) -> (bool, i128) {
    match condition.condition_type {
        ConditionType::LedgerSequenceAfter => (ledger_sequence >= condition.threshold, ledger_sequence as i128),
        ConditionType::TimestampAfter => (timestamp >= condition.threshold, timestamp as i128),
        ConditionType::OraclePriceAbove => match (condition.oracle_token, external) {
            (Some(_), Some(price)) => (price >= condition.threshold, price),
            _ => (false, 0),
        },
        ConditionType::OraclePriceBelow => match (condition.oracle_token, external) {
            (Some(_), Some(price)) => (price <= condition.threshold, price),
            _ => (false, 0),
        },
        ConditionType::CustomContractCall => match (condition.custom_contract, condition.custom_fn_name, external) {
            (Some(_), Some(_), Some(value)) => (value != 0, value),
            _ => (false, 0),
        },
        ConditionType::AlwaysTrue => (true, 1),
    }
}

/// Evaluate one condition against the ledger's sequence and time and the
/// answer to its outside query.
pub fn evaluate_condition(
    condition: &ReleaseCondition,
    ledger_sequence: u32,
    timestamp: u64,
    external: Option<i128>,
) -> (outcome: (bool, i128))
    ensures
        outcome == condition_outcome(*condition, ledger_sequence, timestamp, external),
{
    match condition.condition_type {
        ConditionType::LedgerSequenceAfter => {
            let current = ledger_sequence as i128;
            (current >= condition.threshold, current)
        },
        ConditionType::TimestampAfter => {
            let current = timestamp as i128;
            (current >= condition.threshold, current)
        },
        ConditionType::OraclePriceAbove => {
            if condition.oracle_token.is_some() {
                match external {
                    Some(price) => (price >= condition.threshold, price),
                    None => (false, 0),
                }
            } else {
                (false, 0)
            }
        },
        ConditionType::OraclePriceBelow => {
            if condition.oracle_token.is_some() {
                match external {
                    Some(price) => (price <= condition.threshold, price),
                    None => (false, 0),
                }
            } else {
                (false, 0)
            }
        },
        ConditionType::CustomContractCall => {
            if condition.custom_contract.is_some() && condition.custom_fn_name.is_some() {
                match external {
                    Some(value) => (value != 0, value),
                    None => (false, 0),
                }
            } else {
                (false, 0)
            }
        },
        ConditionType::AlwaysTrue => (true, 1),
    }
}

/// The report on the condition at `idx`.
pub open spec fn condition_report(
    condition: ReleaseCondition,
    idx: int,
    ledger_sequence: u32,
    timestamp: u64,
    external: Option<i128>,
) -> ConditionResult {
    let (met, current_value) = condition_outcome(condition, ledger_sequence, timestamp, external);
    ConditionResult {
        condition_idx: idx as u32,
        met,
        current_value,
        threshold: condition.threshold,
        checked_at: timestamp,
    }
}

/// Check all conditions for a milestone. Returns detailed results per condition.
/// `external[i]` answers the outside query of `conditions[i]`.
pub fn check_conditions(
    conditions: &Vec<ReleaseCondition>,
    external: &Vec<Option<i128>>,
    ledger_sequence: u32,
    timestamp: u64,
) -> (results: Vec<ConditionResult>)
    requires
        external@.len() == conditions@.len(),
        conditions@.len() <= u32::MAX,
    ensures
        results@.len() == conditions@.len(),
        forall|i: int|
            0 <= i < conditions@.len() ==> #[trigger] results@[i] == condition_report(
                conditions@[i],
                i,
                ledger_sequence,
                timestamp,
                external@[i],
            ),
{
    let n = conditions.len();
    let mut results: Vec<ConditionResult> = Vec::new();
    let mut i: usize = 0;
    while i < n
        invariant
            n == conditions@.len(),
            n == external@.len(),
            n <= u32::MAX,
            i <= n,
            results@.len() == i,
            forall|j: int|
                0 <= j < i ==> #[trigger] results@[j] == condition_report(
                    conditions@[j],
                    j,
                    ledger_sequence,
                    timestamp,
                    external@[j],
                ),
        decreases n - i,
    {
        let condition = &conditions[i];
        let (met, current_value) = evaluate_condition(condition, ledger_sequence, timestamp, external[i]);
        results.push(
            ConditionResult {
                condition_idx: i as u32,
                met,
                current_value,
                threshold: condition.threshold,
                checked_at: timestamp,
            },
        );
        i += 1;
    }
    results
}

/// Return true only if every condition is met.
pub fn all_conditions_met(
    conditions: &Vec<ReleaseCondition>,
    external: &Vec<Option<i128>>,
    ledger_sequence: u32,
    timestamp: u64,
) -> (met: bool)
    requires
        external@.len() == conditions@.len(),
        conditions@.len() <= u32::MAX,
    ensures
        met == forall|i: int|
            0 <= i < conditions@.len() ==> (#[trigger] condition_outcome(
                conditions@[i],
                ledger_sequence,
                timestamp,
                external@[i],
            )).0,
{
    let results = check_conditions(conditions, external, ledger_sequence, timestamp);
    let n = results.len();
    let mut i: usize = 0;
    while i < n
        invariant
            n == results@.len(),
            n == conditions@.len(),
            i <= n,
            forall|j: int|
                0 <= j < n ==> #[trigger] results@[j] == condition_report(
                    conditions@[j],
                    j,
                    ledger_sequence,
                    timestamp,
                    external@[j],
                ),
            forall|j: int|
                0 <= j < i ==> (#[trigger] condition_outcome(
                    conditions@[j],
                    ledger_sequence,
                    timestamp,
                    external@[j],
                )).0,
        decreases n - i,
    {
        if !results[i].met {
            assert(!condition_outcome(conditions@[i as int], ledger_sequence, timestamp, external@[i as int]).0);
            return false;
        }
        i += 1;
    }
    true
}

/// A milestone's conditions all hold exactly when every report that
/// `check_conditions` gives for them says "met".
pub proof fn lemma_all_met_iff_every_report_met(
    conditions: Seq<ReleaseCondition>,
    external: Seq<Option<i128>>,
    ledger_sequence: u32,
    timestamp: u64,
)
    ensures
        (forall|i: int|
            0 <= i < conditions.len() ==> (#[trigger] condition_outcome(
                conditions[i],
                ledger_sequence,
                timestamp,
                external[i],
            )).0) <==> (forall|i: int|
            0 <= i < conditions.len() ==> (#[trigger] condition_report(
                conditions[i],
                i,
                ledger_sequence,
                timestamp,
                external[i],
            )).met),
{
    assert forall|i: int| 0 <= i < conditions.len() implies (condition_outcome(
        conditions[i],
        ledger_sequence,
        timestamp,
        external[i],
    )).0 == (condition_report(conditions[i], i, ledger_sequence, timestamp, external[i])).met by {}
}

/// A price condition compares the oracle's price with its threshold: "above"
/// is met at or above the threshold and "below" at or below it, so the two
/// disagree on every price but the threshold itself. The value reported is
/// the price, and without an answer from the oracle neither is met.
pub proof fn lemma_price_conditions_compare_with_threshold(
    condition: ReleaseCondition,
    ledger_sequence: u32,
    timestamp: u64,
    price: i128,
)
    requires
        condition.oracle_token is Some,
    ensures
        ({
            let above = ReleaseCondition { condition_type: ConditionType::OraclePriceAbove, ..condition };
            let below = ReleaseCondition { condition_type: ConditionType::OraclePriceBelow, ..condition };
            let a = condition_outcome(above, ledger_sequence, timestamp, Some(price));
            let b = condition_outcome(below, ledger_sequence, timestamp, Some(price));
            &&& a.1 == price
            &&& b.1 == price
            &&& (a.0 <==> price >= condition.threshold)
            &&& (b.0 <==> price <= condition.threshold)
            &&& price < condition.threshold ==> b.0 && !a.0
            &&& price > condition.threshold ==> a.0 && !b.0
            &&& price != condition.threshold ==> a.0 != b.0
            &&& !condition_outcome(above, ledger_sequence, timestamp, None).0
            &&& !condition_outcome(below, ledger_sequence, timestamp, None).0
        }),
{
}

/// The ledger conditions are met once the ledger has reached the threshold:
/// a sequence (or time) at or past it meets the condition, one before it does
/// not, and the value reported is the ledger's own.
pub proof fn lemma_ledger_conditions_met_once_reached(
    condition: ReleaseCondition,
    ledger_sequence: u32,
    timestamp: u64,
    external: Option<i128>,
)
    ensures
        ({
            let by_sequence = ReleaseCondition { condition_type: ConditionType::LedgerSequenceAfter, ..condition };
            let by_time = ReleaseCondition { condition_type: ConditionType::TimestampAfter, ..condition };
            let q = condition_outcome(by_sequence, ledger_sequence, timestamp, external);
            let t = condition_outcome(by_time, ledger_sequence, timestamp, external);
            &&& (q.0 <==> ledger_sequence >= condition.threshold)
            &&& q.1 == ledger_sequence
            &&& (t.0 <==> timestamp >= condition.threshold)
            &&& t.1 == timestamp
        }),
{
}

} // verus!
