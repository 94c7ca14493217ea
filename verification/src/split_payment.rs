use vstd::prelude::*;

use crate::types::{opt_deref, Address, ContractError, Grant, GrantStatus};

verus! {

/// Basis points that make up a whole.
pub const BPS_DENOMINATOR: u32 = 10_000;

#[derive(Clone, Copy, Debug, PartialEq, Eq, Structural)]
pub struct SplitRecipient {
    pub recipient: Address,
    pub share_bps: u32,
}

/// How a milestone payout is divided among several recipients.
#[derive(Clone, Debug, PartialEq, Eq)]
pub struct PaymentSplit {
    pub grant_id: u64,
    pub milestone_idx: u32,
    pub recipients: Vec<SplitRecipient>,
    pub registered_by: Address,
    pub registered_at: u64,
}

/// A transfer of `amount` out of the grant's escrow to `recipient`.
#[derive(Clone, Copy, Debug, PartialEq, Eq, Structural)]
pub struct Payout {
    pub recipient: Address,
    pub amount: i128,
}

/// Sum of the recipients' shares, in basis points.
pub open spec fn bps_sum(recipients: Seq<SplitRecipient>) -> nat
    decreases recipients.len(),
{
    if recipients.len() == 0 {
        0
    } else {
        bps_sum(recipients.drop_last()) + recipients.last().share_bps as nat
    }
}

pub open spec fn register_split_refusal(
    grant: Option<Grant>,
    caller: Address,
    milestone_idx: u32,
    recipients: Seq<SplitRecipient>,
) -> Option<ContractError> {
    match grant {
        None => Some(ContractError::GrantNotFound),
        Some(g) => if g.owner != caller {
            Some(ContractError::Unauthorized)
        } else if g.status == GrantStatus::Completed {
            Some(ContractError::InvalidState)
        } else if milestone_idx >= g.total_milestones {
            Some(ContractError::MilestoneIndexOutOfBounds)
        } else if recipients.len() == 0 {
            Some(ContractError::InvalidInput)
        } else if bps_sum(recipients) != BPS_DENOMINATOR {
            Some(ContractError::InvalidInput)
        } else {
            None
        },
    }
}

/// Register a payment split for a milestone. Must be called before grant
/// completion: a completed grant is refused.
/// The sum of all recipient share_bps must equal 10 000 (100%).
/// Returns the split to store.
pub fn register_split(
    grant: Option<&Grant>,
    caller: Address,
    grant_id: u64,
    milestone_idx: u32,
    recipients: Vec<SplitRecipient>,
    now: u64,
) -> (result: Result<PaymentSplit, ContractError>)
    ensures
        register_split_refusal(opt_deref(grant), caller, milestone_idx, recipients@) matches Some(e)
            ==> (result matches Err(e2) && e2 == e),
        register_split_refusal(opt_deref(grant), caller, milestone_idx, recipients@) is None
            ==> (result matches Ok(s) && s.grant_id == grant_id && s.milestone_idx == milestone_idx
            && s.recipients@ == recipients@ && s.registered_by == caller && s.registered_at == now),
{
    let g = match grant {
        Some(g) => g,
        None => return Err(ContractError::GrantNotFound),
    };
    if g.owner != caller {
        return Err(ContractError::Unauthorized);
    }
    if g.status == GrantStatus::Completed {
        return Err(ContractError::InvalidState);
    }
    if milestone_idx >= g.total_milestones {
        return Err(ContractError::MilestoneIndexOutOfBounds);
    }
    if recipients.len() == 0 {
        return Err(ContractError::InvalidInput);
    }
    let n = recipients.len();
    let mut total_bps: u32 = 0;
    let mut i: usize = 0;
    while i < n
        invariant
            n == recipients@.len(),
            i <= n,
            total_bps == if bps_sum(recipients@.take(i as int)) > u32::MAX {
                u32::MAX as nat
            } else {
                bps_sum(recipients@.take(i as int))
            },
        decreases n - i,
    {
        assert(recipients@.take(i + 1).drop_last() =~= recipients@.take(i as int));
        total_bps = total_bps.saturating_add(recipients[i].share_bps);
        i += 1;
    }
    assert(recipients@.take(n as int) =~= recipients@);
    if total_bps != BPS_DENOMINATOR {
        return Err(ContractError::InvalidInput);
    }
    Ok(PaymentSplit {
        grant_id,
        milestone_idx,
        recipients,
        registered_by: caller,
        registered_at: now,
    })
}

/// `total` times `bps`, saturating at the bounds of `i128`.
pub open spec fn saturating_product(total: i128, bps: u32) -> int {
    let m = total * bps;
    if m > i128::MAX {
        i128::MAX as int
    } else if m < i128::MIN {
        i128::MIN as int
    } else {
        m
    }
}

/// A recipient's share of `total`: the saturated product with its basis
/// points, divided by 10 000 and rounded down, where it is positive; zero otherwise.
pub open spec fn share_of(total: i128, bps: u32) -> int {
    let p = saturating_product(total, bps);
    if p > 0 {
        p / (BPS_DENOMINATOR as int)
    } else {
        0
    }
}

/// The transfers a split makes of `total`: one per recipient whose share is
/// positive, in the order of the recipients.
pub open spec fn split_payouts(recipients: Seq<SplitRecipient>, total: i128) -> Seq<Payout>
    decreases recipients.len(),
{
    if recipients.len() == 0 {
        Seq::empty()
    } else {
        let rest = split_payouts(recipients.drop_last(), total);
        let r = recipients.last();
        if share_of(total, r.share_bps) > 0 {
            rest.push(Payout { recipient: r.recipient, amount: share_of(total, r.share_bps) as i128 })
        } else {
            rest
        }
    }
}

fn share(total: i128, bps: u32) -> (s: i128)
    ensures
        s == share_of(total, bps),
{
    let p: i128 = match total.checked_mul(bps as i128) {
        Some(p) => p,
        None => if total > 0 {
            i128::MAX
        } else {
            i128::MIN
        },
    };
    assert(total <= 0 ==> total * bps <= 0) by (nonlinear_arith)
        requires
            bps >= 0,
    ;
    assert(total > 0 ==> total * bps >= 0) by (nonlinear_arith)
        requires
            bps >= 0,
    ;
    if p > 0 {
        p / 10_000
    } else {
        0
    }
}

/// Distribute `total_amount` among the registered recipients proportionally.
/// Returns the transfers to make out of escrow, in order.
pub fn execute_split(split: Option<&PaymentSplit>, total_amount: i128) -> (result: Result<
    Vec<Payout>,
    ContractError,
>)
    ensures
        split is None ==> (result matches Err(e) && e == ContractError::InvalidState),
        split matches Some(s) ==> (result matches Ok(payouts) && payouts@ == split_payouts(
            s.recipients@,
            total_amount,
        )),
{
    let s = match split {
        Some(s) => s,
        None => return Err(ContractError::InvalidState),
    };
    let n = s.recipients.len();
    let mut payouts: Vec<Payout> = Vec::new();
    let mut i: usize = 0;
    while i < n
        invariant
            n == s.recipients@.len(),
            i <= n,
            payouts@ == split_payouts(s.recipients@.take(i as int), total_amount),
        decreases n - i,
    {
        assert(s.recipients@.take(i + 1).drop_last() =~= s.recipients@.take(i as int));
        let r = s.recipients[i];
        let amount = share(total_amount, r.share_bps);
        if amount > 0 {
            payouts.push(Payout { recipient: r.recipient, amount });
        }
        i += 1;
    }
    assert(s.recipients@.take(n as int) =~= s.recipients@);
    Ok(payouts)
}

/// Sum of the amounts of a list of transfers.
pub open spec fn payout_total(payouts: Seq<Payout>) -> int
    decreases payouts.len(),
{
    if payouts.len() == 0 {
        0
    } else {
        payout_total(payouts.drop_last()) + payouts.last().amount
    }
}

proof fn lemma_share_bounds(total: i128, bps: u32)
    requires
        total >= 0,
    ensures
        0 <= share_of(total, bps),
        10_000 * share_of(total, bps) <= total * bps,
        total * bps <= i128::MAX ==> total * bps - 10_000 * share_of(total, bps) <= 9_999,
{
    assert(total * bps >= 0) by (nonlinear_arith)
        requires
            total >= 0,
            bps >= 0,
    ;
}

proof fn lemma_payouts_bounds(recipients: Seq<SplitRecipient>, total: i128)
    requires
        total >= 0,
    ensures
        10_000 * payout_total(split_payouts(recipients, total)) <= total * bps_sum(recipients),
        total * 10_000 <= i128::MAX && bps_sum(recipients) <= 10_000 ==> total * bps_sum(recipients)
            - 10_000 * payout_total(split_payouts(recipients, total)) <= 9_999 * recipients.len(),
    decreases recipients.len(),
{
    if recipients.len() > 0 {
        let init = recipients.drop_last();
        let r = recipients.last();
        lemma_payouts_bounds(init, total);
        lemma_share_bounds(total, r.share_bps);
        vstd::arithmetic::mul::lemma_mul_is_distributive_add(
            total as int,
            bps_sum(init) as int,
            r.share_bps as int,
        );
        assert(r.share_bps <= 10_000 ==> total * r.share_bps <= total * 10_000) by (nonlinear_arith)
            requires
                total >= 0,
        ;
        let rest = split_payouts(init, total);
        let sh = share_of(total, r.share_bps);
        assert(sh <= i128::MAX) by (nonlinear_arith)
            requires
                10_000 * sh <= saturating_product(total, r.share_bps),
                saturating_product(total, r.share_bps) <= i128::MAX,
                sh >= 0,
        ;
        if sh > 0 {
            let pushed = rest.push(Payout { recipient: r.recipient, amount: sh as i128 });
            assert(pushed.drop_last() =~= rest);
            assert(payout_total(split_payouts(recipients, total)) == payout_total(rest) + sh);
        } else {
            assert(payout_total(split_payouts(recipients, total)) == payout_total(rest));
        }
        assert(bps_sum(recipients) == bps_sum(init) + r.share_bps);
        if total * 10_000 <= i128::MAX && bps_sum(recipients) <= 10_000 {
            assert(bps_sum(init) <= 10_000);
            assert(total * r.share_bps <= i128::MAX);
            assert(total * r.share_bps - 10_000 * sh <= 9_999);
            assert(total * bps_sum(init) - 10_000 * payout_total(rest) <= 9_999 * init.len());
            assert(total * bps_sum(recipients) == total * bps_sum(init) + total * r.share_bps);
        }
    } else {
        assert(total * bps_sum(recipients) == 0) by (nonlinear_arith)
            requires
                bps_sum(recipients) == 0,
        ;
    }
}

/// A split whose shares add up to 10 000 basis points never pays out more
/// than the amount it splits.
pub proof fn lemma_split_never_exceeds_total(recipients: Seq<SplitRecipient>, total: i128)
    requires
        bps_sum(recipients) == BPS_DENOMINATOR,
        total >= 0,
    ensures
        payout_total(split_payouts(recipients, total)) <= total,
{
    lemma_payouts_bounds(recipients, total);
}

/// A split whose shares add up to 10 000 basis points loses less than one
/// unit per recipient to rounding, as long as no share saturates.
pub proof fn lemma_split_rounding_loss(recipients: Seq<SplitRecipient>, total: i128)
    requires
        bps_sum(recipients) == BPS_DENOMINATOR,
        total >= 0,
        total * 10_000 <= i128::MAX,
    ensures
        total - payout_total(split_payouts(recipients, total)) < recipients.len(),
{
    lemma_payouts_bounds(recipients, total);
}

} // verus!
