use vstd::prelude::*;

use crate::constants::SECONDS_PER_DAY;
use crate::types::{Address, ContractError};

verus! {

#[derive(Clone, Copy, Debug, PartialEq, Eq, Structural)]
pub enum RelayableAction {
    ContributorRegister,
    MilestoneSubmit,
    ClaimVested,
    WithdrawStream,
}

/// How gas-less relaying is configured.
#[derive(Clone, Debug, PartialEq, Eq)]
pub struct RelayConfig {
    pub enabled: bool,
    pub relayer_address: Address,
    pub allowed_actions: Vec<RelayableAction>,
    pub max_relays_per_address_per_day: u32,
}

/// How much a sender has relayed, in the current daily window and in total.
#[derive(Clone, Copy, Debug, PartialEq, Eq, Structural)]
pub struct RelayAllowance {
    pub address: Address,
    pub daily_relays_used: u32,
    pub window_start: u64,
    pub total_relayed: u64,
}

/// Store a relay configuration; when a global admin is set, only it may.
/// Returns the configuration to store.
pub fn set_relay_config(global_admin: Option<Address>, admin: Address, config: RelayConfig) -> (result: Result<RelayConfig, ContractError>)
    ensures
        global_admin matches Some(current) && current != admin ==> result == Err::<
            RelayConfig,
            ContractError,
        >(ContractError::Unauthorized),
        !(global_admin matches Some(current) && current != admin) ==> result == Ok::<
            RelayConfig,
            ContractError,
        >(config),
{
    if let Some(current_admin) = global_admin {
        if current_admin != admin {
            return Err(ContractError::Unauthorized);
        }
    }
    Ok(config)
}

pub open spec fn action_allowed(allowed: Seq<RelayableAction>, action: RelayableAction) -> bool {
    allowed.contains(action)
}

fn is_action_allowed(allowed: &Vec<RelayableAction>, action: RelayableAction) -> (ok: bool)
    ensures
        ok == action_allowed(allowed@, action),
{
    let n = allowed.len();
    let mut i: usize = 0;
    while i < n
        invariant
            n == allowed@.len(),
            i <= n,
            forall|j: int| 0 <= j < i ==> allowed@[j] != action,
        decreases n - i,
    {
        if allowed[i] == action {
            assert(allowed@[i as int] == action);
            return true;
        }
        i += 1;
    }
    false
}

/// The sender's allowance as stored, or a fresh one whose window opens `now`.
pub open spec fn current_allowance(stored: Option<RelayAllowance>, address: Address, now: u64) -> RelayAllowance {
    match stored {
        Some(a) => a,
        None => RelayAllowance { address, daily_relays_used: 0, window_start: now, total_relayed: 0 },
    }
}

/// The allowance with its daily window restarted at `now` once a day has passed.
pub open spec fn windowed(a: RelayAllowance, now: u64) -> RelayAllowance {
    if now > a.window_start + SECONDS_PER_DAY {
        RelayAllowance { daily_relays_used: 0, window_start: now, ..a }
    } else {
        a
    }
}

pub open spec fn execute_relayed_outcome(
    config: Option<RelayConfig>,
    stored_nonce: u32,
    allowance: Option<RelayAllowance>,
    relayer: Address,
    sender: Address,
    action: RelayableAction,
    nonce: u32,
    now: u64,
) -> Result<(u32, RelayAllowance), ContractError> {
    match config {
        None => Err(ContractError::InvalidState),
        Some(c) => if !c.enabled {
            Err(ContractError::InvalidState)
        } else if c.relayer_address != relayer {
            Err(ContractError::Unauthorized)
        } else if !action_allowed(c.allowed_actions@, action) {
            Err(ContractError::InvalidInput)
        } else if nonce != stored_nonce + 1 {
            Err(ContractError::InvalidInput)
        } else {
            let a = windowed(current_allowance(allowance, sender, now), now);
            if a.daily_relays_used >= c.max_relays_per_address_per_day {
                Err(ContractError::InvalidState)
            } else {
                Ok(
                    (
                        nonce,
                        RelayAllowance {
                            daily_relays_used: (a.daily_relays_used + 1) as u32,
                            total_relayed: (a.total_relayed + 1) as u64,
                            ..a
                        },
                    ),
                )
            }
        },
    }
}

/// Whether a relay request gets as far as checking its nonce: relaying is
/// configured and enabled, this is the configured relayer and the action is
/// allowed.
pub open spec fn reaches_nonce_check(
    config: Option<RelayConfig>,
    relayer: Address,
    action: RelayableAction,
) -> bool {
    config matches Some(c) && c.enabled && c.relayer_address == relayer && action_allowed(
        c.allowed_actions@,
        action,
    )
}

/// The arithmetic a relay request performs stays within bounds: the next
/// nonce, the end of the daily window and the sender's running total.
pub open spec fn relay_arithmetic_in_range(
    config: Option<RelayConfig>,
    stored_nonce: u32,
    allowance: Option<RelayAllowance>,
    relayer: Address,
    sender: Address,
    action: RelayableAction,
    nonce: u32,
    now: u64,
) -> bool {
    reaches_nonce_check(config, relayer, action) ==> {
        &&& stored_nonce < u32::MAX
        &&& nonce == stored_nonce + 1 ==> {
            let a = current_allowance(allowance, sender, now);
            &&& a.window_start + SECONDS_PER_DAY <= u64::MAX
            &&& windowed(a, now).daily_relays_used < config.unwrap().max_relays_per_address_per_day
                ==> a.total_relayed < u64::MAX
        }
    }
}

/// Perform a relayed action on behalf of `sender`: the configured relayer
/// submits it with the sender's next nonce, within the sender's daily limit.
/// `stored_nonce` is the sender's last nonce (zero if none) and `allowance`
/// the sender's stored allowance. Returns the nonce and the allowance to store.
pub fn execute_relayed(
    config: Option<&RelayConfig>,
    stored_nonce: u32,
    allowance: Option<RelayAllowance>,
    relayer: Address,
    sender: Address,
    action: RelayableAction,
    nonce: u32,
    now: u64,
) -> (result: Result<(u32, RelayAllowance), ContractError>)
    requires
        relay_arithmetic_in_range(
            crate::types::opt_deref(config),
            stored_nonce,
            allowance,
            relayer,
            sender,
            action,
            nonce,
            now,
        ),
    ensures
        result == execute_relayed_outcome(
            crate::types::opt_deref(config),
            stored_nonce,
            allowance,
            relayer,
            sender,
            action,
            nonce,
            now,
        ),
{
    let config = match config {
        Some(c) => c,
        None => return Err(ContractError::InvalidState),
    };
    if !config.enabled {
        return Err(ContractError::InvalidState);
    }
    if config.relayer_address != relayer {
        return Err(ContractError::Unauthorized);
    }
    if !is_action_allowed(&config.allowed_actions, action) {
        return Err(ContractError::InvalidInput);
    }
    let expected_nonce = stored_nonce + 1;
    if nonce != expected_nonce {
        return Err(ContractError::InvalidInput);
    }
    let mut a = match allowance {
        Some(a) => a,
        None => RelayAllowance {
            address: sender,
            daily_relays_used: 0,
            window_start: now,
            total_relayed: 0,
        },
    };
    if now > a.window_start + SECONDS_PER_DAY {
        a.daily_relays_used = 0;
        a.window_start = now;
    }
    if a.daily_relays_used >= config.max_relays_per_address_per_day {
        return Err(ContractError::InvalidState);
    }
    a.daily_relays_used += 1;
    a.total_relayed += 1;
    Ok((nonce, a))
}

pub open spec fn can_relay_outcome(
    config: Option<RelayConfig>,
    allowance: Option<RelayAllowance>,
    action: RelayableAction,
    now: u64,
) -> bool {
    match config {
        None => false,
        Some(c) => c.enabled && match allowance {
            None => true,
            Some(a) => windowed(a, now).daily_relays_used < c.max_relays_per_address_per_day
                && action_allowed(c.allowed_actions@, action),
        },
    }
}

/// Whether relaying `action` for a sender is open now: relaying must be
/// configured and enabled; for a sender with a stored allowance the daily
/// limit must leave room and the action must be allowed, while a sender with
/// no stored allowance is answered true without those checks.
pub fn can_relay(
    config: Option<&RelayConfig>,
    allowance: Option<RelayAllowance>,
    action: RelayableAction,
    now: u64,
) -> (ok: bool)
    requires
        config matches Some(c) && c.enabled ==> (allowance matches Some(a) ==> a.window_start
            + SECONDS_PER_DAY <= u64::MAX),
    ensures
        ok == can_relay_outcome(crate::types::opt_deref(config), allowance, action, now),
{
    match config {
        Some(config) => {
            if !config.enabled {
                return false;
            }
            let a = match allowance {
                Some(a) => a,
                None => return true,
            };
            let daily_relays_used = if now > a.window_start + SECONDS_PER_DAY {
                0
            } else {
                a.daily_relays_used
            };
            if daily_relays_used >= config.max_relays_per_address_per_day {
                return false;
            }
            is_action_allowed(&config.allowed_actions, action)
        },
        None => false,
    }
}

/// Relayers are not reimbursed: the call always succeeds and moves nothing.
pub fn reimburse_relayer(relayer: Address) -> (result: Result<(), ContractError>)
    ensures
        result == Ok::<(), ContractError>(()),
{
    Ok(())
}

/// The sender's stored allowance, or a fresh one whose window opens `now`.
pub fn get_allowance(stored: Option<RelayAllowance>, address: Address, now: u64) -> (allowance: RelayAllowance)
    ensures
        allowance == current_allowance(stored, address, now),
{
    match stored {
        Some(a) => a,
        None => RelayAllowance { address, daily_relays_used: 0, window_start: now, total_relayed: 0 },
    }
}

/// For a sender with a stored allowance, a relay submitted by the configured
/// relayer with the sender's next nonce is accepted exactly when `can_relay`
/// says so.
pub proof fn lemma_can_relay_matches_execute(
    config: RelayConfig,
    stored_nonce: u32,
    allowance: RelayAllowance,
    sender: Address,
    action: RelayableAction,
    now: u64,
)
    requires
        stored_nonce < u32::MAX,
    ensures
        execute_relayed_outcome(
            Some(config),
            stored_nonce,
            Some(allowance),
            config.relayer_address,
            sender,
            action,
            (stored_nonce + 1) as u32,
            now,
        ) is Ok <==> can_relay_outcome(Some(config), Some(allowance), action, now),
{
}

/// A nonce is accepted once: after a relay succeeds, the same nonce is
/// refused against the nonce it stored (short of the last nonce, whose
/// successor does not exist).
pub proof fn lemma_nonce_not_replayable(
    config: RelayConfig,
    stored_nonce: u32,
    allowance: Option<RelayAllowance>,
    relayer: Address,
    sender: Address,
    action: RelayableAction,
    nonce: u32,
    now: u64,
    later_allowance: Option<RelayAllowance>,
    later: u64,
)
    requires
        execute_relayed_outcome(
            Some(config),
            stored_nonce,
            allowance,
            relayer,
            sender,
            action,
            nonce,
            now,
        ) is Ok,
        nonce < u32::MAX,
    ensures
        ({
            let stored = execute_relayed_outcome(
                Some(config),
                stored_nonce,
                allowance,
                relayer,
                sender,
                action,
                nonce,
                now,
            )->Ok_0.0;
            execute_relayed_outcome(
                Some(config),
                stored,
                later_allowance,
                relayer,
                sender,
                action,
                nonce,
                later,
            ) is Err
        }),
{
}

/// A relay that succeeds leaves the sender within the daily limit.
pub proof fn lemma_daily_limit_respected(
    config: RelayConfig,
    stored_nonce: u32,
    allowance: Option<RelayAllowance>,
    relayer: Address,
    sender: Address,
    action: RelayableAction,
    nonce: u32,
    now: u64,
)
    ensures
        execute_relayed_outcome(
            Some(config),
            stored_nonce,
            allowance,
            relayer,
            sender,
            action,
            nonce,
            now,
        ) matches Ok((n, a)) ==> a.daily_relays_used <= config.max_relays_per_address_per_day
            && n == stored_nonce + 1,
{
}

} // verus!
