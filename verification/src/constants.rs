use vstd::prelude::*;

verus! {

/// Largest number of items a single page may hold.
pub const MAX_PAGE_SIZE: u32 = 100;

/// Length of the daily relay window, in seconds.
pub const SECONDS_PER_DAY: u64 = 86_400;

/// Voting period applied to new proposals until the admin configures one.
pub const DEFAULT_DAO_VOTING_PERIOD_LEDGERS: u32 = 17_280;

/// Total vote weight a proposal needs before it can be finalized, until the
/// admin configures a quorum.
pub const DEFAULT_DAO_QUORUM_VOTES: u64 = 1;

/// Longest proposal title, in bytes.
pub const MAX_DAO_TITLE_LEN: u32 = 128;

/// Longest proposal description, in bytes.
pub const MAX_DAO_DESCRIPTION_LEN: u32 = 2_048;

} // verus!
