use vstd::prelude::*;

use crate::types::{opt_deref, Address, ContractError, Grant, Milestone, MilestoneState};

verus! {

#[derive(Clone, Copy, Debug, PartialEq, Eq, Structural)]
pub enum LicenseType {
    OpenSource,
    CreativeCommons,
    Proprietary,
    Custom,
}

/// Who holds the intellectual property of a deliverable.
#[derive(Clone, Copy, Debug, PartialEq, Eq, Structural)]
pub enum IpRights {
    ContributorRetains,
    FunderOwns,
    Shared,
    PublicDomain,
}

/// The license attached to a milestone's deliverable.
#[derive(Clone, Debug, PartialEq, Eq)]
pub struct LicenseRecord {
    pub grant_id: u64,
    pub milestone_idx: u32,
    pub spdx_id: Vec<u8>,
    pub license_type: LicenseType,
    pub rights: IpRights,
    pub restrictions: Vec<u8>,
    pub attached_by: Address,
    pub attached_at: u64,
}

pub open spec fn attach_license_refusal(
    grant: Option<Grant>,
    milestone: Option<Milestone>,
    caller: Address,
    milestone_idx: u32,
) -> Option<ContractError> {
    match grant {
        None => Some(ContractError::GrantNotFound),
        Some(g) => if g.owner != caller {
            Some(ContractError::Unauthorized)
        } else if milestone_idx >= g.total_milestones {
            Some(ContractError::MilestoneIndexOutOfBounds)
        } else if milestone is None {
            Some(ContractError::MilestoneNotFound)
        } else if milestone.unwrap().state != MilestoneState::Approved {
            Some(ContractError::InvalidState)
        } else {
            None
        },
    }
}

/// Attach a license record to an approved milestone deliverable.
/// Only the grant owner may call this. The milestone must already exist and
/// be approved.
/// Returns the record to store (and to hand back).
pub fn attach_license(
    grant: Option<&Grant>,
    milestone: Option<&Milestone>,
    caller: Address,
    grant_id: u64,
    milestone_idx: u32,
    spdx_id: Vec<u8>,
    license_type: LicenseType,
    rights: IpRights,
    restrictions: Vec<u8>,
    now: u64,
) -> (result: Result<LicenseRecord, ContractError>)
    ensures
        result == (match attach_license_refusal(
            opt_deref(grant),
            opt_deref(milestone),
            caller,
            milestone_idx,
        ) {
            Some(e) => Err(e),
            None => Ok(
                LicenseRecord {
                    grant_id,
                    milestone_idx,
                    spdx_id,
                    license_type,
                    rights,
                    restrictions,
                    attached_by: caller,
                    attached_at: now,
                },
            ),
        }),
{
    let g = match grant {
        Some(g) => g,
        None => return Err(ContractError::GrantNotFound),
    };
    if g.owner != caller {
        return Err(ContractError::Unauthorized);
    }
    if milestone_idx >= g.total_milestones {
        return Err(ContractError::MilestoneIndexOutOfBounds);
    }
    match milestone {
        None => return Err(ContractError::MilestoneNotFound),
        Some(m) => if m.state != MilestoneState::Approved {
            return Err(ContractError::InvalidState);
        },
    }
    Ok(LicenseRecord {
        grant_id,
        milestone_idx,
        spdx_id,
        license_type,
        rights,
        restrictions,
        attached_by: caller,
        attached_at: now,
    })
}

} // verus!
