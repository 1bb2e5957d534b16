//! Proposals and their stake-weighted tally.
use vstd::prelude::*;

use crate::error::CoreError;
use crate::staking::StakeAccount;

verus! {

/// A governance proposal and the stake weight cast for and against it.
///
/// `is_approved` is kept equal to `votes_for > votes_against`.
#[derive(Clone, Debug, PartialEq, Eq)]
pub struct Proposal {
    pub description: String,
    pub votes_for: u64,
    pub votes_against: u64,
    pub is_approved: bool,
}

impl Proposal {
    /// The approval flag agrees with the tally: a strict majority of weight.
    pub open spec fn well_formed(&self) -> bool {
        self.is_approved == (self.votes_for > self.votes_against)
    }
}

/// A new proposal with no votes, not approved.
pub fn submit_proposal(description: String) -> (proposal: Proposal)
    ensures
        proposal.description@ == description@,
        proposal.votes_for == 0,
        proposal.votes_against == 0,
        !proposal.is_approved,
        proposal.well_formed(),
{
    Proposal { description, votes_for: 0, votes_against: 0, is_approved: false }
}

/// Casts the voter's current stake as weight for or against the proposal and
/// recomputes its approval. A tally that would overflow is refused and the
/// proposal left as it was.
pub fn vote(proposal: &mut Proposal, stake_account: &StakeAccount, vote_for: bool) -> (r: Result<
    (),
    CoreError,
>)
    ensures
        ({
            let weight = stake_account.total_staked;
            let for_after = if vote_for {
                old(proposal).votes_for + weight
            } else {
                old(proposal).votes_for as int
            };
            let against_after = if vote_for {
                old(proposal).votes_against as int
            } else {
                old(proposal).votes_against + weight
            };
            match r {
                Ok(_) => {
                    &&& for_after <= u64::MAX && against_after <= u64::MAX
                    &&& final(proposal).description == old(proposal).description
                    &&& final(proposal).votes_for == for_after
                    &&& final(proposal).votes_against == against_after
                    &&& final(proposal).is_approved == (for_after > against_after)
                },
                Err(e) => {
                    &&& e == CoreError::ArithmeticOverflow
                    &&& (for_after > u64::MAX || against_after > u64::MAX)
                    &&& *final(proposal) == *old(proposal)
                },
            }
        }),
        old(proposal).well_formed() ==> final(proposal).well_formed(),
{
    let weight: u64 = stake_account.total_staked;
    if vote_for {
        match proposal.votes_for.checked_add(weight) {
            Some(v) => proposal.votes_for = v,
            None => return Err(CoreError::ArithmeticOverflow),
        }
    } else {
        match proposal.votes_against.checked_add(weight) {
            Some(v) => proposal.votes_against = v,
            None => return Err(CoreError::ArithmeticOverflow),
        }
    }
    proposal.is_approved = proposal.votes_for > proposal.votes_against;
    Ok(())
}

} // verus!
