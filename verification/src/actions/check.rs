//! The two guards: is the caller the administrator of a voting, is the caller
//! a voter of it.

use crate::actions::find::find_voter;
use crate::models::{VoterView, Voting, VotingView};
use crate::rows::same_text;
use crate::store::{Store, StoreView};
use crate::utils::{failure, AuthenticatedUser, ErrorResponse, ErrorView, Status};
use vstd::prelude::*;

verus! {

/// The failure that tells a voter that it belongs to another voting.
pub open spec fn not_in_voting(username: Seq<char>) -> ErrorView {
    failure(Status::Unauthorized, "Voter is not in voting. User has username: "@ + username)
}

/// The failure that tells that the caller's key is not the administrator's.
/// It names the voting, never the key.
pub open spec fn not_admin(voting_id: Seq<char>) -> ErrorView {
    failure(Status::Unauthorized, "Admin key is not correct for voting with id: "@ + voting_id)
}

/// Why a caller is not let in as the administrator of a voting, if it is not:
/// its key does not hash to the hash that the voting keeps.
pub open spec fn admin_rejection(voting: VotingView, key_hash: Seq<char>) -> Option<ErrorView> {
    if key_hash == voting.admin_key_hash {
        None
    } else {
        Some(not_admin(voting.id))
    }
}

impl StoreView {
    /// The voter as which a caller is let in to a voting: the voter that
    /// presents the caller's key, provided it belongs to that voting. A key
    /// that no voter presents is answered with `NotFound`, a voter of another
    /// voting with `Unauthorized`.
    pub open spec fn voter_admission(self, voting_id: Seq<char>, key_hash: Seq<char>) -> Result<
        VoterView,
        ErrorView,
    > {
        match self.find_voter(key_hash) {
            Ok(voter) => if voter.voting_fk == voting_id {
                Ok(voter)
            } else {
                Err(not_in_voting(voter.username))
            },
            Err(error) => Err(error),
        }
    }
}

/// Lets a registered voter of `voting` pass and hands the voting back.
pub fn check_if_voter(conn: &Store, voting: Voting, user: &AuthenticatedUser) -> (outcome: Result<
    Voting,
    ErrorResponse,
>)
    ensures
        match conn@.voter_admission(voting.id@, user@) {
            Ok(_) => outcome matches Ok(same) && same == voting,
            Err(error) => outcome matches Err(e) && e@ == error,
        },
{
    let voter = find_voter(conn, user)?;
    if same_text(user.key_hash(), &voter.voter_key_hash) && same_text(
        &voter.voting_fk,
        &voting.id,
    ) {
        Ok(voting)
    } else {
        Err(
            ErrorResponse::with_detail(
                Status::Unauthorized,
                "Voter is not in voting. User has username: ",
                voter.username.as_str(),
            ),
        )
    }
}

/// Lets the administrator of `voting` pass and hands the voting back.
pub fn check_if_voting_admin(voting: Voting, user: &AuthenticatedUser) -> (outcome: Result<
    Voting,
    ErrorResponse,
>)
    ensures
        match admin_rejection(voting@, user@) {
            None => outcome matches Ok(same) && same == voting,
            Some(error) => outcome matches Err(e) && e@ == error,
        },
{
    if same_text(user.key_hash(), &voting.admin_key_hash) {
        Ok(voting)
    } else {
        Err(
            ErrorResponse::with_detail(
                Status::Unauthorized,
                "Admin key is not correct for voting with id: ",
                voting.id.as_str(),
            ),
        )
    }
}

} // verus!
