//! Casting a vote on the active poll of a voting.

use crate::actions::check::check_if_voter;
use crate::actions::find::{find_poll_at_index, find_vote, find_voter, find_voting};
use crate::actions::insert::{answered, insert_vote_row, vote_inserted};
use crate::dtos::SetVoteRequest;
use crate::models::{PollView, Vote, VoteView, VoterView};
use crate::store::{Store, StoreView};
use crate::text::{decimal, push_signed};
use crate::utils::{
    failure, generate_uuid, is_hyphenated_uuid, AuthenticatedUser, ErrorResponse, ErrorView, Status,
};
use crate::validators::{validate_voting_id, voting_id_rejection};
use vstd::prelude::*;
use vstd::string::StringExecFns;

verus! {

/// The failure that tells that no poll of the voting is open.
pub open spec fn no_poll_active() -> ErrorView {
    failure(Status::InvalidState, "Can not vote because no vote is active"@)
}

/// The failure that tells that another poll than the one voted on is open.
pub open spec fn poll_not_active(poll_index: i32) -> ErrorView {
    failure(
        Status::InvalidState,
        "Can not vote because the poll_index: "@ + decimal(poll_index as int)
            + " is not active"@,
    )
}

/// The failure that tells a voter that it has voted on the poll before.
pub open spec fn already_voted(poll_index: i32) -> ErrorView {
    failure(
        Status::Conflict,
        "Voter already voted on this poll with index: "@ + decimal(poll_index as int),
    )
}

/// The path of the operation that casts a vote.
pub open spec fn set_vote_path(voting_id: Seq<char>, poll_index: i32) -> Seq<char> {
    "/votings/"@ + voting_id + "/polls/"@ + decimal(poll_index as int) + "/vote"@
}

impl StoreView {
    /// The poll and the voter of a vote that may be cast, or why it may not.
    /// In this order: the identifier is malformed, the voting is missing, the
    /// caller is not a voter of it, no poll is open, another poll is open, the
    /// open position names no poll, the voter has voted on the poll before.
    pub open spec fn vote_admission(
        self,
        voting_id: Seq<char>,
        poll_index: i32,
        key_hash: Seq<char>,
    ) -> Result<(PollView, VoterView), ErrorView> {
        if voting_id_rejection(voting_id) is Some {
            Err(voting_id_rejection(voting_id)->0)
        } else {
            match self.find_voting(voting_id) {
                Err(error) => Err(error),
                Ok(voting) => match self.voter_admission(voting_id, key_hash) {
                    Err(error) => Err(error),
                    Ok(voter) => match voting.active_poll_index {
                        None => Err(no_poll_active()),
                        Some(active) => if active != poll_index {
                            Err(poll_not_active(poll_index))
                        } else {
                            match self.find_poll_at_index(voting_id, poll_index) {
                                Err(error) => Err(error),
                                Ok(poll) => if self.vote_of(poll.id, voter.id) is Some {
                                    Err(already_voted(poll_index))
                                } else {
                                    Ok((poll, voter))
                                },
                            }
                        },
                    },
                },
            }
        }
    }

    /// What casting a vote under the identifier `vote_id` does to the store
    /// and answers: a vote that may not be cast changes nothing; one that may
    /// is written, the store's constraints permitting.
    pub open spec fn vote_cast(
        self,
        after: StoreView,
        outcome: Result<(), ErrorView>,
        voting_id: Seq<char>,
        poll_index: i32,
        answer: Option<bool>,
        key_hash: Seq<char>,
        vote_id: Seq<char>,
    ) -> bool {
        match self.vote_admission(voting_id, poll_index, key_hash) {
            Err(error) => outcome == Err::<(), ErrorView>(error) && after == self,
            Ok((poll, voter)) => vote_inserted(
                self,
                after,
                outcome,
                VoteView { id: vote_id, poll_fk: poll.id, voter_fk: voter.id, answer },
            ),
        }
    }
}

/// The path of the operation that casts a vote.
pub fn cors_set_vote(voting_id: String, poll_index: i32) -> (path: String)
    ensures
        path@ == set_vote_path(voting_id@, poll_index),
{
    let mut path = String::from_str("/votings/");
    path.append(voting_id.as_str());
    path.append("/polls/");
    push_signed(&mut path, poll_index as i64);
    path.append("/vote");
    path
}

/// Casts the caller's vote on the poll at `poll_index`, written under the
/// identifier `vote_id`. The vote is taken only from a voter of the voting,
/// only on the poll that is open, and only once.
pub fn set_vote_with(
    conn: &mut Store,
    voting_id: String,
    poll_index: i32,
    input: SetVoteRequest,
    user: AuthenticatedUser,
    vote_id: String,
) -> (outcome: Result<(), ErrorResponse>)
    ensures
        old(conn)@.vote_cast(
            final(conn)@,
            answered(outcome),
            voting_id@,
            poll_index,
            input.answer,
            user@,
            vote_id@,
        ),
        old(conn)@.wf() ==> final(conn)@.wf(),
{
    validate_voting_id(&voting_id)?;
    let found = find_voting(conn, &voting_id)?;
    let voting = check_if_voter(conn, found, &user)?;
    let active = match voting.active_poll_index {
        Some(active) => active,
        None => {
            return Err(
                ErrorResponse::new(Status::InvalidState, "Can not vote because no vote is active"),
            );
        },
    };
    if active != poll_index {
        let mut reason = String::from_str("Can not vote because the poll_index: ");
        push_signed(&mut reason, poll_index as i64);
        reason.append(" is not active");
        return Err(ErrorResponse { reason, status: Status::InvalidState });
    }
    let poll = find_poll_at_index(conn, &voting, poll_index)?;
    let voter = find_voter(conn, &user)?;
    let voted = find_vote(conn, &poll.id, &voter.id)?;
    if voted.is_some() {
        let mut reason = String::from_str("Voter already voted on this poll with index: ");
        push_signed(&mut reason, poll_index as i64);
        return Err(ErrorResponse { reason, status: Status::Conflict });
    }
    insert_vote_row(
        conn,
        Vote { id: vote_id, poll_fk: poll.id, voter_fk: voter.id, answer: input.answer },
    )
}

/// Casts the caller's vote on the poll at `poll_index` under a fresh
/// identifier. A second vote of the same voter on the same poll is always
/// answered with `Conflict`.
pub fn set_vote(
    conn: &mut Store,
    voting_id: String,
    poll_index: i32,
    input: SetVoteRequest,
    user: AuthenticatedUser,
) -> (outcome: Result<(), ErrorResponse>)
    ensures
        exists|vote_id: Seq<char>|
            is_hyphenated_uuid(vote_id) && #[trigger] old(conn)@.vote_cast(
                final(conn)@,
                answered(outcome),
                voting_id@,
                poll_index,
                input.answer,
                user@,
                vote_id,
            ),
        old(conn)@.vote_admission(voting_id@, poll_index, user@) matches Err(error) ==> (
        outcome matches Err(e) && e@ == error && final(conn)@ == old(conn)@),
        old(conn)@.wf() ==> final(conn)@.wf(),
{
    let vote_id = generate_uuid();
    let ghost id = vote_id@;
    let outcome = set_vote_with(conn, voting_id, poll_index, input, user, vote_id);
    assert(old(conn)@.vote_cast(
        conn@,
        answered(outcome),
        voting_id@,
        poll_index,
        input.answer,
        user@,
        id,
    ));
    outcome
}

} // verus!
