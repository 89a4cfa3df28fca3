//! The active poll of a voting: its administrator sets it, its voters read it.

use crate::actions::check::{admin_rejection, check_if_voter, check_if_voting_admin};
use crate::actions::find::{find_amount_of_polls, find_polls, find_vote, find_voter, find_voting};
use crate::actions::update::update_voting;
use crate::dtos::{ActivePoll, GetActivePollResponse, SetActivePollRequest};
use crate::models::Vote;
use crate::store::{Store, StoreView};
use crate::utils::{failure, AuthenticatedUser, ErrorResponse, ErrorView, Status};
use crate::validators::{validate_voting_id, voting_id_rejection};
use vstd::prelude::*;
use vstd::string::StringExecFns;

verus! {

/// The failure that tells that a voting has no poll at the position that is
/// to become active.
pub open spec fn index_too_large() -> ErrorView {
    failure(
        Status::InvalidArgument,
        "Can not set active poll index larger than the amount of polls"@,
    )
}

/// The failure that tells that the active poll of a voting is not among its
/// polls.
pub open spec fn active_poll_missing() -> ErrorView {
    failure(Status::Internal, "Could not load the poll with the current active index"@)
}

/// The position that a request names, as the store keeps it.
pub open spec fn requested_index(index: Option<u16>) -> Option<i32> {
    match index {
        Some(k) => Some(k as i32),
        None => None,
    }
}

/// An answer as a voter reads it back.
pub open spec fn answered_text(answer: Option<bool>) -> Seq<char> {
    match answer {
        None => "ABSTAIN"@,
        Some(true) => "ACCEPT"@,
        Some(false) => "DECLINE"@,
    }
}

impl StoreView {
    /// Why a request to set the active poll is refused, if it is. In this
    /// order: the identifier is malformed, the voting is missing, the caller
    /// is not its administrator, its polls cannot be counted, the position is
    /// not below their number. To close the open poll is never refused for its
    /// position.
    pub open spec fn set_active_poll_rejection(
        self,
        voting_id: Seq<char>,
        index: Option<u16>,
        key_hash: Seq<char>,
    ) -> Option<ErrorView> {
        if voting_id_rejection(voting_id) is Some {
            voting_id_rejection(voting_id)
        } else {
            match self.find_voting(voting_id) {
                Err(error) => Some(error),
                Ok(voting) => if admin_rejection(voting, key_hash) is Some {
                    admin_rejection(voting, key_hash)
                } else {
                    match self.find_amount_of_polls(voting_id) {
                        Err(error) => Some(error),
                        Ok(amount) => if index matches Some(k) && amount <= k {
                            Some(index_too_large())
                        } else {
                            None
                        },
                    }
                },
            }
        }
    }

    /// What a voter reads of the active poll of a voting: nothing where no
    /// poll is open, else the poll's position, name and description and the
    /// voter's own answer, if it has given one. Refused where the identifier
    /// is malformed, the voting is missing, the caller is not a voter of it,
    /// or the active position names no poll.
    pub open spec fn active_poll(self, voting_id: Seq<char>, key_hash: Seq<char>) -> Result<
        Option<ActivePoll>,
        ErrorView,
    > {
        if voting_id_rejection(voting_id) is Some {
            Err(voting_id_rejection(voting_id)->0)
        } else {
            match self.find_voting(voting_id) {
                Err(error) => Err(error),
                Ok(voting) => match self.voter_admission(voting_id, key_hash) {
                    Err(error) => Err(error),
                    Ok(voter) => match voting.active_poll_index {
                        None => Ok(None),
                        Some(index) => if !self.is_poll_position(voting_id, index as int) {
                            Err(active_poll_missing())
                        } else {
                            let poll = self.polls_of(voting_id)[index as int];
                            Ok(
                                Some(
                                    ActivePoll {
                                        poll_index: index,
                                        name: poll.name,
                                        description: poll.description,
                                        voted: match self.vote_of(poll.id, voter.id) {
                                            Some(vote) => Some(answered_text(vote.answer)),
                                            None => None,
                                        },
                                    },
                                ),
                            )
                        },
                    },
                },
            }
        }
    }
}

/// Sets the active poll of a voting to the position that the request names,
/// or closes the open poll where it names none. Only the administrator of the
/// voting may do so, and only a position below the number of polls is taken.
/// A refused request changes nothing.
pub fn set_active_poll(
    conn: &mut Store,
    voting_id: String,
    input: SetActivePollRequest,
    user: AuthenticatedUser,
) -> (outcome: Result<(), ErrorResponse>)
    ensures
        match old(conn)@.set_active_poll_rejection(voting_id@, input.poll_index, user@) {
            Some(error) => outcome matches Err(e) && e@ == error && final(conn)@ == old(conn)@,
            None => outcome is Ok && final(conn)@ == old(conn)@.activated(
                voting_id@,
                requested_index(input.poll_index),
            ),
        },
        old(conn)@.wf() ==> final(conn)@.wf(),
{
    validate_voting_id(&voting_id)?;
    let found = find_voting(conn, &voting_id)?;
    let voting = check_if_voting_admin(found, &user)?;
    let amount_of_polls = find_amount_of_polls(conn, &voting)?;
    let poll_index = match input.poll_index {
        Some(poll_index) => {
            if amount_of_polls <= poll_index as i32 {
                return Err(
                    ErrorResponse::new(
                        Status::InvalidArgument,
                        "Can not set active poll index larger than the amount of polls",
                    ),
                );
            }
            Some(poll_index as i32)
        },
        None => None,
    };
    proof {
        crate::rows::lemma_first_position_meaning(
            conn@.votings,
            crate::store::voting_has_id(voting_id@),
        );
    }
    update_voting(conn, &voting, &poll_index)
}

/// Reads the active poll of a voting for one of its voters.
pub fn get_active_poll(conn: &Store, voting_id: String, user: AuthenticatedUser) -> (outcome:
    Result<Option<GetActivePollResponse>, ErrorResponse>)
    ensures
        match conn@.active_poll(voting_id@, user@) {
            Ok(None) => outcome matches Ok(None),
            Ok(Some(poll)) => outcome matches Ok(Some(response)) && response@ == poll,
            Err(error) => outcome matches Err(e) && e@ == error,
        },
{
    validate_voting_id(&voting_id)?;
    let found = find_voting(conn, &voting_id)?;
    let voting = check_if_voter(conn, found, &user)?;
    let active_poll_index = match voting.active_poll_index {
        Some(active_poll_index) => active_poll_index,
        None => {
            return Ok(None);
        },
    };
    let polls = find_polls(conn, &voting_id)?;
    if active_poll_index < 0 || active_poll_index as usize >= polls.len() {
        return Err(
            ErrorResponse::new(
                Status::Internal,
                "Could not load the poll with the current active index",
            ),
        );
    }
    let poll = &polls[active_poll_index as usize];
    let voter = find_voter(conn, &user)?;
    let voted = match find_vote(conn, &poll.id, &voter.id)? {
        Some(vote) => Some(get_answered_from_vote(&vote)),
        None => None,
    };
    Ok(
        Some(
            GetActivePollResponse {
                poll_index: active_poll_index,
                name: poll.name.clone(),
                description: poll.description.clone(),
                voted,
            },
        ),
    )
}

/// The word under which a voter reads its own answer back.
pub fn get_answered_from_vote(vote: &Vote) -> (text: String)
    ensures
        text@ == answered_text(vote.answer),
{
    match vote.answer {
        None => String::from_str("ABSTAIN"),
        Some(true) => String::from_str("ACCEPT"),
        Some(false) => String::from_str("DECLINE"),
    }
}

} // verus!
