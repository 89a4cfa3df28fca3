//! Validation of what a request carries, before anything is read or written.

use crate::dtos::{
    drafts, CreateVoterRequest, CreateVotingPollRequest, CreateVotingRequest, PollDraft,
};
use crate::text::{byte_len, decimal_nat, push_decimal};
use crate::utils::{failure, ErrorResponse, ErrorView, Status};
use vstd::prelude::*;
use vstd::string::StringExecFns;

verus! {

/// The length that every voting identifier has.
pub const VOTING_ID_LENGTH: usize = 36;

/// Names, descriptions and usernames take between 5 and 60 bytes.
pub open spec fn length_accepted(text: Seq<char>) -> bool {
    5 <= byte_len(text) <= 60
}

/// A voting has between 1 and 100 polls.
pub open spec fn poll_count_accepted(count: nat) -> bool {
    1 <= count <= 100
}

/// Why one poll of a request is refused, if it is: its name is looked at
/// before its description.
pub open spec fn poll_draft_rejection(poll: PollDraft) -> Option<ErrorView> {
    if !length_accepted(poll.name) {
        Some(
            failure(
                Status::InvalidArgument,
                "Poll Name length must be between 5 and 60 characters"@,
            ),
        )
    } else if !length_accepted(poll.description) {
        Some(
            failure(
                Status::InvalidArgument,
                "Poll Description length must be between 5 and 60 characters"@,
            ),
        )
    } else {
        None
    }
}

/// Why a list of polls is refused, if it is: the complaint about the first
/// poll that has one.
pub open spec fn poll_drafts_rejection(polls: Seq<PollDraft>) -> Option<ErrorView>
    decreases polls.len(),
{
    if polls.len() == 0 {
        None
    } else if poll_draft_rejection(polls[0]) is Some {
        poll_draft_rejection(polls[0])
    } else {
        poll_drafts_rejection(polls.drop_first())
    }
}

/// Why a request to create a voting is refused, if it is: the name is looked
/// at first, then the number of polls, then each poll in turn.
pub open spec fn create_voting_rejection(name: Seq<char>, polls: Seq<PollDraft>) -> Option<
    ErrorView,
> {
    if !length_accepted(name) {
        Some(
            failure(
                Status::InvalidArgument,
                "Voting Name length must be between 5 and 60 characters"@,
            ),
        )
    } else if !poll_count_accepted(polls.len()) {
        Some(failure(Status::InvalidArgument, "Voting must have between 1 and 100 polls"@))
    } else {
        poll_drafts_rejection(polls)
    }
}

/// Why a request to register a voter is refused, if it is.
pub open spec fn create_voter_rejection(username: Seq<char>) -> Option<ErrorView> {
    if !length_accepted(username) {
        Some(
            failure(
                Status::InvalidArgument,
                "Voter username length must be between 5 and 60 characters"@,
            ),
        )
    } else {
        None
    }
}

/// Why a voting identifier is refused, if it is: it does not take exactly 36
/// bytes. The reason tells the length that was found.
pub open spec fn voting_id_rejection(voting_id: Seq<char>) -> Option<ErrorView> {
    if byte_len(voting_id) != 36 {
        Some(
            failure(
                Status::InvalidArgument,
                "Voting id must be of fixed length of: 36 was: "@ + decimal_nat(
                    byte_len(voting_id),
                ),
            ),
        )
    } else {
        None
    }
}

/// A result's error is the given rejection, and it is `Ok` where there is none.
pub open spec fn answers<T>(
    outcome: Result<T, ErrorResponse>,
    rejection: Option<ErrorView>,
) -> bool {
    match rejection {
        Some(error) => outcome matches Err(e) && e@ == error,
        None => outcome is Ok,
    }
}

fn length_is_accepted(text: &String) -> (accepted: bool)
    ensures
        accepted == length_accepted(text@),
{
    let len = text.as_str().as_bytes().len();
    5 <= len && len <= 60
}

/// Accepts a request to create a voting whose name and whose polls' names and
/// descriptions all take 5 to 60 bytes and which has 1 to 100 polls.
pub fn validate_create_voting_request(input: &CreateVotingRequest) -> (outcome: Result<
    (),
    ErrorResponse,
>)
    ensures
        answers(outcome, create_voting_rejection(input.name@, drafts(input.polls@))),
{
    if !length_is_accepted(&input.name) {
        return Err(
            ErrorResponse::new(
                Status::InvalidArgument,
                "Voting Name length must be between 5 and 60 characters",
            ),
        );
    }
    let count = input.polls.len();
    if count < 1 || count > 100 {
        return Err(
            ErrorResponse::new(Status::InvalidArgument, "Voting must have between 1 and 100 polls"),
        );
    }
    validate_create_voting_polls_request(&input.polls)
}

/// Accepts a request to register a voter whose username takes 5 to 60 bytes.
pub fn validate_create_voter_request(input: &CreateVoterRequest) -> (outcome: Result<
    (),
    ErrorResponse,
>)
    ensures
        answers(outcome, create_voter_rejection(input.username@)),
{
    if length_is_accepted(&input.username) {
        Ok(())
    } else {
        Err(
            ErrorResponse::new(
                Status::InvalidArgument,
                "Voter username length must be between 5 and 60 characters",
            ),
        )
    }
}

/// Accepts a voting identifier of exactly 36 bytes.
pub fn validate_voting_id(voting_id: &String) -> (outcome: Result<(), ErrorResponse>)
    ensures
        answers(outcome, voting_id_rejection(voting_id@)),
{
    let len = voting_id.as_str().as_bytes().len();
    if len == VOTING_ID_LENGTH {
        Ok(())
    } else {
        let mut reason = String::from_str("Voting id must be of fixed length of: 36 was: ");
        push_decimal(&mut reason, len as u64);
        Err(ErrorResponse { reason, status: Status::InvalidArgument })
    }
}

/// Accepts a list of polls in which every name and every description takes 5
/// to 60 bytes; complains about the first that does not.
pub fn validate_create_voting_polls_request(polls: &Vec<CreateVotingPollRequest>) -> (outcome:
    Result<(), ErrorResponse>)
    ensures
        answers(outcome, poll_drafts_rejection(drafts(polls@))),
{
    let ghost all = drafts(polls@);
    assert(all.skip(0) =~= all);
    let mut i: usize = 0;
    while i < polls.len()
        invariant
            i <= polls.len(),
            all == drafts(polls@),
            poll_drafts_rejection(all) == poll_drafts_rejection(all.skip(i as int)),
        decreases polls.len() - i,
    {
        let poll = &polls[i];
        proof {
            assert(all.skip(i as int)[0] == poll@);
            assert(all.skip(i as int).drop_first() =~= all.skip(i as int + 1));
        }
        if !length_is_accepted(&poll.name) {
            return Err(
                ErrorResponse::new(
                    Status::InvalidArgument,
                    "Poll Name length must be between 5 and 60 characters",
                ),
            );
        }
        if !length_is_accepted(&poll.description) {
            return Err(
                ErrorResponse::new(
                    Status::InvalidArgument,
                    "Poll Description length must be between 5 and 60 characters",
                ),
            );
        }
        i = i + 1;
    }
    Ok(())
}

} // verus!
