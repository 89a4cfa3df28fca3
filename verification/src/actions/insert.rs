//! Writing new rows. A row gets a fresh random identifier; whether it is
//! accepted is decided by the store's constraints at the moment of the write.

use crate::models::{Poll, PollView, Vote, VoteView, Voter, VoterView};
use crate::store::{Store, StoreError, StoreView};
use crate::utils::{failure, generate_uuid, is_hyphenated_uuid, ErrorResponse, ErrorView, Status};
use crate::writes::new_voting;
use vstd::prelude::*;
use vstd::string::StringExecFns;

verus! {

/// An answer as it is written in a reason.
pub open spec fn answer_text(answer: Option<bool>) -> Seq<char> {
    match answer {
        Some(true) => "Some(true)"@,
        Some(false) => "Some(false)"@,
        None => "None"@,
    }
}

/// The failure with which a refused voter is answered.
pub open spec fn voter_write_failure(voter: VoterView) -> ErrorView {
    failure(Status::Internal, "Could not insert voter for voting with id: "@ + voter.voting_fk)
}

/// The failure with which a refused vote is answered: `Conflict` where the
/// voter has already voted on the poll, `Internal` otherwise.
pub open spec fn vote_write_failure(refusal: StoreError, vote: VoteView) -> ErrorView {
    if refusal == StoreError::DuplicateVote {
        failure(
            Status::Conflict,
            "Voter already voted on poll with id: "@ + vote.poll_fk,
        )
    } else {
        failure(
            Status::Internal,
            "Could not insert vote for poll id: "@ + vote.poll_fk + " and voter id: "@
                + vote.voter_fk + " with answer: "@ + answer_text(vote.answer),
        )
    }
}

/// What the write of a poll does to the store and answers: one written row,
/// or the store's refusal.
pub open spec fn poll_inserted(
    before: StoreView,
    after: StoreView,
    outcome: Result<usize, StoreError>,
    poll: PollView,
) -> bool {
    match before.poll_refusal(poll) {
        Some(refusal) => outcome == Err::<usize, StoreError>(refusal) && after == before,
        None => outcome == Ok::<usize, StoreError>(1) && after == before.with_poll(poll),
    }
}

/// What the write of a voter does to the store and answers.
pub open spec fn voter_inserted(
    before: StoreView,
    after: StoreView,
    outcome: Result<(), ErrorView>,
    voter: VoterView,
) -> bool {
    match before.voter_refusal(voter) {
        Some(_) => outcome == Err::<(), ErrorView>(voter_write_failure(voter)) && after == before,
        None => outcome is Ok && after == before.with_voter(voter),
    }
}

/// What the write of a vote does to the store and answers.
pub open spec fn vote_inserted(
    before: StoreView,
    after: StoreView,
    outcome: Result<(), ErrorView>,
    vote: VoteView,
) -> bool {
    match before.vote_refusal(vote) {
        Some(refusal) => outcome == Err::<(), ErrorView>(vote_write_failure(refusal, vote))
            && after == before,
        None => outcome is Ok && after == before.with_vote(vote),
    }
}

/// The outcome of a write as the contracts see it.
pub open spec fn answered(outcome: Result<(), ErrorResponse>) -> Result<(), ErrorView> {
    match outcome {
        Ok(_) => Ok(()),
        Err(error) => Err(error@),
    }
}

/// The failure with which a voter that was not written is answered.
pub fn voter_insert_failed(voter: &Voter) -> (error: ErrorResponse)
    ensures
        error@ == voter_write_failure(voter@),
{
    ErrorResponse::with_detail(
        Status::Internal,
        "Could not insert voter for voting with id: ",
        voter.voting_fk.as_str(),
    )
}

/// The failure with which a vote that was not written is answered, given why
/// the store refused it.
pub fn vote_insert_failed(refusal: StoreError, vote: &Vote) -> (error: ErrorResponse)
    ensures
        error@ == vote_write_failure(refusal, vote@),
{
    match refusal {
        StoreError::DuplicateVote => ErrorResponse::with_detail(
            Status::Conflict,
            "Voter already voted on poll with id: ",
            vote.poll_fk.as_str(),
        ),
        _ => {
            let mut reason = String::from_str("Could not insert vote for poll id: ");
            reason.append(vote.poll_fk.as_str());
            reason.append(" and voter id: ");
            reason.append(vote.voter_fk.as_str());
            reason.append(" with answer: ");
            match vote.answer {
                Some(true) => reason.append("Some(true)"),
                Some(false) => reason.append("Some(false)"),
                None => reason.append("None"),
            }
            ErrorResponse { reason, status: Status::Internal }
        },
    }
}

/// Writes a poll under a fresh identifier and reports one written row.
pub fn insert_poll(
    conn: &mut Store,
    name: &String,
    sequenz_number: i32,
    description: &String,
    voting_fk: &String,
) -> (outcome: Result<usize, StoreError>)
    ensures
        exists|id: Seq<char>|
            is_hyphenated_uuid(id) && #[trigger] poll_inserted(
                old(conn)@,
                final(conn)@,
                outcome,
                PollView {
                    id,
                    sequenz_number,
                    voting_fk: voting_fk@,
                    name: name@,
                    description: description@,
                },
            ),
        old(conn)@.wf() ==> final(conn)@.wf(),
{
    let poll = Poll {
        id: generate_uuid(),
        sequenz_number,
        voting_fk: voting_fk.clone(),
        name: name.clone(),
        description: description.clone(),
    };
    let ghost row = poll@;
    let outcome = match conn.add_poll(poll) {
        Ok(_) => Ok(1),
        Err(refusal) => Err(refusal),
    };
    assert(poll_inserted(old(conn)@, conn@, outcome, row));
    outcome
}

/// Writes a voter whose identifier is already chosen.
pub fn insert_voter_row(conn: &mut Store, voter: Voter) -> (outcome: Result<(), ErrorResponse>)
    ensures
        voter_inserted(old(conn)@, final(conn)@, answered(outcome), voter@),
        old(conn)@.wf() ==> final(conn)@.wf(),
{
    let failure = voter_insert_failed(&voter);
    match conn.add_voter(voter) {
        Ok(_) => Ok(()),
        Err(_) => Err(failure),
    }
}

/// Writes a voter of a voting under a fresh identifier.
pub fn insert_voter(
    conn: &mut Store,
    username: &String,
    voter_key_hash: &String,
    voting_id: &String,
) -> (outcome: Result<(), ErrorResponse>)
    ensures
        exists|id: Seq<char>|
            is_hyphenated_uuid(id) && #[trigger] voter_inserted(
                old(conn)@,
                final(conn)@,
                answered(outcome),
                VoterView {
                    id,
                    voter_key_hash: voter_key_hash@,
                    voting_fk: voting_id@,
                    username: username@,
                },
            ),
        old(conn)@.wf() ==> final(conn)@.wf(),
{
    let voter = Voter {
        id: generate_uuid(),
        voter_key_hash: voter_key_hash.clone(),
        voting_fk: voting_id.clone(),
        username: username.clone(),
    };
    let ghost row = voter@;
    let outcome = insert_voter_row(conn, voter);
    assert(voter_inserted(old(conn)@, conn@, answered(outcome), row));
    outcome
}

/// Writes a vote whose identifier is already chosen. A voter's second vote on
/// a poll is answered with `Conflict`, whatever the identifier.
pub fn insert_vote_row(conn: &mut Store, vote: Vote) -> (outcome: Result<(), ErrorResponse>)
    ensures
        vote_inserted(old(conn)@, final(conn)@, answered(outcome), vote@),
        old(conn)@.wf() ==> final(conn)@.wf(),
{
    let copy = vote.duplicate();
    match conn.add_vote(vote) {
        Ok(_) => Ok(()),
        Err(refusal) => Err(vote_insert_failed(refusal, &copy)),
    }
}

/// Writes the vote of a voter on a poll under a fresh identifier. The write is
/// the arbiter between two votes of one voter on one poll: the second is
/// answered with `Conflict`.
pub fn insert_vote(
    conn: &mut Store,
    poll_id: &String,
    voter_id: &String,
    answer: &Option<bool>,
) -> (outcome: Result<(), ErrorResponse>)
    ensures
        exists|id: Seq<char>|
            is_hyphenated_uuid(id) && #[trigger] vote_inserted(
                old(conn)@,
                final(conn)@,
                answered(outcome),
                VoteView { id, poll_fk: poll_id@, voter_fk: voter_id@, answer: *answer },
            ),
        old(conn)@.vote_of(poll_id@, voter_id@) is Some ==> (outcome matches Err(error)
            && error.status == Status::Conflict),
        old(conn)@.wf() ==> final(conn)@.wf(),
{
    let vote = Vote {
        id: generate_uuid(),
        poll_fk: poll_id.clone(),
        voter_fk: voter_id.clone(),
        answer: *answer,
    };
    let ghost row = vote@;
    let outcome = insert_vote_row(conn, vote);
    assert(vote_inserted(old(conn)@, conn@, answered(outcome), row));
    outcome
}

/// Writes a voting under a fresh identifier, with no poll open, and hands the
/// identifier back.
pub fn insert_voting(conn: &mut Store, name: &String, admin_key_hash: &String) -> (outcome: Result<
    String,
    StoreError,
>)
    ensures
        match outcome {
            Ok(id) => {
                &&& is_hyphenated_uuid(id@)
                &&& old(conn)@.voting_refusal(id@) is None
                &&& final(conn)@ == old(conn)@.with_voting(
                    new_voting(id@, name@, admin_key_hash@),
                )
            },
            Err(refusal) => {
                &&& final(conn)@ == old(conn)@
                &&& exists|id: Seq<char>|
                    is_hyphenated_uuid(id) && #[trigger] old(conn)@.voting_refusal(id) == Some(
                        refusal,
                    )
            },
        },
        old(conn)@.wf() ==> final(conn)@.wf(),
{
    let id = generate_uuid();
    match conn.add_voting(id.clone(), name.clone(), admin_key_hash.clone()) {
        Ok(_) => Ok(id),
        Err(refusal) => {
            assert(old(conn)@.voting_refusal(id@) == Some(refusal));
            Err(refusal)
        },
    }
}

} // verus!
