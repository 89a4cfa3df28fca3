//! Looking rows up. What is not there is answered with `NotFound`; a count
//! that does not fit the type it is reported in, with `Internal`.

use crate::models::{
    Poll, PollResult, PollResultView, PollView, Vote, Voter, VoterView, Voting, VotingView,
};
use crate::rows::{same_text, views};
use crate::store::{poll_in, Store, StoreView};
use crate::text::{decimal, push_signed};
use crate::utils::{failure, AuthenticatedUser, ErrorResponse, ErrorView, Status};
use vstd::prelude::*;
use vstd::string::StringExecFns;

verus! {

/// A result as the contracts see it: what was found or the failure, each by
/// its view.
pub open spec fn seen<T: View>(outcome: Result<T, ErrorResponse>) -> Result<T::V, ErrorView> {
    match outcome {
        Ok(value) => Ok(value@),
        Err(error) => Err(error@),
    }
}

/// The failure that tells that no voting has the identifier `id`.
pub open spec fn voting_not_found(id: Seq<char>) -> ErrorView {
    failure(Status::NotFound, "Voting with id: "@ + id + " not found"@)
}

/// The failure that tells that no voter presents the caller's key. It does
/// not repeat the key.
pub open spec fn voter_not_found() -> ErrorView {
    failure(Status::NotFound, "Voter not found with key: REDACTED"@)
}

/// The failure that tells that a voting has no poll at `index`.
pub open spec fn poll_not_found(index: i32, voting_id: Seq<char>) -> ErrorView {
    failure(
        Status::NotFound,
        "Poll at index: "@ + decimal(index as int) + " for voting with id: "@ + voting_id
            + " not found"@,
    )
}

/// The failure that tells that a poll was asked for at a negative position.
pub open spec fn poll_query_failed(index: i32, voting_id: Seq<char>) -> ErrorView {
    failure(
        Status::Internal,
        "Could not query database for poll at index: "@ + decimal(index as int)
            + " for voting with id: "@ + voting_id,
    )
}

/// The failure that tells that the store could not be asked for a voting.
pub open spec fn voting_query_failure(voting_id: Seq<char>) -> ErrorView {
    failure(Status::Internal, "Could not query database for voting with id: "@ + voting_id)
}

/// The failure that tells that the store could not be asked for the voter
/// that presents the caller's key. It does not repeat the key.
pub open spec fn voter_query_failure() -> ErrorView {
    failure(Status::Internal, "Could not query database for voter with key: REDACTED"@)
}

/// The failure that tells that the store could not be asked for the votes on
/// the polls of a voting.
pub open spec fn vote_query_failure(voting_id: Seq<char>) -> ErrorView {
    failure(Status::Internal, "Could not query database for votes of voting with id: "@ + voting_id)
}

/// The failure that tells that the polls of a voting could not be counted.
pub open spec fn poll_count_failed(voting_id: Seq<char>) -> ErrorView {
    failure(
        Status::Internal,
        "Could not load the amount of polls for voting with id: "@ + voting_id,
    )
}

/// The failure that tells that the voters of a voting could not be counted.
pub open spec fn voter_count_failed(voting_id: Seq<char>) -> ErrorView {
    failure(
        Status::Internal,
        "Could not load the amount of voters for voting with id: "@ + voting_id,
    )
}

/// The failure that tells that the polls of a voting could not be loaded.
pub open spec fn polls_load_failed(voting_id: Seq<char>) -> ErrorView {
    failure(Status::Internal, "Could not load polls to voting with id: "@ + voting_id)
}

impl StoreView {
    /// The voting with the identifier `id`, or `NotFound`.
    pub open spec fn find_voting(self, id: Seq<char>) -> Result<VotingView, ErrorView> {
        match self.voting(id) {
            Some(voting) => Ok(voting),
            None => Err(voting_not_found(id)),
        }
    }

    /// The voter whose key hashes to `key_hash`, or `NotFound`.
    pub open spec fn find_voter(self, key_hash: Seq<char>) -> Result<VoterView, ErrorView> {
        match self.voter_with_key(key_hash) {
            Some(voter) => Ok(voter),
            None => Err(voter_not_found()),
        }
    }

    /// The number of polls of a voting, or `Internal` where it is above
    /// `i32::MAX`.
    pub open spec fn find_amount_of_polls(self, voting_id: Seq<char>) -> Result<i32, ErrorView> {
        if self.polls_of(voting_id).len() <= i32::MAX {
            Ok(self.polls_of(voting_id).len() as i32)
        } else {
            Err(poll_count_failed(voting_id))
        }
    }

    /// The number of voters of a voting, or `Internal` where it is above
    /// `i32::MAX`.
    pub open spec fn find_amount_of_voters(self, voting_id: Seq<char>) -> Result<i32, ErrorView> {
        if self.voters_of(voting_id).len() <= i32::MAX {
            Ok(self.voters_of(voting_id).len() as i32)
        } else {
            Err(voter_count_failed(voting_id))
        }
    }

    /// The poll at position `index` of a voting: `Internal` for a negative
    /// position, `NotFound` for one at or above the number of polls.
    pub open spec fn find_poll_at_index(self, voting_id: Seq<char>, index: i32) -> Result<
        PollView,
        ErrorView,
    > {
        if index < 0 {
            Err(poll_query_failed(index, voting_id))
        } else if index >= self.polls_of(voting_id).len() {
            Err(poll_not_found(index, voting_id))
        } else {
            Ok(self.polls_of(voting_id)[index as int])
        }
    }

    /// A poll with the number of votes of each kind cast on it.
    pub open spec fn poll_result(self, poll: PollView) -> PollResultView {
        PollResultView {
            id: poll.id,
            sequenz_number: poll.sequenz_number,
            voting_fk: poll.voting_fk,
            name: poll.name,
            description: poll.description,
            votes_accept: self.votes_answering(poll.id, Some(true)) as i64,
            votes_decline: self.votes_answering(poll.id, Some(false)) as i64,
            votes_abstain: self.votes_answering(poll.id, None) as i64,
            votes_total: self.votes_on(poll.id) as i64,
        }
    }

    /// Whether the votes on every poll of a voting can be counted in an `i64`.
    pub open spec fn tallies_fit(self, voting_id: Seq<char>) -> bool {
        forall|i: int|
            0 <= i < self.polls_of(voting_id).len() ==> self.votes_on(
                (#[trigger] self.polls_of(voting_id)[i]).id,
            ) <= i64::MAX
    }

    /// The polls of a voting in ascending sequence order, each with its tally.
    pub open spec fn poll_results(self, voting_id: Seq<char>) -> Seq<PollResultView> {
        Seq::new(
            self.polls_of(voting_id).len(),
            |i: int| self.poll_result(self.polls_of(voting_id)[i]),
        )
    }

    /// The tallied polls of a voting, or `Internal` where a tally does not fit.
    pub open spec fn find_poll_results(self, voting_id: Seq<char>) -> Result<
        Seq<PollResultView>,
        ErrorView,
    > {
        if self.tallies_fit(voting_id) {
            Ok(self.poll_results(voting_id))
        } else {
            Err(polls_load_failed(voting_id))
        }
    }
}

/// The failure with which a request is answered when the store cannot be
/// asked for its voting.
pub fn voting_query_failed(voting_id: &String) -> (error: ErrorResponse)
    ensures
        error@ == voting_query_failure(voting_id@),
{
    ErrorResponse::with_detail(
        Status::Internal,
        "Could not query database for voting with id: ",
        voting_id.as_str(),
    )
}

/// The failure with which a request is answered when the store cannot be
/// asked for the voter that presents the caller's key.
pub fn voter_query_failed() -> (error: ErrorResponse)
    ensures
        error@ == voter_query_failure(),
{
    ErrorResponse::new(Status::Internal, "Could not query database for voter with key: REDACTED")
}

/// The failure with which a request is answered when the polls of its voting
/// cannot be loaded.
pub fn polls_query_failed(voting_id: &String) -> (error: ErrorResponse)
    ensures
        error@ == polls_load_failed(voting_id@),
{
    ErrorResponse::with_detail(
        Status::Internal,
        "Could not load polls to voting with id: ",
        voting_id.as_str(),
    )
}

/// The failure with which a request is answered when the store cannot be
/// asked for the votes on the polls of its voting.
pub fn vote_query_failed(voting_id: &String) -> (error: ErrorResponse)
    ensures
        error@ == vote_query_failure(voting_id@),
{
    ErrorResponse::with_detail(
        Status::Internal,
        "Could not query database for votes of voting with id: ",
        voting_id.as_str(),
    )
}

/// The number of polls of a voting.
pub fn find_amount_of_polls(conn: &Store, voting: &Voting) -> (outcome: Result<i32, ErrorResponse>)
    ensures
        seen(outcome) == conn@.find_amount_of_polls(voting.id@),
{
    let count = conn.count_polls(&voting.id);
    if count <= 2147483647 {
        Ok(count as i32)
    } else {
        Err(
            ErrorResponse::with_detail(
                Status::Internal,
                "Could not load the amount of polls for voting with id: ",
                voting.id.as_str(),
            ),
        )
    }
}

/// The number of voters of a voting.
pub fn find_amount_of_voters(conn: &Store, voting_id: &String) -> (outcome: Result<
    i32,
    ErrorResponse,
>)
    ensures
        seen(outcome) == conn@.find_amount_of_voters(voting_id@),
{
    let count = conn.count_voters(voting_id);
    if count <= 2147483647 {
        Ok(count as i32)
    } else {
        Err(
            ErrorResponse::with_detail(
                Status::Internal,
                "Could not load the amount of voters for voting with id: ",
                voting_id.as_str(),
            ),
        )
    }
}

/// The voter that presents the caller's key.
pub fn find_voter(conn: &Store, user: &AuthenticatedUser) -> (outcome: Result<Voter, ErrorResponse>)
    ensures
        seen(outcome) == conn@.find_voter(user@),
{
    match conn.voter_position_by_key(user.key_hash()) {
        Some(place) => Ok(conn.voters[place].duplicate()),
        None => Err(ErrorResponse::new(Status::NotFound, "Voter not found with key: REDACTED")),
    }
}

/// The poll at position `index` of a voting, counted from zero in ascending
/// sequence order.
pub fn find_poll_at_index(conn: &Store, voting: &Voting, index: i32) -> (outcome: Result<
    Poll,
    ErrorResponse,
>)
    ensures
        seen(outcome) == conn@.find_poll_at_index(voting.id@, index),
{
    if index < 0 {
        let mut reason = String::from_str("Could not query database for poll at index: ");
        push_signed(&mut reason, index as i64);
        reason.append(" for voting with id: ");
        reason.append(voting.id.as_str());
        return Err(ErrorResponse { reason, status: Status::Internal });
    }
    let polls = polls_of(conn, &voting.id);
    if index as usize >= polls.len() {
        let mut reason = String::from_str("Poll at index: ");
        push_signed(&mut reason, index as i64);
        reason.append(" for voting with id: ");
        reason.append(voting.id.as_str());
        reason.append(" not found");
        return Err(ErrorResponse { reason, status: Status::NotFound });
    }
    Ok(polls[index as usize].duplicate())
}

fn polls_of(conn: &Store, voting_id: &String) -> (polls: Vec<Poll>)
    ensures
        views(polls@) == conn@.polls_of(voting_id@),
{
    let ghost wanted = poll_in(voting_id@);
    let mut polls: Vec<Poll> = Vec::new();
    let mut i: usize = 0;
    assert(views(polls@) =~= conn@.polls.take(0).filter(wanted)) by {
        conn@.polls.take(0).lemma_filter_len(wanted);
    }
    while i < conn.polls.len()
        invariant
            i <= conn.polls.len(),
            wanted == poll_in(voting_id@),
            views(polls@) == conn@.polls.take(i as int).filter(wanted),
        decreases conn.polls.len() - i,
    {
        proof {
            conn@.polls.lemma_take_succ_push(i as int);
            conn@.polls.take(i as int).lemma_filter_push(conn@.polls[i as int], wanted);
        }
        if same_text(&conn.polls[i].voting_fk, voting_id) {
            let poll = conn.polls[i].duplicate();
            proof {
                assert(views(polls@.push(poll)) =~= views(polls@).push(poll@));
            }
            polls.push(poll);
        }
        i = i + 1;
    }
    proof {
        conn@.polls.lemma_take_len();
    }
    polls
}

/// The polls of a voting in ascending sequence order.
pub fn find_polls(conn: &Store, voting_id: &String) -> (outcome: Result<Vec<Poll>, ErrorResponse>)
    ensures
        outcome matches Ok(polls) && views(polls@) == conn@.polls_of(voting_id@),
{
    Ok(polls_of(conn, voting_id))
}

/// The polls of a voting in ascending sequence order, each with the number of
/// votes of each kind cast on it.
pub fn find_poll_results(conn: &Store, voting_id: &String) -> (outcome: Result<
    Vec<PollResult>,
    ErrorResponse,
>)
    ensures
        match conn@.find_poll_results(voting_id@) {
            Ok(results) => outcome matches Ok(found) && views(found@) == results,
            Err(error) => outcome matches Err(e) && e@ == error,
        },
{
    let polls = polls_of(conn, voting_id);
    let mut results: Vec<PollResult> = Vec::new();
    let mut i: usize = 0;
    while i < polls.len()
        invariant
            i <= polls.len(),
            views(polls@) == conn@.polls_of(voting_id@),
            results.len() == i,
            forall|j: int|
                0 <= j < i ==> conn@.votes_on((#[trigger] conn@.polls_of(voting_id@)[j]).id)
                    <= i64::MAX,
            forall|j: int|
                0 <= j < i ==> (#[trigger] results[j])@ == conn@.poll_result(
                    conn@.polls_of(voting_id@)[j],
                ),
        decreases polls.len() - i,
    {
        let poll = &polls[i];
        assert(poll@ == conn@.polls_of(voting_id@)[i as int]);
        let total = conn.count_votes(&poll.id);
        if total as u64 > 9223372036854775807u64 {
            return Err(polls_query_failed(voting_id));
        }
        let accept = conn.count_answers(&poll.id, Some(true));
        let decline = conn.count_answers(&poll.id, Some(false));
        let abstain = conn.count_answers(&poll.id, None);
        proof {
            crate::tally::lemma_votes_add_up(conn@.votes, poll.id@);
        }
        let result = PollResult {
            id: poll.id.clone(),
            sequenz_number: poll.sequenz_number,
            voting_fk: poll.voting_fk.clone(),
            name: poll.name.clone(),
            description: poll.description.clone(),
            votes_accept: accept as i64,
            votes_decline: decline as i64,
            votes_abstain: abstain as i64,
            votes_total: total as i64,
        };
        results.push(result);
        i = i + 1;
    }
    proof {
        assert(views(results@) =~= conn@.poll_results(voting_id@));
    }
    Ok(results)
}

/// The voting with the identifier `voting_id`.
pub fn find_voting(conn: &Store, voting_id: &String) -> (outcome: Result<Voting, ErrorResponse>)
    ensures
        seen(outcome) == conn@.find_voting(voting_id@),
{
    match conn.voting_position(voting_id) {
        Some(place) => Ok(conn.votings[place].duplicate()),
        None => {
            let mut reason = String::from_str("Voting with id: ");
            reason.append(voting_id.as_str());
            reason.append(" not found");
            Err(ErrorResponse { reason, status: Status::NotFound })
        },
    }
}

/// The vote of a voter on a poll, if the voter has voted on it.
pub fn find_vote(conn: &Store, poll_id: &String, voter_id: &String) -> (outcome: Result<
    Option<Vote>,
    ErrorResponse,
>)
    ensures
        outcome matches Ok(found) && match conn@.vote_of(poll_id@, voter_id@) {
            Some(vote) => found matches Some(v) && v@ == vote,
            None => found is None,
        },
{
    match conn.vote_position_of(poll_id, voter_id) {
        Some(place) => Ok(Some(conn.votes[place].duplicate())),
        None => Ok(None),
    }
}

} // verus!
