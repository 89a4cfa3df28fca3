//! What holds of the service as a whole, proved from the meaning of its
//! operations.

use crate::dtos::{PollDraft, VoterCredential, VotingCredential};
use crate::models::{PollView, VoteView};
use crate::routes::poll::requested_index;
use crate::routes::vote::already_voted;
use crate::routes::voting::{drafted_poll, drafted_polls};
use crate::rows::{
    first_position, lemma_filter_all, lemma_filter_member, lemma_filter_none, lemma_first_position,
    lemma_first_position_meaning, lemma_first_position_push, lemma_none_wanted, lemma_some_wanted,
};
use crate::tally::lemma_votes_add_up;
use crate::routes::voter::new_voter;
use crate::store::{
    poll_has_id, poll_in, rising, vote_answering, vote_has_id, vote_of_pair, vote_on, voter_has_id,
    voter_has_key, voting_has_id, StoreView,
};
use crate::utils::{is_hyphenated_uuid, lemma_uuid_byte_len, sha256_upper_hex, ErrorView, Status};
use crate::validators::{
    create_voter_rejection, create_voting_rejection, poll_count_accepted, voting_id_rejection,
};
use crate::writes::new_voting;
use vstd::prelude::*;

verus! {

/// In a consistent store, the active poll of every voting is either absent or
/// the position of one of that voting's polls.
pub proof fn lemma_active_poll_is_valid(store: StoreView, voting_id: Seq<char>)
    requires
        store.wf(),
        store.voting(voting_id) is Some,
    ensures
        match store.voting(voting_id)->0.active_poll_index {
            Some(index) => 0 <= index < store.polls_of(voting_id).len(),
            None => true,
        },
{
    lemma_first_position_meaning(store.votings, voting_has_id(voting_id));
}

/// In a consistent store, the polls of a voting rise in their sequence
/// numbers: no two share a position, and they are read in that order.
pub proof fn lemma_polls_rise(store: StoreView, voting_id: Seq<char>, a: int, b: int)
    requires
        store.wf(),
        0 <= a < b < store.polls_of(voting_id).len(),
    ensures
        store.polls_of(voting_id)[a].sequenz_number < store.polls_of(voting_id)[b].sequenz_number,
{
    lemma_polls_rise_in(store.polls, voting_id, a, b);
}

/// Polls that rise within each voting in the order of the table rise in the
/// order in which a voting's polls are read.
proof fn lemma_polls_rise_in(polls: Seq<PollView>, voting_id: Seq<char>, a: int, b: int)
    requires
        rising(polls),
        0 <= a < b < polls.filter(poll_in(voting_id)).len(),
    ensures
        polls.filter(poll_in(voting_id))[a].sequenz_number < polls.filter(
            poll_in(voting_id),
        )[b].sequenz_number,
    decreases polls.len(),
{
    let wanted = poll_in(voting_id);
    if polls.len() == 0 {
        polls.lemma_filter_len(wanted);
    } else {
        let rest = polls.drop_last();
        let last = polls.last();
        assert(polls =~= rest.push(last));
        rest.lemma_filter_push(last, wanted);
        assert forall|i: int, j: int|
            #![trigger rest[i], rest[j]]
            0 <= i < j < rest.len() && rest[i].voting_fk
                == rest[j].voting_fk implies rest[i].sequenz_number < rest[j].sequenz_number by {
            assert(rest[i] == polls[i]);
            assert(rest[j] == polls[j]);
        }
        if b < rest.filter(wanted).len() {
            lemma_polls_rise_in(rest, voting_id, a, b);
        } else {
            lemma_filter_member(rest, wanted, a);
            let i = choose|i: int|
                0 <= i < rest.len() && #[trigger] rest[i] == rest.filter(wanted)[a];
            assert(polls[i] == rest[i]);
            assert(polls[polls.len() - 1] == last);
        }
    }
}

/// A consistent store that accepts polls one after the other is consistent
/// with all of them written.
pub proof fn lemma_accepted_polls_keep_wf(store: StoreView, polls: Seq<PollView>)
    requires
        store.wf(),
        store.accepts_polls(polls),
    ensures
        store.with_polls(polls).wf(),
    decreases polls.len(),
{
    if polls.len() == 0 {
        assert(store.with_polls(polls).polls =~= store.polls);
    } else {
        let next = store.with_poll(polls[0]);
        store.lemma_with_poll_wf(polls[0]);
        lemma_accepted_polls_keep_wf(next, polls.drop_first());
        assert(next.with_polls(polls.drop_first()).polls =~= store.with_polls(polls).polls);
    }
}

/// Creating a voting keeps a consistent store consistent, whatever the
/// outcome.
pub proof fn lemma_creating_a_voting_keeps_wf(
    store: StoreView,
    after: StoreView,
    outcome: Result<VotingCredential, ErrorView>,
    name: Seq<char>,
    polls: Seq<PollDraft>,
    admin_key: Seq<char>,
    voting_id: Seq<char>,
    poll_ids: Seq<Seq<char>>,
)
    requires
        store.wf(),
        store.voting_created(after, outcome, name, polls, admin_key, voting_id, poll_ids),
    ensures
        after.wf(),
{
    if outcome is Ok {
        let voting = new_voting(voting_id, name, sha256_upper_hex(admin_key));
        store.lemma_with_voting_wf(voting);
        lemma_accepted_polls_keep_wf(
            store.with_voting(voting),
            drafted_polls(polls, poll_ids, voting_id),
        );
    }
}

/// A voting is created with between 1 and 100 polls, and a consistent store
/// then holds exactly the polls of the request for it: as many as were
/// submitted, in the order in which they were submitted, the poll at position
/// `i` with the sequence number `10 * i`.
pub proof fn lemma_created_voting_has_submitted_polls(
    store: StoreView,
    after: StoreView,
    outcome: Result<VotingCredential, ErrorView>,
    name: Seq<char>,
    polls: Seq<PollDraft>,
    admin_key: Seq<char>,
    voting_id: Seq<char>,
    poll_ids: Seq<Seq<char>>,
)
    requires
        store.wf(),
        store.voting_created(after, outcome, name, polls, admin_key, voting_id, poll_ids),
        outcome is Ok,
    ensures
        1 <= polls.len() <= 100,
        after.polls_of(voting_id).len() == polls.len(),
        forall|i: int|
            0 <= i < polls.len() ==> #[trigger] after.polls_of(voting_id)[i] == drafted_poll(
                polls[i],
                poll_ids[i],
                i,
                voting_id,
            ),
        forall|i: int|
            0 <= i < polls.len() ==> (#[trigger] after.polls_of(voting_id)[i]).sequenz_number
                == 10 * i,
        after.voting(voting_id) == Some(new_voting(voting_id, name, sha256_upper_hex(admin_key))),
{
    let voting = new_voting(voting_id, name, sha256_upper_hex(admin_key));
    let rows = drafted_polls(polls, poll_ids, voting_id);
    let wanted = poll_in(voting_id);
    lemma_first_position_meaning(store.votings, voting_has_id(voting_id));
    assert forall|j: int| 0 <= j < store.polls.len() implies !wanted(
        #[trigger] store.polls[j],
    ) by {
        if store.polls[j].voting_fk == voting_id {
            assert(store.voting(store.polls[j].voting_fk) is Some);
        }
    }
    lemma_filter_none(store.polls, wanted);
    assert forall|j: int| 0 <= j < rows.len() implies wanted(#[trigger] rows[j]) by {}
    lemma_filter_all(rows, wanted);
    Seq::filter_distributes_over_add(store.polls, rows, wanted);
    assert(after.polls_of(voting_id) =~= rows);
    lemma_first_position_push(store.votings, voting_has_id(voting_id), voting);
    assert(after.votings[store.votings.len() as int] == voting);
}

/// A request to create a voting with no poll or with more than 100 polls is
/// answered with `InvalidArgument`, and nothing is written.
pub proof fn lemma_poll_count_is_checked_first(
    store: StoreView,
    after: StoreView,
    outcome: Result<VotingCredential, ErrorView>,
    name: Seq<char>,
    polls: Seq<PollDraft>,
    admin_key: Seq<char>,
    voting_id: Seq<char>,
    poll_ids: Seq<Seq<char>>,
)
    requires
        store.voting_created(after, outcome, name, polls, admin_key, voting_id, poll_ids),
        !poll_count_accepted(polls.len()),
    ensures
        outcome matches Err(error) && error.status == Status::InvalidArgument,
        after == store,
{
}

/// A vote is cast only on the poll that is open, only by a voter of the
/// voting, and only where that voter has no vote on the poll yet; the voter
/// then has exactly the vote it cast.
pub proof fn lemma_cast_vote_was_permitted(
    store: StoreView,
    after: StoreView,
    outcome: Result<(), ErrorView>,
    voting_id: Seq<char>,
    poll_index: i32,
    answer: Option<bool>,
    key_hash: Seq<char>,
    vote_id: Seq<char>,
)
    requires
        store.vote_cast(after, outcome, voting_id, poll_index, answer, key_hash, vote_id),
        outcome is Ok,
    ensures
        store.voting(voting_id) matches Some(voting) && voting.active_poll_index == Some(
            poll_index,
        ),
        0 <= poll_index < store.polls_of(voting_id).len(),
        store.voter_with_key(key_hash) matches Some(voter) && voter.voting_fk == voting_id && {
            let poll = store.polls_of(voting_id)[poll_index as int];
            &&& store.vote_of(poll.id, voter.id) is None
            &&& after.vote_of(poll.id, voter.id) == Some(
                VoteView { id: vote_id, poll_fk: poll.id, voter_fk: voter.id, answer },
            )
            &&& after == store.with_vote(
                VoteView { id: vote_id, poll_fk: poll.id, voter_fk: voter.id, answer },
            )
        },
{
    let (poll, voter) = store.vote_admission(voting_id, poll_index, key_hash)->Ok_0;
    let vote = VoteView { id: vote_id, poll_fk: poll.id, voter_fk: voter.id, answer };
    lemma_first_position_push(store.votes, vote_of_pair(poll.id, voter.id), vote);
    assert(after.votes[store.votes.len() as int] == vote);
}

/// In a consistent store, a vote that may be cast is cast, provided its
/// identifier is new: casting a vote succeeds exactly where the poll is open,
/// the caller is a voter of the voting, and the voter has not voted on the
/// poll before.
pub proof fn lemma_permitted_vote_is_cast(
    store: StoreView,
    after: StoreView,
    outcome: Result<(), ErrorView>,
    voting_id: Seq<char>,
    poll_index: i32,
    answer: Option<bool>,
    key_hash: Seq<char>,
    vote_id: Seq<char>,
)
    requires
        store.wf(),
        store.vote_cast(after, outcome, voting_id, poll_index, answer, key_hash, vote_id),
        store.vote_admission(voting_id, poll_index, key_hash) is Ok,
        first_position(store.votes, vote_has_id(vote_id)) is None,
    ensures
        outcome is Ok,
{
    let (poll, voter) = store.vote_admission(voting_id, poll_index, key_hash)->Ok_0;
    lemma_filter_member(store.polls, poll_in(voting_id), poll_index as int);
    let i = choose|i: int|
        0 <= i < store.polls.len() && #[trigger] store.polls[i] == store.polls.filter(
            poll_in(voting_id),
        )[poll_index as int];
    lemma_some_wanted(store.polls, poll_has_id(poll.id), i);
    lemma_first_position_meaning(store.voters, voter_has_key(key_hash));
    let k = first_position(store.voters, voter_has_key(key_hash))->0;
    lemma_some_wanted(store.voters, voter_has_id(voter.id), k);
}

/// A voter's second vote on a poll is always answered with `Conflict`, and
/// changes nothing, whatever answer it gives and under whatever identifier.
pub proof fn lemma_second_vote_conflicts(
    store: StoreView,
    between: StoreView,
    after: StoreView,
    second: Result<(), ErrorView>,
    voting_id: Seq<char>,
    poll_index: i32,
    first_answer: Option<bool>,
    second_answer: Option<bool>,
    key_hash: Seq<char>,
    first_id: Seq<char>,
    second_id: Seq<char>,
)
    requires
        store.vote_cast(
            between,
            Ok(()),
            voting_id,
            poll_index,
            first_answer,
            key_hash,
            first_id,
        ),
        between.vote_cast(
            after,
            second,
            voting_id,
            poll_index,
            second_answer,
            key_hash,
            second_id,
        ),
    ensures
        second == Err::<(), ErrorView>(already_voted(poll_index)),
        already_voted(poll_index).status == Status::Conflict,
        after == between,
{
    lemma_cast_vote_was_permitted(
        store,
        between,
        Ok(()),
        voting_id,
        poll_index,
        first_answer,
        key_hash,
        first_id,
    );
}

/// Only the holder of the administrator's key changes the active poll: a
/// request for an existing voting under any other key is answered with
/// `Unauthorized`.
pub proof fn lemma_only_admin_sets_active_poll(
    store: StoreView,
    voting_id: Seq<char>,
    index: Option<u16>,
    key_hash: Seq<char>,
)
    requires
        voting_id_rejection(voting_id) is None,
        store.voting(voting_id) matches Some(voting) && voting.admin_key_hash != key_hash,
    ensures
        store.set_active_poll_rejection(voting_id, index, key_hash) matches Some(error)
            && error.status == Status::Unauthorized,
{
}

/// Only the holder of the administrator's key registers voters: a well-formed
/// request for an existing voting under any other key is answered with
/// `Unauthorized`.
pub proof fn lemma_only_admin_creates_voters(
    store: StoreView,
    voting_id: Seq<char>,
    username: Seq<char>,
    key_hash: Seq<char>,
)
    requires
        voting_id_rejection(voting_id) is None,
        create_voter_rejection(username) is None,
        store.voting(voting_id) matches Some(voting) && voting.admin_key_hash != key_hash,
    ensures
        store.create_voter_rejection(voting_id, username, key_hash) matches Some(error)
            && error.status == Status::Unauthorized,
{
}

/// Whoever changes the active poll or registers a voter holds the
/// administrator's key of the voting.
pub proof fn lemma_admin_operations_need_admin_key(
    store: StoreView,
    voting_id: Seq<char>,
    index: Option<u16>,
    username: Seq<char>,
    key_hash: Seq<char>,
)
    requires
        store.set_active_poll_rejection(voting_id, index, key_hash) is None
            || store.create_voter_rejection(voting_id, username, key_hash) is None,
    ensures
        store.voting(voting_id) matches Some(voting) && voting.admin_key_hash == key_hash,
{
}

/// Only a registered voter of the voting reads its active poll or casts a
/// vote in it.
pub proof fn lemma_voter_operations_need_registration(
    store: StoreView,
    voting_id: Seq<char>,
    poll_index: i32,
    key_hash: Seq<char>,
)
    requires
        store.active_poll(voting_id, key_hash) is Ok || store.vote_admission(
            voting_id,
            poll_index,
            key_hash,
        ) is Ok,
    ensures
        store.voter_with_key(key_hash) matches Some(voter) && voter.voting_fk == voting_id,
{
}

/// A key that no voter presents neither reads the active poll of a voting nor
/// casts a vote in it: both are answered with `NotFound`.
pub proof fn lemma_unregistered_key_is_rejected(
    store: StoreView,
    voting_id: Seq<char>,
    poll_index: i32,
    key_hash: Seq<char>,
)
    requires
        voting_id_rejection(voting_id) is None,
        store.voting(voting_id) is Some,
        store.voter_with_key(key_hash) is None,
    ensures
        store.active_poll(voting_id, key_hash) matches Err(error) && error.status
            == Status::NotFound,
        store.vote_admission(voting_id, poll_index, key_hash) matches Err(error) && error.status
            == Status::NotFound,
{
}

/// A voter of another voting neither reads the active poll of a voting nor
/// casts a vote in it: both are answered with `Unauthorized`.
pub proof fn lemma_foreign_voter_is_rejected(
    store: StoreView,
    voting_id: Seq<char>,
    poll_index: i32,
    key_hash: Seq<char>,
)
    requires
        voting_id_rejection(voting_id) is None,
        store.voting(voting_id) is Some,
        store.voter_with_key(key_hash) matches Some(voter) && voter.voting_fk != voting_id,
    ensures
        store.active_poll(voting_id, key_hash) matches Err(error) && error.status
            == Status::Unauthorized,
        store.vote_admission(voting_id, poll_index, key_hash) matches Err(error) && error.status
            == Status::Unauthorized,
{
}

/// Every identifier that the service hands out for a voting is accepted when
/// it is presented again.
pub proof fn lemma_fresh_identifier_is_accepted(voting_id: Seq<char>)
    requires
        is_hyphenated_uuid(voting_id),
    ensures
        voting_id_rejection(voting_id) is None,
{
    lemma_uuid_byte_len(voting_id);
}

/// Setting the active poll keeps a consistent store consistent: the position
/// that becomes active is the position of a poll of the voting.
pub proof fn lemma_setting_active_poll_keeps_wf(
    store: StoreView,
    voting_id: Seq<char>,
    index: Option<u16>,
    key_hash: Seq<char>,
)
    requires
        store.wf(),
        store.set_active_poll_rejection(voting_id, index, key_hash) is None,
    ensures
        store.activated(voting_id, requested_index(index)).wf(),
        store.activated(voting_id, requested_index(index)).voting(voting_id) matches Some(voting)
            && voting.active_poll_index == requested_index(index),
{
    lemma_first_position_meaning(store.votings, voting_has_id(voting_id));
    let place = first_position(store.votings, voting_has_id(voting_id))->0;
    store.lemma_with_active_wf(place, requested_index(index));
    let next = store.activated(voting_id, requested_index(index));
    assert forall|j: int| 0 <= j < place implies !voting_has_id(voting_id)(
        #[trigger] next.votings[j],
    ) by {
        assert(next.votings[j] == store.votings[j]);
    }
    lemma_first_position(next.votings, voting_has_id(voting_id), place);
}

/// The position that an accepted request makes active is the position of a
/// poll of the voting, and the voting then has exactly that position active;
/// every other voting keeps its active poll.
pub proof fn lemma_active_poll_becomes_a_poll(
    store: StoreView,
    voting_id: Seq<char>,
    index: Option<u16>,
    key_hash: Seq<char>,
    other: int,
)
    requires
        store.set_active_poll_rejection(voting_id, index, key_hash) is None,
        0 <= other < store.votings.len(),
    ensures
        index matches Some(k) ==> 0 <= k < store.polls_of(voting_id).len(),
        store.activated(voting_id, requested_index(index)).votings.len() == store.votings.len(),
        store.votings[other].id != voting_id ==> store.activated(
            voting_id,
            requested_index(index),
        ).votings[other] == store.votings[other],
        store.activated(voting_id, requested_index(index)).polls == store.polls,
{
    lemma_first_position_meaning(store.votings, voting_has_id(voting_id));
}

/// Setting the active poll touches no vote: what was tallied against a poll
/// stays tallied against it, and against it only.
pub proof fn lemma_setting_active_poll_keeps_tallies(
    store: StoreView,
    voting_id: Seq<char>,
    index: Option<i32>,
    poll: PollView,
)
    ensures
        store.activated(voting_id, index).votes == store.votes,
        store.activated(voting_id, index).polls == store.polls,
        store.activated(voting_id, index).poll_result(poll) == store.poll_result(poll),
{
}

/// A vote is tallied against the poll it was cast on, under the answer it
/// gave, and against no other poll and under no other answer.
pub proof fn lemma_vote_is_tallied_once(
    store: StoreView,
    vote: VoteView,
    poll_id: Seq<char>,
    answer: Option<bool>,
)
    ensures
        store.with_vote(vote).votes_on(poll_id) == store.votes_on(poll_id) + if vote.poll_fk
            == poll_id {
            1int
        } else {
            0int
        },
        store.with_vote(vote).votes_answering(poll_id, answer) == store.votes_answering(
            poll_id,
            answer,
        ) + if vote.poll_fk == poll_id && vote.answer == answer {
            1int
        } else {
            0int
        },
{
    store.votes.lemma_filter_len_push(vote_on(poll_id), vote);
    store.votes.lemma_filter_len_push(vote_answering(poll_id, answer), vote);
}

/// The votes on a poll are the votes that accept, decline and abstain.
pub proof fn lemma_tally_adds_up(store: StoreView, poll_id: Seq<char>)
    ensures
        store.votes_on(poll_id) == store.votes_answering(poll_id, Some(true))
            + store.votes_answering(poll_id, Some(false)) + store.votes_answering(poll_id, None),
{
    lemma_votes_add_up(store.votes, poll_id);
}

/// Casting a vote keeps a consistent store consistent, whatever the outcome.
pub proof fn lemma_casting_a_vote_keeps_wf(
    store: StoreView,
    after: StoreView,
    outcome: Result<(), ErrorView>,
    voting_id: Seq<char>,
    poll_index: i32,
    answer: Option<bool>,
    key_hash: Seq<char>,
    vote_id: Seq<char>,
)
    requires
        store.wf(),
        store.vote_cast(after, outcome, voting_id, poll_index, answer, key_hash, vote_id),
    ensures
        after.wf(),
{
    if store.vote_admission(voting_id, poll_index, key_hash) is Ok {
        let (poll, voter) = store.vote_admission(voting_id, poll_index, key_hash)->Ok_0;
        let vote = VoteView { id: vote_id, poll_fk: poll.id, voter_fk: voter.id, answer };
        if store.vote_refusal(vote) is None {
            store.lemma_with_vote_wf(vote);
        }
    }
}

/// Registering a voter keeps a consistent store consistent, whatever the
/// outcome, and the store keeps the hash of the voter's key, never the key.
pub proof fn lemma_registering_a_voter_keeps_wf(
    store: StoreView,
    after: StoreView,
    outcome: Result<VoterCredential, ErrorView>,
    voting_id: Seq<char>,
    username: Seq<char>,
    key_hash: Seq<char>,
    voter_key: Seq<char>,
    voter_id: Seq<char>,
)
    requires
        store.wf(),
        store.voter_created(after, outcome, voting_id, username, key_hash, voter_key, voter_id),
    ensures
        after.wf(),
        outcome is Ok ==> after.voter_with_key(sha256_upper_hex(voter_key)) == Some(
            new_voter(voter_id, voter_key, voting_id, username),
        ),
{
    let voter = new_voter(voter_id, voter_key, voting_id, username);
    if outcome is Ok {
        store.lemma_with_voter_wf(voter);
        lemma_first_position_push(store.voters, voter_has_key(voter.voter_key_hash), voter);
        assert(after.voters[store.voters.len() as int] == voter);
    }
}

/// No two identifiers of a list are the same.
pub open spec fn pairwise_distinct(ids: Seq<Seq<char>>) -> bool {
    forall|i: int, j: int| 0 <= i < j < ids.len() ==> #[trigger] ids[i] != #[trigger] ids[j]
}

/// The polls of a new voting are accepted one after the other from the
/// `k`-th on, once those before it are written.
proof fn lemma_drafted_polls_are_accepted(
    store: StoreView,
    polls: Seq<PollDraft>,
    poll_ids: Seq<Seq<char>>,
    voting_id: Seq<char>,
    k: int,
)
    requires
        0 <= k <= polls.len() <= 100,
        poll_ids.len() == polls.len(),
        store.voting(voting_id) is Some,
        forall|i: int| 0 <= i < store.polls.len() ==> (#[trigger] store.polls[i]).voting_fk
            != voting_id,
        forall|i: int| 0 <= i < poll_ids.len() ==> store.poll(#[trigger] poll_ids[i]) is None,
        pairwise_distinct(poll_ids),
    ensures
        store.with_polls(drafted_polls(polls, poll_ids, voting_id).take(k)).accepts_polls(
            drafted_polls(polls, poll_ids, voting_id).skip(k),
        ),
    decreases polls.len() - k,
{
    let rows = drafted_polls(polls, poll_ids, voting_id);
    let current = store.with_polls(rows.take(k));
    if k < polls.len() {
        let row = rows[k];
        assert(rows.skip(k)[0] == row);
        assert forall|i: int| 0 <= i < current.polls.len() implies !poll_has_id(row.id)(
            #[trigger] current.polls[i],
        ) by {
            if i < store.polls.len() {
                assert(store.poll(poll_ids[k]) is None);
                lemma_first_position_meaning(store.polls, poll_has_id(row.id));
                assert(current.polls[i] == store.polls[i]);
            } else {
                assert(current.polls[i] == rows[i - store.polls.len()]);
                assert(poll_ids[i - store.polls.len()] != poll_ids[k]);
            }
        }
        lemma_none_wanted(current.polls, poll_has_id(row.id));
        assert forall|i: int| 0 <= i < current.polls.len() implies !((
        #[trigger] current.polls[i]).voting_fk == voting_id && current.polls[i].sequenz_number
            >= row.sequenz_number) by {
            if i < store.polls.len() {
                assert(current.polls[i] == store.polls[i]);
            } else {
                assert(current.polls[i] == rows[i - store.polls.len()]);
            }
        }
        assert(current.poll_refusal(row) is None);
        assert(current.with_poll(row).polls =~= store.with_polls(rows.take(k + 1)).polls);
        assert(rows.skip(k).drop_first() =~= rows.skip(k + 1));
        lemma_drafted_polls_are_accepted(store, polls, poll_ids, voting_id, k + 1);
    }
}

/// A consistent store writes a well-formed voting whenever the identifiers
/// chosen for it are new: the voting's is not in the store, and the polls'
/// are neither in the store nor chosen twice.
pub proof fn lemma_new_identifiers_are_accepted(
    store: StoreView,
    after: StoreView,
    outcome: Result<VotingCredential, ErrorView>,
    name: Seq<char>,
    polls: Seq<PollDraft>,
    admin_key: Seq<char>,
    voting_id: Seq<char>,
    poll_ids: Seq<Seq<char>>,
)
    requires
        store.wf(),
        store.voting_created(after, outcome, name, polls, admin_key, voting_id, poll_ids),
        create_voting_rejection(name, polls) is None,
        poll_ids.len() == polls.len(),
        store.voting(voting_id) is None,
        forall|i: int| 0 <= i < poll_ids.len() ==> store.poll(#[trigger] poll_ids[i]) is None,
        pairwise_distinct(poll_ids),
    ensures
        outcome is Ok,
{
    let voting = new_voting(voting_id, name, sha256_upper_hex(admin_key));
    let start = store.with_voting(voting);
    let rows = drafted_polls(polls, poll_ids, voting_id);
    lemma_first_position_push(store.votings, voting_has_id(voting_id), voting);
    assert forall|i: int| 0 <= i < start.polls.len() implies (#[trigger] start.polls[i]).voting_fk
        != voting_id by {
        assert(store.voting(store.polls[i].voting_fk) is Some);
    }
    lemma_drafted_polls_are_accepted(start, polls, poll_ids, voting_id, 0);
    assert(start.with_polls(rows.take(0)).polls =~= start.polls);
    assert(rows.skip(0) =~= rows);
}

} // verus!
