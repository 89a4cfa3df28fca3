//! The constraints that the store holds a write to, and the proof that every
//! accepted write leaves a consistent store consistent.

use crate::models::{PollView, VoteView, VoterView, VotingView};
use crate::rows::{
    first_position, lemma_distinct_push, lemma_first_position_meaning, lemma_first_position_push,
    lemma_first_position_same,
};
use crate::store::{
    poll_has_id, poll_in, poll_key, same_pair, vote_has_id, vote_key, vote_of_pair, voter_has_id,
    voter_has_key, voter_hash, voter_key, voting_has_id, voting_key, StoreError, StoreView,
};
use vstd::prelude::*;

verus! {

impl StoreView {
    /// Why a voting with the identifier `id` cannot be written, if it cannot.
    pub open spec fn voting_refusal(self, id: Seq<char>) -> Option<StoreError> {
        if self.voting(id) is Some {
            Some(StoreError::DuplicateId)
        } else {
            None
        }
    }

    /// Whether the voting `voting_id` has a poll whose sequence number is
    /// `sequenz_number` or above.
    pub open spec fn reaches_sequence(self, voting_id: Seq<char>, sequenz_number: i32) -> bool {
        exists|i: int|
            0 <= i < self.polls.len() && (#[trigger] self.polls[i]).voting_fk == voting_id
                && self.polls[i].sequenz_number >= sequenz_number
    }

    /// Why a poll cannot be written, if it cannot.
    pub open spec fn poll_refusal(self, poll: PollView) -> Option<StoreError> {
        if self.poll(poll.id) is Some {
            Some(StoreError::DuplicateId)
        } else if self.voting(poll.voting_fk) is None {
            Some(StoreError::MissingReference)
        } else if self.reaches_sequence(poll.voting_fk, poll.sequenz_number) {
            Some(StoreError::OutOfSequence)
        } else {
            None
        }
    }

    /// Why a voter cannot be written, if it cannot.
    pub open spec fn voter_refusal(self, voter: VoterView) -> Option<StoreError> {
        if self.voter(voter.id) is Some {
            Some(StoreError::DuplicateId)
        } else if self.voter_with_key(voter.voter_key_hash) is Some {
            Some(StoreError::DuplicateKey)
        } else if self.voting(voter.voting_fk) is None {
            Some(StoreError::MissingReference)
        } else {
            None
        }
    }

    /// Why a vote cannot be written, if it cannot. A second vote of a voter on
    /// a poll is refused as such whatever else may be wrong with the row.
    pub open spec fn vote_refusal(self, vote: VoteView) -> Option<StoreError> {
        if self.vote_of(vote.poll_fk, vote.voter_fk) is Some {
            Some(StoreError::DuplicateVote)
        } else if first_position(self.votes, vote_has_id(vote.id)) is Some {
            Some(StoreError::DuplicateId)
        } else if self.poll(vote.poll_fk) is None || self.voter(vote.voter_fk) is None {
            Some(StoreError::MissingReference)
        } else {
            None
        }
    }

    /// Why the active poll of a voting cannot be set to `index`, if it cannot.
    /// To close the open poll is always accepted.
    pub open spec fn activation_refusal(self, voting_id: Seq<char>, index: Option<i32>) -> Option<
        StoreError,
    > {
        if self.voting(voting_id) is None {
            Some(StoreError::MissingReference)
        } else if index matches Some(k) && !self.is_poll_position(voting_id, k as int) {
            Some(StoreError::NoSuchPoll)
        } else {
            None
        }
    }

    /// This store with the active poll of the voting at `place` set to `index`.
    pub open spec fn with_active(self, place: int, index: Option<i32>) -> StoreView {
        StoreView {
            votings: self.votings.update(
                place,
                VotingView { active_poll_index: index, ..self.votings[place] },
            ),
            ..self
        }
    }

    /// An accepted voting, written without an active poll, keeps the store
    /// consistent.
    pub proof fn lemma_with_voting_wf(self, voting: VotingView)
        requires
            self.wf(),
            self.voting_refusal(voting.id) is None,
            voting.active_poll_index is None,
        ensures
            self.with_voting(voting).wf(),
    {
        let next = self.with_voting(voting);
        lemma_first_position_meaning(self.votings, voting_has_id(voting.id));
        assert forall|j: int| 0 <= j < self.votings.len() implies voting_key()(
            #[trigger] self.votings[j],
        ) != voting_key()(voting) by {
            assert(!voting_has_id(voting.id)(self.votings[j]));
        }
        lemma_distinct_push(self.votings, voting_key(), voting);
        assert forall|i: int| 0 <= i < next.polls.len() implies next.voting(
            (#[trigger] next.polls[i]).voting_fk,
        ) is Some by {
            lemma_first_position_push(
                self.votings,
                voting_has_id(self.polls[i].voting_fk),
                voting,
            );
        }
        assert forall|i: int| 0 <= i < next.voters.len() implies next.voting(
            (#[trigger] next.voters[i]).voting_fk,
        ) is Some by {
            lemma_first_position_push(
                self.votings,
                voting_has_id(self.voters[i].voting_fk),
                voting,
            );
        }
        assert(next.references_resolve());
        assert forall|i: int| 0 <= i < next.votings.len() implies next.active_poll_exists(
            #[trigger] next.votings[i],
        ) by {
            if i < self.votings.len() {
                assert(next.votings[i] == self.votings[i]);
                assert(self.active_poll_exists(self.votings[i]));
            }
        }
    }

    /// An accepted poll keeps the store consistent.
    pub proof fn lemma_with_poll_wf(self, poll: PollView)
        requires
            self.wf(),
            self.poll_refusal(poll) is None,
        ensures
            self.with_poll(poll).wf(),
    {
        let next = self.with_poll(poll);
        lemma_first_position_meaning(self.polls, poll_has_id(poll.id));
        assert forall|j: int| 0 <= j < self.polls.len() implies poll_key()(
            #[trigger] self.polls[j],
        ) != poll_key()(poll) by {
            assert(!poll_has_id(poll.id)(self.polls[j]));
        }
        lemma_distinct_push(self.polls, poll_key(), poll);
        assert forall|i: int| 0 <= i < next.polls.len() implies next.voting(
            (#[trigger] next.polls[i]).voting_fk,
        ) is Some by {
            if i < self.polls.len() {
                assert(next.polls[i] == self.polls[i]);
            }
        }
        assert forall|i: int| 0 <= i < next.votes.len() implies next.poll(
            (#[trigger] next.votes[i]).poll_fk,
        ) is Some && next.voter(next.votes[i].voter_fk) is Some by {
            lemma_first_position_push(self.polls, poll_has_id(self.votes[i].poll_fk), poll);
        }
        assert(next.references_resolve());
        assert forall|i: int, j: int|
            #![trigger next.polls[i], next.polls[j]]
            0 <= i < j < next.polls.len() && next.polls[i].voting_fk
                == next.polls[j].voting_fk implies next.polls[i].sequenz_number
            < next.polls[j].sequenz_number by {
            assert(next.polls[i] == self.polls[i]);
            if j < self.polls.len() {
                assert(next.polls[j] == self.polls[j]);
            } else {
                assert(!self.reaches_sequence(poll.voting_fk, poll.sequenz_number));
            }
        }
        assert forall|i: int| 0 <= i < next.votings.len() implies next.active_poll_exists(
            #[trigger] next.votings[i],
        ) by {
            assert(self.active_poll_exists(self.votings[i]));
            self.polls.lemma_filter_len_push(poll_in(self.votings[i].id), poll);
        }
    }

    /// An accepted voter keeps the store consistent.
    pub proof fn lemma_with_voter_wf(self, voter: VoterView)
        requires
            self.wf(),
            self.voter_refusal(voter) is None,
        ensures
            self.with_voter(voter).wf(),
    {
        let next = self.with_voter(voter);
        lemma_first_position_meaning(self.voters, voter_has_id(voter.id));
        lemma_first_position_meaning(self.voters, voter_has_key(voter.voter_key_hash));
        assert forall|j: int| 0 <= j < self.voters.len() implies voter_key()(
            #[trigger] self.voters[j],
        ) != voter_key()(voter) by {
            assert(!voter_has_id(voter.id)(self.voters[j]));
        }
        assert forall|j: int| 0 <= j < self.voters.len() implies voter_hash()(
            #[trigger] self.voters[j],
        ) != voter_hash()(voter) by {
            assert(!voter_has_key(voter.voter_key_hash)(self.voters[j]));
        }
        lemma_distinct_push(self.voters, voter_key(), voter);
        lemma_distinct_push(self.voters, voter_hash(), voter);
        assert forall|i: int| 0 <= i < next.voters.len() implies next.voting(
            (#[trigger] next.voters[i]).voting_fk,
        ) is Some by {
            if i < self.voters.len() {
                assert(next.voters[i] == self.voters[i]);
            }
        }
        assert forall|i: int| 0 <= i < next.votes.len() implies next.poll(
            (#[trigger] next.votes[i]).poll_fk,
        ) is Some && next.voter(next.votes[i].voter_fk) is Some by {
            lemma_first_position_push(self.voters, voter_has_id(self.votes[i].voter_fk), voter);
        }
        assert(next.references_resolve());
        assert(next.active_polls_exist());
    }

    /// An accepted vote keeps the store consistent.
    pub proof fn lemma_with_vote_wf(self, vote: VoteView)
        requires
            self.wf(),
            self.vote_refusal(vote) is None,
        ensures
            self.with_vote(vote).wf(),
    {
        let next = self.with_vote(vote);
        lemma_first_position_meaning(self.votes, vote_has_id(vote.id));
        lemma_first_position_meaning(self.votes, vote_of_pair(vote.poll_fk, vote.voter_fk));
        assert forall|j: int| 0 <= j < self.votes.len() implies vote_key()(
            #[trigger] self.votes[j],
        ) != vote_key()(vote) by {
            assert(!vote_has_id(vote.id)(self.votes[j]));
        }
        lemma_distinct_push(self.votes, vote_key(), vote);
        assert forall|i: int| 0 <= i < next.votes.len() implies next.poll(
            (#[trigger] next.votes[i]).poll_fk,
        ) is Some && next.voter(next.votes[i].voter_fk) is Some by {
            if i < self.votes.len() {
                assert(next.votes[i] == self.votes[i]);
            }
        }
        assert(next.references_resolve());
        assert forall|i: int, j: int|
            #![trigger next.votes[i], next.votes[j]]
            0 <= i < j < next.votes.len() implies !same_pair(next.votes[i], next.votes[j]) by {
            assert(next.votes[i] == self.votes[i]);
            if j < self.votes.len() {
                assert(next.votes[j] == self.votes[j]);
            } else {
                assert(!vote_of_pair(vote.poll_fk, vote.voter_fk)(self.votes[i]));
            }
        }
        assert(next.active_polls_exist());
    }

    /// An accepted change of the active poll keeps the store consistent.
    pub proof fn lemma_with_active_wf(self, place: int, index: Option<i32>)
        requires
            self.wf(),
            0 <= place < self.votings.len(),
            self.activation_refusal(self.votings[place].id, index) is None,
        ensures
            self.with_active(place, index).wf(),
    {
        let next = self.with_active(place, index);
        assert forall|i: int, j: int| 0 <= i < j < next.votings.len() implies voting_key()(
            #[trigger] next.votings[i],
        ) != voting_key()(#[trigger] next.votings[j]) by {
            assert(voting_key()(next.votings[i]) == voting_key()(self.votings[i]));
            assert(voting_key()(next.votings[j]) == voting_key()(self.votings[j]));
        }
        assert forall|id: Seq<char>| next.voting(id) is Some == self.voting(id) is Some by {
            assert forall|j: int| 0 <= j < self.votings.len() implies voting_has_id(id)(
                #[trigger] self.votings[j],
            ) == voting_has_id(id)(next.votings[j]) by {}
            lemma_first_position_same(self.votings, next.votings, voting_has_id(id));
        }
        assert forall|i: int| 0 <= i < next.polls.len() implies next.voting(
            (#[trigger] next.polls[i]).voting_fk,
        ) is Some by {
            assert(self.voting(self.polls[i].voting_fk) is Some);
        }
        assert forall|i: int| 0 <= i < next.voters.len() implies next.voting(
            (#[trigger] next.voters[i]).voting_fk,
        ) is Some by {
            assert(self.voting(self.voters[i].voting_fk) is Some);
        }
        assert(next.references_resolve());
        assert forall|i: int| 0 <= i < next.votings.len() implies next.active_poll_exists(
            #[trigger] next.votings[i],
        ) by {
            if i != place {
                assert(next.votings[i] == self.votings[i]);
                assert(self.active_poll_exists(self.votings[i]));
            }
        }
    }
}

} // verus!
