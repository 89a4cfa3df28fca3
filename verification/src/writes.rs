//! Writing to the store. Each write is checked against the store's
//! constraints first and either happens as a whole or leaves every table as it
//! was.

use crate::models::{Poll, Vote, Voter, Voting, VotingView};
use crate::rows::{first_position, lemma_first_position_meaning, views};
use crate::store::{voting_has_id, Store, StoreError, StoreView};
use vstd::prelude::*;

verus! {

/// What a write does: it is refused and changes nothing, or it is accepted and
/// leaves the store as `next`.
pub open spec fn written(
    before: StoreView,
    after: StoreView,
    outcome: Result<(), StoreError>,
    refusal: Option<StoreError>,
    next: StoreView,
) -> bool {
    match refusal {
        Some(error) => outcome == Err::<(), StoreError>(error) && after == before,
        None => outcome is Ok && after == next,
    }
}

/// A voting as it is first written: with no poll open.
pub open spec fn new_voting(
    id: Seq<char>,
    name: Seq<char>,
    admin_key_hash: Seq<char>,
) -> VotingView {
    VotingView { id, admin_key_hash, name, active_poll_index: None }
}

impl Store {
    /// Writes a voting with no poll open, unless its identifier is taken.
    pub fn add_voting(&mut self, id: String, name: String, admin_key_hash: String) -> (outcome:
        Result<(), StoreError>)
        ensures
            written(
                old(self)@,
                final(self)@,
                outcome,
                old(self)@.voting_refusal(id@),
                old(self)@.with_voting(new_voting(id@, name@, admin_key_hash@)),
            ),
            old(self)@.wf() ==> final(self)@.wf(),
    {
        if self.voting_position(&id).is_some() {
            return Err(StoreError::DuplicateId);
        }
        let voting = Voting { id, admin_key_hash, name, active_poll_index: None };
        proof {
            assert(views(self.votings@.push(voting)) =~= views(self.votings@).push(voting@));
            if self@.wf() {
                self@.lemma_with_voting_wf(voting@);
            }
        }
        self.votings.push(voting);
        Ok(())
    }

    /// Writes a poll, unless its identifier is taken, its voting is missing,
    /// or its sequence number is not above those of its voting's polls.
    pub fn add_poll(&mut self, poll: Poll) -> (outcome: Result<(), StoreError>)
        ensures
            written(
                old(self)@,
                final(self)@,
                outcome,
                old(self)@.poll_refusal(poll@),
                old(self)@.with_poll(poll@),
            ),
            old(self)@.wf() ==> final(self)@.wf(),
    {
        if self.poll_position(&poll.id).is_some() {
            return Err(StoreError::DuplicateId);
        }
        if self.voting_position(&poll.voting_fk).is_none() {
            return Err(StoreError::MissingReference);
        }
        if self.reaches_sequence(&poll.voting_fk, poll.sequenz_number) {
            return Err(StoreError::OutOfSequence);
        }
        proof {
            assert(views(self.polls@.push(poll)) =~= views(self.polls@).push(poll@));
            if self@.wf() {
                self@.lemma_with_poll_wf(poll@);
            }
        }
        self.polls.push(poll);
        Ok(())
    }

    /// Writes a voter, unless its identifier or its key hash is taken or its
    /// voting is missing.
    pub fn add_voter(&mut self, voter: Voter) -> (outcome: Result<(), StoreError>)
        ensures
            written(
                old(self)@,
                final(self)@,
                outcome,
                old(self)@.voter_refusal(voter@),
                old(self)@.with_voter(voter@),
            ),
            old(self)@.wf() ==> final(self)@.wf(),
    {
        if self.voter_position(&voter.id).is_some() {
            return Err(StoreError::DuplicateId);
        }
        if self.voter_position_by_key(&voter.voter_key_hash).is_some() {
            return Err(StoreError::DuplicateKey);
        }
        if self.voting_position(&voter.voting_fk).is_none() {
            return Err(StoreError::MissingReference);
        }
        proof {
            assert(views(self.voters@.push(voter)) =~= views(self.voters@).push(voter@));
            if self@.wf() {
                self@.lemma_with_voter_wf(voter@);
            }
        }
        self.voters.push(voter);
        Ok(())
    }

    /// Writes a vote, unless the voter has already voted on the poll, the
    /// vote's identifier is taken, or its poll or voter is missing. The write
    /// itself decides whether a vote is the first of its voter on its poll.
    pub fn add_vote(&mut self, vote: Vote) -> (outcome: Result<(), StoreError>)
        ensures
            written(
                old(self)@,
                final(self)@,
                outcome,
                old(self)@.vote_refusal(vote@),
                old(self)@.with_vote(vote@),
            ),
            old(self)@.wf() ==> final(self)@.wf(),
    {
        if self.vote_position_of(&vote.poll_fk, &vote.voter_fk).is_some() {
            return Err(StoreError::DuplicateVote);
        }
        if self.vote_position(&vote.id).is_some() {
            return Err(StoreError::DuplicateId);
        }
        if self.poll_position(&vote.poll_fk).is_none() || self.voter_position(
            &vote.voter_fk,
        ).is_none() {
            return Err(StoreError::MissingReference);
        }
        proof {
            assert(views(self.votes@.push(vote)) =~= views(self.votes@).push(vote@));
            if self@.wf() {
                self@.lemma_with_vote_wf(vote@);
            }
        }
        self.votes.push(vote);
        Ok(())
    }

    /// Opens the poll at position `index` of a voting, or closes the open one
    /// where `index` is `None`. Refused where the voting is missing or has no
    /// poll at that position.
    pub fn set_active_poll_index(&mut self, voting_id: &String, index: Option<i32>) -> (outcome:
        Result<(), StoreError>)
        ensures
            written(
                old(self)@,
                final(self)@,
                outcome,
                old(self)@.activation_refusal(voting_id@, index),
                old(self)@.with_active(
                    first_position(old(self)@.votings, voting_has_id(voting_id@))->0,
                    index,
                ),
            ),
            old(self)@.wf() ==> final(self)@.wf(),
    {
        let place = match self.voting_position(voting_id) {
            Some(place) => place,
            None => {
                return Err(StoreError::MissingReference);
            },
        };
        match index {
            Some(k) => {
                let count = self.count_polls(voting_id);
                if k < 0 || k as usize >= count {
                    return Err(StoreError::NoSuchPoll);
                }
            },
            None => {},
        }
        let mut voting = self.votings[place].duplicate();
        voting.active_poll_index = index;
        proof {
            lemma_first_position_meaning(self@.votings, voting_has_id(voting_id@));
            assert(self@.votings[place as int].id == voting_id@);
            assert(views(self.votings@.update(place as int, voting)) =~= self@.with_active(
                place as int,
                index,
            ).votings);
            if self@.wf() {
                self@.lemma_with_active_wf(place as int, index);
            }
        }
        self.votings.set(place, voting);
        Ok(())
    }
}

} // verus!
