//! The store: four tables of rows, what they mean, and the constraints that
//! every insertion and update is held to.
//!
//! Rows are only ever appended, and the polls of a voting are appended in the
//! order of their sequence numbers, so a table read from front to back gives
//! each voting's polls in ascending sequence order.

use crate::models::{Poll, PollView, Vote, VoteView, Voter, VoterView, Voting, VotingView};
use crate::rows::{
    distinct_by, first_match, first_position, lemma_first_position, lemma_none_wanted, same_text,
    views,
};
use vstd::prelude::*;

verus! {

/// The rows that the service keeps.
#[derive(Debug)]
pub struct Store {
    pub votings: Vec<Voting>,
    pub polls: Vec<Poll>,
    pub voters: Vec<Voter>,
    pub votes: Vec<Vote>,
}

/// What a [`Store`] is to the contracts: its four tables, each row by its
/// view, in the order in which the rows were written.
pub struct StoreView {
    pub votings: Seq<VotingView>,
    pub polls: Seq<PollView>,
    pub voters: Seq<VoterView>,
    pub votes: Seq<VoteView>,
}

impl View for Store {
    type V = StoreView;

    open spec fn view(&self) -> StoreView {
        StoreView {
            votings: views(self.votings@),
            polls: views(self.polls@),
            voters: views(self.voters@),
            votes: views(self.votes@),
        }
    }
}

/// Why the store refuses to write a row.
#[derive(Clone, Copy, Debug, PartialEq, Eq, Structural)]
pub enum StoreError {
    /// A row with this identifier is already in the table.
    DuplicateId,
    /// A voter with this key hash is already registered.
    DuplicateKey,
    /// The voter has already voted on the poll.
    DuplicateVote,
    /// The row refers to a voting, poll or voter that is not in the store.
    MissingReference,
    /// The poll's sequence number is not above those of its voting's polls.
    OutOfSequence,
    /// The position names no poll of the voting.
    NoSuchPoll,
}

/// The votings with the identifier `id`.
pub open spec fn voting_has_id(id: Seq<char>) -> spec_fn(VotingView) -> bool {
    |voting: VotingView| voting.id == id
}

/// The polls with the identifier `id`.
pub open spec fn poll_has_id(id: Seq<char>) -> spec_fn(PollView) -> bool {
    |poll: PollView| poll.id == id
}

/// The polls of the voting `voting_id`.
pub open spec fn poll_in(voting_id: Seq<char>) -> spec_fn(PollView) -> bool {
    |poll: PollView| poll.voting_fk == voting_id
}

/// The voters with the identifier `id`.
pub open spec fn voter_has_id(id: Seq<char>) -> spec_fn(VoterView) -> bool {
    |voter: VoterView| voter.id == id
}

/// The voters whose key hashes to `key_hash`.
pub open spec fn voter_has_key(key_hash: Seq<char>) -> spec_fn(VoterView) -> bool {
    |voter: VoterView| voter.voter_key_hash == key_hash
}

/// The voters of the voting `voting_id`.
pub open spec fn voter_in(voting_id: Seq<char>) -> spec_fn(VoterView) -> bool {
    |voter: VoterView| voter.voting_fk == voting_id
}

/// The votes with the identifier `id`.
pub open spec fn vote_has_id(id: Seq<char>) -> spec_fn(VoteView) -> bool {
    |vote: VoteView| vote.id == id
}

/// The votes of the voter `voter_id` on the poll `poll_id`.
pub open spec fn vote_of_pair(poll_id: Seq<char>, voter_id: Seq<char>) -> spec_fn(
    VoteView,
) -> bool {
    |vote: VoteView| vote.poll_fk == poll_id && vote.voter_fk == voter_id
}

/// The votes on the poll `poll_id`.
pub open spec fn vote_on(poll_id: Seq<char>) -> spec_fn(VoteView) -> bool {
    |vote: VoteView| vote.poll_fk == poll_id
}

/// The votes on the poll `poll_id` that give the answer `answer`.
pub open spec fn vote_answering(poll_id: Seq<char>, answer: Option<bool>) -> spec_fn(
    VoteView,
) -> bool {
    |vote: VoteView| vote.poll_fk == poll_id && vote.answer == answer
}

/// Two votes are of one voter on one poll.
pub open spec fn same_pair(a: VoteView, b: VoteView) -> bool {
    a.poll_fk == b.poll_fk && a.voter_fk == b.voter_fk
}

/// Within each voting, a poll that stands later in the table has a higher
/// sequence number.
pub open spec fn rising(polls: Seq<PollView>) -> bool {
    forall|i: int, j: int|
        #![trigger polls[i], polls[j]]
        0 <= i < j < polls.len() && polls[i].voting_fk == polls[j].voting_fk
            ==> polls[i].sequenz_number < polls[j].sequenz_number
}

/// The identifier of a voting.
pub open spec fn voting_key() -> spec_fn(VotingView) -> Seq<char> {
    |voting: VotingView| voting.id
}

/// The identifier of a poll.
pub open spec fn poll_key() -> spec_fn(PollView) -> Seq<char> {
    |poll: PollView| poll.id
}

/// The identifier of a voter.
pub open spec fn voter_key() -> spec_fn(VoterView) -> Seq<char> {
    |voter: VoterView| voter.id
}

/// The key hash of a voter.
pub open spec fn voter_hash() -> spec_fn(VoterView) -> Seq<char> {
    |voter: VoterView| voter.voter_key_hash
}

/// The identifier of a vote.
pub open spec fn vote_key() -> spec_fn(VoteView) -> Seq<char> {
    |vote: VoteView| vote.id
}

impl StoreView {
    /// The voting with the identifier `id`.
    pub open spec fn voting(self, id: Seq<char>) -> Option<VotingView> {
        first_match(self.votings, voting_has_id(id))
    }

    /// The poll with the identifier `id`.
    pub open spec fn poll(self, id: Seq<char>) -> Option<PollView> {
        first_match(self.polls, poll_has_id(id))
    }

    /// The voter with the identifier `id`.
    pub open spec fn voter(self, id: Seq<char>) -> Option<VoterView> {
        first_match(self.voters, voter_has_id(id))
    }

    /// The voter whose key hashes to `key_hash`.
    pub open spec fn voter_with_key(self, key_hash: Seq<char>) -> Option<VoterView> {
        first_match(self.voters, voter_has_key(key_hash))
    }

    /// The vote of the voter `voter_id` on the poll `poll_id`.
    pub open spec fn vote_of(self, poll_id: Seq<char>, voter_id: Seq<char>) -> Option<VoteView> {
        first_match(self.votes, vote_of_pair(poll_id, voter_id))
    }

    /// The polls of a voting, in ascending sequence order.
    pub open spec fn polls_of(self, voting_id: Seq<char>) -> Seq<PollView> {
        self.polls.filter(poll_in(voting_id))
    }

    /// The voters of a voting.
    pub open spec fn voters_of(self, voting_id: Seq<char>) -> Seq<VoterView> {
        self.voters.filter(voter_in(voting_id))
    }

    /// The number of votes on a poll.
    pub open spec fn votes_on(self, poll_id: Seq<char>) -> nat {
        self.votes.filter(vote_on(poll_id)).len()
    }

    /// The number of votes on a poll that give the answer `answer`.
    pub open spec fn votes_answering(self, poll_id: Seq<char>, answer: Option<bool>) -> nat {
        self.votes.filter(vote_answering(poll_id, answer)).len()
    }

    /// No two rows of a table share an identifier, and no two voters a key.
    pub open spec fn ids_distinct(self) -> bool {
        &&& distinct_by(self.votings, voting_key())
        &&& distinct_by(self.polls, poll_key())
        &&& distinct_by(self.voters, voter_key())
        &&& distinct_by(self.voters, voter_hash())
        &&& distinct_by(self.votes, vote_key())
    }

    /// Every poll and every voter belongs to a voting of the store, and every
    /// vote to a poll and a voter of the store.
    pub open spec fn references_resolve(self) -> bool {
        &&& forall|i: int|
            0 <= i < self.polls.len() ==> self.voting((#[trigger] self.polls[i]).voting_fk)
                is Some
        &&& forall|i: int|
            0 <= i < self.voters.len() ==> self.voting((#[trigger] self.voters[i]).voting_fk)
                is Some
        &&& forall|i: int|
            0 <= i < self.votes.len() ==> self.poll((#[trigger] self.votes[i]).poll_fk) is Some
                && self.voter(self.votes[i].voter_fk) is Some
    }

    /// Within a voting, a poll written later has a higher sequence number.
    pub open spec fn polls_in_sequence(self) -> bool {
        rising(self.polls)
    }

    /// Whether `index` is the position of a poll of the voting `voting_id`.
    pub open spec fn is_poll_position(self, voting_id: Seq<char>, index: int) -> bool {
        0 <= index < self.polls_of(voting_id).len()
    }

    /// The active poll of a voting, where there is one, is a poll of that
    /// voting.
    pub open spec fn active_poll_exists(self, voting: VotingView) -> bool {
        match voting.active_poll_index {
            Some(index) => self.is_poll_position(voting.id, index as int),
            None => true,
        }
    }

    /// The active poll of every voting, where there is one, is a poll of that
    /// voting.
    pub open spec fn active_polls_exist(self) -> bool {
        forall|i: int|
            0 <= i < self.votings.len() ==> self.active_poll_exists(#[trigger] self.votings[i])
    }

    /// No voter has two votes on one poll.
    pub open spec fn one_vote_each(self) -> bool {
        forall|i: int, j: int|
            #![trigger self.votes[i], self.votes[j]]
            0 <= i < j < self.votes.len() ==> !same_pair(self.votes[i], self.votes[j])
    }

    /// The store is consistent.
    pub open spec fn wf(self) -> bool {
        &&& self.ids_distinct()
        &&& self.references_resolve()
        &&& self.polls_in_sequence()
        &&& self.active_polls_exist()
        &&& self.one_vote_each()
    }

    /// This store with one more voting.
    pub open spec fn with_voting(self, voting: VotingView) -> StoreView {
        StoreView { votings: self.votings.push(voting), ..self }
    }

    /// This store with one more poll.
    pub open spec fn with_poll(self, poll: PollView) -> StoreView {
        StoreView { polls: self.polls.push(poll), ..self }
    }

    /// This store with one more voter.
    pub open spec fn with_voter(self, voter: VoterView) -> StoreView {
        StoreView { voters: self.voters.push(voter), ..self }
    }

    /// This store with one more vote.
    pub open spec fn with_vote(self, vote: VoteView) -> StoreView {
        StoreView { votes: self.votes.push(vote), ..self }
    }
}

/// The place of a search's result as the contracts see it.
pub open spec fn place(found: Option<usize>) -> Option<int> {
    match found {
        Some(i) => Some(i as int),
        None => None,
    }
}

impl Store {
    /// An empty store.
    pub fn new() -> (store: Store)
        ensures
            store@.votings.len() == 0,
            store@.polls.len() == 0,
            store@.voters.len() == 0,
            store@.votes.len() == 0,
            store@.wf(),
    {
        Store { votings: Vec::new(), polls: Vec::new(), voters: Vec::new(), votes: Vec::new() }
    }

    /// The place of the voting with the identifier `id`.
    pub fn voting_position(&self, id: &String) -> (found: Option<usize>)
        ensures
            place(found) == first_position(self@.votings, voting_has_id(id@)),
            found matches Some(i) ==> i < self.votings.len(),
    {
        let mut i: usize = 0;
        while i < self.votings.len()
            invariant
                i <= self.votings.len(),
                forall|j: int| 0 <= j < i ==> !voting_has_id(id@)(#[trigger] self@.votings[j]),
            decreases self.votings.len() - i,
        {
            if same_text(&self.votings[i].id, id) {
                proof {
                    lemma_first_position(self@.votings, voting_has_id(id@), i as int);
                }
                return Some(i);
            }
            i = i + 1;
        }
        proof {
            lemma_none_wanted(self@.votings, voting_has_id(id@));
        }
        None
    }

    /// The place of the poll with the identifier `id`.
    pub fn poll_position(&self, id: &String) -> (found: Option<usize>)
        ensures
            place(found) == first_position(self@.polls, poll_has_id(id@)),
            found matches Some(i) ==> i < self.polls.len(),
    {
        let mut i: usize = 0;
        while i < self.polls.len()
            invariant
                i <= self.polls.len(),
                forall|j: int| 0 <= j < i ==> !poll_has_id(id@)(#[trigger] self@.polls[j]),
            decreases self.polls.len() - i,
        {
            if same_text(&self.polls[i].id, id) {
                proof {
                    lemma_first_position(self@.polls, poll_has_id(id@), i as int);
                }
                return Some(i);
            }
            i = i + 1;
        }
        proof {
            lemma_none_wanted(self@.polls, poll_has_id(id@));
        }
        None
    }

    /// The place of the voter with the identifier `id`.
    pub fn voter_position(&self, id: &String) -> (found: Option<usize>)
        ensures
            place(found) == first_position(self@.voters, voter_has_id(id@)),
            found matches Some(i) ==> i < self.voters.len(),
    {
        let mut i: usize = 0;
        while i < self.voters.len()
            invariant
                i <= self.voters.len(),
                forall|j: int| 0 <= j < i ==> !voter_has_id(id@)(#[trigger] self@.voters[j]),
            decreases self.voters.len() - i,
        {
            if same_text(&self.voters[i].id, id) {
                proof {
                    lemma_first_position(self@.voters, voter_has_id(id@), i as int);
                }
                return Some(i);
            }
            i = i + 1;
        }
        proof {
            lemma_none_wanted(self@.voters, voter_has_id(id@));
        }
        None
    }

    /// The place of the voter whose key hashes to `key_hash`.
    pub fn voter_position_by_key(&self, key_hash: &String) -> (found: Option<usize>)
        ensures
            place(found) == first_position(self@.voters, voter_has_key(key_hash@)),
            found matches Some(i) ==> i < self.voters.len(),
    {
        let mut i: usize = 0;
        while i < self.voters.len()
            invariant
                i <= self.voters.len(),
                forall|j: int|
                    0 <= j < i ==> !voter_has_key(key_hash@)(#[trigger] self@.voters[j]),
            decreases self.voters.len() - i,
        {
            if same_text(&self.voters[i].voter_key_hash, key_hash) {
                proof {
                    lemma_first_position(self@.voters, voter_has_key(key_hash@), i as int);
                }
                return Some(i);
            }
            i = i + 1;
        }
        proof {
            lemma_none_wanted(self@.voters, voter_has_key(key_hash@));
        }
        None
    }

    /// The place of the vote with the identifier `id`.
    pub fn vote_position(&self, id: &String) -> (found: Option<usize>)
        ensures
            place(found) == first_position(self@.votes, vote_has_id(id@)),
            found matches Some(i) ==> i < self.votes.len(),
    {
        let mut i: usize = 0;
        while i < self.votes.len()
            invariant
                i <= self.votes.len(),
                forall|j: int| 0 <= j < i ==> !vote_has_id(id@)(#[trigger] self@.votes[j]),
            decreases self.votes.len() - i,
        {
            if same_text(&self.votes[i].id, id) {
                proof {
                    lemma_first_position(self@.votes, vote_has_id(id@), i as int);
                }
                return Some(i);
            }
            i = i + 1;
        }
        proof {
            lemma_none_wanted(self@.votes, vote_has_id(id@));
        }
        None
    }

    /// The place of the vote of the voter `voter_id` on the poll `poll_id`.
    pub fn vote_position_of(&self, poll_id: &String, voter_id: &String) -> (found: Option<usize>)
        ensures
            place(found) == first_position(self@.votes, vote_of_pair(poll_id@, voter_id@)),
            found matches Some(i) ==> i < self.votes.len(),
    {
        let mut i: usize = 0;
        while i < self.votes.len()
            invariant
                i <= self.votes.len(),
                forall|j: int|
                    0 <= j < i ==> !vote_of_pair(poll_id@, voter_id@)(#[trigger] self@.votes[j]),
            decreases self.votes.len() - i,
        {
            if same_text(&self.votes[i].poll_fk, poll_id) && same_text(
                &self.votes[i].voter_fk,
                voter_id,
            ) {
                proof {
                    lemma_first_position(
                        self@.votes,
                        vote_of_pair(poll_id@, voter_id@),
                        i as int,
                    );
                }
                return Some(i);
            }
            i = i + 1;
        }
        proof {
            lemma_none_wanted(self@.votes, vote_of_pair(poll_id@, voter_id@));
        }
        None
    }

    /// The number of polls of a voting.
    pub fn count_polls(&self, voting_id: &String) -> (count: usize)
        ensures
            count == self@.polls_of(voting_id@).len(),
    {
        let ghost wanted = poll_in(voting_id@);
        let mut count: usize = 0;
        let mut i: usize = 0;
        assert(self@.polls.take(0).filter(wanted).len() == 0) by {
            self@.polls.take(0).lemma_filter_len(wanted);
        }
        while i < self.polls.len()
            invariant
                i <= self.polls.len(),
                count <= i,
                wanted == poll_in(voting_id@),
                count == self@.polls.take(i as int).filter(wanted).len(),
            decreases self.polls.len() - i,
        {
            proof {
                self@.polls.lemma_take_succ_push(i as int);
                self@.polls.take(i as int).lemma_filter_len_push(wanted, self@.polls[i as int]);
            }
            if same_text(&self.polls[i].voting_fk, voting_id) {
                count = count + 1;
            }
            i = i + 1;
        }
        proof {
            self@.polls.lemma_take_len();
        }
        count
    }

    /// The number of voters of a voting.
    pub fn count_voters(&self, voting_id: &String) -> (count: usize)
        ensures
            count == self@.voters_of(voting_id@).len(),
    {
        let ghost wanted = voter_in(voting_id@);
        let mut count: usize = 0;
        let mut i: usize = 0;
        assert(self@.voters.take(0).filter(wanted).len() == 0) by {
            self@.voters.take(0).lemma_filter_len(wanted);
        }
        while i < self.voters.len()
            invariant
                i <= self.voters.len(),
                count <= i,
                wanted == voter_in(voting_id@),
                count == self@.voters.take(i as int).filter(wanted).len(),
            decreases self.voters.len() - i,
        {
            proof {
                self@.voters.lemma_take_succ_push(i as int);
                self@.voters.take(i as int).lemma_filter_len_push(wanted, self@.voters[i as int]);
            }
            if same_text(&self.voters[i].voting_fk, voting_id) {
                count = count + 1;
            }
            i = i + 1;
        }
        proof {
            self@.voters.lemma_take_len();
        }
        count
    }

    /// The number of votes on a poll.
    pub fn count_votes(&self, poll_id: &String) -> (count: usize)
        ensures
            count == self@.votes_on(poll_id@),
    {
        let ghost wanted = vote_on(poll_id@);
        let mut count: usize = 0;
        let mut i: usize = 0;
        assert(self@.votes.take(0).filter(wanted).len() == 0) by {
            self@.votes.take(0).lemma_filter_len(wanted);
        }
        while i < self.votes.len()
            invariant
                i <= self.votes.len(),
                count <= i,
                wanted == vote_on(poll_id@),
                count == self@.votes.take(i as int).filter(wanted).len(),
            decreases self.votes.len() - i,
        {
            proof {
                self@.votes.lemma_take_succ_push(i as int);
                self@.votes.take(i as int).lemma_filter_len_push(wanted, self@.votes[i as int]);
            }
            if same_text(&self.votes[i].poll_fk, poll_id) {
                count = count + 1;
            }
            i = i + 1;
        }
        proof {
            self@.votes.lemma_take_len();
        }
        count
    }

    /// The number of votes on a poll that give the answer `answer`.
    pub fn count_answers(&self, poll_id: &String, answer: Option<bool>) -> (count: usize)
        ensures
            count == self@.votes_answering(poll_id@, answer),
            count <= self.votes.len(),
    {
        let ghost wanted = vote_answering(poll_id@, answer);
        let mut count: usize = 0;
        let mut i: usize = 0;
        assert(self@.votes.take(0).filter(wanted).len() == 0) by {
            self@.votes.take(0).lemma_filter_len(wanted);
        }
        while i < self.votes.len()
            invariant
                i <= self.votes.len(),
                count <= i,
                wanted == vote_answering(poll_id@, answer),
                count == self@.votes.take(i as int).filter(wanted).len(),
            decreases self.votes.len() - i,
        {
            proof {
                self@.votes.lemma_take_succ_push(i as int);
                self@.votes.take(i as int).lemma_filter_len_push(wanted, self@.votes[i as int]);
            }
            let same_answer = match (self.votes[i].answer, answer) {
                (Some(a), Some(b)) => a == b,
                (None, None) => true,
                _ => false,
            };
            if same_text(&self.votes[i].poll_fk, poll_id) && same_answer {
                count = count + 1;
            }
            i = i + 1;
        }
        proof {
            self@.votes.lemma_take_len();
        }
        count
    }

    /// Whether the voting has a poll whose sequence number is `sequenz_number`
    /// or above.
    pub fn reaches_sequence(&self, voting_id: &String, sequenz_number: i32) -> (reached: bool)
        ensures
            reached == self@.reaches_sequence(voting_id@, sequenz_number),
    {
        let mut i: usize = 0;
        while i < self.polls.len()
            invariant
                i <= self.polls.len(),
                forall|j: int|
                    0 <= j < i ==> !((#[trigger] self@.polls[j]).voting_fk == voting_id@
                        && self@.polls[j].sequenz_number >= sequenz_number),
            decreases self.polls.len() - i,
        {
            if same_text(&self.polls[i].voting_fk, voting_id) && self.polls[i].sequenz_number
                >= sequenz_number {
                assert(self@.polls[i as int].voting_fk == voting_id@);
                return true;
            }
            i = i + 1;
        }
        false
    }
}

} // verus!
