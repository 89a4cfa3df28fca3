//! The four kinds of rows that the service keeps, the tally of a poll, and the
//! mathematical view of each.

use vstd::prelude::*;

verus! {

/// A named campaign with the hash of its administrator's key and the position
/// of the poll that is open for votes, if any.
#[derive(Debug)]
pub struct Voting {
    pub id: String,
    pub admin_key_hash: String,
    pub name: String,
    pub active_poll_index: Option<i32>,
}

/// What a [`Voting`] is to the contracts.
pub struct VotingView {
    pub id: Seq<char>,
    pub admin_key_hash: Seq<char>,
    pub name: Seq<char>,
    pub active_poll_index: Option<i32>,
}

impl View for Voting {
    type V = VotingView;

    open spec fn view(&self) -> VotingView {
        VotingView {
            id: self.id@,
            admin_key_hash: self.admin_key_hash@,
            name: self.name@,
            active_poll_index: self.active_poll_index,
        }
    }
}

impl Voting {
    /// A copy of this row.
    pub fn duplicate(&self) -> (copy: Voting)
        ensures
            copy@ == self@,
    {
        Voting {
            id: self.id.clone(),
            admin_key_hash: self.admin_key_hash.clone(),
            name: self.name.clone(),
            active_poll_index: self.active_poll_index,
        }
    }
}

/// One question of a voting, placed among the others by its sequence number.
#[derive(Debug)]
pub struct Poll {
    pub id: String,
    pub sequenz_number: i32,
    pub voting_fk: String,
    pub name: String,
    pub description: String,
}

/// What a [`Poll`] is to the contracts.
pub struct PollView {
    pub id: Seq<char>,
    pub sequenz_number: i32,
    pub voting_fk: Seq<char>,
    pub name: Seq<char>,
    pub description: Seq<char>,
}

impl View for Poll {
    type V = PollView;

    open spec fn view(&self) -> PollView {
        PollView {
            id: self.id@,
            sequenz_number: self.sequenz_number,
            voting_fk: self.voting_fk@,
            name: self.name@,
            description: self.description@,
        }
    }
}

impl Poll {
    /// A copy of this row.
    pub fn duplicate(&self) -> (copy: Poll)
        ensures
            copy@ == self@,
    {
        Poll {
            id: self.id.clone(),
            sequenz_number: self.sequenz_number,
            voting_fk: self.voting_fk.clone(),
            name: self.name.clone(),
            description: self.description.clone(),
        }
    }
}

/// A participant of one voting, known by the hash of a secret key.
#[derive(Debug)]
pub struct Voter {
    pub id: String,
    pub voter_key_hash: String,
    pub voting_fk: String,
    pub username: String,
}

/// What a [`Voter`] is to the contracts.
pub struct VoterView {
    pub id: Seq<char>,
    pub voter_key_hash: Seq<char>,
    pub voting_fk: Seq<char>,
    pub username: Seq<char>,
}

impl View for Voter {
    type V = VoterView;

    open spec fn view(&self) -> VoterView {
        VoterView {
            id: self.id@,
            voter_key_hash: self.voter_key_hash@,
            voting_fk: self.voting_fk@,
            username: self.username@,
        }
    }
}

impl Voter {
    /// A copy of this row.
    pub fn duplicate(&self) -> (copy: Voter)
        ensures
            copy@ == self@,
    {
        Voter {
            id: self.id.clone(),
            voter_key_hash: self.voter_key_hash.clone(),
            voting_fk: self.voting_fk.clone(),
            username: self.username.clone(),
        }
    }
}

/// The answer of one voter to one poll: `Some(true)` accepts, `Some(false)`
/// declines, `None` abstains.
#[derive(Debug)]
pub struct Vote {
    pub id: String,
    pub poll_fk: String,
    pub voter_fk: String,
    pub answer: Option<bool>,
}

/// What a [`Vote`] is to the contracts.
pub struct VoteView {
    pub id: Seq<char>,
    pub poll_fk: Seq<char>,
    pub voter_fk: Seq<char>,
    pub answer: Option<bool>,
}

impl View for Vote {
    type V = VoteView;

    open spec fn view(&self) -> VoteView {
        VoteView {
            id: self.id@,
            poll_fk: self.poll_fk@,
            voter_fk: self.voter_fk@,
            answer: self.answer,
        }
    }
}

impl Vote {
    /// A copy of this row.
    pub fn duplicate(&self) -> (copy: Vote)
        ensures
            copy@ == self@,
    {
        Vote {
            id: self.id.clone(),
            poll_fk: self.poll_fk.clone(),
            voter_fk: self.voter_fk.clone(),
            answer: self.answer,
        }
    }
}

/// A poll together with the number of votes of each kind cast on it.
#[derive(Debug)]
pub struct PollResult {
    pub id: String,
    pub sequenz_number: i32,
    pub voting_fk: String,
    pub name: String,
    pub description: String,
    pub votes_accept: i64,
    pub votes_decline: i64,
    pub votes_abstain: i64,
    pub votes_total: i64,
}

/// What a [`PollResult`] is to the contracts.
pub struct PollResultView {
    pub id: Seq<char>,
    pub sequenz_number: i32,
    pub voting_fk: Seq<char>,
    pub name: Seq<char>,
    pub description: Seq<char>,
    pub votes_accept: i64,
    pub votes_decline: i64,
    pub votes_abstain: i64,
    pub votes_total: i64,
}

impl View for PollResult {
    type V = PollResultView;

    open spec fn view(&self) -> PollResultView {
        PollResultView {
            id: self.id@,
            sequenz_number: self.sequenz_number,
            voting_fk: self.voting_fk@,
            name: self.name@,
            description: self.description@,
            votes_accept: self.votes_accept,
            votes_decline: self.votes_decline,
            votes_abstain: self.votes_abstain,
            votes_total: self.votes_total,
        }
    }
}

} // verus!
