//! The bodies of requests and responses, as plain values.

use vstd::prelude::*;

verus! {

/// The full detail of a voting, as its administrator sees it.
#[derive(Debug)]
pub struct GetVotingResponse {
    pub voting_id: String,
    pub name: String,
    pub active_poll_index: Option<i32>,
    pub voter_count: i32,
    pub polls: Vec<GetVotingPollsResponse>,
}

/// What a [`GetVotingResponse`] is to the contracts.
pub struct VotingDetail {
    pub voting_id: Seq<char>,
    pub name: Seq<char>,
    pub active_poll_index: Option<i32>,
    pub voter_count: i32,
    pub polls: Seq<PollSummary>,
}

impl View for GetVotingResponse {
    type V = VotingDetail;

    open spec fn view(&self) -> VotingDetail {
        VotingDetail {
            voting_id: self.voting_id@,
            name: self.name@,
            active_poll_index: self.active_poll_index,
            voter_count: self.voter_count,
            polls: Seq::new(self.polls@.len(), |i: int| self.polls@[i]@),
        }
    }
}

/// One poll of a voting with its tally and the status derived from it.
#[derive(Debug)]
pub struct GetVotingPollsResponse {
    pub poll_id: String,
    pub name: String,
    pub description: String,
    pub status: String,
    pub votes_accept: i64,
    pub votes_decline: i64,
    pub votes_abstain: i64,
    pub votes_total: i64,
}

/// What a [`GetVotingPollsResponse`] is to the contracts.
pub struct PollSummary {
    pub poll_id: Seq<char>,
    pub name: Seq<char>,
    pub description: Seq<char>,
    pub status: Seq<char>,
    pub votes_accept: i64,
    pub votes_decline: i64,
    pub votes_abstain: i64,
    pub votes_total: i64,
}

impl View for GetVotingPollsResponse {
    type V = PollSummary;

    open spec fn view(&self) -> PollSummary {
        PollSummary {
            poll_id: self.poll_id@,
            name: self.name@,
            description: self.description@,
            status: self.status@,
            votes_accept: self.votes_accept,
            votes_decline: self.votes_decline,
            votes_abstain: self.votes_abstain,
            votes_total: self.votes_total,
        }
    }
}

/// The poll that is open for votes, and how the asking voter has answered it,
/// if at all.
#[derive(Debug)]
pub struct GetActivePollResponse {
    pub poll_index: i32,
    pub name: String,
    pub description: String,
    pub voted: Option<String>,
}

/// What a [`GetActivePollResponse`] is to the contracts.
pub struct ActivePoll {
    pub poll_index: i32,
    pub name: Seq<char>,
    pub description: Seq<char>,
    pub voted: Option<Seq<char>>,
}

impl View for GetActivePollResponse {
    type V = ActivePoll;

    open spec fn view(&self) -> ActivePoll {
        ActivePoll {
            poll_index: self.poll_index,
            name: self.name@,
            description: self.description@,
            voted: match self.voted {
                Some(answer) => Some(answer@),
                None => None,
            },
        }
    }
}

/// The request to register a voter.
#[derive(Debug)]
pub struct CreateVoterRequest {
    pub username: String,
}

/// What a voter learns about itself.
#[derive(Debug)]
pub struct GetVoterInfoResponse {
    pub voting_name: String,
    pub username: String,
}

/// What a [`GetVoterInfoResponse`] is to the contracts.
pub struct VoterInfo {
    pub voting_name: Seq<char>,
    pub username: Seq<char>,
}

impl View for GetVoterInfoResponse {
    type V = VoterInfo;

    open spec fn view(&self) -> VoterInfo {
        VoterInfo { voting_name: self.voting_name@, username: self.username@ }
    }
}

/// The request to open a poll for votes, or to close the open one.
#[derive(Debug)]
pub struct SetActivePollRequest {
    pub poll_index: Option<u16>,
}

/// A vote: accept, decline or, with no answer, abstain.
#[derive(Debug)]
pub struct SetVoteRequest {
    pub answer: Option<bool>,
}

/// The key of a newly registered voter. It is handed out here and nowhere
/// else: the store keeps only its hash.
#[derive(Debug)]
pub struct CreateVoterResponse {
    pub voter_key: String,
    pub voting_id: String,
}

/// What a [`CreateVoterResponse`] is to the contracts.
pub struct VoterCredential {
    pub voter_key: Seq<char>,
    pub voting_id: Seq<char>,
}

impl View for CreateVoterResponse {
    type V = VoterCredential;

    open spec fn view(&self) -> VoterCredential {
        VoterCredential { voter_key: self.voter_key@, voting_id: self.voting_id@ }
    }
}

/// The request to create a voting with its polls.
#[derive(Debug)]
pub struct CreateVotingRequest {
    pub name: String,
    pub polls: Vec<CreateVotingPollRequest>,
}

/// One poll of a voting that is to be created.
#[derive(Debug)]
pub struct CreateVotingPollRequest {
    pub name: String,
    pub description: String,
}

/// What a [`CreateVotingPollRequest`] is to the contracts.
pub struct PollDraft {
    pub name: Seq<char>,
    pub description: Seq<char>,
}

impl View for CreateVotingPollRequest {
    type V = PollDraft;

    open spec fn view(&self) -> PollDraft {
        PollDraft { name: self.name@, description: self.description@ }
    }
}

/// The polls of a request, each by its view.
pub open spec fn drafts(polls: Seq<CreateVotingPollRequest>) -> Seq<PollDraft> {
    Seq::new(polls.len(), |i: int| polls[i]@)
}

/// The identifier of a newly created voting and the key of its administrator.
/// The key is handed out here and nowhere else: the store keeps only its hash.
#[derive(Debug)]
pub struct CreateVotingResponse {
    pub voting_id: String,
    pub admin_key: String,
}

/// What a [`CreateVotingResponse`] is to the contracts.
pub struct VotingCredential {
    pub voting_id: Seq<char>,
    pub admin_key: Seq<char>,
}

impl View for CreateVotingResponse {
    type V = VotingCredential;

    open spec fn view(&self) -> VotingCredential {
        VotingCredential { voting_id: self.voting_id@, admin_key: self.admin_key@ }
    }
}

} // verus!
