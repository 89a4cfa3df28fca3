//! Counting the votes on a poll and naming the outcome.

use crate::dtos::PollSummary;
use crate::models::{PollResultView, VoteView};
use crate::store::{vote_answering, vote_on};
use vstd::prelude::*;

verus! {

/// The status of a poll with the given tally: `NOT_VOTED` where no vote was
/// cast, else `ACCEPTED` where more voters accept than decline, `DECLINED`
/// where more decline than accept, and `DRAW` where as many do either.
pub open spec fn status_text(votes_accept: int, votes_decline: int, votes_total: int) -> Seq<char> {
    if votes_total == 0 {
        "NOT_VOTED"@
    } else if votes_accept > votes_decline {
        "ACCEPTED"@
    } else if votes_decline > votes_accept {
        "DECLINED"@
    } else {
        "DRAW"@
    }
}

/// A tallied poll as the administrator reads it: the tally and its status.
pub open spec fn summary(result: PollResultView) -> PollSummary {
    PollSummary {
        poll_id: result.id,
        name: result.name,
        description: result.description,
        status: status_text(
            result.votes_accept as int,
            result.votes_decline as int,
            result.votes_total as int,
        ),
        votes_accept: result.votes_accept,
        votes_decline: result.votes_decline,
        votes_abstain: result.votes_abstain,
        votes_total: result.votes_total,
    }
}

/// The tallied polls of a voting as the administrator reads them.
pub open spec fn summaries(results: Seq<PollResultView>) -> Seq<PollSummary> {
    Seq::new(results.len(), |i: int| summary(results[i]))
}

/// Every vote on a poll accepts, declines or abstains: the three counts add up
/// to the number of votes on the poll.
pub proof fn lemma_votes_add_up(votes: Seq<VoteView>, poll_id: Seq<char>)
    ensures
        votes.filter(vote_on(poll_id)).len() == votes.filter(
            vote_answering(poll_id, Some(true)),
        ).len() + votes.filter(vote_answering(poll_id, Some(false))).len() + votes.filter(
            vote_answering(poll_id, None),
        ).len(),
    decreases votes.len(),
{
    if votes.len() == 0 {
        votes.lemma_filter_len(vote_on(poll_id));
        votes.lemma_filter_len(vote_answering(poll_id, Some(true)));
        votes.lemma_filter_len(vote_answering(poll_id, Some(false)));
        votes.lemma_filter_len(vote_answering(poll_id, None));
    } else {
        let rest = votes.drop_last();
        let last = votes.last();
        assert(votes =~= rest.push(last));
        lemma_votes_add_up(rest, poll_id);
        rest.lemma_filter_len_push(vote_on(poll_id), last);
        rest.lemma_filter_len_push(vote_answering(poll_id, Some(true)), last);
        rest.lemma_filter_len_push(vote_answering(poll_id, Some(false)), last);
        rest.lemma_filter_len_push(vote_answering(poll_id, None), last);
        assert(vote_on(poll_id)(last) == (last.poll_fk == poll_id));
        assert(vote_answering(poll_id, Some(true))(last) == (last.poll_fk == poll_id
            && last.answer == Some(true)));
        assert(vote_answering(poll_id, Some(false))(last) == (last.poll_fk == poll_id
            && last.answer == Some(false)));
        assert(vote_answering(poll_id, None)(last) == (last.poll_fk == poll_id && last.answer
            == None::<bool>));
        match last.answer {
            Some(true) => {},
            Some(false) => {},
            None => {},
        }
    }
}

} // verus!
