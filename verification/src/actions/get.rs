//! A voting together with its tallied polls.

use crate::dtos::GetVotingPollsResponse;
use crate::models::Voting;
use crate::routes::voting::get_voting_polls_response;
use crate::rows::views;
use crate::store::Store;
use crate::tally::summaries;
use crate::utils::ErrorResponse;
use vstd::prelude::*;

verus! {

/// Hands `voting` back together with its polls, each with its tally and
/// status, in ascending sequence order.
pub fn get_voting_polls_response_for_voting(conn: &Store, voting: Voting) -> (outcome: Result<
    (Voting, Vec<GetVotingPollsResponse>),
    ErrorResponse,
>)
    ensures
        match conn@.find_poll_results(voting.id@) {
            Ok(results) => outcome matches Ok((same, polls)) && same == voting && views(polls@)
                == summaries(results),
            Err(error) => outcome matches Err(e) && e@ == error,
        },
{
    let polls = get_voting_polls_response(conn, &voting.id)?;
    Ok((voting, polls))
}

} // verus!
