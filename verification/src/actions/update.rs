//! Changing which poll of a voting is open.

use crate::models::Voting;
use crate::rows::first_position;
use crate::store::{voting_has_id, Store, StoreView};
use crate::text::{decimal, push_signed};
use crate::utils::{failure, ErrorResponse, ErrorView, Status};
use vstd::prelude::*;
use vstd::string::StringExecFns;

verus! {

/// A position, or none, as it is written in a reason.
pub open spec fn index_text(index: Option<i32>) -> Seq<char> {
    match index {
        Some(k) => "Some("@ + decimal(k as int) + ")"@,
        None => "None"@,
    }
}

/// The failure with which a refused change of the active poll is answered.
pub open spec fn activation_failure(index: Option<i32>, voting_id: Seq<char>) -> ErrorView {
    failure(
        Status::Internal,
        "Could not set active_poll_index: "@ + index_text(index) + " for voting with id: "@
            + voting_id,
    )
}

impl StoreView {
    /// This store with the active poll of the voting `voting_id` set to
    /// `index`.
    pub open spec fn activated(self, voting_id: Seq<char>, index: Option<i32>) -> StoreView {
        self.with_active(first_position(self.votings, voting_has_id(voting_id))->0, index)
    }
}

/// The failure with which a change of the active poll that was not written is
/// answered.
pub fn activation_failed(poll_index: Option<i32>, voting_id: &String) -> (error: ErrorResponse)
    ensures
        error@ == activation_failure(poll_index, voting_id@),
{
    let mut reason = String::from_str("Could not set active_poll_index: ");
    match poll_index {
        Some(k) => {
            reason.append("Some(");
            push_signed(&mut reason, k as i64);
            reason.append(")");
        },
        None => {
            reason.append("None");
        },
    }
    reason.append(" for voting with id: ");
    reason.append(voting_id.as_str());
    assert(reason@ =~= activation_failure(poll_index, voting_id@).reason);
    ErrorResponse { reason, status: Status::Internal }
}

/// Opens the poll at position `poll_index` of `voting`, or closes the open one
/// where `poll_index` is `None`. Refused with `Internal`, and without any
/// change, where the voting is not in the store or has no poll there.
pub fn update_voting(conn: &mut Store, voting: &Voting, poll_index: &Option<i32>) -> (outcome:
    Result<(), ErrorResponse>)
    ensures
        match old(conn)@.activation_refusal(voting.id@, *poll_index) {
            Some(_) => outcome matches Err(error) && error@ == activation_failure(
                *poll_index,
                voting.id@,
            ) && final(conn)@ == old(conn)@,
            None => outcome is Ok && final(conn)@ == old(conn)@.activated(
                voting.id@,
                *poll_index,
            ),
        },
        old(conn)@.wf() ==> final(conn)@.wf(),
{
    match conn.set_active_poll_index(&voting.id, *poll_index) {
        Ok(_) => Ok(()),
        Err(_) => Err(activation_failed(*poll_index, &voting.id)),
    }
}

} // verus!
