//! Registering a voter, and what a voter learns about itself.

use crate::actions::check::{admin_rejection, check_if_voter, check_if_voting_admin};
use crate::actions::find::{find_voter, find_voting, seen};
use crate::actions::insert::{insert_voter_row, voter_write_failure};
use crate::dtos::{
    CreateVoterRequest, CreateVoterResponse, GetVoterInfoResponse, VoterCredential, VoterInfo,
};
use crate::models::{Voter, VoterView};
use crate::store::{Store, StoreView};
use crate::utils::{
    generate_uuid, hash_string, is_hyphenated_uuid, sha256_upper_hex, AuthenticatedUser,
    ErrorResponse, ErrorView,
};
use crate::validators::{
    create_voter_rejection, validate_create_voter_request, validate_voting_id, voting_id_rejection,
};
use vstd::prelude::*;
use vstd::string::StringExecFns;

verus! {

/// The path of the operation that registers a voter.
pub open spec fn create_voter_path(voting_id: Seq<char>) -> Seq<char> {
    "/votings/"@ + voting_id + "/voters"@
}

/// The path of the operation that tells a voter about itself.
pub open spec fn get_voter_info_path(voting_id: Seq<char>) -> Seq<char> {
    "/votings/"@ + voting_id + "/voters/info"@
}

/// The voter that is written for a new key: the store keeps the key's hash,
/// never the key.
pub open spec fn new_voter(
    voter_id: Seq<char>,
    voter_key: Seq<char>,
    voting_id: Seq<char>,
    username: Seq<char>,
) -> VoterView {
    VoterView {
        id: voter_id,
        voter_key_hash: sha256_upper_hex(voter_key),
        voting_fk: voting_id,
        username,
    }
}

impl StoreView {
    /// Why a request to register a voter is refused before anything is
    /// written, if it is. In this order: the identifier is malformed, the
    /// username is, the voting is missing, the caller is not its
    /// administrator.
    pub open spec fn create_voter_rejection(
        self,
        voting_id: Seq<char>,
        username: Seq<char>,
        key_hash: Seq<char>,
    ) -> Option<ErrorView> {
        if voting_id_rejection(voting_id) is Some {
            voting_id_rejection(voting_id)
        } else if create_voter_rejection(username) is Some {
            create_voter_rejection(username)
        } else {
            match self.find_voting(voting_id) {
                Err(error) => Some(error),
                Ok(voting) => admin_rejection(voting, key_hash),
            }
        }
    }

    /// What registering a voter with the key `voter_key` under the identifier
    /// `voter_id` does to the store and answers. A refused request changes
    /// nothing; an accepted one writes the voter, the store's constraints
    /// permitting, and hands the key out.
    pub open spec fn voter_created(
        self,
        after: StoreView,
        outcome: Result<VoterCredential, ErrorView>,
        voting_id: Seq<char>,
        username: Seq<char>,
        key_hash: Seq<char>,
        voter_key: Seq<char>,
        voter_id: Seq<char>,
    ) -> bool {
        let voter = new_voter(voter_id, voter_key, voting_id, username);
        match self.create_voter_rejection(voting_id, username, key_hash) {
            Some(error) => outcome == Err::<VoterCredential, ErrorView>(error) && after == self,
            None => match self.voter_refusal(voter) {
                Some(_) => outcome == Err::<VoterCredential, ErrorView>(
                    voter_write_failure(voter),
                ) && after == self,
                None => outcome == Ok::<VoterCredential, ErrorView>(
                    VoterCredential { voter_key, voting_id },
                ) && after == self.with_voter(voter),
            },
        }
    }

    /// What a voter learns about itself: its username and the name of its
    /// voting. Refused where the identifier is malformed, the voting is
    /// missing, or the caller is not a voter of it.
    pub open spec fn voter_info(self, voting_id: Seq<char>, key_hash: Seq<char>) -> Result<
        VoterInfo,
        ErrorView,
    > {
        if voting_id_rejection(voting_id) is Some {
            Err(voting_id_rejection(voting_id)->0)
        } else {
            match self.find_voting(voting_id) {
                Err(error) => Err(error),
                Ok(voting) => match self.voter_admission(voting_id, key_hash) {
                    Err(error) => Err(error),
                    Ok(voter) => Ok(
                        VoterInfo { voting_name: voting.name, username: voter.username },
                    ),
                },
            }
        }
    }
}

/// The path of the operation that registers a voter.
pub fn cors_create_voter(voting_id: String) -> (path: String)
    ensures
        path@ == create_voter_path(voting_id@),
{
    let mut path = String::from_str("/votings/");
    path.append(voting_id.as_str());
    path.append("/voters");
    path
}

/// Registers a voter of a voting with the key `voter_key`, written under the
/// identifier `voter_id`. Only the administrator of the voting may do so.
pub fn create_voter_with(
    conn: &mut Store,
    voting_id: String,
    input: CreateVoterRequest,
    user: AuthenticatedUser,
    voter_key: String,
    voter_id: String,
) -> (outcome: Result<CreateVoterResponse, ErrorResponse>)
    ensures
        old(conn)@.voter_created(
            final(conn)@,
            seen(outcome),
            voting_id@,
            input.username@,
            user@,
            voter_key@,
            voter_id@,
        ),
        old(conn)@.wf() ==> final(conn)@.wf(),
{
    validate_voting_id(&voting_id)?;
    validate_create_voter_request(&input)?;
    let voter_key_hash = hash_string(&voter_key);
    let found = find_voting(conn, &voting_id)?;
    let voting = check_if_voting_admin(found, &user)?;
    proof {
        crate::rows::lemma_first_position_meaning(
            conn@.votings,
            crate::store::voting_has_id(voting_id@),
        );
    }
    insert_voter_row(
        conn,
        Voter {
            id: voter_id,
            voter_key_hash,
            voting_fk: voting.id.clone(),
            username: input.username.clone(),
        },
    )?;
    Ok(CreateVoterResponse { voter_key, voting_id: voting.id })
}

/// Registers a voter of a voting under a fresh key and a fresh identifier,
/// and hands the key out.
pub fn create_voter(
    conn: &mut Store,
    voting_id: String,
    input: CreateVoterRequest,
    user: AuthenticatedUser,
) -> (outcome: Result<CreateVoterResponse, ErrorResponse>)
    ensures
        exists|voter_key: Seq<char>, voter_id: Seq<char>|
            is_hyphenated_uuid(voter_key) && is_hyphenated_uuid(voter_id) && #[trigger] old(
                conn,
            )@.voter_created(
                final(conn)@,
                seen(outcome),
                voting_id@,
                input.username@,
                user@,
                voter_key,
                voter_id,
            ),
        old(conn)@.create_voter_rejection(voting_id@, input.username@, user@) matches Some(error)
            ==> (outcome matches Err(e) && e@ == error && final(conn)@ == old(conn)@),
        old(conn)@.wf() ==> final(conn)@.wf(),
{
    let voter_key = generate_uuid();
    let voter_id = generate_uuid();
    let ghost key = voter_key@;
    let ghost id = voter_id@;
    let outcome = create_voter_with(conn, voting_id, input, user, voter_key, voter_id);
    assert(old(conn)@.voter_created(
        conn@,
        seen(outcome),
        voting_id@,
        input.username@,
        user@,
        key,
        id,
    ));
    outcome
}

/// The path of the operation that tells a voter about itself.
pub fn cors_get_voter_info(voting_id: String) -> (path: String)
    ensures
        path@ == get_voter_info_path(voting_id@),
{
    let mut path = String::from_str("/votings/");
    path.append(voting_id.as_str());
    path.append("/voters/info");
    path
}

/// Tells a voter its username and the name of its voting.
pub fn get_voter_info(conn: &Store, voting_id: String, user: AuthenticatedUser) -> (outcome:
    Result<GetVoterInfoResponse, ErrorResponse>)
    ensures
        seen(outcome) == conn@.voter_info(voting_id@, user@),
{
    validate_voting_id(&voting_id)?;
    let found = find_voting(conn, &voting_id)?;
    let voting = check_if_voter(conn, found, &user)?;
    let voter = find_voter(conn, &user)?;
    Ok(GetVoterInfoResponse { voting_name: voting.name, username: voter.username })
}

} // verus!
