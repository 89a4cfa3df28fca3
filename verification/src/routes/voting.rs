//! Creating a voting with its polls, and the full detail of a voting for its
//! administrator.

use crate::actions::check::{admin_rejection, check_if_voting_admin};
use crate::actions::find::{find_amount_of_voters, find_poll_results, find_voting, seen};
use crate::dtos::{
    drafts, CreateVotingRequest, CreateVotingResponse, GetVotingPollsResponse, GetVotingResponse,
    PollDraft, VotingCredential, VotingDetail,
};
use crate::models::{Poll, PollResult, PollView};
use crate::rows::views;
use crate::store::{Store, StoreView};
use crate::tally::{status_text, summaries, summary};
use crate::utils::{
    failure, generate_uuid, hash_string, is_hyphenated_uuid, sha256_upper_hex, AuthenticatedUser,
    ErrorResponse, ErrorView, Status,
};
use crate::validators::{
    create_voting_rejection, validate_create_voting_request, validate_voting_id,
    voting_id_rejection,
};
use crate::writes::new_voting;
use vstd::prelude::*;
use vstd::string::StringExecFns;

verus! {

/// The distance between the sequence numbers of two neighbouring polls of a
/// new voting.
pub const SEQUENCE_STEP: usize = 10;

/// The path of the operation that creates a voting.
pub open spec fn create_voting_path() -> Seq<char> {
    "/votings"@
}

/// The path of the operation that shows a voting to its administrator.
pub open spec fn get_voting_path(voting_id: Seq<char>) -> Seq<char> {
    "/votings/"@ + voting_id
}

/// The failure that tells that a voting and its polls were not written.
pub open spec fn voting_write_failure() -> ErrorView {
    failure(Status::Internal, "Could not insert voting to database"@)
}

/// The poll that is written for the draft at `position` of a request: its
/// sequence number is ten times its position.
pub open spec fn drafted_poll(
    draft: PollDraft,
    id: Seq<char>,
    position: int,
    voting_id: Seq<char>,
) -> PollView {
    PollView {
        id,
        sequenz_number: (position * 10) as i32,
        voting_fk: voting_id,
        name: draft.name,
        description: draft.description,
    }
}

/// The polls that are written for the drafts of a request, in the order in
/// which the request lists them.
pub open spec fn drafted_polls(
    polls: Seq<PollDraft>,
    poll_ids: Seq<Seq<char>>,
    voting_id: Seq<char>,
) -> Seq<PollView> {
    Seq::new(polls.len(), |i: int| drafted_poll(polls[i], poll_ids[i], i, voting_id))
}

/// Every text is a hyphenated UUID.
pub open spec fn all_uuids(ids: Seq<Seq<char>>) -> bool {
    forall|i: int| 0 <= i < ids.len() ==> is_hyphenated_uuid(#[trigger] ids[i])
}

impl StoreView {
    /// This store with more polls.
    pub open spec fn with_polls(self, polls: Seq<PollView>) -> StoreView {
        StoreView { polls: self.polls + polls, ..self }
    }

    /// Whether the store accepts the polls one after the other.
    pub open spec fn accepts_polls(self, polls: Seq<PollView>) -> bool
        decreases polls.len(),
    {
        polls.len() == 0 || (self.poll_refusal(polls[0]) is None && self.with_poll(
            polls[0],
        ).accepts_polls(polls.drop_first()))
    }

    /// Whether the store accepts a voting under `voting_id` and, after it,
    /// its polls under `poll_ids`.
    pub open spec fn accepts_voting(
        self,
        name: Seq<char>,
        polls: Seq<PollDraft>,
        admin_key: Seq<char>,
        voting_id: Seq<char>,
        poll_ids: Seq<Seq<char>>,
    ) -> bool {
        &&& poll_ids.len() == polls.len()
        &&& self.voting_refusal(voting_id) is None
        &&& self.with_voting(
            new_voting(voting_id, name, sha256_upper_hex(admin_key)),
        ).accepts_polls(drafted_polls(polls, poll_ids, voting_id))
    }

    /// What creating a voting does to the store and answers. A malformed
    /// request is refused before anything is written. A voting that the store
    /// accepts is written with no poll open and with all its polls, in the
    /// order of the request, and the administrator's key is handed out. Where
    /// the store refuses the voting or one of the polls, nothing is written.
    pub open spec fn voting_created(
        self,
        after: StoreView,
        outcome: Result<VotingCredential, ErrorView>,
        name: Seq<char>,
        polls: Seq<PollDraft>,
        admin_key: Seq<char>,
        voting_id: Seq<char>,
        poll_ids: Seq<Seq<char>>,
    ) -> bool {
        match create_voting_rejection(name, polls) {
            Some(error) => outcome == Err::<VotingCredential, ErrorView>(error) && after == self,
            None => if self.accepts_voting(name, polls, admin_key, voting_id, poll_ids) {
                &&& outcome == Ok::<VotingCredential, ErrorView>(
                    VotingCredential { voting_id, admin_key },
                )
                &&& after == self.with_voting(
                    new_voting(voting_id, name, sha256_upper_hex(admin_key)),
                ).with_polls(drafted_polls(polls, poll_ids, voting_id))
            } else {
                outcome == Err::<VotingCredential, ErrorView>(voting_write_failure()) && after
                    == self
            },
        }
    }

    /// The full detail of a voting as its administrator reads it. Refused
    /// where the identifier is malformed, the voting is missing, the caller is
    /// not its administrator, or a count does not fit.
    pub open spec fn voting_detail(self, voting_id: Seq<char>, key_hash: Seq<char>) -> Result<
        VotingDetail,
        ErrorView,
    > {
        if voting_id_rejection(voting_id) is Some {
            Err(voting_id_rejection(voting_id)->0)
        } else {
            match self.find_voting(voting_id) {
                Err(error) => Err(error),
                Ok(voting) => if admin_rejection(voting, key_hash) is Some {
                    Err(admin_rejection(voting, key_hash)->0)
                } else {
                    match self.find_poll_results(voting_id) {
                        Err(error) => Err(error),
                        Ok(results) => match self.find_amount_of_voters(voting_id) {
                            Err(error) => Err(error),
                            Ok(voter_count) => Ok(
                                VotingDetail {
                                    voting_id,
                                    name: voting.name,
                                    active_poll_index: voting.active_poll_index,
                                    voter_count,
                                    polls: summaries(results),
                                },
                            ),
                        },
                    }
                },
            }
        }
    }
}

/// The path of the operation that creates a voting.
pub fn cors_create_voting() -> (path: String)
    ensures
        path@ == create_voting_path(),
{
    String::from_str("/votings")
}

/// The failure with which a voting that was not written is answered.
pub fn voting_insert_failed() -> (error: ErrorResponse)
    ensures
        error@ == voting_write_failure(),
{
    ErrorResponse::new(Status::Internal, "Could not insert voting to database")
}

/// Creates a voting and its polls as one: either the voting and every poll
/// are written, or nothing is. The voting is written under `voting_id` with
/// the hash of `admin_key`, the poll at position `i` under `poll_ids[i]` with
/// the sequence number `10 * i`.
pub fn create_voting_with(
    conn: &mut Store,
    input: CreateVotingRequest,
    admin_key: String,
    voting_id: String,
    poll_ids: Vec<String>,
) -> (outcome: Result<CreateVotingResponse, ErrorResponse>)
    ensures
        old(conn)@.voting_created(
            final(conn)@,
            seen(outcome),
            input.name@,
            drafts(input.polls@),
            admin_key@,
            voting_id@,
            views(poll_ids@),
        ),
        old(conn)@.wf() ==> final(conn)@.wf(),
{
    validate_create_voting_request(&input)?;
    let admin_key_hash = hash_string(&admin_key);
    if poll_ids.len() != input.polls.len() {
        return Err(voting_insert_failed());
    }
    let votings_before = conn.votings.len();
    let polls_before = conn.polls.len();
    match conn.add_voting(voting_id.clone(), input.name.clone(), admin_key_hash) {
        Ok(_) => {},
        Err(_) => {
            return Err(voting_insert_failed());
        },
    }
    let ghost before = old(conn)@;
    let ghost was_wf = before.wf();
    let ghost start = conn@;
    let ghost rows = drafted_polls(drafts(input.polls@), views(poll_ids@), voting_id@);
    proof {
        assert(rows.skip(0) =~= rows);
        assert(start.with_polls(rows.take(0)).polls =~= start.polls);
    }
    let mut i: usize = 0;
    while i < input.polls.len()
        invariant
            i <= input.polls.len() <= 100,
            poll_ids.len() == input.polls.len(),
            rows == drafted_polls(drafts(input.polls@), views(poll_ids@), voting_id@),
            before == old(conn)@,
            create_voting_rejection(input.name@, drafts(input.polls@)) is None,
            before.voting_refusal(voting_id@) is None,
            start == before.with_voting(
                new_voting(voting_id@, input.name@, sha256_upper_hex(admin_key@)),
            ),
            votings_before == before.votings.len(),
            polls_before == before.polls.len(),
            conn@ == start.with_polls(rows.take(i as int)),
            start.accepts_polls(rows) == conn@.accepts_polls(rows.skip(i as int)),
            was_wf ==> conn@.wf(),
        decreases input.polls.len() - i,
    {
        let draft = &input.polls[i];
        let poll = Poll {
            id: poll_ids[i].clone(),
            sequenz_number: (i * SEQUENCE_STEP) as i32,
            voting_fk: voting_id.clone(),
            name: draft.name.clone(),
            description: draft.description.clone(),
        };
        let ghost earlier = conn@;
        proof {
            assert(poll@ == rows[i as int]);
            assert(rows.skip(i as int)[0] == rows[i as int]);
            assert(rows.skip(i as int).drop_first() =~= rows.skip(i as int + 1));
        }
        match conn.add_poll(poll) {
            Ok(_) => {
                proof {
                    assert(conn@.polls =~= start.polls + rows.take(i as int + 1));
                }
            },
            Err(_) => {
                assert(conn@ == earlier);
                conn.votings.truncate(votings_before);
                conn.polls.truncate(polls_before);
                proof {
                    assert(earlier.polls.len() == before.polls.len() + i);
                    assert forall|j: int| 0 <= j < before.polls.len() implies conn@.polls[j]
                        == before.polls[j] by {
                        assert(earlier.polls[j] == before.polls[j]);
                    }
                    assert forall|j: int| 0 <= j < before.votings.len() implies conn@.votings[j]
                        == before.votings[j] by {
                        assert(earlier.votings[j] == before.votings[j]);
                    }
                    assert(conn@.votings =~= before.votings);
                    assert(conn@.polls =~= before.polls);
                    assert(!earlier.accepts_polls(rows.skip(i as int)));
                }
                return Err(voting_insert_failed());
            },
        }
        i = i + 1;
    }
    proof {
        assert(rows.take(i as int) =~= rows);
    }
    Ok(CreateVotingResponse { voting_id, admin_key })
}

fn fresh_ids(count: usize) -> (ids: Vec<String>)
    ensures
        ids.len() == count,
        all_uuids(views(ids@)),
{
    let mut ids: Vec<String> = Vec::new();
    let mut i: usize = 0;
    while i < count
        invariant
            i <= count,
            ids.len() == i,
            all_uuids(views(ids@)),
        decreases count - i,
    {
        let id = generate_uuid();
        proof {
            let longer = views(ids@.push(id));
            assert forall|j: int| 0 <= j < longer.len() implies is_hyphenated_uuid(
                #[trigger] longer[j],
            ) by {
                if j < ids.len() {
                    assert(longer[j] == views(ids@)[j]);
                }
            }
        }
        ids.push(id);
        i = i + 1;
    }
    ids
}

/// Creates a voting and its polls as one, under a fresh administrator's key
/// and fresh identifiers. The key is handed out here and nowhere else.
pub fn create_voting(conn: &mut Store, input: CreateVotingRequest) -> (outcome: Result<
    CreateVotingResponse,
    ErrorResponse,
>)
    ensures
        exists|admin_key: Seq<char>, voting_id: Seq<char>, poll_ids: Seq<Seq<char>>|
            is_hyphenated_uuid(admin_key) && is_hyphenated_uuid(voting_id) && all_uuids(poll_ids)
                && poll_ids.len() == input.polls.len() && #[trigger] old(conn)@.voting_created(
                final(conn)@,
                seen(outcome),
                input.name@,
                drafts(input.polls@),
                admin_key,
                voting_id,
                poll_ids,
            ),
        create_voting_rejection(input.name@, drafts(input.polls@)) matches Some(error) ==> (
        outcome matches Err(e) && e@ == error && final(conn)@ == old(conn)@),
        old(conn)@.wf() ==> final(conn)@.wf(),
{
    let admin_key = generate_uuid();
    let voting_id = generate_uuid();
    let poll_ids = fresh_ids(input.polls.len());
    let ghost key = admin_key@;
    let ghost id = voting_id@;
    let ghost ids = views(poll_ids@);
    let outcome = create_voting_with(conn, input, admin_key, voting_id, poll_ids);
    assert(old(conn)@.voting_created(
        conn@,
        seen(outcome),
        input.name@,
        drafts(input.polls@),
        key,
        id,
        ids,
    ));
    outcome
}

/// The path of the operation that shows a voting to its administrator.
pub fn cors_get_voting(voting_id: String) -> (path: String)
    ensures
        path@ == get_voting_path(voting_id@),
{
    let mut path = String::from_str("/votings/");
    path.append(voting_id.as_str());
    path
}

/// Shows a voting to its administrator: its name, its active poll, the number
/// of its voters, and each poll with its tally and status.
pub fn get_voting(conn: &Store, voting_id: String, user: AuthenticatedUser) -> (outcome: Result<
    GetVotingResponse,
    ErrorResponse,
>)
    ensures
        seen(outcome) == conn@.voting_detail(voting_id@, user@),
{
    validate_voting_id(&voting_id)?;
    let found = find_voting(conn, &voting_id)?;
    let voting = check_if_voting_admin(found, &user)?;
    proof {
        crate::rows::lemma_first_position_meaning(
            conn@.votings,
            crate::store::voting_has_id(voting_id@),
        );
    }
    let polls = get_voting_polls_response(conn, &voting.id)?;
    let voter_count = find_amount_of_voters(conn, &voting.id)?;
    let response = GetVotingResponse {
        voting_id: voting.id,
        name: voting.name,
        active_poll_index: voting.active_poll_index,
        polls,
        voter_count,
    };
    proof {
        assert(response@.polls =~= summaries(conn@.find_poll_results(voting_id@)->Ok_0));
    }
    Ok(response)
}

/// The polls of a voting in ascending sequence order, each with its tally and
/// status.
pub fn get_voting_polls_response(conn: &Store, voting_id: &String) -> (outcome: Result<
    Vec<GetVotingPollsResponse>,
    ErrorResponse,
>)
    ensures
        match conn@.find_poll_results(voting_id@) {
            Ok(results) => outcome matches Ok(polls) && views(polls@) == summaries(results),
            Err(error) => outcome matches Err(e) && e@ == error,
        },
{
    let loaded_polls = find_poll_results(conn, voting_id)?;
    let mut polls: Vec<GetVotingPollsResponse> = Vec::new();
    let mut i: usize = 0;
    while i < loaded_polls.len()
        invariant
            i <= loaded_polls.len(),
            polls.len() == i,
            forall|j: int| 0 <= j < i ==> (#[trigger] polls[j])@ == summary(loaded_polls[j]@),
        decreases loaded_polls.len() - i,
    {
        let poll = &loaded_polls[i];
        polls.push(
            GetVotingPollsResponse {
                poll_id: poll.id.clone(),
                name: poll.name.clone(),
                description: poll.description.clone(),
                status: get_status_from_poll(poll),
                votes_accept: poll.votes_accept,
                votes_decline: poll.votes_decline,
                votes_abstain: poll.votes_abstain,
                votes_total: poll.votes_total,
            },
        );
        i = i + 1;
    }
    proof {
        assert(views(polls@) =~= summaries(views(loaded_polls@)));
    }
    Ok(polls)
}

/// The status of a tallied poll.
pub fn get_status_from_poll(poll: &PollResult) -> (status: String)
    ensures
        status@ == status_text(
            poll.votes_accept as int,
            poll.votes_decline as int,
            poll.votes_total as int,
        ),
{
    if poll.votes_total == 0 {
        return String::from_str("NOT_VOTED");
    }
    if poll.votes_accept > poll.votes_decline {
        return String::from_str("ACCEPTED");
    }
    if poll.votes_decline > poll.votes_accept {
        return String::from_str("DECLINED");
    }
    String::from_str("DRAW")
}

} // verus!
