use voting_backend::dtos::{
    CreateVoterRequest, CreateVotingPollRequest, CreateVotingRequest, SetActivePollRequest,
    SetVoteRequest,
};
use voting_backend::models::{PollResult, Vote};
use voting_backend::routes::poll::{get_active_poll, get_answered_from_vote, set_active_poll};
use voting_backend::routes::vote::{cors_set_vote, set_vote, set_vote_with};
use voting_backend::routes::voter::{
    cors_create_voter, cors_get_voter_info, create_voter, create_voter_with, get_voter_info,
};
use voting_backend::routes::voting::{
    cors_create_voting, cors_get_voting, create_voting, create_voting_with, get_status_from_poll,
    get_voting, get_voting_polls_response, SEQUENCE_STEP,
};
use voting_backend::store::Store;
use voting_backend::utils::{hash_string, AuthenticatedUser, ErrorResponse, Status};

fn s(text: &str) -> String {
    text.to_string()
}

fn user(key: &str) -> AuthenticatedUser {
    AuthenticatedUser::from_request(Some(s(key))).unwrap()
}

fn request(name: &str, polls: usize) -> CreateVotingRequest {
    let mut list = Vec::new();
    for i in 0..polls {
        list.push(CreateVotingPollRequest {
            name: format!("Poll number {}", i),
            description: format!("Description {}", i),
        });
    }
    CreateVotingRequest { name: s(name), polls: list }
}

fn id(n: usize) -> String {
    format!("{:08}-0000-4000-8000-000000000000", n)
}

fn ids(from: usize, count: usize) -> Vec<String> {
    (from..from + count).map(id).collect()
}

fn activate(index: Option<u16>) -> SetActivePollRequest {
    SetActivePollRequest { poll_index: index }
}

fn answer(answer: Option<bool>) -> SetVoteRequest {
    SetVoteRequest { answer }
}

fn tally(accept: i64, decline: i64, abstain: i64) -> PollResult {
    PollResult {
        id: s("poll"),
        sequenz_number: 0,
        voting_fk: s("voting"),
        name: s("A poll"),
        description: s("About it"),
        votes_accept: accept,
        votes_decline: decline,
        votes_abstain: abstain,
        votes_total: accept + decline + abstain,
    }
}

fn error<T>(outcome: Result<T, ErrorResponse>) -> (Status, String) {
    match outcome {
        Ok(_) => panic!("the request was accepted"),
        Err(error) => (error.status, error.reason),
    }
}

/// A store with one voting of `polls` polls; returns the store, the voting's
/// identifier and the administrator's key.
fn with_voting(polls: usize) -> (Store, String, String) {
    let mut store = Store::new();
    let created = create_voting(&mut store, request("A voting", polls)).unwrap();
    (store, created.voting_id, created.admin_key)
}

fn register(store: &mut Store, voting_id: &str, admin_key: &str, username: &str) -> String {
    let input = CreateVoterRequest { username: s(username) };
    create_voter(store, s(voting_id), input, user(admin_key)).unwrap().voter_key
}

#[test]
fn paths() {
    assert_eq!(cors_create_voting(), "/votings");
    assert_eq!(cors_get_voting(s("abc")), "/votings/abc");
    assert_eq!(cors_create_voter(s("abc")), "/votings/abc/voters");
    assert_eq!(cors_get_voter_info(s("abc")), "/votings/abc/voters/info");
    assert_eq!(cors_set_vote(s("abc"), 3), "/votings/abc/polls/3/vote");
    assert_eq!(cors_set_vote(s("abc"), -12), "/votings/abc/polls/-12/vote");
    assert_eq!(cors_set_vote(String::new(), 0), "/votings//polls/0/vote");
}

#[test]
fn status_not_voted_without_votes() {
    assert_eq!(get_status_from_poll(&tally(0, 0, 0)), "NOT_VOTED");
}

#[test]
fn status_accepted_with_three_accepts_one_decline_two_abstentions() {
    let poll = tally(3, 1, 2);
    assert_eq!(poll.votes_total, 6);
    assert_eq!(get_status_from_poll(&poll), "ACCEPTED");
}

#[test]
fn status_draw_with_two_accepts_two_declines() {
    assert_eq!(get_status_from_poll(&tally(2, 2, 0)), "DRAW");
}

#[test]
fn status_declined_with_more_declines() {
    assert_eq!(get_status_from_poll(&tally(1, 2, 5)), "DECLINED");
}

#[test]
fn status_draw_with_abstentions_only() {
    assert_eq!(get_status_from_poll(&tally(0, 0, 4)), "DRAW");
}

#[test]
fn answers_read_back() {
    let vote = |answer| Vote { id: s("x"), poll_fk: s("p"), voter_fk: s("v"), answer };
    assert_eq!(get_answered_from_vote(&vote(None)), "ABSTAIN");
    assert_eq!(get_answered_from_vote(&vote(Some(true))), "ACCEPT");
    assert_eq!(get_answered_from_vote(&vote(Some(false))), "DECLINE");
}

#[test]
fn sequence_step_is_ten() {
    assert_eq!(SEQUENCE_STEP, 10);
}

#[test]
fn create_voting_writes_voting_and_polls_in_order() {
    let mut store = Store::new();
    let created = create_voting_with(
        &mut store,
        request("A voting", 3),
        s("admin-key"),
        id(1),
        ids(10, 3),
    )
    .unwrap();
    assert_eq!(created.voting_id, id(1));
    assert_eq!(created.admin_key, "admin-key");
    assert_eq!(store.votings.len(), 1);
    assert_eq!(store.votings[0].id, id(1));
    assert_eq!(store.votings[0].name, "A voting");
    assert_eq!(store.votings[0].admin_key_hash, hash_string(&s("admin-key")));
    assert_eq!(store.votings[0].active_poll_index, None);
    assert_eq!(store.polls.len(), 3);
    for i in 0..3 {
        assert_eq!(store.polls[i].id, id(10 + i));
        assert_eq!(store.polls[i].sequenz_number, 10 * i as i32);
        assert_eq!(store.polls[i].voting_fk, id(1));
        assert_eq!(store.polls[i].name, format!("Poll number {}", i));
        assert_eq!(store.polls[i].description, format!("Description {}", i));
    }
}

#[test]
fn create_voting_never_stores_the_admin_key() {
    let (store, _, admin_key) = with_voting(2);
    assert_ne!(store.votings[0].admin_key_hash, admin_key);
    assert_eq!(store.votings[0].admin_key_hash, hash_string(&admin_key));
}

#[test]
fn create_voting_with_one_poll() {
    let (store, voting_id, _) = with_voting(1);
    assert_eq!(store.count_polls(&voting_id), 1);
    assert_eq!(store.polls[0].sequenz_number, 0);
}

#[test]
fn create_voting_with_a_hundred_polls() {
    let (store, voting_id, _) = with_voting(100);
    assert_eq!(store.count_polls(&voting_id), 100);
    assert_eq!(store.polls.len(), 100);
    for i in 0..100 {
        assert_eq!(store.polls[i].sequenz_number, 10 * i as i32);
        assert_eq!(store.polls[i].name, format!("Poll number {}", i));
    }
}

#[test]
fn create_voting_rejects_poll_counts_out_of_range() {
    for count in [0, 101, 150] {
        let mut store = Store::new();
        let (status, reason) = error(create_voting(&mut store, request("A voting", count)));
        assert_eq!(status, Status::InvalidArgument);
        assert_eq!(reason, "Voting must have between 1 and 100 polls");
        assert!(store.votings.is_empty());
        assert!(store.polls.is_empty());
    }
}

#[test]
fn create_voting_rejects_malformed_requests_before_writing() {
    let mut store = Store::new();
    let (status, reason) = error(create_voting(&mut store, request("abc", 2)));
    assert_eq!(status, Status::InvalidArgument);
    assert_eq!(reason, "Voting Name length must be between 5 and 60 characters");
    let mut bad = request("A voting", 3);
    bad.polls[2].description = s("bad");
    let (status, reason) = error(create_voting(&mut store, bad));
    assert_eq!(status, Status::InvalidArgument);
    assert_eq!(reason, "Poll Description length must be between 5 and 60 characters");
    assert!(store.votings.is_empty());
    assert!(store.polls.is_empty());
}

#[test]
fn create_voting_is_all_or_nothing() {
    let mut store = Store::new();
    create_voting_with(&mut store, request("A voting", 2), s("key"), id(1), ids(10, 2)).unwrap();
    // The third poll's identifier is taken: neither the voting nor the first
    // two polls stay.
    let taken = vec![id(20), id(21), id(11)];
    let (status, reason) =
        error(create_voting_with(&mut store, request("Another", 3), s("key"), id(2), taken));
    assert_eq!(status, Status::Internal);
    assert_eq!(reason, "Could not insert voting to database");
    assert_eq!(store.votings.len(), 1);
    assert_eq!(store.polls.len(), 2);
    assert_eq!(store.polls[1].id, id(11));
    // Two polls under one identifier.
    let twice = vec![id(30), id(30)];
    let (status, _) =
        error(create_voting_with(&mut store, request("Another", 2), s("key"), id(2), twice));
    assert_eq!(status, Status::Internal);
    assert_eq!(store.votings.len(), 1);
    assert_eq!(store.polls.len(), 2);
    // The voting's identifier is taken.
    let (status, _) = error(create_voting_with(
        &mut store,
        request("Another", 2),
        s("key"),
        id(1),
        ids(40, 2),
    ));
    assert_eq!(status, Status::Internal);
    assert_eq!(store.votings.len(), 1);
    assert_eq!(store.polls.len(), 2);
    // Too few identifiers.
    let (status, _) = error(create_voting_with(
        &mut store,
        request("Another", 2),
        s("key"),
        id(2),
        ids(40, 1),
    ));
    assert_eq!(status, Status::Internal);
    assert_eq!(store.votings.len(), 1);
    assert_eq!(store.polls.len(), 2);
    // And after all that a well-formed request still goes through.
    create_voting_with(&mut store, request("Another", 2), s("key"), id(2), ids(40, 2)).unwrap();
    assert_eq!(store.votings.len(), 2);
    assert_eq!(store.polls.len(), 4);
}

#[test]
fn created_voting_id_is_accepted_later() {
    let (store, voting_id, admin_key) = with_voting(2);
    assert_eq!(voting_id.len(), 36);
    assert_eq!(admin_key.len(), 36);
    assert!(get_voting(&store, voting_id, user(&admin_key)).is_ok());
}

#[test]
fn set_active_poll_by_admin() {
    let (mut store, voting_id, admin_key) = with_voting(3);
    set_active_poll(&mut store, voting_id.clone(), activate(Some(2)), user(&admin_key)).unwrap();
    assert_eq!(store.votings[0].active_poll_index, Some(2));
    set_active_poll(&mut store, voting_id.clone(), activate(Some(0)), user(&admin_key)).unwrap();
    assert_eq!(store.votings[0].active_poll_index, Some(0));
    set_active_poll(&mut store, voting_id, activate(None), user(&admin_key)).unwrap();
    assert_eq!(store.votings[0].active_poll_index, None);
}

#[test]
fn set_active_poll_rejects_positions_out_of_range() {
    let (mut store, voting_id, admin_key) = with_voting(3);
    for index in [3u16, 4, 65535] {
        let (status, reason) = error(set_active_poll(
            &mut store,
            voting_id.clone(),
            activate(Some(index)),
            user(&admin_key),
        ));
        assert_eq!(status, Status::InvalidArgument);
        assert_eq!(reason, "Can not set active poll index larger than the amount of polls");
        assert_eq!(store.votings[0].active_poll_index, None);
    }
}

#[test]
fn set_active_poll_keeps_index_valid_after_rejection() {
    let (mut store, voting_id, admin_key) = with_voting(2);
    set_active_poll(&mut store, voting_id.clone(), activate(Some(1)), user(&admin_key)).unwrap();
    let _ = set_active_poll(&mut store, voting_id.clone(), activate(Some(2)), user(&admin_key));
    assert_eq!(store.votings[0].active_poll_index, Some(1));
    let active = store.votings[0].active_poll_index.unwrap();
    assert!((active as usize) < store.count_polls(&voting_id));
}

#[test]
fn set_active_poll_rejects_other_credentials() {
    let (mut store, voting_id, admin_key) = with_voting(3);
    let voter_key = register(&mut store, &voting_id, &admin_key, "alice");
    for key in [voter_key.as_str(), "guess", ""] {
        let (status, reason) =
            error(set_active_poll(&mut store, voting_id.clone(), activate(Some(0)), user(key)));
        assert_eq!(status, Status::Unauthorized);
        assert_eq!(
            reason,
            format!("Admin key is not correct for voting with id: {}", voting_id)
        );
        assert_eq!(store.votings[0].active_poll_index, None);
    }
}

#[test]
fn set_active_poll_rejects_admin_of_another_voting() {
    let (mut store, voting_id, _) = with_voting(3);
    let other = create_voting(&mut store, request("Other voting", 1)).unwrap();
    let (status, _) = error(set_active_poll(
        &mut store,
        voting_id,
        activate(Some(0)),
        user(&other.admin_key),
    ));
    assert_eq!(status, Status::Unauthorized);
}

#[test]
fn set_active_poll_on_missing_or_malformed_voting() {
    let (mut store, _, admin_key) = with_voting(3);
    let (status, reason) =
        error(set_active_poll(&mut store, id(999), activate(Some(0)), user(&admin_key)));
    assert_eq!(status, Status::NotFound);
    assert_eq!(reason, format!("Voting with id: {} not found", id(999)));
    let (status, reason) =
        error(set_active_poll(&mut store, s("short"), activate(None), user(&admin_key)));
    assert_eq!(status, Status::InvalidArgument);
    assert_eq!(reason, "Voting id must be of fixed length of: 36 was: 5");
}

#[test]
fn create_voter_by_admin() {
    let (mut store, voting_id, admin_key) = with_voting(1);
    let created = create_voter_with(
        &mut store,
        voting_id.clone(),
        CreateVoterRequest { username: s("alice") },
        user(&admin_key),
        s("voter-key"),
        id(7),
    )
    .unwrap();
    assert_eq!(created.voter_key, "voter-key");
    assert_eq!(created.voting_id, voting_id);
    assert_eq!(store.voters.len(), 1);
    assert_eq!(store.voters[0].id, id(7));
    assert_eq!(store.voters[0].username, "alice");
    assert_eq!(store.voters[0].voting_fk, voting_id);
    assert_eq!(store.voters[0].voter_key_hash, hash_string(&s("voter-key")));
}

#[test]
fn create_voter_hands_out_a_fresh_key() {
    let (mut store, voting_id, admin_key) = with_voting(1);
    let first = register(&mut store, &voting_id, &admin_key, "alice");
    let second = register(&mut store, &voting_id, &admin_key, "bobby");
    assert_eq!(first.len(), 36);
    assert_ne!(first, second);
    assert_eq!(store.voters.len(), 2);
    assert_eq!(store.voters[0].voter_key_hash, hash_string(&first));
    assert_ne!(store.voters[0].voter_key_hash, first);
}

#[test]
fn create_voter_rejections() {
    let (mut store, voting_id, admin_key) = with_voting(1);
    let input = |name: &str| CreateVoterRequest { username: s(name) };
    let (status, _) = error(create_voter(&mut store, s("short"), input("alice"), user(&admin_key)));
    assert_eq!(status, Status::InvalidArgument);
    let (status, reason) =
        error(create_voter(&mut store, voting_id.clone(), input("al"), user(&admin_key)));
    assert_eq!(status, Status::InvalidArgument);
    assert_eq!(reason, "Voter username length must be between 5 and 60 characters");
    let (status, _) = error(create_voter(&mut store, id(999), input("alice"), user(&admin_key)));
    assert_eq!(status, Status::NotFound);
    let (status, reason) =
        error(create_voter(&mut store, voting_id.clone(), input("alice"), user("guess")));
    assert_eq!(status, Status::Unauthorized);
    assert_eq!(reason, format!("Admin key is not correct for voting with id: {}", voting_id));
    assert!(store.voters.is_empty());
}

#[test]
fn create_voter_rejects_voters() {
    let (mut store, voting_id, admin_key) = with_voting(1);
    let voter_key = register(&mut store, &voting_id, &admin_key, "alice");
    let input = CreateVoterRequest { username: s("mallory") };
    let (status, _) = error(create_voter(&mut store, voting_id, input, user(&voter_key)));
    assert_eq!(status, Status::Unauthorized);
    assert_eq!(store.voters.len(), 1);
}

#[test]
fn create_voter_store_refusal_is_internal() {
    let (mut store, voting_id, admin_key) = with_voting(1);
    let input = |name: &str| CreateVoterRequest { username: s(name) };
    create_voter_with(
        &mut store,
        voting_id.clone(),
        input("alice"),
        user(&admin_key),
        s("key-a"),
        id(7),
    )
    .unwrap();
    let (status, reason) = error(create_voter_with(
        &mut store,
        voting_id.clone(),
        input("bobby"),
        user(&admin_key),
        s("key-b"),
        id(7),
    ));
    assert_eq!(status, Status::Internal);
    assert_eq!(reason, format!("Could not insert voter for voting with id: {}", voting_id));
    let (status, _) = error(create_voter_with(
        &mut store,
        voting_id,
        input("bobby"),
        user(&admin_key),
        s("key-a"),
        id(8),
    ));
    assert_eq!(status, Status::Internal);
    assert_eq!(store.voters.len(), 1);
}

#[test]
fn voter_info_for_voter() {
    let (mut store, voting_id, admin_key) = with_voting(1);
    let voter_key = register(&mut store, &voting_id, &admin_key, "alice");
    let info = get_voter_info(&store, voting_id.clone(), user(&voter_key)).unwrap();
    assert_eq!(info.username, "alice");
    assert_eq!(info.voting_name, "A voting");
    let (status, _) = error(get_voter_info(&store, voting_id.clone(), user(&admin_key)));
    assert_eq!(status, Status::NotFound);
    let (status, _) = error(get_voter_info(&store, id(999), user(&voter_key)));
    assert_eq!(status, Status::NotFound);
    let (status, _) = error(get_voter_info(&store, s("x"), user(&voter_key)));
    assert_eq!(status, Status::InvalidArgument);
}

#[test]
fn voter_of_another_voting_is_unauthorized() {
    let (mut store, voting_id, admin_key) = with_voting(2);
    let other = create_voting(&mut store, request("Other voting", 1)).unwrap();
    let foreign = register(&mut store, &other.voting_id, &other.admin_key, "mallory");
    set_active_poll(&mut store, voting_id.clone(), activate(Some(0)), user(&admin_key)).unwrap();
    let (status, reason) = error(get_voter_info(&store, voting_id.clone(), user(&foreign)));
    assert_eq!(status, Status::Unauthorized);
    assert_eq!(reason, "Voter is not in voting. User has username: mallory");
    let (status, _) = error(get_active_poll(&store, voting_id.clone(), user(&foreign)));
    assert_eq!(status, Status::Unauthorized);
    let (status, _) =
        error(set_vote(&mut store, voting_id, 0, answer(Some(true)), user(&foreign)));
    assert_eq!(status, Status::Unauthorized);
    assert!(store.votes.is_empty());
}

#[test]
fn unregistered_credential_is_rejected() {
    let (mut store, voting_id, admin_key) = with_voting(2);
    set_active_poll(&mut store, voting_id.clone(), activate(Some(0)), user(&admin_key)).unwrap();
    for key in ["guess", admin_key.as_str()] {
        let (status, reason) = error(get_active_poll(&store, voting_id.clone(), user(key)));
        assert_eq!(status, Status::NotFound);
        assert_eq!(reason, "Voter not found with key: REDACTED");
        let (status, _) =
            error(set_vote(&mut store, voting_id.clone(), 0, answer(None), user(key)));
        assert_eq!(status, Status::NotFound);
    }
    assert!(store.votes.is_empty());
}

#[test]
fn active_poll_is_empty_when_none_is_open() {
    let (mut store, voting_id, admin_key) = with_voting(2);
    let voter_key = register(&mut store, &voting_id, &admin_key, "alice");
    assert!(get_active_poll(&store, voting_id, user(&voter_key)).unwrap().is_none());
}

#[test]
fn active_poll_shows_poll_and_own_answer() {
    let (mut store, voting_id, admin_key) = with_voting(3);
    let alice = register(&mut store, &voting_id, &admin_key, "alice");
    let bobby = register(&mut store, &voting_id, &admin_key, "bobby");
    set_active_poll(&mut store, voting_id.clone(), activate(Some(1)), user(&admin_key)).unwrap();
    let poll = get_active_poll(&store, voting_id.clone(), user(&alice)).unwrap().unwrap();
    assert_eq!(poll.poll_index, 1);
    assert_eq!(poll.name, "Poll number 1");
    assert_eq!(poll.description, "Description 1");
    assert_eq!(poll.voted, None);
    set_vote(&mut store, voting_id.clone(), 1, answer(Some(false)), user(&alice)).unwrap();
    let poll = get_active_poll(&store, voting_id.clone(), user(&alice)).unwrap().unwrap();
    assert_eq!(poll.voted, Some(s("DECLINE")));
    let poll = get_active_poll(&store, voting_id.clone(), user(&bobby)).unwrap().unwrap();
    assert_eq!(poll.voted, None);
    set_vote(&mut store, voting_id.clone(), 1, answer(None), user(&bobby)).unwrap();
    let poll = get_active_poll(&store, voting_id, user(&bobby)).unwrap().unwrap();
    assert_eq!(poll.voted, Some(s("ABSTAIN")));
}

#[test]
fn active_poll_out_of_range_is_internal() {
    let (mut store, voting_id, admin_key) = with_voting(2);
    let voter_key = register(&mut store, &voting_id, &admin_key, "alice");
    for broken in [2, 7, -1] {
        store.votings[0].active_poll_index = Some(broken);
        let (status, reason) = error(get_active_poll(&store, voting_id.clone(), user(&voter_key)));
        assert_eq!(status, Status::Internal);
        assert_eq!(reason, "Could not load the poll with the current active index");
    }
}

#[test]
fn active_poll_on_missing_or_malformed_voting() {
    let (mut store, voting_id, admin_key) = with_voting(2);
    let voter_key = register(&mut store, &voting_id, &admin_key, "alice");
    let (status, _) = error(get_active_poll(&store, id(999), user(&voter_key)));
    assert_eq!(status, Status::NotFound);
    let (status, _) = error(get_active_poll(&store, s("short"), user(&voter_key)));
    assert_eq!(status, Status::InvalidArgument);
}

#[test]
fn vote_needs_an_open_poll() {
    let (mut store, voting_id, admin_key) = with_voting(2);
    let voter_key = register(&mut store, &voting_id, &admin_key, "alice");
    let (status, reason) =
        error(set_vote(&mut store, voting_id, 0, answer(Some(true)), user(&voter_key)));
    assert_eq!(status, Status::InvalidState);
    assert_eq!(reason, "Can not vote because no vote is active");
    assert!(store.votes.is_empty());
}

#[test]
fn vote_needs_the_open_poll() {
    let (mut store, voting_id, admin_key) = with_voting(3);
    let voter_key = register(&mut store, &voting_id, &admin_key, "alice");
    set_active_poll(&mut store, voting_id.clone(), activate(Some(1)), user(&admin_key)).unwrap();
    for index in [0, 2, 3, -1] {
        let (status, reason) = error(set_vote(
            &mut store,
            voting_id.clone(),
            index,
            answer(Some(true)),
            user(&voter_key),
        ));
        assert_eq!(status, Status::InvalidState);
        assert_eq!(
            reason,
            format!("Can not vote because the poll_index: {} is not active", index)
        );
    }
    assert!(store.votes.is_empty());
    set_vote(&mut store, voting_id, 1, answer(Some(true)), user(&voter_key)).unwrap();
    assert_eq!(store.votes.len(), 1);
}

#[test]
fn vote_is_written_for_poll_and_voter() {
    let (mut store, voting_id, admin_key) = with_voting(2);
    let voter_key = register(&mut store, &voting_id, &admin_key, "alice");
    set_active_poll(&mut store, voting_id.clone(), activate(Some(1)), user(&admin_key)).unwrap();
    set_vote_with(&mut store, voting_id, 1, answer(None), user(&voter_key), id(5)).unwrap();
    assert_eq!(store.votes.len(), 1);
    assert_eq!(store.votes[0].id, id(5));
    assert_eq!(store.votes[0].poll_fk, store.polls[1].id);
    assert_eq!(store.votes[0].voter_fk, store.voters[0].id);
    assert_eq!(store.votes[0].answer, None);
}

#[test]
fn second_vote_is_a_conflict() {
    let (mut store, voting_id, admin_key) = with_voting(2);
    let voter_key = register(&mut store, &voting_id, &admin_key, "alice");
    set_active_poll(&mut store, voting_id.clone(), activate(Some(0)), user(&admin_key)).unwrap();
    set_vote(&mut store, voting_id.clone(), 0, answer(Some(true)), user(&voter_key)).unwrap();
    for second in [Some(true), Some(false), None] {
        let (status, reason) =
            error(set_vote(&mut store, voting_id.clone(), 0, answer(second), user(&voter_key)));
        assert_eq!(status, Status::Conflict);
        assert_eq!(reason, "Voter already voted on this poll with index: 0");
    }
    assert_eq!(store.votes.len(), 1);
    assert_eq!(store.votes[0].answer, Some(true));
}

#[test]
fn one_vote_per_voter_and_poll() {
    let (mut store, voting_id, admin_key) = with_voting(2);
    let alice = register(&mut store, &voting_id, &admin_key, "alice");
    let bobby = register(&mut store, &voting_id, &admin_key, "bobby");
    set_active_poll(&mut store, voting_id.clone(), activate(Some(0)), user(&admin_key)).unwrap();
    set_vote(&mut store, voting_id.clone(), 0, answer(Some(true)), user(&alice)).unwrap();
    set_vote(&mut store, voting_id.clone(), 0, answer(Some(false)), user(&bobby)).unwrap();
    set_active_poll(&mut store, voting_id.clone(), activate(Some(1)), user(&admin_key)).unwrap();
    set_vote(&mut store, voting_id.clone(), 1, answer(None), user(&alice)).unwrap();
    assert_eq!(store.votes.len(), 3);
    let (status, _) = error(set_vote(&mut store, voting_id, 1, answer(None), user(&alice)));
    assert_eq!(status, Status::Conflict);
}

#[test]
fn vote_with_taken_identifier_is_internal() {
    let (mut store, voting_id, admin_key) = with_voting(1);
    let alice = register(&mut store, &voting_id, &admin_key, "alice");
    let bobby = register(&mut store, &voting_id, &admin_key, "bobby");
    set_active_poll(&mut store, voting_id.clone(), activate(Some(0)), user(&admin_key)).unwrap();
    set_vote_with(&mut store, voting_id.clone(), 0, answer(None), user(&alice), id(5)).unwrap();
    let (status, _) =
        error(set_vote_with(&mut store, voting_id, 0, answer(None), user(&bobby), id(5)));
    assert_eq!(status, Status::Internal);
    assert_eq!(store.votes.len(), 1);
}

#[test]
fn vote_on_inconsistent_active_position_is_not_found() {
    let (mut store, voting_id, admin_key) = with_voting(1);
    let voter_key = register(&mut store, &voting_id, &admin_key, "alice");
    store.votings[0].active_poll_index = Some(4);
    let (status, reason) =
        error(set_vote(&mut store, voting_id.clone(), 4, answer(None), user(&voter_key)));
    assert_eq!(status, Status::NotFound);
    assert_eq!(reason, format!("Poll at index: 4 for voting with id: {} not found", voting_id));
}

#[test]
fn voting_detail_for_admin() {
    let (mut store, voting_id, admin_key) = with_voting(2);
    let alice = register(&mut store, &voting_id, &admin_key, "alice");
    let bobby = register(&mut store, &voting_id, &admin_key, "bobby");
    let carol = register(&mut store, &voting_id, &admin_key, "carol");
    set_active_poll(&mut store, voting_id.clone(), activate(Some(0)), user(&admin_key)).unwrap();
    set_vote(&mut store, voting_id.clone(), 0, answer(Some(true)), user(&alice)).unwrap();
    set_vote(&mut store, voting_id.clone(), 0, answer(Some(true)), user(&bobby)).unwrap();
    set_vote(&mut store, voting_id.clone(), 0, answer(None), user(&carol)).unwrap();
    let detail = get_voting(&store, voting_id.clone(), user(&admin_key)).unwrap();
    assert_eq!(detail.voting_id, voting_id);
    assert_eq!(detail.name, "A voting");
    assert_eq!(detail.active_poll_index, Some(0));
    assert_eq!(detail.voter_count, 3);
    assert_eq!(detail.polls.len(), 2);
    assert_eq!(detail.polls[0].poll_id, store.polls[0].id);
    assert_eq!(detail.polls[0].name, "Poll number 0");
    assert_eq!(detail.polls[0].description, "Description 0");
    assert_eq!(detail.polls[0].votes_accept, 2);
    assert_eq!(detail.polls[0].votes_decline, 0);
    assert_eq!(detail.polls[0].votes_abstain, 1);
    assert_eq!(detail.polls[0].votes_total, 3);
    assert_eq!(detail.polls[0].status, "ACCEPTED");
    assert_eq!(detail.polls[1].votes_total, 0);
    assert_eq!(detail.polls[1].status, "NOT_VOTED");
}

#[test]
fn voting_detail_rejections() {
    let (mut store, voting_id, admin_key) = with_voting(2);
    let voter_key = register(&mut store, &voting_id, &admin_key, "alice");
    let (status, _) = error(get_voting(&store, voting_id.clone(), user(&voter_key)));
    assert_eq!(status, Status::Unauthorized);
    let (status, _) = error(get_voting(&store, id(999), user(&admin_key)));
    assert_eq!(status, Status::NotFound);
    let (status, _) = error(get_voting(&store, s("short"), user(&admin_key)));
    assert_eq!(status, Status::InvalidArgument);
}

#[test]
fn tallies_with_six_votes() {
    let (mut store, voting_id, admin_key) = with_voting(1);
    let answers = [Some(true), Some(true), Some(true), Some(false), None, None];
    set_active_poll(&mut store, voting_id.clone(), activate(Some(0)), user(&admin_key)).unwrap();
    for (i, given) in answers.iter().enumerate() {
        let key = register(&mut store, &voting_id, &admin_key, &format!("voter-{}", i));
        set_vote(&mut store, voting_id.clone(), 0, answer(*given), user(&key)).unwrap();
    }
    let polls = get_voting_polls_response(&store, &voting_id).unwrap();
    assert_eq!(polls.len(), 1);
    assert_eq!(polls[0].votes_accept, 3);
    assert_eq!(polls[0].votes_decline, 1);
    assert_eq!(polls[0].votes_abstain, 2);
    assert_eq!(polls[0].votes_total, 6);
    assert_eq!(polls[0].status, "ACCEPTED");
}

#[test]
fn tallies_with_a_draw() {
    let (mut store, voting_id, admin_key) = with_voting(1);
    set_active_poll(&mut store, voting_id.clone(), activate(Some(0)), user(&admin_key)).unwrap();
    for (i, given) in [Some(true), Some(false), Some(false), Some(true)].iter().enumerate() {
        let key = register(&mut store, &voting_id, &admin_key, &format!("voter-{}", i));
        set_vote(&mut store, voting_id.clone(), 0, answer(*given), user(&key)).unwrap();
    }
    let polls = get_voting_polls_response(&store, &voting_id).unwrap();
    assert_eq!(polls[0].votes_accept, 2);
    assert_eq!(polls[0].votes_decline, 2);
    assert_eq!(polls[0].votes_total, 4);
    assert_eq!(polls[0].status, "DRAW");
}

#[test]
fn end_to_end() {
    let mut store = Store::new();
    let created = create_voting(&mut store, request("Board meeting", 2)).unwrap();
    let (voting_id, admin_key) = (created.voting_id, created.admin_key);
    let voter_key = register(&mut store, &voting_id, &admin_key, "alice");

    set_active_poll(&mut store, voting_id.clone(), activate(Some(0)), user(&admin_key)).unwrap();
    set_vote(&mut store, voting_id.clone(), 0, answer(Some(true)), user(&voter_key)).unwrap();

    let active = get_active_poll(&store, voting_id.clone(), user(&voter_key)).unwrap().unwrap();
    assert_eq!(active.poll_index, 0);
    assert_eq!(active.voted, Some(s("ACCEPT")));

    set_active_poll(&mut store, voting_id.clone(), activate(Some(1)), user(&admin_key)).unwrap();
    let active = get_active_poll(&store, voting_id.clone(), user(&voter_key)).unwrap().unwrap();
    assert_eq!(active.poll_index, 1);
    assert_eq!(active.name, "Poll number 1");
    assert_eq!(active.voted, None);

    let detail = get_voting(&store, voting_id, user(&admin_key)).unwrap();
    assert_eq!(detail.active_poll_index, Some(1));
    assert_eq!(detail.voter_count, 1);
    assert_eq!(detail.polls[0].votes_accept, 1);
    assert_eq!(detail.polls[0].votes_total, 1);
    assert_eq!(detail.polls[0].status, "ACCEPTED");
    assert_eq!(detail.polls[1].votes_accept, 0);
    assert_eq!(detail.polls[1].votes_total, 0);
    assert_eq!(detail.polls[1].status, "NOT_VOTED");
}

#[test]
fn votings_are_kept_apart() {
    let (mut store, first, first_key) = with_voting(2);
    let second = create_voting(&mut store, request("Second voting", 3)).unwrap();
    assert_eq!(store.count_polls(&first), 2);
    assert_eq!(store.count_polls(&second.voting_id), 3);
    set_active_poll(&mut store, first.clone(), activate(Some(2)), user(&first_key)).unwrap_err();
    set_active_poll(
        &mut store,
        second.voting_id.clone(),
        activate(Some(2)),
        user(&second.admin_key),
    )
    .unwrap();
    assert_eq!(store.votings[0].active_poll_index, None);
    assert_eq!(store.votings[1].active_poll_index, Some(2));
    let detail = get_voting(&store, second.voting_id, user(&second.admin_key)).unwrap();
    assert_eq!(detail.polls.len(), 3);
    assert_eq!(detail.voter_count, 0);
}
