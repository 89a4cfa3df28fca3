use voting_backend::actions::check::{check_if_voter, check_if_voting_admin};
use voting_backend::actions::find::{
    find_amount_of_polls, find_amount_of_voters, find_poll_at_index, find_poll_results,
    find_polls, find_vote, find_voter, find_voting, polls_query_failed, vote_query_failed,
    voter_query_failed, voting_query_failed,
};
use voting_backend::actions::get::get_voting_polls_response_for_voting;
use voting_backend::actions::insert::{
    insert_poll, insert_vote, insert_vote_row, insert_voter, insert_voter_row, insert_voting,
    vote_insert_failed, voter_insert_failed,
};
use voting_backend::actions::update::{activation_failed, update_voting};
use voting_backend::routes::voting::voting_insert_failed;
use voting_backend::models::{Poll, Vote, Voter, Voting};
use voting_backend::store::{Store, StoreError};
use voting_backend::utils::{hash_string, AuthenticatedUser, Status};

const VOTING: &str = "11111111-1111-4111-8111-111111111111";
const OTHER: &str = "22222222-2222-4222-8222-222222222222";

fn s(text: &str) -> String {
    text.to_string()
}

fn user(key: &str) -> AuthenticatedUser {
    AuthenticatedUser::from_request(Some(s(key))).unwrap()
}

fn poll(id: &str, sequenz_number: i32, voting: &str) -> Poll {
    Poll {
        id: s(id),
        sequenz_number,
        voting_fk: s(voting),
        name: format!("Poll {}", id),
        description: format!("About {}", id),
    }
}

fn voter(id: &str, key: &str, voting: &str) -> Voter {
    Voter {
        id: s(id),
        voter_key_hash: hash_string(&s(key)),
        voting_fk: s(voting),
        username: format!("user-{}", id),
    }
}

fn vote(id: &str, poll: &str, voter: &str, answer: Option<bool>) -> Vote {
    Vote { id: s(id), poll_fk: s(poll), voter_fk: s(voter), answer }
}

/// One voting with the polls p0, p1, p2, the voters v1 (key "key-1") and v2
/// (key "key-2"), and a second voting with the poll q0 and the voter w1.
fn sample() -> Store {
    let mut store = Store::new();
    store.add_voting(s(VOTING), s("First voting"), hash_string(&s("admin"))).unwrap();
    store.add_voting(s(OTHER), s("Other voting"), hash_string(&s("other-admin"))).unwrap();
    store.add_poll(poll("p0", 0, VOTING)).unwrap();
    store.add_poll(poll("q0", 0, OTHER)).unwrap();
    store.add_poll(poll("p1", 10, VOTING)).unwrap();
    store.add_poll(poll("p2", 20, VOTING)).unwrap();
    store.add_voter(voter("v1", "key-1", VOTING)).unwrap();
    store.add_voter(voter("w1", "key-w", OTHER)).unwrap();
    store.add_voter(voter("v2", "key-2", VOTING)).unwrap();
    store
}

fn first_voting(store: &Store) -> Voting {
    find_voting(store, &s(VOTING)).unwrap()
}

#[test]
fn new_store_is_empty() {
    let store = Store::new();
    assert!(store.votings.is_empty());
    assert!(store.polls.is_empty());
    assert!(store.voters.is_empty());
    assert!(store.votes.is_empty());
}

#[test]
fn voting_is_written_without_active_poll() {
    let store = sample();
    assert_eq!(store.votings.len(), 2);
    assert_eq!(store.votings[0].id, VOTING);
    assert_eq!(store.votings[0].name, "First voting");
    assert_eq!(store.votings[0].admin_key_hash, hash_string(&s("admin")));
    assert_eq!(store.votings[0].active_poll_index, None);
}

#[test]
fn duplicate_voting_id_is_refused() {
    let mut store = sample();
    assert_eq!(store.add_voting(s(VOTING), s("Again"), s("hash")), Err(StoreError::DuplicateId));
    assert_eq!(store.votings.len(), 2);
}

#[test]
fn poll_refusals() {
    let mut store = sample();
    assert_eq!(store.add_poll(poll("p1", 30, VOTING)), Err(StoreError::DuplicateId));
    assert_eq!(store.add_poll(poll("p3", 30, "nowhere")), Err(StoreError::MissingReference));
    assert_eq!(store.add_poll(poll("p3", 20, VOTING)), Err(StoreError::OutOfSequence));
    assert_eq!(store.add_poll(poll("p3", 5, VOTING)), Err(StoreError::OutOfSequence));
    assert_eq!(store.polls.len(), 4);
    assert_eq!(store.add_poll(poll("p3", 21, VOTING)), Ok(()));
    assert_eq!(store.polls.len(), 5);
}

#[test]
fn poll_sequence_is_per_voting() {
    let mut store = sample();
    assert_eq!(store.add_poll(poll("q1", 1, OTHER)), Ok(()));
}

#[test]
fn voter_refusals() {
    let mut store = sample();
    assert_eq!(store.add_voter(voter("v1", "key-9", VOTING)), Err(StoreError::DuplicateId));
    assert_eq!(store.add_voter(voter("v9", "key-1", OTHER)), Err(StoreError::DuplicateKey));
    assert_eq!(store.add_voter(voter("v9", "key-9", "nowhere")), Err(StoreError::MissingReference));
    assert_eq!(store.voters.len(), 3);
    assert_eq!(store.add_voter(voter("v9", "key-9", VOTING)), Ok(()));
}

#[test]
fn vote_refusals() {
    let mut store = sample();
    assert_eq!(store.add_vote(vote("x1", "p0", "v1", Some(true))), Ok(()));
    assert_eq!(store.add_vote(vote("x2", "p0", "v1", None)), Err(StoreError::DuplicateVote));
    assert_eq!(store.add_vote(vote("x1", "p0", "v1", None)), Err(StoreError::DuplicateVote));
    assert_eq!(store.add_vote(vote("x1", "p0", "v2", None)), Err(StoreError::DuplicateId));
    assert_eq!(store.add_vote(vote("x2", "zz", "v2", None)), Err(StoreError::MissingReference));
    assert_eq!(store.add_vote(vote("x2", "p0", "zz", None)), Err(StoreError::MissingReference));
    assert_eq!(store.votes.len(), 1);
    assert_eq!(store.add_vote(vote("x2", "p1", "v1", None)), Ok(()));
    assert_eq!(store.add_vote(vote("x3", "p0", "v2", Some(false))), Ok(()));
}

#[test]
fn active_poll_index_refusals() {
    let mut store = sample();
    assert_eq!(store.set_active_poll_index(&s("nowhere"), None), Err(StoreError::MissingReference));
    assert_eq!(store.set_active_poll_index(&s(VOTING), Some(3)), Err(StoreError::NoSuchPoll));
    assert_eq!(store.set_active_poll_index(&s(VOTING), Some(-1)), Err(StoreError::NoSuchPoll));
    assert_eq!(store.set_active_poll_index(&s(OTHER), Some(1)), Err(StoreError::NoSuchPoll));
    assert_eq!(store.votings[0].active_poll_index, None);
    assert_eq!(store.set_active_poll_index(&s(VOTING), Some(2)), Ok(()));
    assert_eq!(store.votings[0].active_poll_index, Some(2));
    assert_eq!(store.votings[1].active_poll_index, None);
    assert_eq!(store.set_active_poll_index(&s(VOTING), None), Ok(()));
    assert_eq!(store.votings[0].active_poll_index, None);
}

#[test]
fn counting() {
    let mut store = sample();
    assert_eq!(store.count_polls(&s(VOTING)), 3);
    assert_eq!(store.count_polls(&s(OTHER)), 1);
    assert_eq!(store.count_polls(&s("nowhere")), 0);
    assert_eq!(store.count_voters(&s(VOTING)), 2);
    assert_eq!(store.count_voters(&s(OTHER)), 1);
    store.add_vote(vote("x1", "p0", "v1", Some(true))).unwrap();
    store.add_vote(vote("x2", "p0", "v2", None)).unwrap();
    store.add_vote(vote("x3", "p1", "v2", Some(false))).unwrap();
    assert_eq!(store.count_votes(&s("p0")), 2);
    assert_eq!(store.count_answers(&s("p0"), Some(true)), 1);
    assert_eq!(store.count_answers(&s("p0"), Some(false)), 0);
    assert_eq!(store.count_answers(&s("p0"), None), 1);
    assert_eq!(store.count_answers(&s("p1"), Some(false)), 1);
    assert_eq!(store.count_votes(&s("p2")), 0);
}

#[test]
fn positions() {
    let store = sample();
    assert_eq!(store.voting_position(&s(OTHER)), Some(1));
    assert_eq!(store.voting_position(&s("nowhere")), None);
    assert_eq!(store.poll_position(&s("p1")), Some(2));
    assert_eq!(store.voter_position(&s("v2")), Some(2));
    assert_eq!(store.voter_position_by_key(&hash_string(&s("key-w"))), Some(1));
    assert_eq!(store.voter_position_by_key(&s("key-w")), None);
    assert_eq!(store.vote_position(&s("x1")), None);
    assert_eq!(store.vote_position_of(&s("p0"), &s("v1")), None);
    assert!(store.reaches_sequence(&s(VOTING), 20));
    assert!(!store.reaches_sequence(&s(VOTING), 21));
    assert!(!store.reaches_sequence(&s(OTHER), 1));
}

#[test]
fn find_voting_by_id() {
    let store = sample();
    let voting = find_voting(&store, &s(OTHER)).unwrap();
    assert_eq!(voting.id, OTHER);
    assert_eq!(voting.name, "Other voting");
    let error = find_voting(&store, &s("nowhere")).unwrap_err();
    assert_eq!(error.status, Status::NotFound);
    assert_eq!(error.reason, "Voting with id: nowhere not found");
}

#[test]
fn find_voter_by_key() {
    let store = sample();
    let found = find_voter(&store, &user("key-2")).unwrap();
    assert_eq!(found.id, "v2");
    assert_eq!(found.username, "user-v2");
    let error = find_voter(&store, &user("key-3")).unwrap_err();
    assert_eq!(error.status, Status::NotFound);
    assert_eq!(error.reason, "Voter not found with key: REDACTED");
}

#[test]
fn find_amounts() {
    let store = sample();
    assert_eq!(find_amount_of_polls(&store, &first_voting(&store)).unwrap(), 3);
    assert_eq!(find_amount_of_voters(&store, &s(VOTING)).unwrap(), 2);
    assert_eq!(find_amount_of_voters(&store, &s("nowhere")).unwrap(), 0);
}

#[test]
fn find_polls_in_sequence_order() {
    let store = sample();
    let polls = find_polls(&store, &s(VOTING)).unwrap();
    let ids: Vec<&str> = polls.iter().map(|p| p.id.as_str()).collect();
    assert_eq!(ids, vec!["p0", "p1", "p2"]);
    let numbers: Vec<i32> = polls.iter().map(|p| p.sequenz_number).collect();
    assert_eq!(numbers, vec![0, 10, 20]);
    assert!(find_polls(&store, &s("nowhere")).unwrap().is_empty());
}

#[test]
fn find_poll_by_position() {
    let store = sample();
    let voting = first_voting(&store);
    assert_eq!(find_poll_at_index(&store, &voting, 0).unwrap().id, "p0");
    assert_eq!(find_poll_at_index(&store, &voting, 2).unwrap().id, "p2");
    let error = find_poll_at_index(&store, &voting, 3).unwrap_err();
    assert_eq!(error.status, Status::NotFound);
    assert_eq!(error.reason, format!("Poll at index: 3 for voting with id: {} not found", VOTING));
    let error = find_poll_at_index(&store, &voting, -1).unwrap_err();
    assert_eq!(error.status, Status::Internal);
    assert_eq!(
        error.reason,
        format!("Could not query database for poll at index: -1 for voting with id: {}", VOTING)
    );
}

#[test]
fn find_vote_of_pair() {
    let mut store = sample();
    assert!(find_vote(&store, &s("p0"), &s("v1")).unwrap().is_none());
    store.add_vote(vote("x1", "p0", "v1", Some(false))).unwrap();
    let found = find_vote(&store, &s("p0"), &s("v1")).unwrap().unwrap();
    assert_eq!(found.id, "x1");
    assert_eq!(found.answer, Some(false));
    assert!(find_vote(&store, &s("p0"), &s("v2")).unwrap().is_none());
    assert!(find_vote(&store, &s("p1"), &s("v1")).unwrap().is_none());
}

#[test]
fn poll_results_count_each_kind() {
    let mut store = sample();
    store.add_vote(vote("x1", "p0", "v1", Some(true))).unwrap();
    store.add_vote(vote("x2", "p0", "v2", None)).unwrap();
    store.add_vote(vote("x3", "p1", "v2", Some(false))).unwrap();
    let results = find_poll_results(&store, &s(VOTING)).unwrap();
    assert_eq!(results.len(), 3);
    assert_eq!(results[0].id, "p0");
    assert_eq!(results[0].name, "Poll p0");
    assert_eq!(results[0].description, "About p0");
    assert_eq!(results[0].voting_fk, VOTING);
    assert_eq!(
        (
            results[0].votes_accept,
            results[0].votes_decline,
            results[0].votes_abstain,
            results[0].votes_total
        ),
        (1, 0, 1, 2)
    );
    assert_eq!(results[1].sequenz_number, 10);
    assert_eq!(
        (
            results[1].votes_accept,
            results[1].votes_decline,
            results[1].votes_abstain,
            results[1].votes_total
        ),
        (0, 1, 0, 1)
    );
    assert_eq!(results[2].votes_total, 0);
}

#[test]
fn polls_response_for_voting_hands_voting_back() {
    let mut store = sample();
    store.add_vote(vote("x1", "p1", "v1", Some(true))).unwrap();
    let voting = first_voting(&store);
    let (same, polls) = get_voting_polls_response_for_voting(&store, voting).unwrap();
    assert_eq!(same.id, VOTING);
    assert_eq!(polls.len(), 3);
    assert_eq!(polls[0].status, "NOT_VOTED");
    assert_eq!(polls[1].status, "ACCEPTED");
    assert_eq!(polls[1].poll_id, "p1");
}

#[test]
fn admin_guard() {
    let store = sample();
    let voting = check_if_voting_admin(first_voting(&store), &user("admin")).unwrap();
    assert_eq!(voting.id, VOTING);
    let error = check_if_voting_admin(first_voting(&store), &user("other-admin")).unwrap_err();
    assert_eq!(error.status, Status::Unauthorized);
    assert_eq!(
        error.reason,
        format!("Admin key is not correct for voting with id: {}", VOTING)
    );
}

#[test]
fn admin_guard_compares_hashes_not_keys() {
    let store = sample();
    let hash_as_key = hash_string(&s("admin"));
    let error = check_if_voting_admin(first_voting(&store), &user(&hash_as_key)).unwrap_err();
    assert_eq!(error.status, Status::Unauthorized);
    assert!(!error.reason.contains(&hash_as_key));
}

#[test]
fn voter_guard() {
    let store = sample();
    let voting = check_if_voter(&store, first_voting(&store), &user("key-1")).unwrap();
    assert_eq!(voting.id, VOTING);
    let error = check_if_voter(&store, first_voting(&store), &user("key-w")).unwrap_err();
    assert_eq!(error.status, Status::Unauthorized);
    assert_eq!(error.reason, "Voter is not in voting. User has username: user-w1");
    let error = check_if_voter(&store, first_voting(&store), &user("nobody")).unwrap_err();
    assert_eq!(error.status, Status::NotFound);
    assert_eq!(error.reason, "Voter not found with key: REDACTED");
    let error = check_if_voter(&store, first_voting(&store), &user("admin")).unwrap_err();
    assert_eq!(error.status, Status::NotFound);
}

#[test]
fn insert_voting_returns_fresh_id() {
    let mut store = sample();
    let id = insert_voting(&mut store, &s("Third voting"), &s("HASH")).unwrap();
    assert_eq!(id.len(), 36);
    assert_eq!(store.votings.len(), 3);
    assert_eq!(store.votings[2].id, id);
    assert_eq!(store.votings[2].name, "Third voting");
    assert_eq!(store.votings[2].admin_key_hash, "HASH");
    assert_eq!(store.votings[2].active_poll_index, None);
}

#[test]
fn insert_poll_reports_one_row() {
    let mut store = sample();
    let written =
        insert_poll(&mut store, &s("Fourth poll"), 30, &s("About the fourth"), &s(VOTING));
    assert_eq!(written, Ok(1));
    assert_eq!(store.polls.len(), 5);
    assert_eq!(store.polls[4].name, "Fourth poll");
    assert_eq!(store.polls[4].sequenz_number, 30);
    assert_eq!(store.polls[4].id.len(), 36);
    assert_eq!(
        insert_poll(&mut store, &s("Fifth poll"), 30, &s("About the fifth"), &s(VOTING)),
        Err(StoreError::OutOfSequence)
    );
    assert_eq!(
        insert_poll(&mut store, &s("Fifth poll"), 0, &s("About the fifth"), &s("nowhere")),
        Err(StoreError::MissingReference)
    );
    assert_eq!(store.polls.len(), 5);
}

#[test]
fn insert_voter_writes_row() {
    let mut store = sample();
    insert_voter(&mut store, &s("carol"), &s("HASH"), &s(VOTING)).unwrap();
    assert_eq!(store.voters.len(), 4);
    assert_eq!(store.voters[3].username, "carol");
    assert_eq!(store.voters[3].voter_key_hash, "HASH");
    assert_eq!(store.voters[3].voting_fk, VOTING);
    let error = insert_voter(&mut store, &s("dave"), &s("HASH"), &s(VOTING)).unwrap_err();
    assert_eq!(error.status, Status::Internal);
    assert_eq!(
        error.reason,
        format!("Could not insert voter for voting with id: {}", VOTING)
    );
    let error = insert_voter_row(&mut store, voter("v1", "new-key", VOTING)).unwrap_err();
    assert_eq!(error.status, Status::Internal);
    assert_eq!(store.voters.len(), 4);
}

#[test]
fn insert_vote_is_the_arbiter() {
    let mut store = sample();
    insert_vote(&mut store, &s("p0"), &s("v1"), &Some(true)).unwrap();
    assert_eq!(store.votes.len(), 1);
    assert_eq!(store.votes[0].answer, Some(true));
    let error = insert_vote(&mut store, &s("p0"), &s("v1"), &Some(false)).unwrap_err();
    assert_eq!(error.status, Status::Conflict);
    assert_eq!(error.reason, "Voter already voted on poll with id: p0");
    assert_eq!(store.votes.len(), 1);
    assert_eq!(store.votes[0].answer, Some(true));
}

#[test]
fn insert_vote_failure_reasons() {
    let mut store = sample();
    let error = insert_vote(&mut store, &s("zz"), &s("v1"), &None).unwrap_err();
    assert_eq!(error.status, Status::Internal);
    assert_eq!(
        error.reason,
        "Could not insert vote for poll id: zz and voter id: v1 with answer: None"
    );
    let error = insert_vote(&mut store, &s("p0"), &s("zz"), &Some(true)).unwrap_err();
    assert_eq!(
        error.reason,
        "Could not insert vote for poll id: p0 and voter id: zz with answer: Some(true)"
    );
    insert_vote_row(&mut store, vote("x1", "p0", "v1", None)).unwrap();
    let error = insert_vote_row(&mut store, vote("x1", "p1", "v1", Some(false))).unwrap_err();
    assert_eq!(error.status, Status::Internal);
    assert_eq!(
        error.reason,
        "Could not insert vote for poll id: p1 and voter id: v1 with answer: Some(false)"
    );
    assert_eq!(store.votes.len(), 1);
}

#[test]
fn update_voting_sets_and_clears() {
    let mut store = sample();
    let voting = first_voting(&store);
    update_voting(&mut store, &voting, &Some(1)).unwrap();
    assert_eq!(first_voting(&store).active_poll_index, Some(1));
    update_voting(&mut store, &voting, &None).unwrap();
    assert_eq!(first_voting(&store).active_poll_index, None);
}

#[test]
fn update_voting_failure_reasons() {
    let mut store = sample();
    let voting = first_voting(&store);
    let error = update_voting(&mut store, &voting, &Some(3)).unwrap_err();
    assert_eq!(error.status, Status::Internal);
    assert_eq!(
        error.reason,
        format!("Could not set active_poll_index: Some(3) for voting with id: {}", VOTING)
    );
    let error = update_voting(&mut store, &voting, &Some(-2)).unwrap_err();
    assert_eq!(
        error.reason,
        format!("Could not set active_poll_index: Some(-2) for voting with id: {}", VOTING)
    );
    let ghost = Voting {
        id: s("nowhere"),
        admin_key_hash: s("x"),
        name: s("Ghost voting"),
        active_poll_index: None,
    };
    let error = update_voting(&mut store, &ghost, &None).unwrap_err();
    assert_eq!(
        error.reason,
        "Could not set active_poll_index: None for voting with id: nowhere"
    );
    assert_eq!(first_voting(&store).active_poll_index, None);
}

#[test]
fn rows_are_duplicated_field_by_field() {
    let store = sample();
    let copy = store.polls[2].duplicate();
    assert_eq!(copy.id, "p1");
    assert_eq!(copy.sequenz_number, 10);
    assert_eq!(copy.voting_fk, VOTING);
    assert_eq!(copy.name, "Poll p1");
    assert_eq!(copy.description, "About p1");
    let copy = store.voters[0].duplicate();
    assert_eq!(copy.id, "v1");
    assert_eq!(copy.username, "user-v1");
    let copy = store.votings[1].duplicate();
    assert_eq!(copy.id, OTHER);
    let copy = vote("x", "p", "v", Some(true)).duplicate();
    assert_eq!((copy.id.as_str(), copy.poll_fk.as_str(), copy.voter_fk.as_str()), ("x", "p", "v"));
    assert_eq!(copy.answer, Some(true));
}

#[test]
fn storage_failures_carry_context() {
    let error = voting_query_failed(&s("abc"));
    assert_eq!(error.status, Status::Internal);
    assert_eq!(error.reason, "Could not query database for voting with id: abc");
    let error = voter_query_failed();
    assert_eq!(error.status, Status::Internal);
    assert_eq!(error.reason, "Could not query database for voter with key: REDACTED");
    let error = polls_query_failed(&s("abc"));
    assert_eq!(error.status, Status::Internal);
    assert_eq!(error.reason, "Could not load polls to voting with id: abc");
    let error = vote_query_failed(&s("abc"));
    assert_eq!(error.status, Status::Internal);
    assert_eq!(error.reason, "Could not query database for votes of voting with id: abc");
    let error = voter_insert_failed(&voter("v", "k", "abc"));
    assert_eq!(error.status, Status::Internal);
    assert_eq!(error.reason, "Could not insert voter for voting with id: abc");
    let error = vote_insert_failed(StoreError::DuplicateVote, &vote("x", "p", "v", None));
    assert_eq!(error.status, Status::Conflict);
    assert_eq!(error.reason, "Voter already voted on poll with id: p");
    for refusal in [
        StoreError::DuplicateId,
        StoreError::DuplicateKey,
        StoreError::MissingReference,
        StoreError::OutOfSequence,
        StoreError::NoSuchPoll,
    ] {
        let error = vote_insert_failed(refusal, &vote("x", "p", "v", Some(true)));
        assert_eq!(error.status, Status::Internal);
        assert_eq!(
            error.reason,
            "Could not insert vote for poll id: p and voter id: v with answer: Some(true)"
        );
    }
    let error = activation_failed(Some(12), &s("abc"));
    assert_eq!(error.status, Status::Internal);
    assert_eq!(error.reason, "Could not set active_poll_index: Some(12) for voting with id: abc");
    let error = activation_failed(None, &s("abc"));
    assert_eq!(error.reason, "Could not set active_poll_index: None for voting with id: abc");
    let error = voting_insert_failed();
    assert_eq!(error.status, Status::Internal);
    assert_eq!(error.reason, "Could not insert voting to database");
}
