use votetally::handler::{process_vote, submit_vote, tally_key, Vote, VoteResponse};
use votetally::health;
use votetally::store::VoteStore;

fn vote(poll_id: &str, choice: &str) -> Vote {
    Vote { poll_id: poll_id.to_string(), choice: choice.to_string() }
}

#[test]
fn health_returns_version() {
    assert_eq!(health(), "version 0.0.2");
}

#[test]
fn health_unchanged_by_votes() {
    let mut store = VoteStore::new();
    process_vote(&mut store, &vote("p1", "red"), false);
    process_vote(&mut store, &vote("p2", "blue"), true);
    assert_eq!(health(), "version 0.0.2");
}

#[test]
fn tally_key_format() {
    let key = tally_key(&"p1".to_string(), &"red".to_string());
    assert_eq!(key, "poll:p1:red");
}

#[test]
fn monotonic_counts() {
    let mut store = VoteStore::new();
    for expected in 1..=5i64 {
        let r = process_vote(&mut store, &vote("p1", "red"), false);
        assert_eq!(r.count, expected);
    }
}

#[test]
fn key_isolation() {
    let mut store = VoteStore::new();
    let r = process_vote(&mut store, &vote("A", "x"), false);
    assert_eq!(r.count, 1);
    let r = process_vote(&mut store, &vote("A", "x"), false);
    assert_eq!(r.count, 2);
    let r = process_vote(&mut store, &vote("A", "y"), false);
    assert_eq!(r.count, 1);
    let r = process_vote(&mut store, &vote("B", "x"), false);
    assert_eq!(r.count, 1);
    assert_eq!(store.count_for(&"poll:A:x".to_string()), 2);
    assert_eq!(store.count_for(&"poll:A:y".to_string()), 1);
    assert_eq!(store.count_for(&"poll:B:x".to_string()), 1);
}

#[test]
fn count_for_unvoted_key_is_zero() {
    let store = VoteStore::new();
    assert_eq!(store.count_for(&"poll:p1:red".to_string()), 0);
}

#[test]
fn recorded_message_exact() {
    let mut store = VoteStore::new();
    let r = process_vote(&mut store, &vote("p1", "red"), false);
    assert_eq!(r.status, "Vote for p1 recorded");
}

#[test]
fn legend_message_exact() {
    let mut store = VoteStore::new();
    let r = process_vote(&mut store, &vote("p1", "red"), true);
    assert_eq!(r.status, "Vote for p1 counted, Fort Atkinson legend!");
}

#[test]
fn example_sequence() {
    let mut store = VoteStore::new();
    let r = process_vote(&mut store, &vote("p1", "red"), false);
    assert_eq!(r.count, 1);
    let r = process_vote(&mut store, &vote("p1", "red"), false);
    assert_eq!(r.count, 2);
    let r = process_vote(&mut store, &vote("p1", "red"), false);
    assert_eq!(r.count, 3);
    let r = process_vote(&mut store, &vote("p1", "blue"), false);
    assert_eq!(r.count, 1);
}

fn assert_status_shape(r: &VoteResponse, poll_id: &str) {
    assert!(!r.status.is_empty());
    let recorded = format!("Vote for {} recorded", poll_id);
    let legend = format!("Vote for {} counted, Fort Atkinson legend!", poll_id);
    assert!(r.status == recorded || r.status == legend);
    assert!(r.count >= 1);
}

#[test]
fn submit_vote_counts_and_status_shape() {
    let mut store = VoteStore::new();
    for expected in 1..=50i64 {
        let r = submit_vote(&mut store, &vote("p1", "red"));
        assert_eq!(r.count, expected);
        assert_status_shape(&r, "p1");
    }
    assert_eq!(store.count_for(&"poll:p1:red".to_string()), 50);
}

#[test]
fn empty_poll_and_choice_accepted() {
    let mut store = VoteStore::new();
    let r = process_vote(&mut store, &vote("", ""), false);
    assert_eq!(r.count, 1);
    assert_eq!(r.status, "Vote for  recorded");
    assert_eq!(store.count_for(&"poll::".to_string()), 1);
}

#[test]
fn many_votes_accumulate() {
    let mut store = VoteStore::new();
    let mut last: i64 = 0;
    for _ in 0..200 {
        last = process_vote(&mut store, &vote("p", "c"), false).count;
    }
    assert_eq!(last, 200);
    assert_eq!(store.count_for(&"poll:p:c".to_string()), 200);
}
