//! End-to-end behaviour of the vote orchestrator against the ledger store.

use uvotes::config::VoteConfig;
use uvotes::ledger::Ledger;
use uvotes::net::Ipv4;
use uvotes::vote::{process_vote, process_vote_now, response_status, VoteOutcome, VotePostback};

fn postback(ip: Ipv4, name: &str) -> VotePostback {
    VotePostback { votingip: ip, custom: name.to_owned() }
}

#[test]
fn scenario_allow_cooldown_accumulate() {
    // allow-list = {1.2.3.4}, cooldown = 24 h, points per vote = 10
    let mut store = Ledger::new();
    let ip = Ipv4::new(1, 2, 3, 4);
    let allow = vec![ip];
    let vc = VoteConfig { time_limit: 24, points: 10 };
    let data = postback(ip, "alice");
    let t0: i64 = 1_000_000;

    let r1 = process_vote(&mut store, ip, &data, &allow, &vc, t0);
    assert_eq!(r1, VoteOutcome::Accepted);
    let rec = store.find_by_username(&"alice".to_owned()).unwrap();
    assert_eq!(rec.points, 10);
    assert_eq!(rec.last_vote, t0);

    // one hour later: still in the window, ledger unchanged
    let r2 = process_vote(&mut store, ip, &data, &allow, &vc, t0 + 3600);
    assert_eq!(r2, VoteOutcome::NotEligible);
    let rec = store.find_by_username(&"alice".to_owned()).unwrap();
    assert_eq!(rec.points, 10);
    assert_eq!(rec.last_vote, t0);
    assert_eq!(store.len(), 1);

    // 25 hours later: accepted again, total 20
    let r3 = process_vote(&mut store, ip, &data, &allow, &vc, t0 + 25 * 3600);
    assert_eq!(r3, VoteOutcome::Accepted);
    let rec = store.find_by_username(&"alice".to_owned()).unwrap();
    assert_eq!(rec.points, 20);
    assert_eq!(rec.last_vote, t0 + 25 * 3600);
    assert_eq!(store.len(), 1);
}

#[test]
fn scenario_denied_caller_leaves_no_trace() {
    let mut store = Ledger::new();
    let caller = Ipv4::new(9, 9, 9, 9);
    let allow = vec![Ipv4::new(1, 2, 3, 4)];
    let vc = VoteConfig { time_limit: 24, points: 10 };
    let data = postback(caller, "bob");

    let r = process_vote(&mut store, caller, &data, &allow, &vc, 42);
    assert_eq!(r, VoteOutcome::AccessDenied);
    assert_eq!(store.len(), 0);
    assert!(store.find_by_username(&"bob".to_owned()).is_none());
}

#[test]
fn scenario_simultaneous_first_votes_make_one_record() {
    // Two eligible votes for the same unseen username arriving at the same
    // time are applied one after the other; exactly one record comes out.
    let mut store = Ledger::new();
    let ip = Ipv4::new(1, 2, 3, 4);
    let allow = vec![ip];
    let vc = VoteConfig { time_limit: 24, points: 10 };
    let data = postback(ip, "carol");
    let now: i64 = 777;

    let r1 = process_vote(&mut store, ip, &data, &allow, &vc, now);
    let r2 = process_vote(&mut store, ip, &data, &allow, &vc, now);
    assert_eq!(r1, VoteOutcome::Accepted);
    assert_eq!(r2, VoteOutcome::NotEligible);
    assert_eq!(store.len(), 1);
    let rec = store.find_by_username(&"carol".to_owned()).unwrap();
    assert_eq!(rec.points, 10);
}

#[test]
fn first_vote_creates_exact_record() {
    let mut store = Ledger::new();
    let ip = Ipv4::new(10, 0, 0, 7);
    let allow = vec![ip];
    let vc = VoteConfig { time_limit: 12, points: 5 };
    let data = postback(ip, "dave");

    let r = process_vote(&mut store, ip, &data, &allow, &vc, 900);
    assert_eq!(r, VoteOutcome::Accepted);
    assert_eq!(store.len(), 1);
    let rec = store.find_by_username(&"dave".to_owned()).unwrap();
    assert_eq!(rec.id, 0);
    assert_eq!(rec.username, "dave");
    assert_eq!(rec.votingip, ip);
    assert_eq!(rec.points, 5);
    assert_eq!(rec.last_vote, 900);
}

#[test]
fn repeat_vote_updates_only_its_record() {
    let mut store = Ledger::new();
    let ip1 = Ipv4::new(1, 1, 1, 1);
    let ip2 = Ipv4::new(2, 2, 2, 2);
    let allow = vec![ip1, ip2];
    let vc = VoteConfig { time_limit: 1, points: 3 };

    let erin = postback(ip1, "erin");
    let frank = postback(ip1, "frank");
    assert_eq!(process_vote(&mut store, ip1, &erin, &allow, &vc, 0), VoteOutcome::Accepted);
    assert_eq!(process_vote(&mut store, ip1, &frank, &allow, &vc, 0), VoteOutcome::Accepted);

    // erin votes again after the window, from another address
    let erin2 = postback(ip2, "erin");
    let r = process_vote(&mut store, ip2, &erin2, &allow, &vc, 4000);
    assert_eq!(r, VoteOutcome::Accepted);

    let erin_rec = store.find_by_username(&"erin".to_owned()).unwrap();
    assert_eq!(erin_rec.id, 0);
    assert_eq!(erin_rec.username, "erin");
    assert_eq!(erin_rec.points, 6);
    assert_eq!(erin_rec.last_vote, 4000);
    assert_eq!(erin_rec.votingip, ip2);

    // frank's record is untouched
    let frank_rec = store.find_by_username(&"frank".to_owned()).unwrap();
    assert_eq!(frank_rec.id, 1);
    assert_eq!(frank_rec.points, 3);
    assert_eq!(frank_rec.last_vote, 0);
    assert_eq!(frank_rec.votingip, ip1);
}

#[test]
fn different_address_counts_during_cooldown() {
    // The chosen cooldown policy only holds a vote back when it comes from
    // the address that cast the last accepted vote.
    let mut store = Ledger::new();
    let ip1 = Ipv4::new(1, 1, 1, 1);
    let ip2 = Ipv4::new(2, 2, 2, 2);
    let allow = vec![ip1, ip2];
    let vc = VoteConfig { time_limit: 24, points: 10 };

    assert_eq!(
        process_vote(&mut store, ip1, &postback(ip1, "gail"), &allow, &vc, 0),
        VoteOutcome::Accepted
    );
    let r = process_vote(&mut store, ip2, &postback(ip2, "gail"), &allow, &vc, 60);
    assert_eq!(r, VoteOutcome::Accepted);
    let rec = store.find_by_username(&"gail".to_owned()).unwrap();
    assert_eq!(rec.points, 20);
    assert_eq!(rec.last_vote, 60);
}

#[test]
fn window_boundary_is_eligible() {
    // elapsed == cooldown is no longer inside the window
    let mut store = Ledger::new();
    let ip = Ipv4::new(8, 8, 8, 8);
    let allow = vec![ip];
    let vc = VoteConfig { time_limit: 24, points: 10 };
    let data = postback(ip, "henry");

    assert_eq!(process_vote(&mut store, ip, &data, &allow, &vc, 0), VoteOutcome::Accepted);
    let r = process_vote(&mut store, ip, &data, &allow, &vc, 24 * 3600);
    assert_eq!(r, VoteOutcome::Accepted);
    assert_eq!(store.find_by_username(&"henry".to_owned()).unwrap().points, 20);
}

#[test]
fn zero_cooldown_always_counts() {
    let mut store = Ledger::new();
    let ip = Ipv4::new(3, 3, 3, 3);
    let allow = vec![ip];
    let vc = VoteConfig { time_limit: 0, points: 7 };
    let data = postback(ip, "iris");

    assert_eq!(process_vote(&mut store, ip, &data, &allow, &vc, 5), VoteOutcome::Accepted);
    assert_eq!(process_vote(&mut store, ip, &data, &allow, &vc, 5), VoteOutcome::Accepted);
    assert_eq!(store.find_by_username(&"iris".to_owned()).unwrap().points, 14);
}

#[test]
fn wall_clock_vote_counts_and_rearms() {
    // Processes against the real clock: the first vote is accepted, and a
    // second one in the same run lands inside the fresh 24 h window.
    let mut store = Ledger::new();
    let ip = Ipv4::new(4, 4, 4, 4);
    let allow = vec![ip];
    let vc = VoteConfig { time_limit: 24, points: 10 };
    let data = postback(ip, "judy");

    let r1 = process_vote_now(&mut store, ip, &data, &allow, &vc);
    assert_eq!(r1, VoteOutcome::Accepted);
    let r2 = process_vote_now(&mut store, ip, &data, &allow, &vc);
    assert_eq!(r2, VoteOutcome::NotEligible);
    assert_eq!(store.len(), 1);
    assert_eq!(store.find_by_username(&"judy".to_owned()).unwrap().points, 10);
}

#[test]
fn response_codes() {
    assert_eq!(response_status(VoteOutcome::Accepted), 200);
    assert_eq!(response_status(VoteOutcome::AccessDenied), 401);
    assert_eq!(response_status(VoteOutcome::NotEligible), 401);
    assert_eq!(response_status(VoteOutcome::StorageFailed), 500);
}
