//! The vote orchestrator: composes the access gate, the eligibility
//! evaluator, and the ledger store into one request-scoped operation, and
//! maps each outcome to its response.
//!
//! The orchestrator performs the read-modify-write of a vote while holding
//! the store exclusively, so two votes are always applied one after the
//! other: a second vote for the same username observes the record the first
//! one wrote. `lemma_concurrent_first_votes` states what this closes off —
//! two simultaneous first votes for one username yield a single record.

use vstd::prelude::*;

use crate::clock::now_timestamp;
use crate::config::VoteConfig;
use crate::eligibility::{in_cooldown, new_total, spec_evaluate, Eligibility, evaluate};
use crate::ledger::{
    count_user, has_user, lemma_count_user, ledger_wf, user_index, Ledger, RecordModel, UserVote,
};
use crate::net::{is_allowed, Ipv4};

verus! {

/// The data submitted with a vote postback: the voter's address and the
/// username the ranking site hands back.
pub struct VotePostback {
    pub votingip: Ipv4,
    pub custom: String,
}

/// The mathematical model of a postback.
#[verifier::ext_equal]
pub struct PostbackModel {
    pub votingip: Ipv4,
    pub custom: Seq<char>,
}

impl View for VotePostback {
    type V = PostbackModel;

    open spec fn view(&self) -> PostbackModel {
        PostbackModel { votingip: self.votingip, custom: self.custom@ }
    }
}

/// The outcome of one vote postback.
#[derive(Clone, Copy, PartialEq, Eq, Structural, Debug)]
pub enum VoteOutcome {
    /// The vote was counted and the ledger mutated.
    Accepted,
    /// The caller's address is not in the allow-list; the store was not touched.
    AccessDenied,
    /// The username is still in its cooldown window; the ledger is unchanged.
    NotEligible,
    /// The store refused the mutation.
    StorageFailed,
}

/// What one vote does to the ledger: the outcome returned to the caller and
/// the ledger contents afterwards.
pub open spec fn spec_process_vote(
    ledger: Seq<RecordModel>,
    caller_ip: Ipv4,
    data: PostbackModel,
    allowed_ips: Seq<Ipv4>,
    vote_config: VoteConfig,
    now: i64,
) -> (VoteOutcome, Seq<RecordModel>) {
    if !allowed_ips.contains(caller_ip) {
        (VoteOutcome::AccessDenied, ledger)
    } else {
        let existing = if has_user(ledger, data.custom) {
            Some(ledger[user_index(ledger, data.custom)])
        } else {
            None
        };
        match spec_evaluate(existing, data.votingip, now, vote_config.time_limit, vote_config.points) {
            Eligibility::NotEligible => (VoteOutcome::NotEligible, ledger),
            Eligibility::Eligible { new_points } => if has_user(ledger, data.custom) {
                let i = user_index(ledger, data.custom);
                (
                    VoteOutcome::Accepted,
                    ledger.update(
                        i,
                        RecordModel {
                            id: ledger[i].id,
                            username: ledger[i].username,
                            votingip: data.votingip,
                            points: new_points,
                            last_vote: now,
                        },
                    ),
                )
            } else {
                (
                    VoteOutcome::Accepted,
                    ledger.push(
                        RecordModel {
                            id: ledger.len() as u64,
                            username: data.custom,
                            votingip: data.votingip,
                            points: new_points,
                            last_vote: now,
                        },
                    ),
                )
            },
        }
    }
}

/// Processes one vote postback at the given time.
///
/// The access gate runs first: a caller outside the allow-list is denied
/// before any store access. An allowed vote performs the single eligibility
/// lookup, and mutates the ledger only when the evaluator accepts it: a
/// first vote creates exactly one record opened with the per-vote amount, a
/// repeat vote raises the total by exactly that amount (saturating at
/// `u64::MAX`) and advances the vote time, and a vote still in its cooldown
/// window leaves the ledger untouched.
pub fn process_vote(
    store: &mut Ledger,
    caller_ip: Ipv4,
    data: &VotePostback,
    allowed_ips: &Vec<Ipv4>,
    vote_config: &VoteConfig,
    now: i64,
) -> (r: VoteOutcome)
    requires
        old(store).wf(),
        old(store)@.len() < u64::MAX,
    ensures
        final(store).wf(),
        (r, final(store)@) == spec_process_vote(
            old(store)@,
            caller_ip,
            data@,
            allowed_ips@,
            *vote_config,
            now,
        ),
        // This store never refuses a mutation the evaluator asked for.
        r != VoteOutcome::StorageFailed,
        // A caller outside the allow-list is turned away with zero store
        // reads and zero writes; any allowed vote performs exactly the one
        // eligibility lookup.
        r == VoteOutcome::AccessDenied <==> !allowed_ips@.contains(caller_ip),
        r == VoteOutcome::AccessDenied ==> final(store)@ == old(store)@ && final(store).lookups()
            == old(store).lookups(),
        r != VoteOutcome::AccessDenied ==> final(store).lookups() == old(store).lookups() + 1,
        // A rejected vote leaves the ledger unchanged.
        r == VoteOutcome::NotEligible ==> final(store)@ == old(store)@,
        // An accepted vote for an unseen username creates exactly one
        // record, opened with the per-vote amount at the vote's time.
        r == VoteOutcome::Accepted && !has_user(old(store)@, data@.custom)
            ==> final(store)@ == old(store)@.push(
            RecordModel {
                id: old(store)@.len() as u64,
                username: data@.custom,
                votingip: data@.votingip,
                points: vote_config.points,
                last_vote: now,
            },
        ) && count_user(final(store)@, data@.custom) == 1,
        // An accepted repeat vote raises the matching record's total by
        // exactly the per-vote amount (saturating), advances its vote time,
        // records the submitted address, and changes nothing else.
        r == VoteOutcome::Accepted && has_user(old(store)@, data@.custom) ==> ({
            let i = user_index(old(store)@, data@.custom);
            &&& final(store)@.len() == old(store)@.len()
            &&& final(store)@[i].points == new_total(old(store)@[i].points, vote_config.points)
            &&& final(store)@[i].last_vote == now
            &&& final(store)@[i].votingip == data@.votingip
            &&& final(store)@[i].id == old(store)@[i].id
            &&& final(store)@[i].username == old(store)@[i].username
            &&& forall|k: int|
                0 <= k < old(store)@.len() && k != i ==> final(store)@[k] == old(store)@[k]
        }),
        // A vote inside the cooldown window is not eligible.
        allowed_ips@.contains(caller_ip) && has_user(old(store)@, data@.custom) && in_cooldown(
            old(store)@[user_index(old(store)@, data@.custom)],
            data@.votingip,
            now,
            vote_config.time_limit,
        ) ==> r == VoteOutcome::NotEligible,
{
    if !is_allowed(caller_ip, allowed_ips) {
        return VoteOutcome::AccessDenied;
    }
    let found = store.find_by_username(&data.custom);
    let verdict = match &found {
        Some(rec) => evaluate(
            Some(rec),
            data.votingip,
            now,
            vote_config.time_limit,
            vote_config.points,
        ),
        None => evaluate(None, data.votingip, now, vote_config.time_limit, vote_config.points),
    };
    match verdict {
        Eligibility::NotEligible => VoteOutcome::NotEligible,
        Eligibility::Eligible { new_points } => match &found {
            Some(_) => {
                let updated = store.update_by_username(&data.custom, data.votingip, new_points, now);
                match updated {
                    Ok(()) => VoteOutcome::Accepted,
                    Err(_) => VoteOutcome::StorageFailed,
                }
            },
            None => {
                let created = store.insert(
                    UserVote {
                        username: data.custom.clone(),
                        votingip: data.votingip,
                        points: new_points,
                        last_vote: now,
                    },
                );
                proof {
                    let l = store@;
                    assert(l[l.len() - 1].username == data@.custom);
                    assert(has_user(l, data@.custom));
                    lemma_count_user(l, data@.custom);
                }
                match created {
                    Ok(()) => VoteOutcome::Accepted,
                    Err(_) => VoteOutcome::StorageFailed,
                }
            },
        },
    }
}

/// Processes one vote postback at the current wall-clock time.
///
/// The clock's reading is outside this library's control, so the contract
/// holds for whatever time came back: the vote is processed exactly as
/// `process_vote` would process it at some time, and the access gate's
/// verdict does not depend on that time at all.
pub fn process_vote_now(
    store: &mut Ledger,
    caller_ip: Ipv4,
    data: &VotePostback,
    allowed_ips: &Vec<Ipv4>,
    vote_config: &VoteConfig,
) -> (r: VoteOutcome)
    requires
        old(store).wf(),
        old(store)@.len() < u64::MAX,
    ensures
        final(store).wf(),
        exists|now: i64|
            (r, final(store)@) == #[trigger] spec_process_vote(
                old(store)@,
                caller_ip,
                data@,
                allowed_ips@,
                *vote_config,
                now,
            ),
        r == VoteOutcome::AccessDenied <==> !allowed_ips@.contains(caller_ip),
        r == VoteOutcome::AccessDenied ==> final(store)@ == old(store)@ && final(store).lookups()
            == old(store).lookups(),
        r != VoteOutcome::StorageFailed,
{
    let now = now_timestamp();
    let r = process_vote(store, caller_ip, data, allowed_ips, vote_config, now);
    proof {
        assert((r, store@) == spec_process_vote(
            old(store)@,
            caller_ip,
            data@,
            allowed_ips@,
            *vote_config,
            now,
        ));
    }
    r
}

/// The response status for each vote outcome: an accepted vote answers 200,
/// a denial or a vote still in cooldown answers 401, and a store failure
/// answers 500.
pub fn response_status(outcome: VoteOutcome) -> (r: u16)
    ensures
        outcome == VoteOutcome::Accepted ==> r == 200,
        outcome == VoteOutcome::AccessDenied ==> r == 401,
        outcome == VoteOutcome::NotEligible ==> r == 401,
        outcome == VoteOutcome::StorageFailed ==> r == 500,
{
    match outcome {
        VoteOutcome::Accepted => 200,
        VoteOutcome::AccessDenied => 401,
        VoteOutcome::NotEligible => 401,
        VoteOutcome::StorageFailed => 500,
    }
}

/// Two eligible votes for the same unseen username arriving together are
/// applied one after the other, and exactly one record comes out of them:
/// the first vote creates it with the per-vote amount, and the second —
/// processed at the same time, from the same address — lands inside the
/// fresh cooldown window and changes nothing.
pub proof fn lemma_concurrent_first_votes(
    ledger: Seq<RecordModel>,
    caller_ip: Ipv4,
    data: PostbackModel,
    allowed_ips: Seq<Ipv4>,
    vote_config: VoteConfig,
    now: i64,
)
    requires
        ledger_wf(ledger),
        ledger.len() < u64::MAX,
        !has_user(ledger, data.custom),
        allowed_ips.contains(caller_ip),
        vote_config.time_limit >= 1,
    ensures
        ({
            let (r1, l1) = spec_process_vote(ledger, caller_ip, data, allowed_ips, vote_config, now);
            let (r2, l2) = spec_process_vote(l1, caller_ip, data, allowed_ips, vote_config, now);
            &&& r1 == VoteOutcome::Accepted
            &&& r2 == VoteOutcome::NotEligible
            &&& l2 == l1
            &&& count_user(l2, data.custom) == 1
            &&& l2[user_index(l2, data.custom)].points == vote_config.points
        }),
{
    let (r1, l1) = spec_process_vote(ledger, caller_ip, data, allowed_ips, vote_config, now);
    let new_rec = RecordModel {
        id: ledger.len() as u64,
        username: data.custom,
        votingip: data.votingip,
        points: vote_config.points,
        last_vote: now,
    };
    assert(l1 == ledger.push(new_rec));
    assert(l1[ledger.len() as int] == new_rec);
    assert(has_user(l1, data.custom));
    let i = user_index(l1, data.custom);
    assert forall|j: int, k: int|
        0 <= j < l1.len() && 0 <= k < l1.len() && j != k implies l1[j].username != l1[k].username by {
        if j < ledger.len() && k < ledger.len() {
            assert(ledger[j].username != ledger[k].username);
        } else if j == ledger.len() {
            assert(l1[k].username != data.custom);
        } else {
            assert(l1[j].username != data.custom);
        }
    }
    assert(l1[ledger.len() as int].id == ledger.len() as u64);
    assert forall|j: int| 0 <= j < l1.len() implies #[trigger] l1[j].id == j by {
        if j < ledger.len() {
            assert(ledger[j].id == j);
        }
    }
    assert(i == ledger.len() as int);
    assert(in_cooldown(l1[i], data.votingip, now, vote_config.time_limit));
    lemma_count_user(l1, data.custom);
}

} // verus!
