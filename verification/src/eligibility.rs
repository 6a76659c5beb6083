//! The eligibility evaluator: given the existing ledger record for a
//! username (or none) and the current time, decides whether a vote counts
//! and what the resulting point total is.
//!
//! Cooldown policy: a repeat vote inside the cooldown window is rejected
//! only when it is submitted from the same address as the last accepted
//! vote; a repeat vote from a different address counts immediately.
//!
//! Point totals saturate at `u64::MAX` instead of wrapping; an accepted
//! vote below that bound raises the total by exactly the per-vote amount.

use vstd::prelude::*;

use crate::ledger::{RecordModel, UVotes};
use crate::net::Ipv4;

verus! {

/// The evaluator's verdict on one vote.
#[derive(Clone, Copy, PartialEq, Eq, Structural, Debug)]
pub enum Eligibility {
    /// The vote counts; the record's point total becomes `new_points`.
    Eligible { new_points: u64 },
    /// The vote is still inside the cooldown window and does not count.
    NotEligible,
}

/// Whether a vote submitted from `submitted_ip` at `now` is still inside the
/// cooldown window of `rec`. The window is `time_limit` hours after the last
/// accepted vote, and only holds a vote back when it comes from the address
/// that cast that last vote.
pub open spec fn in_cooldown(rec: RecordModel, submitted_ip: Ipv4, now: i64, time_limit: u8) -> bool {
    now - rec.last_vote < (time_limit as int) * 3600 && submitted_ip == rec.votingip
}

/// The point total after one accepted vote on top of `current`, saturating
/// at `u64::MAX`.
pub open spec fn new_total(current: u64, points_per_vote: u64) -> u64 {
    if current + points_per_vote > u64::MAX {
        u64::MAX
    } else {
        (current + points_per_vote) as u64
    }
}

/// What the evaluator decides: an unseen username is eligible and opens with
/// the per-vote amount; an existing record is eligible unless the vote is in
/// its cooldown window, and then accumulates.
pub open spec fn spec_evaluate(
    existing: Option<RecordModel>,
    submitted_ip: Ipv4,
    now: i64,
    time_limit: u8,
    points_per_vote: u64,
) -> Eligibility {
    match existing {
        None => Eligibility::Eligible { new_points: points_per_vote },
        Some(rec) => if in_cooldown(rec, submitted_ip, now, time_limit) {
            Eligibility::NotEligible
        } else {
            Eligibility::Eligible { new_points: new_total(rec.points, points_per_vote) }
        },
    }
}

/// The model of an optional record handed to the evaluator.
pub open spec fn model_of(existing: Option<&UVotes>) -> Option<RecordModel> {
    match existing {
        Some(rec) => Some(rec@),
        None => None,
    }
}

/// The eligibility evaluator. Pure: reads nothing but its arguments and
/// performs no mutation; the caller supplies the single record it looked up.
pub fn evaluate(
    existing: Option<&UVotes>,
    submitted_ip: Ipv4,
    now: i64,
    time_limit: u8,
    points_per_vote: u64,
) -> (r: Eligibility)
    ensures
        r == spec_evaluate(model_of(existing), submitted_ip, now, time_limit, points_per_vote),
{
    match existing {
        None => Eligibility::Eligible { new_points: points_per_vote },
        Some(rec) => {
            let elapsed: i128 = now as i128 - rec.last_vote as i128;
            let limit: i128 = (time_limit as i128) * 3600;
            if elapsed < limit && submitted_ip == rec.votingip {
                Eligibility::NotEligible
            } else {
                let total = if points_per_vote <= u64::MAX - rec.points {
                    rec.points + points_per_vote
                } else {
                    u64::MAX
                };
                Eligibility::Eligible { new_points: total }
            }
        },
    }
}

} // verus!
