//! The point read/write endpoints' decision logic: both are restricted to
//! the loopback address, and a denied caller causes no store access at all.

use vstd::prelude::*;

use crate::ledger::{has_user, user_index, Ledger, RecordModel};
use crate::net::Ipv4;

verus! {

/// Reads the point total stored for `username`, defaulting to zero when the
/// username has never voted. Only the loopback address may ask: any other
/// caller gets `None` back, with zero store reads; an answered query
/// performs exactly one lookup and never mutates the ledger.
pub fn read_points(store: &mut Ledger, caller_ip: Ipv4, username: &String) -> (r: Option<u64>)
    requires
        old(store).wf(),
    ensures
        final(store).wf(),
        final(store)@ == old(store)@,
        r is Some <==> caller_ip.spec_is_loopback(),
        !caller_ip.spec_is_loopback() ==> final(store).lookups() == old(store).lookups(),
        caller_ip.spec_is_loopback() ==> final(store).lookups() == old(store).lookups() + 1
            && r == Some(
            if has_user(old(store)@, username@) {
                old(store)@[user_index(old(store)@, username@)].points
            } else {
                0u64
            },
        ),
{
    if !caller_ip.is_loopback() {
        None
    } else {
        Some(store.user_points(username))
    }
}

/// Sets the point total stored for `username` to `points`, leaving every
/// other field untouched. Only the loopback address may ask: any other
/// caller gets `None` back and the store is not touched. An answered
/// request reports whether a record matched; an absent username leaves the
/// ledger unchanged.
pub fn write_points(store: &mut Ledger, caller_ip: Ipv4, username: &String, points: u64) -> (r:
    Option<bool>)
    requires
        old(store).wf(),
    ensures
        final(store).wf(),
        final(store).lookups() == old(store).lookups(),
        r is Some <==> caller_ip.spec_is_loopback(),
        !caller_ip.spec_is_loopback() ==> final(store)@ == old(store)@,
        caller_ip.spec_is_loopback() ==> r == Some(has_user(old(store)@, username@)),
        caller_ip.spec_is_loopback() && !has_user(old(store)@, username@)
            ==> final(store)@ == old(store)@,
        caller_ip.spec_is_loopback() && has_user(old(store)@, username@)
            ==> final(store)@ == old(store)@.update(
            user_index(old(store)@, username@),
            RecordModel {
                id: old(store)@[user_index(old(store)@, username@)].id,
                username: old(store)@[user_index(old(store)@, username@)].username,
                votingip: old(store)@[user_index(old(store)@, username@)].votingip,
                points,
                last_vote: old(store)@[user_index(old(store)@, username@)].last_vote,
            },
        ),
{
    if !caller_ip.is_loopback() {
        None
    } else {
        Some(store.set_points(username, points))
    }
}

} // verus!
