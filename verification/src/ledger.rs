//! The ledger store: one record per username, tracking cumulative points and
//! the time of the last accepted vote.
//!
//! The store enforces username uniqueness at its boundary: an insert for a
//! username that already has a record is refused, and an update addresses the
//! single matching record. A ghost tally counts the lookup queries served, so
//! that callers can state how many reads an operation performed.

use vstd::prelude::*;

use crate::net::Ipv4;

verus! {

/// The mathematical model of one ledger record.
#[verifier::ext_equal]
pub struct RecordModel {
    pub id: u64,
    pub username: Seq<char>,
    pub votingip: Ipv4,
    pub points: u64,
    pub last_vote: i64,
}

/// A stored ledger record. `id` is the surrogate key assigned by the store;
/// `points` is a non-negative counter; `last_vote` is the time of the most
/// recently accepted vote, in seconds.
pub struct UVotes {
    pub id: u64,
    pub username: String,
    pub votingip: Ipv4,
    pub points: u64,
    pub last_vote: i64,
}

impl View for UVotes {
    type V = RecordModel;

    open spec fn view(&self) -> RecordModel {
        RecordModel {
            id: self.id,
            username: self.username@,
            votingip: self.votingip,
            points: self.points,
            last_vote: self.last_vote,
        }
    }
}

/// The data of a record to be created; the store assigns the surrogate key.
pub struct UserVote {
    pub username: String,
    pub votingip: Ipv4,
    pub points: u64,
    pub last_vote: i64,
}

impl UserVote {
    /// The record this data becomes once the store assigns it the key `id`.
    pub open spec fn as_record(&self, id: u64) -> RecordModel {
        RecordModel {
            id,
            username: self.username@,
            votingip: self.votingip,
            points: self.points,
            last_vote: self.last_vote,
        }
    }
}

/// Failures reported at the store boundary.
#[derive(Clone, Copy, PartialEq, Eq, Structural, Debug)]
pub enum StorageError {
    /// An insert named a username that already has a record.
    DuplicateUsername,
    /// An update named a username that has no record.
    NoSuchUser,
}

/// Whether some record of `ledger` carries `username`.
pub open spec fn has_user(ledger: Seq<RecordModel>, username: Seq<char>) -> bool {
    exists|i: int| 0 <= i < ledger.len() && ledger[i].username == username
}

/// The index of the record carrying `username` (unique while the ledger is
/// well formed).
pub open spec fn user_index(ledger: Seq<RecordModel>, username: Seq<char>) -> int {
    choose|i: int| 0 <= i < ledger.len() && ledger[i].username == username
}

/// How many records of `ledger` carry `username`.
pub open spec fn count_user(ledger: Seq<RecordModel>, username: Seq<char>) -> nat
    decreases ledger.len(),
{
    if ledger.len() == 0 {
        0
    } else {
        (if ledger[0].username == username {
            1nat
        } else {
            0nat
        }) + count_user(ledger.drop_first(), username)
    }
}

/// Well-formedness of the ledger contents: usernames are pairwise distinct
/// and each record's surrogate key is its position.
pub open spec fn ledger_wf(ledger: Seq<RecordModel>) -> bool {
    &&& forall|i: int, j: int|
        0 <= i < ledger.len() && 0 <= j < ledger.len() && i != j
            ==> ledger[i].username != ledger[j].username
    &&& forall|i: int| 0 <= i < ledger.len() ==> #[trigger] ledger[i].id == i
}

/// In a well-formed ledger a username is carried by exactly one record if it
/// is present at all, and by none otherwise.
pub proof fn lemma_count_user(ledger: Seq<RecordModel>, username: Seq<char>)
    requires
        ledger_wf(ledger),
    ensures
        count_user(ledger, username) == if has_user(ledger, username) {
            1nat
        } else {
            0nat
        },
{
    lemma_count_user_bound(ledger, username);
}

proof fn lemma_count_user_bound(ledger: Seq<RecordModel>, username: Seq<char>)
    requires
        forall|i: int, j: int|
            0 <= i < ledger.len() && 0 <= j < ledger.len() && i != j
                ==> ledger[i].username != ledger[j].username,
    ensures
        count_user(ledger, username) == if has_user(ledger, username) {
            1nat
        } else {
            0nat
        },
    decreases ledger.len(),
{
    if ledger.len() == 0 {
    } else {
        let rest = ledger.drop_first();
        assert(forall|i: int| 0 <= i < rest.len() ==> rest[i] == ledger[i + 1]);
        lemma_count_user_bound(rest, username);
        if ledger[0].username == username {
            assert(!has_user(rest, username));
            assert(has_user(ledger, username));
        } else {
            if has_user(rest, username) {
                let i = choose|i: int| 0 <= i < rest.len() && rest[i].username == username;
                assert(ledger[i + 1].username == username);
            }
            if has_user(ledger, username) {
                let i = choose|i: int| 0 <= i < ledger.len() && ledger[i].username == username;
                assert(rest[i - 1].username == username);
            }
        }
    }
}

/// The ledger store. Backed by a vector of records; the concrete
/// representation is hidden behind the `Seq<RecordModel>` view.
pub struct Ledger {
    records: Vec<UVotes>,
    lookup_count: Ghost<nat>,
}

impl View for Ledger {
    type V = Seq<RecordModel>;

    closed spec fn view(&self) -> Seq<RecordModel> {
        self.records@.map_values(|r: UVotes| r@)
    }
}

impl Ledger {
    /// How many lookup queries this store has served.
    pub closed spec fn lookups(&self) -> nat {
        self.lookup_count@
    }

    /// The store's invariant over its contents.
    pub open spec fn wf(&self) -> bool {
        ledger_wf(self@)
    }

    /// An empty store.
    pub fn new() -> (r: Ledger)
        ensures
            r@ == Seq::<RecordModel>::empty(),
            r.wf(),
            r.lookups() == 0,
    {
        let r = Ledger { records: Vec::new(), lookup_count: Ghost(0nat) };
        proof {
            assert(r@ =~= Seq::<RecordModel>::empty());
        }
        r
    }

    /// The position of the record carrying `username`, if any.
    fn index_of(&self, username: &String) -> (r: Option<usize>)
        ensures
            match r {
                Some(i) => i < self@.len() && self@[i as int].username == username@,
                None => !has_user(self@, username@),
            },
    {
        let mut i: usize = 0;
        while i < self.records.len()
            invariant
                i <= self@.len(),
                self@.len() == self.records@.len(),
                forall|k: int| 0 <= k < i ==> self@[k].username != username@,
            decreases self@.len() - i,
        {
            if self.records[i].username == *username {
                assert(self@[i as int].username == username@);
                return Some(i);
            }
            i = i + 1;
        }
        None
    }

    /// Lookup-by-username: exact string match. This is the single store read
    /// of the eligibility path; each call counts one lookup in the ghost
    /// tally and leaves the contents untouched.
    pub fn find_by_username(&mut self, username: &String) -> (r: Option<UVotes>)
        requires
            old(self).wf(),
        ensures
            final(self)@ == old(self)@,
            final(self).lookups() == old(self).lookups() + 1,
            match r {
                Some(rec) => has_user(old(self)@, username@) && rec@ == old(self)@[user_index(
                    old(self)@,
                    username@,
                )],
                None => !has_user(old(self)@, username@),
            },
    {
        self.lookup_count = Ghost(self.lookup_count@ + 1);
        match self.index_of(username) {
            Some(i) => {
                proof {
                    assert(has_user(self@, username@));
                    let j = user_index(self@, username@);
                    assert(self@[j].username == username@);
                    assert(j == i as int);
                }
                let rec = &self.records[i];
                Some(
                    UVotes {
                        id: rec.id,
                        username: rec.username.clone(),
                        votingip: rec.votingip,
                        points: rec.points,
                        last_vote: rec.last_vote,
                    },
                )
            },
            None => None,
        }
    }

    /// Creates exactly one new record, assigning the next surrogate key.
    /// Refused when the username already has a record, which keeps usernames
    /// unique at the store boundary.
    pub fn insert(&mut self, v: UserVote) -> (r: Result<(), StorageError>)
        requires
            old(self).wf(),
            old(self)@.len() < u64::MAX,
        ensures
            final(self).wf(),
            final(self).lookups() == old(self).lookups(),
            has_user(old(self)@, v.username@) ==> r == Err::<(), StorageError>(
                StorageError::DuplicateUsername,
            ) && final(self)@ == old(self)@,
            !has_user(old(self)@, v.username@) ==> r == Ok::<(), StorageError>(())
                && final(self)@ == old(self)@.push(v.as_record(old(self)@.len() as u64)),
    {
        match self.index_of(&v.username) {
            Some(_) => Err(StorageError::DuplicateUsername),
            None => {
                let ghost prior = self@;
                let id = self.records.len() as u64;
                let ghost rec = v.as_record(id);
                self.records.push(
                    UVotes {
                        id,
                        username: v.username,
                        votingip: v.votingip,
                        points: v.points,
                        last_vote: v.last_vote,
                    },
                );
                proof {
                    assert(self@ =~= prior.push(rec));
                    assert forall|i: int, j: int|
                        0 <= i < self@.len() && 0 <= j < self@.len() && i != j implies self@[
                        i
                    ].username != self@[j].username by {
                        if i < prior.len() && j < prior.len() {
                        } else if j == prior.len() {
                            assert(self@[i].username != rec.username);
                        } else {
                            assert(self@[j].username != rec.username);
                        }
                    }
                }
                Ok(())
            },
        }
    }

    /// Mutates the record carrying `username` in place: the submitted address,
    /// point total, and vote time replace the stored ones; the key and the
    /// username are kept. Refused when no record matches.
    pub fn update_by_username(
        &mut self,
        username: &String,
        votingip: Ipv4,
        points: u64,
        last_vote: i64,
    ) -> (r: Result<(), StorageError>)
        requires
            old(self).wf(),
        ensures
            final(self).wf(),
            final(self).lookups() == old(self).lookups(),
            !has_user(old(self)@, username@) ==> r == Err::<(), StorageError>(
                StorageError::NoSuchUser,
            ) && final(self)@ == old(self)@,
            has_user(old(self)@, username@) ==> r == Ok::<(), StorageError>(())
                && final(self)@ == old(self)@.update(
                user_index(old(self)@, username@),
                RecordModel {
                    id: old(self)@[user_index(old(self)@, username@)].id,
                    username: old(self)@[user_index(old(self)@, username@)].username,
                    votingip,
                    points,
                    last_vote,
                },
            ),
    {
        match self.index_of(username) {
            None => Err(StorageError::NoSuchUser),
            Some(i) => {
                let ghost prior = self@;
                proof {
                    assert(has_user(self@, username@));
                    let j = user_index(self@, username@);
                    assert(self@[j].username == username@);
                    assert(j == i as int);
                }
                let id = self.records[i].id;
                let name = self.records[i].username.clone();
                self.records[i] = UVotes { id, username: name, votingip, points, last_vote };
                proof {
                    let j = user_index(prior, username@);
                    assert(self@ =~= prior.update(
                        j,
                        RecordModel {
                            id: prior[j].id,
                            username: prior[j].username,
                            votingip,
                            points,
                            last_vote,
                        },
                    ));
                }
                Ok(())
            },
        }
    }

    /// Sets the point total of the record carrying `username` to `points`,
    /// leaving every other field untouched. Returns whether a record matched;
    /// an absent username leaves the store unchanged.
    pub fn set_points(&mut self, username: &String, points: u64) -> (updated: bool)
        requires
            old(self).wf(),
        ensures
            final(self).wf(),
            final(self).lookups() == old(self).lookups(),
            updated == has_user(old(self)@, username@),
            !has_user(old(self)@, username@) ==> final(self)@ == old(self)@,
            has_user(old(self)@, username@) ==> final(self)@ == old(self)@.update(
                user_index(old(self)@, username@),
                RecordModel {
                    id: old(self)@[user_index(old(self)@, username@)].id,
                    username: old(self)@[user_index(old(self)@, username@)].username,
                    votingip: old(self)@[user_index(old(self)@, username@)].votingip,
                    points,
                    last_vote: old(self)@[user_index(old(self)@, username@)].last_vote,
                },
            ),
    {
        match self.index_of(username) {
            None => false,
            Some(i) => {
                let ghost prior = self@;
                proof {
                    assert(has_user(self@, username@));
                    let j = user_index(self@, username@);
                    assert(self@[j].username == username@);
                    assert(j == i as int);
                }
                let id = self.records[i].id;
                let name = self.records[i].username.clone();
                let votingip = self.records[i].votingip;
                let last_vote = self.records[i].last_vote;
                self.records[i] = UVotes { id, username: name, votingip, points, last_vote };
                proof {
                    let j = user_index(prior, username@);
                    assert(self@ =~= prior.update(
                        j,
                        RecordModel {
                            id: prior[j].id,
                            username: prior[j].username,
                            votingip: prior[j].votingip,
                            points,
                            last_vote: prior[j].last_vote,
                        },
                    ));
                }
                true
            },
        }
    }

    /// The stored point total for `username`, defaulting to zero when the
    /// username has never voted. Counts one lookup.
    pub fn user_points(&mut self, username: &String) -> (r: u64)
        requires
            old(self).wf(),
        ensures
            final(self)@ == old(self)@,
            final(self).lookups() == old(self).lookups() + 1,
            r == if has_user(old(self)@, username@) {
                old(self)@[user_index(old(self)@, username@)].points
            } else {
                0u64
            },
    {
        match self.find_by_username(username) {
            Some(rec) => rec.points,
            None => 0,
        }
    }

    /// How many records the store holds.
    pub fn len(&self) -> (r: usize)
        ensures
            r == self@.len(),
    {
        self.records.len()
    }
}

} // verus!
