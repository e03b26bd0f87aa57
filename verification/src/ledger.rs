//! The fleet ledger: the authoritative fleet of each provisioned user, with a
//! version counter that makes every write a compare-and-swap.

use crate::fleet::Fleet;
use vstd::prelude::*;
use vstd::string::*;

verus! {

/// A fleet as the ledger holds it, with the number of writes it has seen.
#[derive(Clone, Copy, Debug, PartialEq, Eq, Structural)]
pub struct Versioned {
    pub fleet: Fleet,
    pub version: u64,
}

/// How a conditional write ended.
#[derive(Clone, Copy, Debug, PartialEq, Eq, Structural)]
pub enum CommitResult {
    /// Every named fleet was written and its version went up by one.
    Committed,
    /// A named user has a version other than the expected one; nothing was written.
    Conflict,
    /// A named user has no fleet; nothing was written.
    NotFound,
    /// A version counter has no successor; nothing was written.
    Exhausted,
}

/// One row of the ledger.
pub struct FleetRow {
    pub user: String,
    pub entry: Versioned,
}

/// The ledger of one instance. Its view maps each provisioned user to the
/// fleet and version held for them.
pub struct Ledger {
    rows: Vec<FleetRow>,
}

/// What a write of `fleet` under `expected` to the row of `user` is answered with.
pub open spec fn fleet_commit_result(
    rows: Map<Seq<char>, Versioned>,
    user: Seq<char>,
    expected: u64,
) -> CommitResult {
    if !rows.contains_key(user) {
        CommitResult::NotFound
    } else if rows[user].version != expected {
        CommitResult::Conflict
    } else if expected == u64::MAX {
        CommitResult::Exhausted
    } else {
        CommitResult::Committed
    }
}

/// What a battle write to the rows of `user_a` and `user_b` is answered with:
/// a missing user counts before a stale version, and a stale version before
/// an exhausted counter.
pub open spec fn battle_commit_result(
    rows: Map<Seq<char>, Versioned>,
    user_a: Seq<char>,
    user_b: Seq<char>,
    expected_a: u64,
    expected_b: u64,
) -> CommitResult {
    if !rows.contains_key(user_a) || !rows.contains_key(user_b) {
        CommitResult::NotFound
    } else if rows[user_a].version != expected_a || rows[user_b].version != expected_b {
        CommitResult::Conflict
    } else if expected_a == u64::MAX || expected_b == u64::MAX {
        CommitResult::Exhausted
    } else {
        CommitResult::Committed
    }
}

/// The successor of a version that has one.
pub open spec fn next_version(version: u64) -> u64 {
    (version + 1) as u64
}

/// The rows after a write of one fleet: changed only where the write is
/// committed.
pub open spec fn rows_after_fleet_commit(
    rows: Map<Seq<char>, Versioned>,
    user: Seq<char>,
    fleet: Fleet,
    expected: u64,
) -> Map<Seq<char>, Versioned> {
    if fleet_commit_result(rows, user, expected) == CommitResult::Committed {
        rows.insert(user, Versioned { fleet, version: next_version(expected) })
    } else {
        rows
    }
}

/// The rows after a battle write: both rows change, or neither. Where both
/// names are one user, the fleet written for `user_b` is the one that stays.
pub open spec fn rows_after_battle_commit(
    rows: Map<Seq<char>, Versioned>,
    user_a: Seq<char>,
    fleet_a: Fleet,
    user_b: Seq<char>,
    fleet_b: Fleet,
    expected_a: u64,
    expected_b: u64,
) -> Map<Seq<char>, Versioned> {
    if battle_commit_result(rows, user_a, user_b, expected_a, expected_b)
        == CommitResult::Committed {
        rows.insert(user_a, Versioned { fleet: fleet_a, version: next_version(expected_a) }).insert(
            user_b,
            Versioned { fleet: fleet_b, version: next_version(expected_b) },
        )
    } else {
        rows
    }
}

impl Ledger {
    /// Whether `index` is the row of `user`.
    pub closed spec fn holds_at(&self, user: Seq<char>, index: int) -> bool {
        0 <= index < self.rows@.len() && self.rows@[index].user@ == user
    }

    /// The provisioned users with their fleets and versions.
    pub closed spec fn view(&self) -> Map<Seq<char>, Versioned> {
        Map::new(
            |user: Seq<char>| exists|index: int| self.holds_at(user, index),
            |user: Seq<char>| self.rows@[choose|index: int| self.holds_at(user, index)].entry,
        )
    }

    /// No user has two rows.
    pub closed spec fn wf(&self) -> bool {
        forall|i: int, j: int|
            0 <= i < self.rows@.len() && 0 <= j < self.rows@.len() && self.rows@[i].user@
                == self.rows@[j].user@ ==> i == j
    }

    /// The view holds, for a user with a row, the entry of that row.
    proof fn lemma_entry_at(&self, user: Seq<char>, index: int)
        requires
            self.wf(),
            self.holds_at(user, index),
        ensures
            self@.contains_key(user),
            self@[user] == self.rows@[index].entry,
    {
    }

    /// A ledger without any fleet.
    pub fn new() -> (ledger: Ledger)
        ensures
            ledger.wf(),
            ledger@ == Map::<Seq<char>, Versioned>::empty(),
    {
        Ledger { rows: Vec::new() }
    }

    /// The index of the row of `user`, if there is one.
    fn position(&self, user: &String) -> (found: Option<usize>)
        requires
            self.wf(),
        ensures
            match found {
                Some(index) => self.holds_at(user@, index as int) && self@.contains_key(user@)
                    && self@[user@] == self.rows@[index as int].entry,
                None => !self@.contains_key(user@),
            },
    {
        let mut index: usize = 0;
        while index < self.rows.len()
            invariant
                self.wf(),
                index <= self.rows@.len(),
                forall|k: int| 0 <= k < index ==> self.rows@[k].user@ != user@,
            decreases self.rows@.len() - index,
        {
            if self.rows[index].user == *user {
                proof {
                    self.lemma_entry_at(user@, index as int);
                }
                return Some(index);
            }
            index = index + 1;
        }
        proof {
            assert forall|k: int| !self.holds_at(user@, k) by {}
        }
        None
    }

    /// Replaces the entry of the row at `index`.
    fn write_at(&mut self, index: usize, user: String, entry: Versioned)
        requires
            old(self).wf(),
            old(self).holds_at(user@, index as int),
        ensures
            final(self).wf(),
            final(self)@ == old(self)@.insert(user@, entry),
            final(self).rows@.len() == old(self).rows@.len(),
            forall|name: Seq<char>, k: int| old(self).holds_at(name, k) <==>
                final(self).holds_at(name, k),
    {
        let ghost before = *self;
        self.rows.set(index, FleetRow { user, entry });
        proof {
            assert forall|name: Seq<char>, k: int| before.holds_at(name, k) <==>
                self.holds_at(name, k) by {}
            before.lemma_entry_at(user@, index as int);
            assert forall|name: Seq<char>| #[trigger] self@.contains_key(name) implies
                before@.contains_key(name)
                && self@[name] == before@.insert(user@, entry)[name] by {
                let now = choose|k: int| self.holds_at(name, k);
                self.lemma_entry_at(name, now);
                before.lemma_entry_at(name, now);
            }
            assert forall|name: Seq<char>| #[trigger] before@.contains_key(name) implies
                self@.contains_key(name) by {}
        }
    }

    /// Puts back a row that was held before, with the version it had. A
    /// user who already has a fleet keeps it, and the call says so by
    /// returning `false`.
    pub fn restore(&mut self, user: &str, entry: Versioned) -> (restored: bool)
        requires
            old(self).wf(),
        ensures
            final(self).wf(),
            restored == !old(self)@.contains_key(user@),
            restored ==> final(self)@ == old(self)@.insert(user@, entry),
            !restored ==> final(self)@ == old(self)@,
    {
        let name = String::from_str(user);
        if self.position(&name).is_some() {
            return false;
        }
        let ghost before = *self;
        self.rows.push(FleetRow { user: name, entry });
        proof {
            let last = before.rows@.len() as int;
            assert forall|who: Seq<char>, k: int| before.holds_at(who, k) implies
                self.holds_at(who, k) by {}
            assert(self.holds_at(user@, last));
            assert forall|who: Seq<char>, k: int| self.holds_at(who, k) implies
                (before.holds_at(who, k) || (who == user@ && k == last)) by {}
            assert forall|i: int, j: int|
                0 <= i < self.rows@.len() && 0 <= j < self.rows@.len() && self.rows@[i].user@
                    == self.rows@[j].user@ implies i == j by {
                if i < last {
                    assert(before.holds_at(self.rows@[i].user@, i));
                }
                if j < last {
                    assert(before.holds_at(self.rows@[j].user@, j));
                }
            }
            assert forall|who: Seq<char>| #[trigger] self@.contains_key(who) implies
                before@.insert(user@, entry).contains_key(who)
                && self@[who] == before@.insert(user@, entry)[who] by {
                let now = choose|k: int| self.holds_at(who, k);
                self.lemma_entry_at(who, now);
                if who != user@ {
                    before.lemma_entry_at(who, now);
                }
            }
            assert forall|who: Seq<char>| #[trigger] before@.contains_key(who) implies
                self@.contains_key(who) by {}
        }
        true
    }

    /// Provisions `user` with `fleet` at version zero. A user who already has
    /// a fleet keeps it, and the call says so by returning `false`.
    pub fn create(&mut self, user: &str, fleet: Fleet) -> (created: bool)
        requires
            old(self).wf(),
        ensures
            final(self).wf(),
            created == !old(self)@.contains_key(user@),
            created ==> final(self)@ == old(self)@.insert(user@, Versioned { fleet, version: 0 }),
            !created ==> final(self)@ == old(self)@,
    {
        self.restore(user, Versioned { fleet, version: 0 })
    }

    /// The fleet of `user` with its version, or `None` for an unprovisioned user.
    pub fn get(&self, user: &str) -> (found: Option<Versioned>)
        requires
            self.wf(),
        ensures
            found == (if self@.contains_key(user@) {
                Some(self@[user@])
            } else {
                None
            }),
    {
        let name = String::from_str(user);
        match self.position(&name) {
            Some(index) => Some(self.rows[index].entry),
            None => None,
        }
    }

    /// Writes `fleet` for `user` if the version held is still `expected_version`.
    pub fn commit_fleet(
        &mut self,
        user: &str,
        fleet: Fleet,
        expected_version: u64,
    ) -> (result: CommitResult)
        requires
            old(self).wf(),
        ensures
            final(self).wf(),
            result == fleet_commit_result(old(self)@, user@, expected_version),
            final(self)@ == rows_after_fleet_commit(old(self)@, user@, fleet, expected_version),
    {
        let name = String::from_str(user);
        match self.position(&name) {
            None => CommitResult::NotFound,
            Some(index) => {
                if self.rows[index].entry.version != expected_version {
                    CommitResult::Conflict
                } else if expected_version == u64::MAX {
                    CommitResult::Exhausted
                } else {
                    self.write_at(index, name, Versioned { fleet, version: expected_version + 1 });
                    CommitResult::Committed
                }
            },
        }
    }

    /// Settles a battle: writes both fleets if both versions held are still
    /// the expected ones, and nothing otherwise.
    pub fn commit_battle(
        &mut self,
        user_a: &str,
        fleet_a: Fleet,
        user_b: &str,
        fleet_b: Fleet,
        expected_version_a: u64,
        expected_version_b: u64,
    ) -> (result: CommitResult)
        requires
            old(self).wf(),
        ensures
            final(self).wf(),
            result == battle_commit_result(
                old(self)@,
                user_a@,
                user_b@,
                expected_version_a,
                expected_version_b,
            ),
            final(self)@ == rows_after_battle_commit(
                old(self)@,
                user_a@,
                fleet_a,
                user_b@,
                fleet_b,
                expected_version_a,
                expected_version_b,
            ),
    {
        let name_a = String::from_str(user_a);
        let name_b = String::from_str(user_b);
        let at_a = self.position(&name_a);
        let at_b = self.position(&name_b);
        match (at_a, at_b) {
            (Some(index_a), Some(index_b)) => {
                if self.rows[index_a].entry.version != expected_version_a
                    || self.rows[index_b].entry.version != expected_version_b {
                    CommitResult::Conflict
                } else if expected_version_a == u64::MAX || expected_version_b == u64::MAX {
                    CommitResult::Exhausted
                } else {
                    self.write_at(
                        index_a,
                        name_a,
                        Versioned { fleet: fleet_a, version: expected_version_a + 1 },
                    );
                    self.write_at(
                        index_b,
                        name_b,
                        Versioned { fleet: fleet_b, version: expected_version_b + 1 },
                    );
                    CommitResult::Committed
                }
            },
            _ => CommitResult::NotFound,
        }
    }
}

/// Compare-and-swap: once a battle write is committed, a second battle write
/// that names one of its users with the version the first one expected is
/// never committed. It is answered with `Conflict` where its users have
/// fleets, and it leaves the rows as the first write left them.
pub proof fn lemma_stale_commit_conflicts(
    rows: Map<Seq<char>, Versioned>,
    user_a: Seq<char>,
    fleet_a: Fleet,
    user_b: Seq<char>,
    fleet_b: Fleet,
    expected_a: u64,
    expected_b: u64,
    late_a: Seq<char>,
    late_fleet_a: Fleet,
    late_b: Seq<char>,
    late_fleet_b: Fleet,
    late_expected_a: u64,
    late_expected_b: u64,
)
    requires
        battle_commit_result(rows, user_a, user_b, expected_a, expected_b)
            == CommitResult::Committed,
        (late_a == user_a && late_expected_a == expected_a) || (late_a == user_b
            && late_expected_a == expected_b) || (late_b == user_a && late_expected_b
            == expected_a) || (late_b == user_b && late_expected_b == expected_b),
    ensures
        ({
            let settled = rows_after_battle_commit(
                rows,
                user_a,
                fleet_a,
                user_b,
                fleet_b,
                expected_a,
                expected_b,
            );
            let answer = battle_commit_result(
                settled,
                late_a,
                late_b,
                late_expected_a,
                late_expected_b,
            );
            &&& answer != CommitResult::Committed
            &&& settled.contains_key(late_a) && settled.contains_key(late_b) ==> answer
                == CommitResult::Conflict
            &&& rows_after_battle_commit(
                settled,
                late_a,
                late_fleet_a,
                late_b,
                late_fleet_b,
                late_expected_a,
                late_expected_b,
            ) == settled
        }),
{
}

} // verus!
