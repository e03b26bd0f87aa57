//! A player's fleet and how it takes damage.

use vstd::prelude::*;

verus! {

/// The forces of one player: three counts of units.
#[derive(Clone, Copy, Debug, PartialEq, Eq, Structural)]
pub struct Fleet {
    pub ships: u32,
    pub fighters: u32,
    pub bombers: u32,
}

/// The smaller of two naturals.
pub open spec fn least(x: nat, y: nat) -> nat {
    if x <= y {
        x
    } else {
        y
    }
}

/// What is left of `x` once `y` is taken from it, and nothing where `y` is more.
pub open spec fn less(x: nat, y: nat) -> nat {
    if x >= y {
        (x - y) as nat
    } else {
        0
    }
}

impl Fleet {
    /// The number of surviving units of all three categories.
    pub open spec fn total(self) -> nat {
        (self.ships + self.fighters + self.bombers) as nat
    }

    /// Whether no count of `self` exceeds the matching count of `other`.
    pub open spec fn within(self, other: Fleet) -> bool {
        &&& self.ships <= other.ships
        &&& self.fighters <= other.fighters
        &&& self.bombers <= other.bombers
    }

    /// The fleet after absorbing `damage`: capital ships absorb first, then
    /// fighters, then bombers, so each category is hit by what the
    /// categories before it could not absorb. What is left once the bombers
    /// are gone is lost.
    pub open spec fn after_damage(self, damage: nat) -> Fleet {
        Fleet {
            ships: less(self.ships as nat, damage) as u32,
            fighters: less(self.fighters as nat, less(damage, self.ships as nat)) as u32,
            bombers: less(
                self.bombers as nat,
                less(damage, (self.ships + self.fighters) as nat),
            ) as u32,
        }
    }

    /// A fleet of the given counts.
    pub fn new(ships: u32, fighters: u32, bombers: u32) -> (fleet: Fleet)
        ensures
            fleet.ships == ships,
            fleet.fighters == fighters,
            fleet.bombers == bombers,
    {
        Fleet { ships, fighters, bombers }
    }

    /// The number of surviving units.
    pub fn total_units(&self) -> (units: u64)
        ensures
            units == self.total(),
    {
        self.ships as u64 + self.fighters as u64 + self.bombers as u64
    }

    /// Whether the fleet has no unit left.
    pub fn is_depleted(&self) -> (depleted: bool)
        ensures
            depleted == (self.total() == 0),
    {
        self.ships == 0 && self.fighters == 0 && self.bombers == 0
    }

    /// Subtracts `damage` from the fleet in the fixed order of categories.
    pub fn apply_damage(&self, damage: u32) -> (hit: Fleet)
        ensures
            hit == self.after_damage(damage as nat),
    {
        let on_ships: u32 = if self.ships <= damage { self.ships } else { damage };
        let left: u32 = damage - on_ships;
        let on_fighters: u32 = if self.fighters <= left { self.fighters } else { left };
        let rest: u32 = left - on_fighters;
        let on_bombers: u32 = if self.bombers <= rest { self.bombers } else { rest };
        Fleet {
            ships: self.ships - on_ships,
            fighters: self.fighters - on_fighters,
            bombers: self.bombers - on_bombers,
        }
    }
}

impl Default for Fleet {
    /// The fleet without any unit.
    fn default() -> (fleet: Fleet)
        ensures
            fleet == (Fleet { ships: 0, fighters: 0, bombers: 0 }),
    {
        Fleet { ships: 0, fighters: 0, bombers: 0 }
    }
}

/// Damage never adds a unit, and it removes as many units as it counts, or
/// all of them where the fleet has fewer.
pub proof fn lemma_damage_total(fleet: Fleet, damage: nat)
    ensures
        fleet.after_damage(damage).within(fleet),
        fleet.after_damage(damage).total() == fleet.total() - least(fleet.total(), damage),
{
}

/// A category loses units only once every category before it is empty.
pub proof fn lemma_damage_order(fleet: Fleet, damage: nat)
    ensures
        fleet.after_damage(damage).fighters < fleet.fighters ==> fleet.after_damage(damage).ships
            == 0,
        fleet.after_damage(damage).bombers < fleet.bombers ==> fleet.after_damage(damage).ships
            == 0 && fleet.after_damage(damage).fighters == 0,
{
}

} // verus!
