//! Deterministic combat between two fleets, driven by a seeded generator.

use crate::fleet::Fleet;
use rand::Rng;
use rand::SeedableRng;
use rand_pcg::Pcg64;
use vstd::prelude::*;

verus! {

/// Declares `rand_pcg::Lcg128Xsl64`, the generator that `rand_pcg::Pcg64`
/// is another name of. Its fields are private to its crate, so a value of
/// it is carried through and never looked into.
#[verifier::external_type_specification]
#[verifier::external_body]
pub struct ExLcg128Xsl64(rand_pcg::Lcg128Xsl64);

/// What a generator holds: the two 128-bit words that `rand_pcg` keeps in
/// it, its state and its increment. Nothing else decides what it returns
/// from then on. The words are not computed here; the two contracts below
/// speak of them.
pub uninterp spec fn generator_state(rng: Pcg64) -> (u128, u128);

/// What a generator holds when `SeedableRng::seed_from_u64` has just made it
/// from `seed`.
pub uninterp spec fn seeded_state(seed: u64) -> (u128, u128);

/// What `Rng::gen_range` returns for the range `low..high` from a generator
/// that holds `state`, and what the generator holds afterwards.
pub uninterp spec fn range_draw(state: (u128, u128), low: i32, high: i32) -> (i32, (u128, u128));

/// Calls `Pcg64::seed_from_u64`, which expands the seed by a fixed
/// procedure into the words of a new generator. Believed, not proved: the
/// generator holds what `seeded_state` names, the same for the same seed on
/// every machine.
#[verifier::external_body]
fn seeded_generator(seed: u64) -> (rng: Pcg64)
    ensures
        generator_state(rng) == seeded_state(seed),
{
    Pcg64::seed_from_u64(seed)
}

/// Calls `Rng::gen_range` with the half-open range `low..high`, which
/// panics on an empty range. Believed, not proved: the value lies in the
/// range, as the crate documents; and the value and the words that the
/// generator holds afterwards depend on nothing but the words it held and
/// the two bounds, which is what `range_draw` names.
#[verifier::external_body]
fn draw_in_range(rng: &mut Pcg64, low: i32, high: i32) -> (value: i32)
    requires
        low < high,
    ensures
        low <= value < high,
        value == range_draw(generator_state(*old(rng)), low, high).0,
        generator_state(*final(rng)) == range_draw(generator_state(*old(rng)), low, high).1,
{
    rng.gen_range(low..high)
}

/// Who is ahead once the fighting has stopped.
#[derive(Clone, Copy, Debug, PartialEq, Eq, Structural)]
pub enum Winner {
    ActorWins,
    TargetWins,
    Draw,
}

/// The result of a battle: the winner and what is left of both fleets.
#[derive(Clone, Copy, Debug, PartialEq, Eq, Structural)]
pub struct BattleOutcome {
    pub winner: Winner,
    pub actor_fleet_after: Fleet,
    pub target_fleet_after: Fleet,
}

/// Smallest damage of a draw.
pub const DAMAGE_LOW: i32 = 1;

/// Bound that every damage stays below.
pub const DAMAGE_HIGH: i32 = 10;

/// Both fleets and the generator between two rounds.
pub struct Engagement {
    pub actor: Fleet,
    pub target: Fleet,
    pub generator: (u128, u128),
}

/// The side with strictly more surviving units wins; equal totals are a draw.
pub open spec fn winner_of(actor: Fleet, target: Fleet) -> Winner {
    if actor.total() > target.total() {
        Winner::ActorWins
    } else if target.total() > actor.total() {
        Winner::TargetWins
    } else {
        Winner::Draw
    }
}

/// Whether both fleets still have a unit, so that another round is fought.
pub open spec fn both_standing(actor: Fleet, target: Fleet) -> bool {
    actor.total() > 0 && target.total() > 0
}

/// One round: the damage to the target is drawn first, then the damage to
/// the actor, and both are applied.
pub open spec fn round_of(before: Engagement) -> Engagement {
    let to_target = range_draw(before.generator, DAMAGE_LOW, DAMAGE_HIGH);
    let to_actor = range_draw(to_target.1, DAMAGE_LOW, DAMAGE_HIGH);
    Engagement {
        actor: before.actor.after_damage(to_actor.0 as nat),
        target: before.target.after_damage(to_target.0 as nat),
        generator: to_actor.1,
    }
}

/// The engagement after `rounds` rounds, whether or not the battle would
/// have stopped earlier.
pub open spec fn engagement_after(actor: Fleet, target: Fleet, seed: u64, rounds: nat) -> Engagement
    decreases rounds,
{
    if rounds == 0 {
        Engagement { actor, target, generator: seeded_state(seed) }
    } else {
        round_of(engagement_after(actor, target, seed, (rounds - 1) as nat))
    }
}

/// Whether the engagement after `rounds` rounds still has both sides standing.
pub open spec fn standing_after(actor: Fleet, target: Fleet, seed: u64, rounds: nat) -> bool {
    both_standing(
        engagement_after(actor, target, seed, rounds).actor,
        engagement_after(actor, target, seed, rounds).target,
    )
}

/// Whether the battle lasts exactly `rounds` rounds: a side is depleted after
/// that many, and none was before.
pub open spec fn lasts(actor: Fleet, target: Fleet, seed: u64, rounds: nat) -> bool {
    &&& !standing_after(actor, target, seed, rounds)
    &&& forall|earlier: nat| earlier < rounds ==>
        #[trigger] standing_after(actor, target, seed, earlier)
}

/// The outcome of a battle that lasts `rounds` rounds.
pub open spec fn outcome_after(
    actor: Fleet,
    target: Fleet,
    seed: u64,
    rounds: nat,
) -> BattleOutcome {
    let end = engagement_after(actor, target, seed, rounds);
    BattleOutcome {
        winner: winner_of(end.actor, end.target),
        actor_fleet_after: end.actor,
        target_fleet_after: end.target,
    }
}

/// Whether `outcome` is the outcome of the battle between the two fleets
/// under `seed`.
pub open spec fn is_outcome(
    actor: Fleet,
    target: Fleet,
    seed: u64,
    outcome: BattleOutcome,
) -> bool {
    exists|rounds: nat| #[trigger]
        lasts(actor, target, seed, rounds) && outcome == outcome_after(actor, target, seed, rounds)
}

/// Names the winner from what is left of the two fleets.
pub fn decide_winner(actor: &Fleet, target: &Fleet) -> (winner: Winner)
    ensures
        winner == winner_of(*actor, *target),
{
    let left_actor: u64 = actor.total_units();
    let left_target: u64 = target.total_units();
    if left_actor > left_target {
        Winner::ActorWins
    } else if left_target > left_actor {
        Winner::TargetWins
    } else {
        Winner::Draw
    }
}

/// Applies the two draws of one round to the two fleets.
pub fn exchange_fire(
    actor: &Fleet,
    target: &Fleet,
    damage_to_target: u32,
    damage_to_actor: u32,
) -> (after: (Fleet, Fleet))
    ensures
        after.0 == actor.after_damage(damage_to_actor as nat),
        after.1 == target.after_damage(damage_to_target as nat),
{
    let target_after = target.apply_damage(damage_to_target);
    let actor_after = actor.apply_damage(damage_to_actor);
    (actor_after, target_after)
}

/// Fights the battle out: rounds are fought while both fleets have a unit,
/// each round with two fresh draws from the generator seeded with `seed`.
pub fn simulate_battle(player_a: Fleet, player_b: Fleet, seed: u64) -> (outcome: BattleOutcome)
    ensures
        is_outcome(player_a, player_b, seed, outcome),
        outcome.actor_fleet_after.within(player_a),
        outcome.target_fleet_after.within(player_b),
        outcome.winner == winner_of(outcome.actor_fleet_after, outcome.target_fleet_after),
        !both_standing(outcome.actor_fleet_after, outcome.target_fleet_after),
{
    let mut rng = seeded_generator(seed);
    let mut actor = player_a;
    let mut target = player_b;
    let ghost mut rounds: nat = 0;
    while !actor.is_depleted() && !target.is_depleted()
        invariant
            actor == engagement_after(player_a, player_b, seed, rounds).actor,
            target == engagement_after(player_a, player_b, seed, rounds).target,
            generator_state(rng) == engagement_after(player_a, player_b, seed, rounds).generator,
            forall|earlier: nat| earlier < rounds ==>
                #[trigger] standing_after(player_a, player_b, seed, earlier),
            actor.within(player_a),
            target.within(player_b),
        decreases actor.total() + target.total(),
    {
        let damage_to_target: i32 = draw_in_range(&mut rng, DAMAGE_LOW, DAMAGE_HIGH);
        let damage_to_actor: i32 = draw_in_range(&mut rng, DAMAGE_LOW, DAMAGE_HIGH);
        let after = exchange_fire(&actor, &target, damage_to_target as u32, damage_to_actor as u32);
        proof {
            crate::fleet::lemma_damage_total(actor, damage_to_actor as nat);
            crate::fleet::lemma_damage_total(target, damage_to_target as nat);
            rounds = rounds + 1;
        }
        actor = after.0;
        target = after.1;
    }
    let outcome = BattleOutcome {
        winner: decide_winner(&actor, &target),
        actor_fleet_after: actor,
        target_fleet_after: target,
    };
    proof {
        assert(lasts(player_a, player_b, seed, rounds));
    }
    outcome
}

/// Determinism: a battle has one outcome. Whatever two runs on the same
/// fleets and seed return, they return the same.
pub proof fn lemma_outcome_unique(
    actor: Fleet,
    target: Fleet,
    seed: u64,
    first: BattleOutcome,
    second: BattleOutcome,
)
    requires
        is_outcome(actor, target, seed, first),
        is_outcome(actor, target, seed, second),
    ensures
        first == second,
{
    let m = choose|rounds: nat| #[trigger]
        lasts(actor, target, seed, rounds) && first == outcome_after(actor, target, seed, rounds);
    let n = choose|rounds: nat| #[trigger]
        lasts(actor, target, seed, rounds) && second == outcome_after(actor, target, seed, rounds);
    if m < n {
    } else if n < m {
    }
}

/// No round adds a unit: after any number of rounds each count is at most
/// what it was at the start.
pub proof fn lemma_rounds_only_remove(actor: Fleet, target: Fleet, seed: u64, rounds: nat)
    ensures
        engagement_after(actor, target, seed, rounds).actor.within(actor),
        engagement_after(actor, target, seed, rounds).target.within(target),
    decreases rounds,
{
    if rounds > 0 {
        let before = engagement_after(actor, target, seed, (rounds - 1) as nat);
        lemma_rounds_only_remove(actor, target, seed, (rounds - 1) as nat);
        let to_target = range_draw(before.generator, DAMAGE_LOW, DAMAGE_HIGH);
        let to_actor = range_draw(to_target.1, DAMAGE_LOW, DAMAGE_HIGH);
        crate::fleet::lemma_damage_total(before.actor, to_actor.0 as nat);
        crate::fleet::lemma_damage_total(before.target, to_target.0 as nat);
    }
}

/// Every count of an outcome lies between zero and the count the fleet went
/// in with, so the units left never exceed the units that entered.
pub proof fn lemma_outcome_bounded(actor: Fleet, target: Fleet, seed: u64, outcome: BattleOutcome)
    requires
        is_outcome(actor, target, seed, outcome),
    ensures
        0 <= outcome.actor_fleet_after.ships <= actor.ships,
        0 <= outcome.actor_fleet_after.fighters <= actor.fighters,
        0 <= outcome.actor_fleet_after.bombers <= actor.bombers,
        0 <= outcome.target_fleet_after.ships <= target.ships,
        0 <= outcome.target_fleet_after.fighters <= target.fighters,
        0 <= outcome.target_fleet_after.bombers <= target.bombers,
        outcome.actor_fleet_after.total() + outcome.target_fleet_after.total() <= actor.total()
            + target.total(),
{
    let n = choose|rounds: nat| #[trigger]
        lasts(actor, target, seed, rounds) && outcome == outcome_after(actor, target, seed, rounds);
    lemma_rounds_only_remove(actor, target, seed, n);
}

} // verus!
