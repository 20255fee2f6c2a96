//! The scenario engine: a fixed-tick duel between two builds. The designated
//! first actor opens on tick zero, the other side answers after the reaction
//! delay, and from then on each side attacks on its own attack-speed period;
//! damage-over-time effects fire and effect timers decay every tick. The loop
//! stops the instant either side's health reaches zero, or at the defensive
//! tick cap.

use vstd::prelude::*;
use crate::builds::Build;
use crate::champion::Champion;
use crate::champion::stats::ChampStats;
use crate::effects::{DoTEffect, LimitedUseOnHitEffect, StackingOnHitEffect};
use crate::constants::{TICKS_PER_SECOND, MAX_TICKS};
use crate::damage::Damage;
use crate::errors::SimError;
use crate::fixed::{
    round_div, lemma_round_div_mag, lemma_round_div_nonneg_bounds, mul_div_round, DMG_LIMIT,
    EFFECT_CAP, SCALE,
};

verus! {

/// Longest accepted reaction delay, in microseconds: the largest value whose
/// tick conversion stays within the fixed-point arithmetic.
pub const DELAY_LIMIT: i64 = 100_000_000_000_000_000;

/// Fastest accepted attack speed, in subunit attacks per second: above it the
/// attack period would round to zero ticks.
pub const AS_LIMIT: i64 = 60_000_000;

pub struct Scenario {
    /// Which side opens the fight: zero for the first build, any other value
    /// for the second.
    pub first_actor: u8,
    /// Reaction delay of the non-initiating side, in microseconds.
    pub first_hit_reaction_delay: i64,
    pub champ1_build: Build,
    pub champ2_build: Build,
}

#[derive(Clone, Copy, Debug)]
pub struct ScenarioResult {
    /// Zero when the first build's combatant won, one when the second's did.
    pub winner: u8,
    pub final_health1: i64,
    pub final_health2: i64,
    pub elapsed_ticks: i64,
}

/// The attack period of an attack speed, in ticks.
pub open spec fn spec_attack_period(attack_speed: int) -> int {
    round_div(TICKS_PER_SECOND * SCALE, attack_speed)
}

/// The reaction delay converted from microseconds to whole ticks.
pub open spec fn spec_delay_ticks(delay: int) -> int {
    round_div(TICKS_PER_SECOND * delay, SCALE as int)
}

fn delay_ticks(delay: i64) -> (r: i64)
    requires
        0 <= delay <= DELAY_LIMIT,
    ensures
        r == spec_delay_ticks(delay as int),
        0 <= r <= 3_000_000_000_000,
{
    proof {
        lemma_round_div_mag(30 * delay as int, SCALE as int, 3_000_000_000_000);
        lemma_round_div_nonneg_bounds(30 * delay as int, SCALE as int);
    }
    mul_div_round(TICKS_PER_SECOND, delay, SCALE)
}

fn attack_period_ticks(attack_speed: i64) -> (r: i64)
    requires
        1 <= attack_speed <= AS_LIMIT,
    ensures
        r == spec_attack_period(attack_speed as int),
        1 <= r <= TICKS_PER_SECOND * SCALE,
{
    proof {
        assert((TICKS_PER_SECOND * SCALE) as int
            <= (TICKS_PER_SECOND * SCALE) as int * attack_speed as int) by (nonlinear_arith)
            requires
                attack_speed >= 1,
                TICKS_PER_SECOND == 30,
                SCALE == 1_000_000,
        ;
        lemma_round_div_mag(
            (TICKS_PER_SECOND * SCALE) as int,
            attack_speed as int,
            (TICKS_PER_SECOND * SCALE) as int,
        );
        assert(1 <= round_div((TICKS_PER_SECOND * SCALE) as int, attack_speed as int))
            by (nonlinear_arith)
            requires
                1 <= attack_speed <= AS_LIMIT,
                AS_LIMIT == 60_000_000,
                TICKS_PER_SECOND == 30,
                SCALE == 1_000_000,
        ;
    }
    mul_div_round(TICKS_PER_SECOND, SCALE, attack_speed)
}

/// A side of the duel as the specification models it: the stat record and the
/// five effect registries of a combatant. The simulation's deterministic
/// trajectory is written over these models.
pub struct CombatantModel {
    pub stats: ChampStats,
    pub friendly_limited: Seq<LimitedUseOnHitEffect>,
    pub friendly_duration: Seq<DoTEffect>,
    pub friendly_stacking: Seq<StackingOnHitEffect>,
    pub enemy_dots: Seq<DoTEffect>,
    pub enemy_stacking: Seq<StackingOnHitEffect>,
}

pub open spec fn model_of(c: Champion) -> CombatantModel {
    CombatantModel {
        stats: c.champ_stats,
        friendly_limited: c.friendly_limited_use_on_hit_effects@,
        friendly_duration: c.friendly_duration_on_hit_effects@,
        friendly_stacking: c.friendly_stacking_on_hit_effects@,
        enemy_dots: c.enemy_dot_on_hit_effects@,
        enemy_stacking: c.enemy_stacking_on_hit_effects@,
    }
}

/// One crit-free basic attack in the model: the defender takes the roll-free
/// damage through the shield order and receives the attacker's stacking and
/// damage-over-time effects; the attacker spends its limited-use effects.
/// Returns the defender's and the attacker's models after the attack.
pub open spec fn spec_model_attack(def: CombatantModel, atk: CombatantModel) -> (
    CombatantModel,
    CombatantModel,
) {
    let dealt = crate::champion::spec_attack_damage(
        def.stats,
        atk.stats,
        atk.friendly_limited,
        SCALE as int,
    );
    (
        CombatantModel {
            stats: crate::champion::spec_take_damage(def.stats, dealt),
            enemy_dots: crate::champion::spec_propagate_dots(def.enemy_dots, atk.friendly_duration),
            enemy_stacking: crate::champion::spec_propagate_stks(
                def.enemy_stacking,
                atk.friendly_stacking,
            ),
            ..def
        },
        CombatantModel {
            friendly_limited: atk.friendly_limited.map_values(
                |e: LimitedUseOnHitEffect| crate::champion::spec_dec_uses(e),
            ),
            ..atk
        },
    )
}

/// The attacks one tick schedules, in the crit-free model: the first actor's
/// opening attack on tick zero, the other side's answer on the reaction-delay
/// tick, and from then on each side's attack on its own attack-speed period —
/// and none once either side is down.
pub open spec fn spec_duel_attacks(
    c1: CombatantModel,
    c2: CombatantModel,
    tick: int,
    delay: int,
    p1: int,
    p2: int,
    c1_first: bool,
) -> (CombatantModel, CombatantModel) {
    if c1.stats.health > 0 && c2.stats.health > 0 {
        if tick == 0 {
            if c1_first {
                let r = spec_model_attack(c2, c1);
                (r.1, r.0)
            } else {
                let r = spec_model_attack(c1, c2);
                (r.0, r.1)
            }
        } else if tick == delay {
            if c1_first {
                let r = spec_model_attack(c1, c2);
                (r.0, r.1)
            } else {
                let r = spec_model_attack(c2, c1);
                (r.1, r.0)
            }
        } else if tick > delay {
            let m = if tick % p1 == 0 {
                let r = spec_model_attack(c2, c1);
                (r.1, r.0)
            } else {
                (c1, c2)
            };
            if m.0.stats.health > 0 && m.1.stats.health > 0 && tick % p2 == 0 {
                let r = spec_model_attack(m.0, m.1);
                (r.0, r.1)
            } else {
                m
            }
        } else {
            (c1, c2)
        }
    } else {
        (c1, c2)
    }
}

/// One full simulation tick in the crit-free model: the scheduled attacks, the
/// due damage-over-time effects of each side still standing, and one tick of
/// timer decay on every registry.
pub open spec fn spec_duel_tick(
    c1: CombatantModel,
    c2: CombatantModel,
    tick: int,
    delay: int,
    p1: int,
    p2: int,
    c1_first: bool,
) -> (CombatantModel, CombatantModel) {
    let a = spec_duel_attacks(c1, c2, tick, delay, p1, p2, c1_first);
    let c1b = if a.0.stats.health > 0 && a.1.stats.health > 0 {
        CombatantModel {
            stats: crate::champion::spec_apply_dots(a.0.stats, a.0.enemy_dots, tick).0,
            ..a.0
        }
    } else {
        a.0
    };
    let c2b = if c1b.stats.health > 0 && a.1.stats.health > 0 {
        CombatantModel {
            stats: crate::champion::spec_apply_dots(a.1.stats, a.1.enemy_dots, tick).0,
            ..a.1
        }
    } else {
        a.1
    };
    (
        CombatantModel {
            friendly_duration: crate::champion::spec_decay_dots(c1b.friendly_duration),
            friendly_stacking: crate::champion::spec_decay_stks(c1b.friendly_stacking),
            enemy_dots: crate::champion::spec_decay_dots(c1b.enemy_dots),
            enemy_stacking: crate::champion::spec_decay_stks(c1b.enemy_stacking),
            ..c1b
        },
        CombatantModel {
            friendly_duration: crate::champion::spec_decay_dots(c2b.friendly_duration),
            friendly_stacking: crate::champion::spec_decay_stks(c2b.friendly_stacking),
            enemy_dots: crate::champion::spec_decay_dots(c2b.enemy_dots),
            enemy_stacking: crate::champion::spec_decay_stks(c2b.enemy_stacking),
            ..c2b
        },
    )
}

/// The crit-free duel run out for at most `fuel` further ticks: both sides'
/// models at exit, and the exit tick.
pub open spec fn spec_duel_run(
    c1: CombatantModel,
    c2: CombatantModel,
    tick: int,
    fuel: nat,
    delay: int,
    p1: int,
    p2: int,
    c1_first: bool,
) -> (CombatantModel, CombatantModel, int)
    decreases fuel,
{
    if c1.stats.health > 0 && c2.stats.health > 0 && fuel > 0 {
        let n = spec_duel_tick(c1, c2, tick, delay, p1, p2, c1_first);
        spec_duel_run(n.0, n.1, tick + 1, (fuel - 1) as nat, delay, p1, p2, c1_first)
    } else {
        (c1, c2, tick)
    }
}

/// The whole crit-free duel of a scenario, from its builds' combatants, run
/// out to at most the defensive tick cap.
pub open spec fn spec_duel(s: Scenario) -> (CombatantModel, CombatantModel, int) {
    spec_duel_run(
        model_of(s.champ1_build.champion),
        model_of(s.champ2_build.champion),
        0,
        MAX_TICKS as nat,
        spec_delay_ticks(s.first_hit_reaction_delay as int),
        spec_attack_period(s.champ1_build.champion.champ_stats.as_ as int),
        spec_attack_period(s.champ2_build.champion.champ_stats.as_ as int),
        s.first_actor == 0,
    )
}

/// Two basic attacks resolved within one tick: the first side attacks, and —
/// when the victim still stands — the victim answers, each for its own crit
/// roll. Either attack spends the attacker's limited-use effects.
pub open spec fn spec_double_attack_outcome(
    c1_old: Champion,
    c2_old: Champion,
    c1_new: Champion,
    c2_new: Champion,
    roll1: int,
    roll2: int,
) -> bool {
    let dealt1 = crate::champion::spec_attack_damage(
        c2_old.champ_stats,
        c1_old.champ_stats,
        c1_old.friendly_limited_use_on_hit_effects@,
        roll1,
    );
    let mid2 = crate::champion::spec_take_damage(c2_old.champ_stats, dealt1);
    &&& c2_new.champ_stats == mid2
    &&& c2_new.enemy_dot_on_hit_effects@ == crate::champion::spec_propagate_dots(
        c2_old.enemy_dot_on_hit_effects@,
        c1_old.friendly_duration_on_hit_effects@,
    )
    &&& c2_new.enemy_stacking_on_hit_effects@ == crate::champion::spec_propagate_stks(
        c2_old.enemy_stacking_on_hit_effects@,
        c1_old.friendly_stacking_on_hit_effects@,
    )
    &&& c1_new.friendly_limited_use_on_hit_effects@
        == c1_old.friendly_limited_use_on_hit_effects@.map_values(
        |e: LimitedUseOnHitEffect| crate::champion::spec_dec_uses(e),
    )
    &&& c1_new.friendly_duration_on_hit_effects@ == c1_old.friendly_duration_on_hit_effects@
    &&& c1_new.friendly_stacking_on_hit_effects@ == c1_old.friendly_stacking_on_hit_effects@
    &&& c2_new.friendly_duration_on_hit_effects@ == c2_old.friendly_duration_on_hit_effects@
    &&& c2_new.friendly_stacking_on_hit_effects@ == c2_old.friendly_stacking_on_hit_effects@
    &&& if mid2.health > 0 {
        let dealt2 = crate::champion::spec_attack_damage(
            c1_old.champ_stats,
            mid2,
            c2_old.friendly_limited_use_on_hit_effects@,
            roll2,
        );
        &&& c1_new.champ_stats == crate::champion::spec_take_damage(c1_old.champ_stats, dealt2)
        &&& c2_new.friendly_limited_use_on_hit_effects@
            == c2_old.friendly_limited_use_on_hit_effects@.map_values(
            |e: LimitedUseOnHitEffect| crate::champion::spec_dec_uses(e),
        )
        &&& c1_new.enemy_dot_on_hit_effects@ == crate::champion::spec_propagate_dots(
            c1_old.enemy_dot_on_hit_effects@,
            c2_old.friendly_duration_on_hit_effects@,
        )
        &&& c1_new.enemy_stacking_on_hit_effects@ == crate::champion::spec_propagate_stks(
            c1_old.enemy_stacking_on_hit_effects@,
            c2_old.friendly_stacking_on_hit_effects@,
        )
    } else {
        &&& c1_new.champ_stats == c1_old.champ_stats
        &&& c2_new.friendly_limited_use_on_hit_effects@
            == c2_old.friendly_limited_use_on_hit_effects@
        &&& c1_new.enemy_dot_on_hit_effects@ == c1_old.enemy_dot_on_hit_effects@
        &&& c1_new.enemy_stacking_on_hit_effects@ == c1_old.enemy_stacking_on_hit_effects@
    }
}

impl Scenario {
    pub open spec fn wf(&self) -> bool {
        &&& 0 <= self.first_hit_reaction_delay <= DELAY_LIMIT
        &&& self.champ1_build.wf()
        &&& self.champ2_build.wf()
        &&& 1 <= self.champ1_build.champion.champ_stats.as_ <= AS_LIMIT
        &&& 1 <= self.champ2_build.champion.champ_stats.as_ <= AS_LIMIT
        &&& self.champ1_build.champion.level >= 1
        &&& self.champ2_build.champion.level >= 1
    }

    /// Builds a scenario, rejecting configurations the simulation cannot run
    /// on: a negative reaction delay (or one beyond the arithmetic limit), a
    /// non-positive or period-breaking attack speed, or a level below one.
    pub fn new(
        first_actor: u8,
        first_hit_reaction_delay: i64,
        champ1_build: Build,
        champ2_build: Build,
    ) -> (r: Result<Scenario, SimError>)
        requires
            champ1_build.wf(),
            champ2_build.wf(),
        ensures
            ({
                let ok = 0 <= first_hit_reaction_delay <= DELAY_LIMIT && 1
                    <= champ1_build.champion.champ_stats.as_ <= AS_LIMIT && 1
                    <= champ2_build.champion.champ_stats.as_ <= AS_LIMIT
                    && champ1_build.champion.level >= 1 && champ2_build.champion.level >= 1;
                &&& ok <==> r is Ok
                &&& r matches Ok(sc) ==> (sc == (Scenario {
                    first_actor,
                    first_hit_reaction_delay,
                    champ1_build,
                    champ2_build,
                }) && sc.wf())
                &&& !ok ==> r == Err::<Scenario, SimError>(SimError::InvalidConfiguration)
            }),
    {
        if first_hit_reaction_delay < 0 || first_hit_reaction_delay > DELAY_LIMIT {
            return Err(SimError::InvalidConfiguration);
        }
        if champ1_build.champion.champ_stats.as_ < 1 || champ1_build.champion.champ_stats.as_
            > AS_LIMIT {
            return Err(SimError::InvalidConfiguration);
        }
        if champ2_build.champion.champ_stats.as_ < 1 || champ2_build.champion.champ_stats.as_
            > AS_LIMIT {
            return Err(SimError::InvalidConfiguration);
        }
        if champ1_build.champion.level < 1 || champ2_build.champion.level < 1 {
            return Err(SimError::InvalidConfiguration);
        }
        Ok(Scenario { first_actor, first_hit_reaction_delay, champ1_build, champ2_build })
    }

    pub fn champ1_acts_first(&self) -> (r: bool)
        ensures
            r == (self.first_actor == 0),
    {
        self.first_actor == 0
    }

    /// Copies every damage-over-time effect the giver grants onto the
    /// receiver's afflicted registry, in registry order: a known id has its
    /// damage timer refreshed, a new id is registered while there is room.
    pub fn apply_duration_on_hit_effects(&self, receiver: &mut Champion, giver: &Champion)
        requires
            old(receiver).wf(),
            giver.wf(),
        ensures
            final(receiver).enemy_dot_on_hit_effects@ == crate::champion::spec_propagate_dots(
                old(receiver).enemy_dot_on_hit_effects@,
                giver.friendly_duration_on_hit_effects@,
            ),
            final(receiver).name == old(receiver).name,
            final(receiver).level == old(receiver).level,
            final(receiver).champ_stats == old(receiver).champ_stats,
            final(receiver).friendly_limited_use_on_hit_effects == old(receiver).friendly_limited_use_on_hit_effects,
            final(receiver).friendly_duration_on_hit_effects == old(receiver).friendly_duration_on_hit_effects,
            final(receiver).friendly_stacking_on_hit_effects == old(receiver).friendly_stacking_on_hit_effects,
            final(receiver).enemy_stacking_on_hit_effects == old(receiver).enemy_stacking_on_hit_effects,
            final(receiver).wf(),
    {
        let n: usize = giver.friendly_duration_on_hit_effects.len();
        for i in 0..n
            invariant
                giver.wf(),
                n == giver.friendly_duration_on_hit_effects@.len(),
                receiver.wf(),
                receiver.name == old(receiver).name,
                receiver.level == old(receiver).level,
                receiver.champ_stats == old(receiver).champ_stats,
                receiver.friendly_limited_use_on_hit_effects == old(receiver).friendly_limited_use_on_hit_effects,
                receiver.friendly_duration_on_hit_effects == old(receiver).friendly_duration_on_hit_effects,
                receiver.friendly_stacking_on_hit_effects == old(receiver).friendly_stacking_on_hit_effects,
                receiver.enemy_stacking_on_hit_effects == old(receiver).enemy_stacking_on_hit_effects,
                receiver.enemy_dot_on_hit_effects@ == crate::champion::spec_propagate_dots(
                    old(receiver).enemy_dot_on_hit_effects@,
                    giver.friendly_duration_on_hit_effects@.take(i as int),
                ),
        {
            proof {
                let g = giver.friendly_duration_on_hit_effects@;
                assert(g[i as int].wf());
                assert(g.take(i + 1).drop_last() =~= g.take(i as int));
                assert(g.take(i + 1).last() == g[i as int]);
            }
            let eff = giver.friendly_duration_on_hit_effects[i].duplicate();
            receiver.apply_enemy_dot_on_hit_effect(eff);
        }
        proof {
            assert(giver.friendly_duration_on_hit_effects@.take(n as int)
                =~= giver.friendly_duration_on_hit_effects@);
        }
    }

    /// Copies every stacking effect the giver grants onto the receiver's
    /// afflicted registry, in registry order: a known id gains one stack up to
    /// its cap, a new id starts at one stack while there is room.
    pub fn apply_stacking_on_hit_effects(&self, receiver: &mut Champion, giver: &Champion)
        requires
            old(receiver).wf(),
            giver.wf(),
        ensures
            final(receiver).enemy_stacking_on_hit_effects@ == crate::champion::spec_propagate_stks(
                old(receiver).enemy_stacking_on_hit_effects@,
                giver.friendly_stacking_on_hit_effects@,
            ),
            final(receiver).name == old(receiver).name,
            final(receiver).level == old(receiver).level,
            final(receiver).champ_stats == old(receiver).champ_stats,
            final(receiver).friendly_limited_use_on_hit_effects == old(receiver).friendly_limited_use_on_hit_effects,
            final(receiver).friendly_duration_on_hit_effects == old(receiver).friendly_duration_on_hit_effects,
            final(receiver).friendly_stacking_on_hit_effects == old(receiver).friendly_stacking_on_hit_effects,
            final(receiver).enemy_dot_on_hit_effects == old(receiver).enemy_dot_on_hit_effects,
            final(receiver).wf(),
    {
        let n: usize = giver.friendly_stacking_on_hit_effects.len();
        for i in 0..n
            invariant
                giver.wf(),
                n == giver.friendly_stacking_on_hit_effects@.len(),
                receiver.wf(),
                receiver.name == old(receiver).name,
                receiver.level == old(receiver).level,
                receiver.champ_stats == old(receiver).champ_stats,
                receiver.friendly_limited_use_on_hit_effects == old(receiver).friendly_limited_use_on_hit_effects,
                receiver.friendly_duration_on_hit_effects == old(receiver).friendly_duration_on_hit_effects,
                receiver.friendly_stacking_on_hit_effects == old(receiver).friendly_stacking_on_hit_effects,
                receiver.enemy_dot_on_hit_effects == old(receiver).enemy_dot_on_hit_effects,
                receiver.enemy_stacking_on_hit_effects@ == crate::champion::spec_propagate_stks(
                    old(receiver).enemy_stacking_on_hit_effects@,
                    giver.friendly_stacking_on_hit_effects@.take(i as int),
                ),
        {
            proof {
                let g = giver.friendly_stacking_on_hit_effects@;
                assert(g[i as int].wf());
                assert(g.take(i + 1).drop_last() =~= g.take(i as int));
                assert(g.take(i + 1).last() == g[i as int]);
            }
            let eff = giver.friendly_stacking_on_hit_effects[i].duplicate();
            receiver.apply_enemy_stacking_on_hit_effect(eff);
        }
        proof {
            assert(giver.friendly_stacking_on_hit_effects@.take(n as int)
                =~= giver.friendly_stacking_on_hit_effects@);
        }
    }

    /// Fires both sides' due damage-over-time effects for this tick, each side
    /// only while both are still standing.
    pub fn calculate_dot_damage(
        &self,
        tick: i32,
        champ1: &mut Champion,
        champ2: &mut Champion,
    ) -> (r: Damage)
        requires
            old(champ1).wf(),
            old(champ2).wf(),
            tick >= 0,
        ensures
            final(champ1).wf(),
            final(champ2).wf(),
            final(champ1).champ_stats.health <= old(champ1).champ_stats.health,
            final(champ2).champ_stats.health <= old(champ2).champ_stats.health,
            ({
                let run1 = old(champ1).champ_stats.health > 0 && old(champ2).champ_stats.health
                    > 0;
                let run2 = run1 && final(champ1).champ_stats.health > 0;
                &&& !run1 ==> (*final(champ1) == *old(champ1) && *final(champ2) == *old(champ2))
                &&& run1 ==> final(champ1).champ_stats == crate::champion::spec_apply_dots(
                    old(champ1).champ_stats,
                    old(champ1).enemy_dot_on_hit_effects@,
                    tick as int,
                ).0
                &&& run2 ==> final(champ2).champ_stats == crate::champion::spec_apply_dots(
                    old(champ2).champ_stats,
                    old(champ2).enemy_dot_on_hit_effects@,
                    tick as int,
                ).0
                &&& (run1 && !run2) ==> *final(champ2) == *old(champ2)
                &&& ({
                    let t1 = if run1 {
                        crate::champion::spec_apply_dots(
                            old(champ1).champ_stats,
                            old(champ1).enemy_dot_on_hit_effects@,
                            tick as int,
                        ).1
                    } else {
                        (0int, 0int, 0int)
                    };
                    let t2 = if run2 {
                        crate::champion::spec_apply_dots(
                            old(champ2).champ_stats,
                            old(champ2).enemy_dot_on_hit_effects@,
                            tick as int,
                        ).1
                    } else {
                        (0int, 0int, 0int)
                    };
                    &&& r.physical_component == if t1.0 + t2.0 <= DMG_LIMIT {
                        t1.0 + t2.0
                    } else {
                        DMG_LIMIT as int
                    }
                    &&& r.magical_component == if t1.1 + t2.1 <= DMG_LIMIT {
                        t1.1 + t2.1
                    } else {
                        DMG_LIMIT as int
                    }
                    &&& r.true_component == if t1.2 + t2.2 <= DMG_LIMIT {
                        t1.2 + t2.2
                    } else {
                        DMG_LIMIT as int
                    }
                })
            }),
            final(champ1).name == old(champ1).name,
            final(champ1).level == old(champ1).level,
            final(champ1).friendly_limited_use_on_hit_effects == old(champ1).friendly_limited_use_on_hit_effects,
            final(champ1).friendly_duration_on_hit_effects == old(champ1).friendly_duration_on_hit_effects,
            final(champ1).friendly_stacking_on_hit_effects == old(champ1).friendly_stacking_on_hit_effects,
            final(champ1).enemy_dot_on_hit_effects == old(champ1).enemy_dot_on_hit_effects,
            final(champ1).enemy_stacking_on_hit_effects == old(champ1).enemy_stacking_on_hit_effects,
            final(champ2).name == old(champ2).name,
            final(champ2).level == old(champ2).level,
            final(champ2).friendly_limited_use_on_hit_effects == old(champ2).friendly_limited_use_on_hit_effects,
            final(champ2).friendly_duration_on_hit_effects == old(champ2).friendly_duration_on_hit_effects,
            final(champ2).friendly_stacking_on_hit_effects == old(champ2).friendly_stacking_on_hit_effects,
            final(champ2).enemy_dot_on_hit_effects == old(champ2).enemy_dot_on_hit_effects,
            final(champ2).enemy_stacking_on_hit_effects == old(champ2).enemy_stacking_on_hit_effects,
            (old(champ1).champ_stats.health > 0 || old(champ2).champ_stats.health > 0) ==> (final(champ1).champ_stats.health > 0 || final(champ2).champ_stats.health > 0),
            r.wf(),
    {
        let mut total = Damage::new(0, 0, 0);
        if champ1.champ_stats.health > 0 && champ2.champ_stats.health > 0 {
            let d1 = champ1.calculate_and_apply_dot_effects(tick);
            total = d1;
        }
        if champ1.champ_stats.health > 0 && champ2.champ_stats.health > 0 {
            let d2 = champ2.calculate_and_apply_dot_effects(tick);
            total = total.saturating_add(d2);
        }
        total
    }

    /// Resolves the attacks this tick calls for: the opening attack on tick
    /// zero, the other side's answer on the reaction-delay tick, and from then
    /// on each side's attack on its own attack-speed period. A landed attack
    /// also propagates the attacker's stacking and damage-over-time effects
    /// onto the victim. No attack lands once either side is down.
    pub fn calculate_aa_damage_and_side_effects(
        &self,
        tick: i32,
        first_hit_reaction_delay_in_ticks: i64,
        champ1: &mut Champion,
        champ1_as_in_ticks: i64,
        champ2: &mut Champion,
        champ2_as_in_ticks: i64,
    ) -> (r: Damage)
        requires
            old(champ1).wf(),
            old(champ2).wf(),
            tick >= 0,
            first_hit_reaction_delay_in_ticks >= 0,
            champ1_as_in_ticks >= 1,
            champ2_as_in_ticks >= 1,
        ensures
            final(champ1).wf(),
            final(champ2).wf(),
            final(champ1).champ_stats.health <= old(champ1).champ_stats.health,
            final(champ2).champ_stats.health <= old(champ2).champ_stats.health,
            (old(champ1).champ_stats.health > 0 || old(champ2).champ_stats.health > 0) ==> (final(champ1).champ_stats.health > 0 || final(champ2).champ_stats.health > 0),
            !(old(champ1).champ_stats.health > 0 && old(champ2).champ_stats.health > 0) ==> (
            *final(champ1) == *old(champ1) && *final(champ2) == *old(champ2)),
            ({
                let both = old(champ1).champ_stats.health > 0 && old(champ2).champ_stats.health
                    > 0;
                let t = tick as int;
                let delay = first_hit_reaction_delay_in_ticks as int;
                let c1_first = self.first_actor == 0;
                let p1 = champ1_as_in_ticks as int;
                let p2 = champ2_as_in_ticks as int;
                &&& (both && t == 0 && c1_first ==> exists|roll: int|
                    0 <= roll <= SCALE && crate::champion::spec_attack_outcome(
                        *old(champ2),
                        *old(champ1),
                        *final(champ2),
                        *final(champ1),
                        r,
                        roll,
                    ))
                &&& (both && t == 0 && !c1_first ==> exists|roll: int|
                    0 <= roll <= SCALE && crate::champion::spec_attack_outcome(
                        *old(champ1),
                        *old(champ2),
                        *final(champ1),
                        *final(champ2),
                        r,
                        roll,
                    ))
                &&& (both && t != 0 && t == delay && c1_first ==> exists|roll: int|
                    0 <= roll <= SCALE && crate::champion::spec_attack_outcome(
                        *old(champ1),
                        *old(champ2),
                        *final(champ1),
                        *final(champ2),
                        r,
                        roll,
                    ))
                &&& (both && t != 0 && t == delay && !c1_first ==> exists|roll: int|
                    0 <= roll <= SCALE && crate::champion::spec_attack_outcome(
                        *old(champ2),
                        *old(champ1),
                        *final(champ2),
                        *final(champ1),
                        r,
                        roll,
                    ))
                &&& (both && t != 0 && t != delay && t > delay && t % p1 == 0 && t % p2 != 0
                    ==> exists|roll: int|
                    0 <= roll <= SCALE && crate::champion::spec_attack_outcome(
                        *old(champ2),
                        *old(champ1),
                        *final(champ2),
                        *final(champ1),
                        r,
                        roll,
                    ))
                &&& (both && t != 0 && t != delay && t > delay && t % p1 != 0 && t % p2 == 0
                    ==> exists|roll: int|
                    0 <= roll <= SCALE && crate::champion::spec_attack_outcome(
                        *old(champ1),
                        *old(champ2),
                        *final(champ1),
                        *final(champ2),
                        r,
                        roll,
                    ))
                &&& (both && t != 0 && t != delay && t > delay && t % p1 == 0 && t % p2 == 0
                    ==> exists|roll1: int, roll2: int|
                    0 <= roll1 <= SCALE && 0 <= roll2 <= SCALE
                        && #[trigger] spec_double_attack_outcome(
                        *old(champ1),
                        *old(champ2),
                        *final(champ1),
                        *final(champ2),
                        roll1,
                        roll2,
                    ))
                &&& (both && t != 0 && t != delay && t > delay && t % p1 != 0 && t % p2 != 0 ==> (
                *final(champ1) == *old(champ1) && *final(champ2) == *old(champ2)))
                &&& (both && t != 0 && t != delay && t < delay ==> (*final(champ1) == *old(champ1)
                    && *final(champ2) == *old(champ2)))
            }),
            (old(champ1).champ_stats.crit == 0 && old(champ2).champ_stats.crit == 0) ==> ({
                let a = spec_duel_attacks(
                    model_of(*old(champ1)),
                    model_of(*old(champ2)),
                    tick as int,
                    first_hit_reaction_delay_in_ticks as int,
                    champ1_as_in_ticks as int,
                    champ2_as_in_ticks as int,
                    self.first_actor == 0,
                );
                model_of(*final(champ1)) == a.0 && model_of(*final(champ2)) == a.1
            }),
            r.wf(),
    {
        let mut total = Damage::new(0, 0, 0);
        if champ1.champ_stats.health <= 0 || champ2.champ_stats.health <= 0 {
            return total;
        }
        if tick == 0 {
            if self.champ1_acts_first() {
                total = champ2.take_auto_attack_damage(champ1);
                self.apply_stacking_on_hit_effects(champ2, champ1);
                self.apply_duration_on_hit_effects(champ2, champ1);
                proof {
                    let roll = choose|roll: int|
                        0 <= roll <= SCALE && total == crate::champion::spec_attack_damage(
                            old(champ2).champ_stats,
                            old(champ1).champ_stats,
                            old(champ1).friendly_limited_use_on_hit_effects@,
                            roll,
                        );
                    assert(crate::champion::spec_attack_outcome(
                        *old(champ2),
                        *old(champ1),
                        *champ2,
                        *champ1,
                        total,
                        roll,
                    ));
                }
            } else {
                total = champ1.take_auto_attack_damage(champ2);
                self.apply_stacking_on_hit_effects(champ1, champ2);
                self.apply_duration_on_hit_effects(champ1, champ2);
                proof {
                    let roll = choose|roll: int|
                        0 <= roll <= SCALE && total == crate::champion::spec_attack_damage(
                            old(champ1).champ_stats,
                            old(champ2).champ_stats,
                            old(champ2).friendly_limited_use_on_hit_effects@,
                            roll,
                        );
                    assert(crate::champion::spec_attack_outcome(
                        *old(champ1),
                        *old(champ2),
                        *champ1,
                        *champ2,
                        total,
                        roll,
                    ));
                }
            }
        } else if tick as i64 == first_hit_reaction_delay_in_ticks {
            if self.champ1_acts_first() {
                total = champ1.take_auto_attack_damage(champ2);
                self.apply_stacking_on_hit_effects(champ1, champ2);
                self.apply_duration_on_hit_effects(champ1, champ2);
                proof {
                    let roll = choose|roll: int|
                        0 <= roll <= SCALE && total == crate::champion::spec_attack_damage(
                            old(champ1).champ_stats,
                            old(champ2).champ_stats,
                            old(champ2).friendly_limited_use_on_hit_effects@,
                            roll,
                        );
                    assert(crate::champion::spec_attack_outcome(
                        *old(champ1),
                        *old(champ2),
                        *champ1,
                        *champ2,
                        total,
                        roll,
                    ));
                }
            } else {
                total = champ2.take_auto_attack_damage(champ1);
                self.apply_stacking_on_hit_effects(champ2, champ1);
                self.apply_duration_on_hit_effects(champ2, champ1);
                proof {
                    let roll = choose|roll: int|
                        0 <= roll <= SCALE && total == crate::champion::spec_attack_damage(
                            old(champ2).champ_stats,
                            old(champ1).champ_stats,
                            old(champ1).friendly_limited_use_on_hit_effects@,
                            roll,
                        );
                    assert(crate::champion::spec_attack_outcome(
                        *old(champ2),
                        *old(champ1),
                        *champ2,
                        *champ1,
                        total,
                        roll,
                    ));
                }
            }
        } else if tick as i64 > first_hit_reaction_delay_in_ticks {
            let ghost mut roll1_pick: int = 0;
            let first_lands: bool = tick as i64 % champ1_as_in_ticks == 0;
            if first_lands {
                let d1 = champ2.take_auto_attack_damage(champ1);
                self.apply_stacking_on_hit_effects(champ2, champ1);
                self.apply_duration_on_hit_effects(champ2, champ1);
                total = d1;
                proof {
                    roll1_pick = choose|roll: int|
                        0 <= roll <= SCALE && total == crate::champion::spec_attack_damage(
                            old(champ2).champ_stats,
                            old(champ1).champ_stats,
                            old(champ1).friendly_limited_use_on_hit_effects@,
                            roll,
                        );
                    assert(crate::champion::spec_attack_outcome(
                        *old(champ2),
                        *old(champ1),
                        *champ2,
                        *champ1,
                        total,
                        roll1_pick,
                    ));
                }
            }
            let ghost mid1 = *champ1;
            let ghost mid2 = *champ2;
            if champ1.champ_stats.health > 0 && champ2.champ_stats.health > 0 && tick as i64
                % champ2_as_in_ticks == 0 {
                let d2 = champ1.take_auto_attack_damage(champ2);
                self.apply_stacking_on_hit_effects(champ1, champ2);
                self.apply_duration_on_hit_effects(champ1, champ2);
                total = total.saturating_add(d2);
                proof {
                    let roll2 = choose|roll: int|
                        0 <= roll <= SCALE && d2 == crate::champion::spec_attack_damage(
                            mid1.champ_stats,
                            mid2.champ_stats,
                            mid2.friendly_limited_use_on_hit_effects@,
                            roll,
                        );
                    if first_lands {
                        assert(spec_double_attack_outcome(
                            *old(champ1),
                            *old(champ2),
                            *champ1,
                            *champ2,
                            roll1_pick,
                            roll2,
                        ));
                    } else {
                        assert(total == d2);
                        assert(crate::champion::spec_attack_outcome(
                            *old(champ1),
                            *old(champ2),
                            *champ1,
                            *champ2,
                            total,
                            roll2,
                        ));
                    }
                }
            } else {
                proof {
                    if first_lands && tick as i64 % champ2_as_in_ticks == 0 {
                        assert(spec_double_attack_outcome(
                            *old(champ1),
                            *old(champ2),
                            *champ1,
                            *champ2,
                            roll1_pick,
                            0,
                        ));
                    }
                }
            }
        }
        total
    }

    /// Runs the duel to completion: ticks advance at the fixed rate until one
    /// side's health reaches zero, or the defensive cap trips with both sides
    /// standing, which is reported as `IterationCapReached`. When neither side
    /// can critically strike, no random draw is ever consulted and the run is
    /// pinned to the specification-level trajectory `spec_duel`: it succeeds
    /// exactly when that trajectory downs a side within the cap, and the
    /// result record carries that trajectory's final healths and tick.
    pub fn calculate_scenario(&self) -> (r: Result<ScenarioResult, SimError>)
        requires
            self.wf(),
        ensures
            r matches Ok(res) ==> ({
                &&& res.winner == 0 || res.winner == 1
                &&& res.final_health1 == 0 || res.final_health2 == 0
                &&& (res.winner == 1 <==> res.final_health1 == 0)
                &&& res.winner == 0 ==> (res.final_health1 > 0 && res.final_health2 == 0)
                &&& 0 <= res.final_health1 <= self.champ1_build.champion.champ_stats.health
                &&& 0 <= res.final_health2 <= self.champ2_build.champion.champ_stats.health
                &&& 0 <= res.elapsed_ticks <= MAX_TICKS
                &&& (self.champ1_build.champion.champ_stats.health > 0
                    && self.champ2_build.champion.champ_stats.health > 0) ==> !(
                res.final_health1 == 0 && res.final_health2 == 0)
                &&& (self.champ1_build.champion.champ_stats.health > 0
                    && self.champ2_build.champion.champ_stats.health > 0)
                    ==> res.elapsed_ticks >= 1
            }),
            r matches Err(e) ==> e == SimError::IterationCapReached,
            (self.champ1_build.champion.champ_stats.crit == 0
                && self.champ2_build.champion.champ_stats.crit == 0) ==> ({
                let end = spec_duel(*self);
                &&& r is Ok <==> (end.0.stats.health == 0 || end.1.stats.health == 0)
                &&& r matches Ok(res) ==> (res.final_health1 == end.0.stats.health
                    && res.final_health2 == end.1.stats.health && res.elapsed_ticks == end.2)
            }),
    {
        let ghost crit0: bool = self.champ1_build.champion.champ_stats.crit == 0
            && self.champ2_build.champion.champ_stats.crit == 0;
        let mut champ1 = self.champ1_build.champion.duplicate();
        let mut champ2 = self.champ2_build.champion.duplicate();

        let first_hit_reaction_delay_in_ticks: i64 = delay_ticks(self.first_hit_reaction_delay);
        let champ1_as_in_ticks: i64 = attack_period_ticks(champ1.champ_stats.as_);
        let champ2_as_in_ticks: i64 = attack_period_ticks(champ2.champ_stats.as_);

        proof {
            assert(model_of(champ1) == model_of(self.champ1_build.champion));
            assert(model_of(champ2) == model_of(self.champ2_build.champion));
        }

        let mut tick: i64 = 0;
        while champ1.champ_stats.health > 0 && champ2.champ_stats.health > 0 && tick < MAX_TICKS
            invariant
                champ1.wf(),
                champ2.wf(),
                0 <= tick <= MAX_TICKS,
                champ1.champ_stats.health <= self.champ1_build.champion.champ_stats.health,
                champ2.champ_stats.health <= self.champ2_build.champion.champ_stats.health,
                champ1_as_in_ticks >= 1,
                champ2_as_in_ticks >= 1,
                champ1_as_in_ticks == spec_attack_period(
                    self.champ1_build.champion.champ_stats.as_ as int,
                ),
                champ2_as_in_ticks == spec_attack_period(
                    self.champ2_build.champion.champ_stats.as_ as int,
                ),
                first_hit_reaction_delay_in_ticks >= 0,
                first_hit_reaction_delay_in_ticks == spec_delay_ticks(
                    self.first_hit_reaction_delay as int,
                ),
                (self.champ1_build.champion.champ_stats.health > 0
                    && self.champ2_build.champion.champ_stats.health > 0) ==> (
                champ1.champ_stats.health > 0 || champ2.champ_stats.health > 0),
                tick == 0 ==> (champ1.champ_stats.health
                    == self.champ1_build.champion.champ_stats.health
                    && champ2.champ_stats.health
                    == self.champ2_build.champion.champ_stats.health),
                crit0 == (self.champ1_build.champion.champ_stats.crit == 0
                    && self.champ2_build.champion.champ_stats.crit == 0),
                crit0 ==> (champ1.champ_stats.crit == 0 && champ2.champ_stats.crit == 0),
                crit0 ==> spec_duel_run(
                    model_of(champ1),
                    model_of(champ2),
                    tick as int,
                    (MAX_TICKS - tick) as nat,
                    first_hit_reaction_delay_in_ticks as int,
                    champ1_as_in_ticks as int,
                    champ2_as_in_ticks as int,
                    self.first_actor == 0,
                ) == spec_duel(*self),
            decreases MAX_TICKS - tick,
        {
            let ghost m1_pre = model_of(champ1);
            let ghost m2_pre = model_of(champ2);
            let tick32: i32 = tick as i32;
            let _attack_damage = self.calculate_aa_damage_and_side_effects(
                tick32,
                first_hit_reaction_delay_in_ticks,
                &mut champ1,
                champ1_as_in_ticks,
                &mut champ2,
                champ2_as_in_ticks,
            );
            let ghost m1_aa = model_of(champ1);
            let ghost m2_aa = model_of(champ2);
            let _dot_damage = self.calculate_dot_damage(tick32, &mut champ1, &mut champ2);
            let ghost m1_dot = model_of(champ1);
            let ghost m2_dot = model_of(champ2);

            champ1.decrement_own_effect_time_left();
            champ1.decrement_enemy_effect_time_left();
            champ2.decrement_own_effect_time_left();
            champ2.decrement_enemy_effect_time_left();

            proof {
                if crit0 {
                    let t = tick as int;
                    let d = first_hit_reaction_delay_in_ticks as int;
                    let p1 = champ1_as_in_ticks as int;
                    let p2 = champ2_as_in_ticks as int;
                    let c1f = self.first_actor == 0;
                    let a = spec_duel_attacks(m1_pre, m2_pre, t, d, p1, p2, c1f);
                    assert(m1_aa == a.0 && m2_aa == a.1);
                    crate::champion::lemma_apply_dots_frame(m1_aa.stats, m1_aa.enemy_dots, t);
                    crate::champion::lemma_apply_dots_frame(m2_aa.stats, m2_aa.enemy_dots, t);
                    let c1b = if a.0.stats.health > 0 && a.1.stats.health > 0 {
                        CombatantModel {
                            stats: crate::champion::spec_apply_dots(
                                a.0.stats,
                                a.0.enemy_dots,
                                t,
                            ).0,
                            ..a.0
                        }
                    } else {
                        a.0
                    };
                    assert(m1_dot == c1b);
                    let c2b = if c1b.stats.health > 0 && a.1.stats.health > 0 {
                        CombatantModel {
                            stats: crate::champion::spec_apply_dots(
                                a.1.stats,
                                a.1.enemy_dots,
                                t,
                            ).0,
                            ..a.1
                        }
                    } else {
                        a.1
                    };
                    assert(m2_dot == c2b);
                    let stepped = spec_duel_tick(m1_pre, m2_pre, t, d, p1, p2, c1f);
                    assert(model_of(champ1) == stepped.0);
                    assert(model_of(champ2) == stepped.1);
                    assert(spec_duel_run(
                        m1_pre,
                        m2_pre,
                        t,
                        (MAX_TICKS - tick) as nat,
                        d,
                        p1,
                        p2,
                        c1f,
                    ) == spec_duel_run(
                        stepped.0,
                        stepped.1,
                        t + 1,
                        (MAX_TICKS - tick - 1) as nat,
                        d,
                        p1,
                        p2,
                        c1f,
                    ));
                    assert(champ1.champ_stats.crit == 0 && champ2.champ_stats.crit == 0);
                }
            }
            tick = tick + 1;
        }

        proof {
            if crit0 {
                assert(spec_duel(*self) == (
                    model_of(champ1),
                    model_of(champ2),
                    tick as int,
                ));
            }
        }

        if champ1.champ_stats.health > 0 && champ2.champ_stats.health > 0 {
            Err(SimError::IterationCapReached)
        } else {
            let winner: u8 = if champ1.champ_stats.health <= 0 {
                1
            } else {
                0
            };
            Ok(
                ScenarioResult {
                    winner,
                    final_health1: champ1.champ_stats.health,
                    final_health2: champ2.champ_stats.health,
                    elapsed_ticks: tick,
                },
            )
        }
    }
}

} // verus!
