pub mod stats;

use vstd::prelude::*;
use crate::champion::stats::{
    ChampStats, damage_taken, effective_armor, effective_mr, crit_multiplier,
    calculate_crit_damage_multiplier_from_target, lemma_damage_taken_range,
};
use crate::damage::Damage;
use crate::effects::{DamageType, DoTEffect, LimitedUseOnHitEffect, StackingOnHitEffect};
use crate::fixed::{
    round_unit, round_to_unit, lemma_round_unit_fixed, lemma_round_unit_monotone,
    lemma_round_div_mag, lemma_round_div_nonneg_bounds, mul_div_round, EFFECT_CAP, SCALE,
    STAT_LIMIT, MITIGATION_LIMIT, RAW_DMG_LIMIT, DMG_LIMIT,
};

verus! {

/// How much of `dmg` a shield pool of the given size soaks up.
pub open spec fn absorbed(pool: int, dmg: int) -> int {
    if dmg <= pool {
        dmg
    } else {
        pool
    }
}

/// Health after damage reaches it: clamped at zero, otherwise rounded to the
/// nearest whole point.
pub open spec fn health_after(health: int, dmg: int) -> int {
    if dmg <= 0 {
        health
    } else if health <= dmg {
        0
    } else {
        round_unit(health - dmg)
    }
}

/// The stat record after a physical amount lands: the physical-only shield
/// soaks first, the generic shield second, health takes the rest.
pub open spec fn spec_take_physical(s: ChampStats, dmg: int) -> ChampStats {
    let p = absorbed(s.physical_shield_amount as int, dmg);
    let g = absorbed(s.shield_amount as int, dmg - p);
    ChampStats {
        physical_shield_amount: (s.physical_shield_amount - p) as i64,
        shield_amount: (s.shield_amount - g) as i64,
        health: health_after(s.health as int, dmg - p - g) as i64,
        ..s
    }
}

/// The stat record after a magical amount lands: the magic-only shield soaks
/// first, the generic shield second, health takes the rest.
pub open spec fn spec_take_magical(s: ChampStats, dmg: int) -> ChampStats {
    let m = absorbed(s.magic_shield_amount as int, dmg);
    let g = absorbed(s.shield_amount as int, dmg - m);
    ChampStats {
        magic_shield_amount: (s.magic_shield_amount - m) as i64,
        shield_amount: (s.shield_amount - g) as i64,
        health: health_after(s.health as int, dmg - m - g) as i64,
        ..s
    }
}

/// The stat record after a true amount lands: only the generic shield soaks,
/// health takes the rest.
pub open spec fn spec_take_true(s: ChampStats, dmg: int) -> ChampStats {
    let g = absorbed(s.shield_amount as int, dmg);
    ChampStats {
        shield_amount: (s.shield_amount - g) as i64,
        health: health_after(s.health as int, dmg - g) as i64,
        ..s
    }
}

/// The stat record after a full damage accumulator lands, one damage type at a
/// time in the fixed order physical, magical, true.
pub open spec fn spec_take_damage(s: ChampStats, d: Damage) -> ChampStats {
    spec_take_true(
        spec_take_magical(spec_take_physical(s, d.physical_component as int), d.magical_component as int),
        d.true_component as int,
    )
}

/// Total flat on-hit damage of one damage type over a registry, counting only
/// effects with uses left.
pub open spec fn on_hit_sum(s: Seq<LimitedUseOnHitEffect>, t: DamageType) -> int
    decreases s.len(),
{
    if s.len() == 0 {
        0
    } else {
        on_hit_sum(s.drop_last(), t) + if s.last().num_uses > 0 && s.last().damage_type == t {
            s.last().damage as int
        } else {
            0
        }
    }
}

pub proof fn lemma_on_hit_sum_bound(s: Seq<LimitedUseOnHitEffect>, t: DamageType)
    requires
        forall|i: int| 0 <= i < s.len() ==> (#[trigger] s[i]).wf(),
    ensures
        0 <= on_hit_sum(s, t) <= s.len() * STAT_LIMIT,
    decreases s.len(),
{
    if s.len() == 0 {
    } else {
        assert(forall|i: int|
            0 <= i < s.drop_last().len() ==> (#[trigger] s.drop_last()[i]).wf());
        lemma_on_hit_sum_bound(s.drop_last(), t);
        assert(s.last().wf());
    }
}

/// A limited-use effect after one attack lands: one use spent, none left to
/// spend below zero.
pub open spec fn spec_dec_uses(e: LimitedUseOnHitEffect) -> LimitedUseOnHitEffect {
    LimitedUseOnHitEffect {
        num_uses: if e.num_uses > 0 {
            (e.num_uses - 1) as i64
        } else {
            e.num_uses
        },
        ..e
    }
}

/// Raw physical damage of one basic attack: the attack damage, multiplied by
/// the critical multiplier when the roll falls under the crit chance.
pub open spec fn aa_raw(ad: int, crit: int, bonus_crit: int, roll: int) -> int {
    if roll < crit {
        crate::fixed::round_div(ad * crit_multiplier(crit, bonus_crit), SCALE as int)
    } else {
        ad
    }
}

pub proof fn lemma_aa_raw_range(atk: ChampStats, roll: int)
    requires
        atk.wf(),
    ensures
        0 <= aa_raw(atk.ad as int, atk.crit as int, atk.bonus_crit_percent as int, roll)
            <= 400_000_000_000_000,
{
    if roll < atk.crit {
        let mult = crit_multiplier(atk.crit as int, atk.bonus_crit_percent as int);
        assert(0 <= atk.crit as int * (750_000 + atk.bonus_crit_percent as int) <= 11_000_000 * (
        SCALE as int)) by (nonlinear_arith)
            requires
                0 <= atk.crit <= SCALE,
                0 <= atk.bonus_crit_percent <= crate::fixed::CRIT_BONUS_LIMIT,
                SCALE == 1_000_000,
                crate::fixed::CRIT_BONUS_LIMIT == 10_000_000,
        ;
        lemma_round_div_mag(
            atk.crit as int * (750_000 + atk.bonus_crit_percent as int),
            SCALE as int,
            11_000_000,
        );
        lemma_round_div_nonneg_bounds(
            atk.crit as int * (750_000 + atk.bonus_crit_percent as int),
            SCALE as int,
        );
        assert(SCALE <= mult <= 12_000_000);
        assert(0 <= atk.ad as int * mult <= 400_000_000_000_000 * (SCALE as int))
            by (nonlinear_arith)
            requires
                0 <= atk.ad <= STAT_LIMIT,
                SCALE as int <= mult <= 12_000_000,
                STAT_LIMIT == 30_000_000_000_000,
                SCALE == 1_000_000,
        ;
        lemma_round_div_mag(atk.ad as int * mult, SCALE as int, 400_000_000_000_000);
        lemma_round_div_nonneg_bounds(atk.ad as int * mult, SCALE as int);
    }
}

/// The mitigated damage of one basic attack's base hit (no on-hit effects).
pub open spec fn spec_aa_damage(effective: int, atk: ChampStats, roll: int) -> Damage {
    Damage {
        physical_component: damage_taken(
            effective,
            aa_raw(atk.ad as int, atk.crit as int, atk.bonus_crit_percent as int, roll),
        ) as i64,
        magical_component: 0,
        true_component: 0,
    }
}

/// The full mitigated damage one attack deals: the base hit plus the
/// attacker's on-hit effects, physical and magical parts mitigated by the
/// defender's effective armor and magic resist, true damage passed through.
pub open spec fn spec_attack_damage(
    def: ChampStats,
    atk: ChampStats,
    onhits: Seq<LimitedUseOnHitEffect>,
    roll: int,
) -> Damage {
    let ea = effective_armor(
        def.armor as int,
        def.bonus_armor as int,
        atk.armor_reduction as int,
        atk.percent_armor_reduction as int,
        atk.percent_bonus_armor_pen as int,
        atk.lethality as int,
    );
    let em = effective_mr(
        def.mr as int,
        def.bonus_mr as int,
        atk.flat_mr_reduction as int,
        atk.percent_mr_reduction as int,
        atk.percent_mr_pen as int,
        atk.mr_pen as int,
    );
    Damage {
        physical_component: (damage_taken(
            ea,
            aa_raw(atk.ad as int, atk.crit as int, atk.bonus_crit_percent as int, roll),
        ) + damage_taken(ea, on_hit_sum(onhits, DamageType::Physical))) as i64,
        magical_component: damage_taken(em, on_hit_sum(onhits, DamageType::Magical)) as i64,
        true_component: on_hit_sum(onhits, DamageType::True) as i64,
    }
}

/// One resolved basic attack, as a relation between the states before and
/// after it: the damage dealt for the given crit roll, the defender's stats
/// after the shield order, the attacker's spent limited-use effects, and the
/// attacker's stacking and damage-over-time effects propagated onto the
/// defender's afflicted registries. Everything else of either side is
/// untouched.
pub open spec fn spec_attack_outcome(
    def_old: Champion,
    atk_old: Champion,
    def_new: Champion,
    atk_new: Champion,
    dealt: Damage,
    roll: int,
) -> bool {
    &&& dealt == spec_attack_damage(
        def_old.champ_stats,
        atk_old.champ_stats,
        atk_old.friendly_limited_use_on_hit_effects@,
        roll,
    )
    &&& def_new.champ_stats == spec_take_damage(def_old.champ_stats, dealt)
    &&& def_new.enemy_dot_on_hit_effects@ == spec_propagate_dots(
        def_old.enemy_dot_on_hit_effects@,
        atk_old.friendly_duration_on_hit_effects@,
    )
    &&& def_new.enemy_stacking_on_hit_effects@ == spec_propagate_stks(
        def_old.enemy_stacking_on_hit_effects@,
        atk_old.friendly_stacking_on_hit_effects@,
    )
    &&& def_new.friendly_limited_use_on_hit_effects@
        == def_old.friendly_limited_use_on_hit_effects@
    &&& def_new.friendly_duration_on_hit_effects@ == def_old.friendly_duration_on_hit_effects@
    &&& def_new.friendly_stacking_on_hit_effects@ == def_old.friendly_stacking_on_hit_effects@
    &&& atk_new.champ_stats == atk_old.champ_stats
    &&& atk_new.friendly_limited_use_on_hit_effects@
        == atk_old.friendly_limited_use_on_hit_effects@.map_values(
        |e: LimitedUseOnHitEffect| spec_dec_uses(e),
    )
    &&& atk_new.friendly_duration_on_hit_effects@ == atk_old.friendly_duration_on_hit_effects@
    &&& atk_new.friendly_stacking_on_hit_effects@ == atk_old.friendly_stacking_on_hit_effects@
    &&& atk_new.enemy_dot_on_hit_effects@ == atk_old.enemy_dot_on_hit_effects@
    &&& atk_new.enemy_stacking_on_hit_effects@ == atk_old.enemy_stacking_on_hit_effects@
}

/// Firing damage-over-time effects touches only health and the shield pools:
/// every other field of the stat record comes through unchanged.
pub proof fn lemma_apply_dots_frame(s: ChampStats, reg: Seq<DoTEffect>, tick: int)
    ensures
        ({
            let r = spec_apply_dots(s, reg, tick).0;
            r == (ChampStats {
                health: r.health,
                shield_amount: r.shield_amount,
                magic_shield_amount: r.magic_shield_amount,
                physical_shield_amount: r.physical_shield_amount,
                ..s
            })
        }),
    decreases reg.len(),
{
    if reg.len() == 0 {
    } else {
        lemma_apply_dots_frame(s, reg.drop_last(), tick);
    }
}

/// Relies on rand::random_range: one uniform sample from the half-open range
/// it is given, here the subunit fractions of the unit interval.
#[verifier::external_body]
fn sample_unit_fraction() -> (r: i64)
    ensures
        0 <= r < SCALE,
{
    rand::random_range(0..SCALE)
}

/// Law: shield absorption is order-preserving and conserves damage — what the
/// physical-only pool soaked, what the generic pool soaked and what health
/// lost add up exactly to the physical damage dealt, whenever the two pools
/// together cover it (health is then untouched).
pub proof fn lemma_physical_absorption_conserves(s: ChampStats, dmg: int)
    requires
        s.wf(),
        0 <= dmg,
        dmg <= s.physical_shield_amount + s.shield_amount,
    ensures
        ({
            let s2 = spec_take_physical(s, dmg);
            &&& (s.physical_shield_amount - s2.physical_shield_amount) + (s.shield_amount
                - s2.shield_amount) + (s.health - s2.health) == dmg
            &&& s2.health == s.health
        }),
{
}

/// Law: no matter how often an effect is re-applied, a well-formed combatant
/// never holds a stacking effect above its stack cap. Every operation of this
/// module preserves well-formedness, so the bound holds throughout a fight.
pub proof fn lemma_stacks_never_exceed_cap(c: Champion)
    requires
        c.wf(),
    ensures
        forall|i: int|
            0 <= i < c.enemy_stacking_on_hit_effects@.len() ==> (#[trigger] c
                .enemy_stacking_on_hit_effects@[i]).current_stacks <= c
                .enemy_stacking_on_hit_effects@[i].max_stacks,
{
    assert forall|i: int|
        0 <= i < c.enemy_stacking_on_hit_effects@.len() implies (#[trigger] c
        .enemy_stacking_on_hit_effects@[i]).current_stacks <= c
        .enemy_stacking_on_hit_effects@[i].max_stacks by {
        assert(c.enemy_stacking_on_hit_effects@[i].wf());
    }
}

/// Law: a well-formed combatant never holds a limited-use effect with a
/// negative use count; spending a use stops at zero.
pub proof fn lemma_num_uses_never_negative(c: Champion)
    requires
        c.wf(),
    ensures
        forall|i: int|
            0 <= i < c.friendly_limited_use_on_hit_effects@.len() ==> (#[trigger] c
                .friendly_limited_use_on_hit_effects@[i]).num_uses >= 0,
        forall|i: int|
            0 <= i < c.friendly_limited_use_on_hit_effects@.len() ==> (#[trigger] spec_dec_uses(
                c.friendly_limited_use_on_hit_effects@[i],
            )).num_uses >= 0,
{
    assert forall|i: int|
        0 <= i < c.friendly_limited_use_on_hit_effects@.len() implies (#[trigger] c
        .friendly_limited_use_on_hit_effects@[i]).num_uses >= 0 && (spec_dec_uses(
        c.friendly_limited_use_on_hit_effects@[i],
    )).num_uses >= 0 by {
        assert(c.friendly_limited_use_on_hit_effects@[i].wf());
    }
}

/// Whether an effect survives a simulation tick: an infinite effect always
/// does; a finite one expires once its time is spent.
pub open spec fn spec_dot_keep(e: DoTEffect) -> bool {
    !(e.finite_time_left && e.effect_time_left <= 0)
}

/// One tick of time passing for a surviving effect.
pub open spec fn spec_dot_decay(e: DoTEffect) -> DoTEffect {
    if e.finite_time_left {
        DoTEffect {
            effect_time_left: if e.effect_time_left >= 1 {
                (e.effect_time_left - 1) as i64
            } else {
                0
            },
            ..e
        }
    } else {
        e
    }
}

/// One tick of time passing over a whole registry: expired effects are purged,
/// surviving finite ones lose one tick.
pub open spec fn spec_decay_dots(s: Seq<DoTEffect>) -> Seq<DoTEffect>
    decreases s.len(),
{
    if s.len() == 0 {
        Seq::empty()
    } else {
        let rest = spec_decay_dots(s.drop_last());
        if spec_dot_keep(s.last()) {
            rest.push(spec_dot_decay(s.last()))
        } else {
            rest
        }
    }
}

pub open spec fn spec_stk_keep(e: StackingOnHitEffect) -> bool {
    !(e.finite_time_left && e.effect_time_left <= 0)
}

pub open spec fn spec_stk_decay(e: StackingOnHitEffect) -> StackingOnHitEffect {
    if e.finite_time_left {
        StackingOnHitEffect {
            effect_time_left: if e.effect_time_left >= 1 {
                (e.effect_time_left - 1) as i64
            } else {
                0
            },
            ..e
        }
    } else {
        e
    }
}

pub open spec fn spec_decay_stks(s: Seq<StackingOnHitEffect>) -> Seq<StackingOnHitEffect>
    decreases s.len(),
{
    if s.len() == 0 {
        Seq::empty()
    } else {
        let rest = spec_decay_stks(s.drop_last());
        if spec_stk_keep(s.last()) {
            rest.push(spec_stk_decay(s.last()))
        } else {
            rest
        }
    }
}

proof fn lemma_decay_dots_wf(s: Seq<DoTEffect>)
    requires
        dot_reg_wf(s),
    ensures
        spec_decay_dots(s).len() <= s.len(),
        dot_reg_wf(spec_decay_dots(s)),
        forall|k: int|
            0 <= k < spec_decay_dots(s).len() ==> exists|j: int|
                0 <= j < s.len() && (#[trigger] spec_decay_dots(s)[k]).id@ == s[j].id@,
    decreases s.len(),
{
    if s.len() == 0 {
    } else {
        let dl = s.drop_last();
        assert(dot_reg_wf(dl));
        lemma_decay_dots_wf(dl);
        let d = spec_decay_dots(s);
        let rest = spec_decay_dots(dl);
        if spec_dot_keep(s.last()) {
            assert(s.last().wf());
            assert(spec_dot_decay(s.last()).wf());
            assert(forall|k: int|
                0 <= k < d.len() ==> exists|j: int|
                    0 <= j < s.len() && (#[trigger] d[k]).id@ == s[j].id@) by {
                assert(forall|k: int|
                    0 <= k < rest.len() ==> exists|j: int|
                        0 <= j < dl.len() && (#[trigger] rest[k]).id@ == dl[j].id@);
                assert(d[d.len() - 1].id@ == s[s.len() - 1].id@);
            }
            assert(forall|x: int, y: int| #![trigger d[x].id, d[y].id]
                0 <= x < y < d.len() ==> d[x].id@ != d[y].id@) by {
                assert(forall|k: int|
                    0 <= k < rest.len() ==> exists|j: int|
                        0 <= j < dl.len() && (#[trigger] rest[k]).id@ == dl[j].id@);
            }
        }
    }
}

proof fn lemma_decay_stks_wf(s: Seq<StackingOnHitEffect>)
    requires
        stk_reg_wf(s),
    ensures
        spec_decay_stks(s).len() <= s.len(),
        stk_reg_wf(spec_decay_stks(s)),
        forall|k: int|
            0 <= k < spec_decay_stks(s).len() ==> exists|j: int|
                0 <= j < s.len() && (#[trigger] spec_decay_stks(s)[k]).id@ == s[j].id@,
    decreases s.len(),
{
    if s.len() == 0 {
    } else {
        let dl = s.drop_last();
        assert(stk_reg_wf(dl));
        lemma_decay_stks_wf(dl);
        let d = spec_decay_stks(s);
        let rest = spec_decay_stks(dl);
        if spec_stk_keep(s.last()) {
            assert(s.last().wf());
            assert(spec_stk_decay(s.last()).wf());
            assert(forall|k: int|
                0 <= k < d.len() ==> exists|j: int|
                    0 <= j < s.len() && (#[trigger] d[k]).id@ == s[j].id@) by {
                assert(forall|k: int|
                    0 <= k < rest.len() ==> exists|j: int|
                        0 <= j < dl.len() && (#[trigger] rest[k]).id@ == dl[j].id@);
                assert(d[d.len() - 1].id@ == s[s.len() - 1].id@);
            }
            assert(forall|x: int, y: int| #![trigger d[x].id, d[y].id]
                0 <= x < y < d.len() ==> d[x].id@ != d[y].id@) by {
                assert(forall|k: int|
                    0 <= k < rest.len() ==> exists|j: int|
                        0 <= j < dl.len() && (#[trigger] rest[k]).id@ == dl[j].id@);
            }
        }
    }
}

/// One tick of time passing over a damage-over-time registry.
fn decay_dot_vec(reg: &Vec<DoTEffect>) -> (r: Vec<DoTEffect>)
    requires
        dot_reg_wf(reg@),
    ensures
        r@ == spec_decay_dots(reg@),
        dot_reg_wf(r@),
{
    let mut kept: Vec<DoTEffect> = Vec::new();
    let n: usize = reg.len();
    for i in 0..n
        invariant
            n == reg@.len(),
            dot_reg_wf(reg@),
            kept@ == spec_decay_dots(reg@.take(i as int)),
    {
        proof {
            assert(reg@.take(i + 1).drop_last() =~= reg@.take(i as int));
            assert(reg@.take(i + 1).last() == reg@[i as int]);
            assert(reg@[i as int].wf());
        }
        let expired: bool = reg[i].finite_time_left && reg[i].effect_time_left <= 0;
        if !expired {
            let mut d = reg[i].duplicate();
            if d.finite_time_left {
                d.reduce_effect_time_left(1);
            }
            kept.push(d);
        }
    }
    proof {
        assert(reg@.take(n as int) =~= reg@);
        lemma_decay_dots_wf(reg@);
    }
    kept
}

/// One tick of time passing over a stacking-effect registry.
fn decay_stk_vec(reg: &Vec<StackingOnHitEffect>) -> (r: Vec<StackingOnHitEffect>)
    requires
        stk_reg_wf(reg@),
    ensures
        r@ == spec_decay_stks(reg@),
        stk_reg_wf(r@),
{
    let mut kept: Vec<StackingOnHitEffect> = Vec::new();
    let n: usize = reg.len();
    for i in 0..n
        invariant
            n == reg@.len(),
            stk_reg_wf(reg@),
            kept@ == spec_decay_stks(reg@.take(i as int)),
    {
        proof {
            assert(reg@.take(i + 1).drop_last() =~= reg@.take(i as int));
            assert(reg@.take(i + 1).last() == reg@[i as int]);
            assert(reg@[i as int].wf());
        }
        let expired: bool = reg[i].finite_time_left && reg[i].effect_time_left <= 0;
        if !expired {
            let mut d = reg[i].duplicate();
            if d.finite_time_left {
                d.reduce_effect_time_left(1);
            }
            kept.push(d);
        }
    }
    proof {
        assert(reg@.take(n as int) =~= reg@);
        lemma_decay_stks_wf(reg@);
    }
    kept
}

/// Whether a damage-over-time effect fires on this tick.
pub open spec fn dot_due(e: DoTEffect, tick: int) -> bool {
    tick % (e.tick_rate.spec_value() as int) == 0
}

/// The mitigated damage one tick of a damage-over-time effect deals to this
/// record, against its current armor or magic resist, bonus included.
pub open spec fn spec_dot_damage(s: ChampStats, e: DoTEffect) -> Damage {
    match e.damage_type {
        DamageType::Physical => Damage {
            physical_component: damage_taken(
                s.armor + s.bonus_armor,
                e.damage_over_time as int,
            ) as i64,
            magical_component: 0,
            true_component: 0,
        },
        DamageType::Magical => Damage {
            physical_component: 0,
            magical_component: damage_taken(s.mr + s.bonus_mr, e.damage_over_time as int) as i64,
            true_component: 0,
        },
        DamageType::True => Damage {
            physical_component: 0,
            magical_component: 0,
            true_component: e.damage_over_time,
        },
    }
}

/// The stat record and the damage totals after every due damage-over-time
/// effect of a registry has fired once, in registry order.
pub open spec fn spec_apply_dots(s: ChampStats, reg: Seq<DoTEffect>, tick: int) -> (
    ChampStats,
    (int, int, int),
)
    decreases reg.len(),
{
    if reg.len() == 0 {
        (s, (0, 0, 0))
    } else {
        let prev = spec_apply_dots(s, reg.drop_last(), tick);
        let e = reg.last();
        if dot_due(e, tick) {
            let d = spec_dot_damage(prev.0, e);
            (
                spec_take_damage(prev.0, d),
                (
                    prev.1.0 + d.physical_component,
                    prev.1.1 + d.magical_component,
                    prev.1.2 + d.true_component,
                ),
            )
        } else {
            prev
        }
    }
}

/// A combatant: one stat record plus the effect registries, keyed by effect id.
/// The `friendly_*` registries hold effects this combatant grants (applied to
/// its targets on hit); the `enemy_*` registries hold effects currently
/// afflicting this combatant.
#[derive(Clone, Debug)]
pub struct Champion {
    pub name: String,
    pub level: i32,
    pub champ_stats: ChampStats,
    pub friendly_limited_use_on_hit_effects: Vec<LimitedUseOnHitEffect>,
    pub friendly_duration_on_hit_effects: Vec<DoTEffect>,
    pub friendly_stacking_on_hit_effects: Vec<StackingOnHitEffect>,
    pub enemy_dot_on_hit_effects: Vec<DoTEffect>,
    pub enemy_stacking_on_hit_effects: Vec<StackingOnHitEffect>,
}

/// A registry is well-formed when it is below the capacity, every effect in it
/// is well-formed, and no two effects share an id.
pub open spec fn lim_reg_wf(s: Seq<LimitedUseOnHitEffect>) -> bool {
    &&& s.len() <= EFFECT_CAP
    &&& forall|i: int| 0 <= i < s.len() ==> #[trigger] s[i].wf()
    &&& forall|i: int, j: int| #![trigger s[i].id, s[j].id]
        0 <= i < j < s.len() ==> s[i].id@ != s[j].id@
}

pub open spec fn dot_reg_wf(s: Seq<DoTEffect>) -> bool {
    &&& s.len() <= EFFECT_CAP
    &&& forall|i: int| 0 <= i < s.len() ==> #[trigger] s[i].wf()
    &&& forall|i: int, j: int| #![trigger s[i].id, s[j].id]
        0 <= i < j < s.len() ==> s[i].id@ != s[j].id@
}

pub open spec fn stk_reg_wf(s: Seq<StackingOnHitEffect>) -> bool {
    &&& s.len() <= EFFECT_CAP
    &&& forall|i: int| 0 <= i < s.len() ==> #[trigger] s[i].wf()
    &&& forall|i: int, j: int| #![trigger s[i].id, s[j].id]
        0 <= i < j < s.len() ==> s[i].id@ != s[j].id@
}

pub open spec fn lim_has_id(s: Seq<LimitedUseOnHitEffect>, id: Seq<char>) -> bool {
    exists|i: int| 0 <= i < s.len() && s[i].id@ == id
}

pub open spec fn dot_has_id(s: Seq<DoTEffect>, id: Seq<char>) -> bool {
    exists|i: int| 0 <= i < s.len() && s[i].id@ == id
}

pub open spec fn stk_has_id(s: Seq<StackingOnHitEffect>, id: Seq<char>) -> bool {
    exists|i: int| 0 <= i < s.len() && s[i].id@ == id
}

/// A damage-over-time registry after one effect is applied to it: a known id
/// has its damage timer refreshed to the incoming one, a new id is registered
/// while there is room, and a full registry ignores the newcomer.
pub open spec fn spec_apply_enemy_dot(s: Seq<DoTEffect>, e: DoTEffect) -> Seq<DoTEffect> {
    if dot_has_id(s, e.id@) {
        let i = choose|i: int| 0 <= i < s.len() && s[i].id@ == e.id@;
        s.update(i, DoTEffect { damage_time_left: e.damage_time_left, ..s[i] })
    } else if s.len() < EFFECT_CAP {
        s.push(e)
    } else {
        s
    }
}

/// A stacking registry after one effect is applied to it: a known id gains a
/// stack up to its own cap, a new id starts at one stack while there is room,
/// and a full registry ignores the newcomer.
pub open spec fn spec_apply_enemy_stk(
    s: Seq<StackingOnHitEffect>,
    e: StackingOnHitEffect,
) -> Seq<StackingOnHitEffect> {
    if stk_has_id(s, e.id@) {
        let i = choose|i: int| 0 <= i < s.len() && s[i].id@ == e.id@;
        s.update(
            i,
            StackingOnHitEffect {
                current_stacks: if s[i].current_stacks < s[i].max_stacks {
                    (s[i].current_stacks + 1) as i64
                } else {
                    s[i].current_stacks
                },
                ..s[i]
            },
        )
    } else if s.len() < EFFECT_CAP {
        s.push(StackingOnHitEffect { current_stacks: 1, ..e })
    } else {
        s
    }
}

/// The victim's damage-over-time registry after every effect the attacker
/// grants has been applied to it, in registry order.
pub open spec fn spec_propagate_dots(victim: Seq<DoTEffect>, granted: Seq<DoTEffect>) -> Seq<
    DoTEffect,
>
    decreases granted.len(),
{
    if granted.len() == 0 {
        victim
    } else {
        spec_apply_enemy_dot(spec_propagate_dots(victim, granted.drop_last()), granted.last())
    }
}

/// The victim's stacking registry after every effect the attacker grants has
/// been applied to it, in registry order.
pub open spec fn spec_propagate_stks(
    victim: Seq<StackingOnHitEffect>,
    granted: Seq<StackingOnHitEffect>,
) -> Seq<StackingOnHitEffect>
    decreases granted.len(),
{
    if granted.len() == 0 {
        victim
    } else {
        spec_apply_enemy_stk(spec_propagate_stks(victim, granted.drop_last()), granted.last())
    }
}

fn find_lim(reg: &Vec<LimitedUseOnHitEffect>, id: &String) -> (r: Option<usize>)
    ensures
        match r {
            Some(i) => i < reg@.len() && reg@[i as int].id@ == id@,
            None => !lim_has_id(reg@, id@),
        },
{
    let n: usize = reg.len();
    for i in 0..n
        invariant
            n == reg@.len(),
            forall|j: int| 0 <= j < i ==> reg@[j].id@ != id@,
    {
        if reg[i].id == *id {
            return Some(i);
        }
    }
    None
}

fn find_dot(reg: &Vec<DoTEffect>, id: &String) -> (r: Option<usize>)
    ensures
        match r {
            Some(i) => i < reg@.len() && reg@[i as int].id@ == id@,
            None => !dot_has_id(reg@, id@),
        },
{
    let n: usize = reg.len();
    for i in 0..n
        invariant
            n == reg@.len(),
            forall|j: int| 0 <= j < i ==> reg@[j].id@ != id@,
    {
        if reg[i].id == *id {
            return Some(i);
        }
    }
    None
}

fn find_stk(reg: &Vec<StackingOnHitEffect>, id: &String) -> (r: Option<usize>)
    ensures
        match r {
            Some(i) => i < reg@.len() && reg@[i as int].id@ == id@,
            None => !stk_has_id(reg@, id@),
        },
{
    let n: usize = reg.len();
    for i in 0..n
        invariant
            n == reg@.len(),
            forall|j: int| 0 <= j < i ==> reg@[j].id@ != id@,
    {
        if reg[i].id == *id {
            return Some(i);
        }
    }
    None
}

fn duplicate_lims(reg: &Vec<LimitedUseOnHitEffect>) -> (r: Vec<LimitedUseOnHitEffect>)
    ensures
        r@ == reg@,
{
    let mut out: Vec<LimitedUseOnHitEffect> = Vec::new();
    let n: usize = reg.len();
    for i in 0..n
        invariant
            n == reg@.len(),
            out@ =~= reg@.take(i as int),
    {
        out.push(reg[i].duplicate());
        proof {
            assert(out@ =~= reg@.take(i + 1));
        }
    }
    proof {
        assert(out@ =~= reg@);
    }
    out
}

fn duplicate_dots(reg: &Vec<DoTEffect>) -> (r: Vec<DoTEffect>)
    ensures
        r@ == reg@,
{
    let mut out: Vec<DoTEffect> = Vec::new();
    let n: usize = reg.len();
    for i in 0..n
        invariant
            n == reg@.len(),
            out@ =~= reg@.take(i as int),
    {
        out.push(reg[i].duplicate());
        proof {
            assert(out@ =~= reg@.take(i + 1));
        }
    }
    proof {
        assert(out@ =~= reg@);
    }
    out
}

fn duplicate_stks(reg: &Vec<StackingOnHitEffect>) -> (r: Vec<StackingOnHitEffect>)
    ensures
        r@ == reg@,
{
    let mut out: Vec<StackingOnHitEffect> = Vec::new();
    let n: usize = reg.len();
    for i in 0..n
        invariant
            n == reg@.len(),
            out@ =~= reg@.take(i as int),
    {
        out.push(reg[i].duplicate());
        proof {
            assert(out@ =~= reg@.take(i + 1));
        }
    }
    proof {
        assert(out@ =~= reg@);
    }
    out
}

impl Champion {
    pub open spec fn wf(&self) -> bool {
        &&& self.champ_stats.wf()
        &&& lim_reg_wf(self.friendly_limited_use_on_hit_effects@)
        &&& dot_reg_wf(self.friendly_duration_on_hit_effects@)
        &&& stk_reg_wf(self.friendly_stacking_on_hit_effects@)
        &&& dot_reg_wf(self.enemy_dot_on_hit_effects@)
        &&& stk_reg_wf(self.enemy_stacking_on_hit_effects@)
    }

    /// A deep copy whose value Verus can track, unlike the derived `clone`.
    pub fn duplicate(&self) -> (r: Self)
        ensures
            r.name@ == self.name@,
            r.level == self.level,
            r.champ_stats == self.champ_stats,
            r.friendly_limited_use_on_hit_effects@ == self.friendly_limited_use_on_hit_effects@,
            r.friendly_duration_on_hit_effects@ == self.friendly_duration_on_hit_effects@,
            r.friendly_stacking_on_hit_effects@ == self.friendly_stacking_on_hit_effects@,
            r.enemy_dot_on_hit_effects@ == self.enemy_dot_on_hit_effects@,
            r.enemy_stacking_on_hit_effects@ == self.enemy_stacking_on_hit_effects@,
    {
        Champion {
            name: self.name.clone(),
            level: self.level,
            champ_stats: self.champ_stats,
            friendly_limited_use_on_hit_effects: duplicate_lims(
                &self.friendly_limited_use_on_hit_effects,
            ),
            friendly_duration_on_hit_effects: duplicate_dots(&self.friendly_duration_on_hit_effects),
            friendly_stacking_on_hit_effects: duplicate_stks(&self.friendly_stacking_on_hit_effects),
            enemy_dot_on_hit_effects: duplicate_dots(&self.enemy_dot_on_hit_effects),
            enemy_stacking_on_hit_effects: duplicate_stks(&self.enemy_stacking_on_hit_effects),
        }
    }

    /// Registers an effect this combatant grants on hit. Re-adding an existing
    /// id is a no-op, as is adding to a registry already at capacity.
    pub fn add_friendly_limited_use_on_hit_effect(&mut self, effect: LimitedUseOnHitEffect)
        requires
            old(self).wf(),
            effect.wf(),
        ensures
            final(self).friendly_limited_use_on_hit_effects@ == if lim_has_id(
                old(self).friendly_limited_use_on_hit_effects@,
                effect.id@,
            ) || old(self).friendly_limited_use_on_hit_effects@.len() >= EFFECT_CAP {
                old(self).friendly_limited_use_on_hit_effects@
            } else {
                old(self).friendly_limited_use_on_hit_effects@.push(effect)
            },
            final(self).name == old(self).name,
            final(self).level == old(self).level,
            final(self).champ_stats == old(self).champ_stats,
            final(self).friendly_duration_on_hit_effects == old(self).friendly_duration_on_hit_effects,
            final(self).friendly_stacking_on_hit_effects == old(self).friendly_stacking_on_hit_effects,
            final(self).enemy_dot_on_hit_effects == old(self).enemy_dot_on_hit_effects,
            final(self).enemy_stacking_on_hit_effects == old(self).enemy_stacking_on_hit_effects,
            final(self).wf(),
    {
        if find_lim(&self.friendly_limited_use_on_hit_effects, &effect.id).is_some() {
            return ;
        }
        if self.friendly_limited_use_on_hit_effects.len() >= EFFECT_CAP {
            return ;
        }
        self.friendly_limited_use_on_hit_effects.push(effect);
    }

    /// Registers a damage-over-time effect this combatant grants on hit.
    /// Re-adding an existing id is a no-op, as is adding at capacity.
    pub fn add_friendly_duration_on_hit_effect(&mut self, effect: DoTEffect)
        requires
            old(self).wf(),
            effect.wf(),
        ensures
            final(self).friendly_duration_on_hit_effects@ == if dot_has_id(
                old(self).friendly_duration_on_hit_effects@,
                effect.id@,
            ) || old(self).friendly_duration_on_hit_effects@.len() >= EFFECT_CAP {
                old(self).friendly_duration_on_hit_effects@
            } else {
                old(self).friendly_duration_on_hit_effects@.push(effect)
            },
            final(self).name == old(self).name,
            final(self).level == old(self).level,
            final(self).champ_stats == old(self).champ_stats,
            final(self).friendly_limited_use_on_hit_effects == old(self).friendly_limited_use_on_hit_effects,
            final(self).friendly_stacking_on_hit_effects == old(self).friendly_stacking_on_hit_effects,
            final(self).enemy_dot_on_hit_effects == old(self).enemy_dot_on_hit_effects,
            final(self).enemy_stacking_on_hit_effects == old(self).enemy_stacking_on_hit_effects,
            final(self).wf(),
    {
        if find_dot(&self.friendly_duration_on_hit_effects, &effect.id).is_some() {
            return ;
        }
        if self.friendly_duration_on_hit_effects.len() >= EFFECT_CAP {
            return ;
        }
        self.friendly_duration_on_hit_effects.push(effect);
    }

    /// Registers a stacking effect this combatant grants on hit. Re-adding an
    /// existing id is a no-op, as is adding at capacity.
    pub fn add_friendly_stacking_on_hit_effect(&mut self, effect: StackingOnHitEffect)
        requires
            old(self).wf(),
            effect.wf(),
        ensures
            final(self).friendly_stacking_on_hit_effects@ == if stk_has_id(
                old(self).friendly_stacking_on_hit_effects@,
                effect.id@,
            ) || old(self).friendly_stacking_on_hit_effects@.len() >= EFFECT_CAP {
                old(self).friendly_stacking_on_hit_effects@
            } else {
                old(self).friendly_stacking_on_hit_effects@.push(effect)
            },
            final(self).name == old(self).name,
            final(self).level == old(self).level,
            final(self).champ_stats == old(self).champ_stats,
            final(self).friendly_limited_use_on_hit_effects == old(self).friendly_limited_use_on_hit_effects,
            final(self).friendly_duration_on_hit_effects == old(self).friendly_duration_on_hit_effects,
            final(self).enemy_dot_on_hit_effects == old(self).enemy_dot_on_hit_effects,
            final(self).enemy_stacking_on_hit_effects == old(self).enemy_stacking_on_hit_effects,
            final(self).wf(),
    {
        if find_stk(&self.friendly_stacking_on_hit_effects, &effect.id).is_some() {
            return ;
        }
        if self.friendly_stacking_on_hit_effects.len() >= EFFECT_CAP {
            return ;
        }
        self.friendly_stacking_on_hit_effects.push(effect);
    }

    /// Afflicts this combatant with a damage-over-time effect. A re-application
    /// of a known id refreshes its damage timer; a new id is registered (while
    /// the registry has room).
    pub fn apply_enemy_dot_on_hit_effect(&mut self, effect: DoTEffect)
        requires
            old(self).wf(),
            effect.wf(),
        ensures
            final(self).enemy_dot_on_hit_effects@ == spec_apply_enemy_dot(
                old(self).enemy_dot_on_hit_effects@,
                effect,
            ),
            final(self).name == old(self).name,
            final(self).level == old(self).level,
            final(self).champ_stats == old(self).champ_stats,
            final(self).friendly_limited_use_on_hit_effects == old(self).friendly_limited_use_on_hit_effects,
            final(self).friendly_duration_on_hit_effects == old(self).friendly_duration_on_hit_effects,
            final(self).friendly_stacking_on_hit_effects == old(self).friendly_stacking_on_hit_effects,
            final(self).enemy_stacking_on_hit_effects == old(self).enemy_stacking_on_hit_effects,
            final(self).wf(),
    {
        match find_dot(&self.enemy_dot_on_hit_effects, &effect.id) {
            Some(i) => {
                proof {
                    assert(old(self).enemy_dot_on_hit_effects@[i as int].wf());
                }
                let mut existing = self.enemy_dot_on_hit_effects.remove(i);
                existing.set_time_left(effect.damage_time_left);
                self.enemy_dot_on_hit_effects.insert(i, existing);
                proof {
                    let s_old = old(self).enemy_dot_on_hit_effects@;
                    let s_new = self.enemy_dot_on_hit_effects@;
                    assert(s_new =~= s_old.update(
                        i as int,
                        DoTEffect {
                            damage_time_left: effect.damage_time_left,
                            ..s_old[i as int]
                        },
                    ));
                    assert(forall|k: int| 0 <= k < s_new.len() ==> #[trigger] s_new[k].wf());
                    assert(forall|x: int, y: int| #![trigger s_new[x].id, s_new[y].id]
                        0 <= x < y < s_new.len() ==> s_new[x].id@ != s_new[y].id@) by {
                        assert(forall|k: int| 0 <= k < s_new.len() ==> #[trigger] s_new[k].id@
                            == s_old[k].id@);
                    }
                    let j = choose|j: int| 0 <= j < s_old.len() && s_old[j].id@ == effect.id@;
                    assert(s_old[i as int].id@ == effect.id@);
                    if j < i as int {
                        assert(s_old[j].id@ != s_old[i as int].id@);
                    } else if j > i as int {
                        assert(s_old[i as int].id@ != s_old[j].id@);
                    }
                    assert(j == i as int);
                    assert(s_new == spec_apply_enemy_dot(s_old, effect));
                }
            },
            None => {
                if self.enemy_dot_on_hit_effects.len() < EFFECT_CAP {
                    self.enemy_dot_on_hit_effects.push(effect);
                }
            },
        }
    }

    /// Afflicts this combatant with a stacking effect. A re-application of a
    /// known id adds one stack while below the cap; a new id starts at one
    /// stack (while the registry has room).
    pub fn apply_enemy_stacking_on_hit_effect(&mut self, effect: StackingOnHitEffect)
        requires
            old(self).wf(),
            effect.wf(),
        ensures
            final(self).enemy_stacking_on_hit_effects@ == spec_apply_enemy_stk(
                old(self).enemy_stacking_on_hit_effects@,
                effect,
            ),
            final(self).name == old(self).name,
            final(self).level == old(self).level,
            final(self).champ_stats == old(self).champ_stats,
            final(self).friendly_limited_use_on_hit_effects == old(self).friendly_limited_use_on_hit_effects,
            final(self).friendly_duration_on_hit_effects == old(self).friendly_duration_on_hit_effects,
            final(self).friendly_stacking_on_hit_effects == old(self).friendly_stacking_on_hit_effects,
            final(self).enemy_dot_on_hit_effects == old(self).enemy_dot_on_hit_effects,
            final(self).wf(),
    {
        match find_stk(&self.enemy_stacking_on_hit_effects, &effect.id) {
            Some(i) => {
                proof {
                    assert(old(self).enemy_stacking_on_hit_effects@[i as int].wf());
                }
                let mut existing = self.enemy_stacking_on_hit_effects.remove(i);
                if existing.current_stacks < existing.max_stacks {
                    let stacks: i64 = existing.current_stacks + 1;
                    existing.set_current_stacks(stacks);
                }
                self.enemy_stacking_on_hit_effects.insert(i, existing);
                proof {
                    let s_old = old(self).enemy_stacking_on_hit_effects@;
                    let s_new = self.enemy_stacking_on_hit_effects@;
                    assert(s_new =~= s_old.update(
                        i as int,
                        StackingOnHitEffect {
                            current_stacks: if s_old[i as int].current_stacks
                                < s_old[i as int].max_stacks {
                                (s_old[i as int].current_stacks + 1) as i64
                            } else {
                                s_old[i as int].current_stacks
                            },
                            ..s_old[i as int]
                        },
                    ));
                    assert(forall|k: int| 0 <= k < s_new.len() ==> #[trigger] s_new[k].wf());
                    assert(forall|x: int, y: int| #![trigger s_new[x].id, s_new[y].id]
                        0 <= x < y < s_new.len() ==> s_new[x].id@ != s_new[y].id@) by {
                        assert(forall|k: int| 0 <= k < s_new.len() ==> #[trigger] s_new[k].id@
                            == s_old[k].id@);
                    }
                    let j = choose|j: int| 0 <= j < s_old.len() && s_old[j].id@ == effect.id@;
                    assert(s_old[i as int].id@ == effect.id@);
                    if j < i as int {
                        assert(s_old[j].id@ != s_old[i as int].id@);
                    } else if j > i as int {
                        assert(s_old[i as int].id@ != s_old[j].id@);
                    }
                    assert(j == i as int);
                    assert(s_new == spec_apply_enemy_stk(s_old, effect));
                }
            },
            None => {
                if self.enemy_stacking_on_hit_effects.len() < EFFECT_CAP {
                    let mut fresh = effect;
                    fresh.set_current_stacks(1);
                    self.enemy_stacking_on_hit_effects.push(fresh);
                }
            },
        }
    }

    /// Clears an effect id from every registry of effects this combatant
    /// grants. An unknown id is a no-op.
    pub fn remove_on_hit_effect(&mut self, id: &str)
        requires
            old(self).wf(),
        ensures
            lim_has_id(old(self).friendly_limited_use_on_hit_effects@, id@) ==> exists|i: int|
                0 <= i < old(self).friendly_limited_use_on_hit_effects@.len()
                    && old(self).friendly_limited_use_on_hit_effects@[i].id@ == id@ && final(self).friendly_limited_use_on_hit_effects@ == old(self).friendly_limited_use_on_hit_effects@.remove(i),
            !lim_has_id(old(self).friendly_limited_use_on_hit_effects@, id@) ==> final(self).friendly_limited_use_on_hit_effects@ == old(self).friendly_limited_use_on_hit_effects@,
            dot_has_id(old(self).friendly_duration_on_hit_effects@, id@) ==> exists|i: int|
                0 <= i < old(self).friendly_duration_on_hit_effects@.len()
                    && old(self).friendly_duration_on_hit_effects@[i].id@ == id@ && final(self).friendly_duration_on_hit_effects@ == old(self).friendly_duration_on_hit_effects@.remove(i),
            !dot_has_id(old(self).friendly_duration_on_hit_effects@, id@) ==> final(self).friendly_duration_on_hit_effects@ == old(self).friendly_duration_on_hit_effects@,
            stk_has_id(old(self).friendly_stacking_on_hit_effects@, id@) ==> exists|i: int|
                0 <= i < old(self).friendly_stacking_on_hit_effects@.len()
                    && old(self).friendly_stacking_on_hit_effects@[i].id@ == id@ && final(self).friendly_stacking_on_hit_effects@ == old(self).friendly_stacking_on_hit_effects@.remove(i),
            !stk_has_id(old(self).friendly_stacking_on_hit_effects@, id@) ==> final(self).friendly_stacking_on_hit_effects@ == old(self).friendly_stacking_on_hit_effects@,
            final(self).name == old(self).name,
            final(self).level == old(self).level,
            final(self).champ_stats == old(self).champ_stats,
            final(self).enemy_dot_on_hit_effects == old(self).enemy_dot_on_hit_effects,
            final(self).enemy_stacking_on_hit_effects == old(self).enemy_stacking_on_hit_effects,
            final(self).wf(),
    {
        let key: String = id.to_owned();
        match find_lim(&self.friendly_limited_use_on_hit_effects, &key) {
            Some(i) => {
                self.friendly_limited_use_on_hit_effects.remove(i);
            },
            None => {},
        }
        match find_dot(&self.friendly_duration_on_hit_effects, &key) {
            Some(i) => {
                self.friendly_duration_on_hit_effects.remove(i);
            },
            None => {},
        }
        match find_stk(&self.friendly_stacking_on_hit_effects, &key) {
            Some(i) => {
                self.friendly_stacking_on_hit_effects.remove(i);
            },
            None => {},
        }
    }
}

impl Champion {
    /// Sets the level and recomputes every leveled stat from its base values.
    pub fn set_level(&mut self, level: i32)
        requires
            old(self).wf(),
            1 <= level <= crate::fixed::LEVEL_LIMIT,
        ensures
            final(self).level == level,
            final(self).champ_stats == crate::champion::stats::spec_stats_at_level(
                old(self).champ_stats,
                level as int,
            ),
            final(self).name == old(self).name,
            final(self).friendly_limited_use_on_hit_effects == old(
                self,
            ).friendly_limited_use_on_hit_effects,
            final(self).friendly_duration_on_hit_effects == old(
                self,
            ).friendly_duration_on_hit_effects,
            final(self).friendly_stacking_on_hit_effects == old(
                self,
            ).friendly_stacking_on_hit_effects,
            final(self).enemy_dot_on_hit_effects == old(self).enemy_dot_on_hit_effects,
            final(self).enemy_stacking_on_hit_effects == old(self).enemy_stacking_on_hit_effects,
            final(self).wf(),
    {
        self.level = level;
        self.champ_stats.calculate_stats_from_level(level);
    }

    /// Physical damage taken through an effective-armor value.
    pub fn calculate_physical_damage_taken(&self, effective: i64, damage: i64) -> (r: i64)
        requires
            -MITIGATION_LIMIT <= effective <= MITIGATION_LIMIT,
            0 <= damage <= RAW_DMG_LIMIT,
        ensures
            r == damage_taken(effective as int, damage as int),
            0 <= r <= 2 * damage,
    {
        proof {
            lemma_damage_taken_range(effective as int, damage as int);
        }
        if effective >= 0 {
            mul_div_round(damage, crate::fixed::HUNDRED, crate::fixed::HUNDRED + effective)
        } else {
            mul_div_round(
                damage,
                crate::fixed::HUNDRED - 2 * effective,
                crate::fixed::HUNDRED - effective,
            )
        }
    }

    /// Magical damage taken through an effective-magic-resist value.
    pub fn calculate_magical_damage_taken(&self, effective: i64, damage: i64) -> (r: i64)
        requires
            -MITIGATION_LIMIT <= effective <= MITIGATION_LIMIT,
            0 <= damage <= RAW_DMG_LIMIT,
        ensures
            r == damage_taken(effective as int, damage as int),
            0 <= r <= 2 * damage,
    {
        proof {
            lemma_damage_taken_range(effective as int, damage as int);
        }
        if effective >= 0 {
            mul_div_round(damage, crate::fixed::HUNDRED, crate::fixed::HUNDRED + effective)
        } else {
            mul_div_round(
                damage,
                crate::fixed::HUNDRED - 2 * effective,
                crate::fixed::HUNDRED - effective,
            )
        }
    }

    /// Lands the physical component on this combatant: physical-only shield,
    /// then generic shield, then health; the component is fully consumed.
    pub fn take_physical_damage(&mut self, damage: &mut Damage)
        requires
            old(self).wf(),
            old(damage).wf(),
        ensures
            final(self).champ_stats == spec_take_physical(
                old(self).champ_stats,
                old(damage).physical_component as int,
            ),
            *final(damage) == (Damage { physical_component: 0, ..*old(damage) }),
            final(self).champ_stats.health <= old(self).champ_stats.health,
            final(self).name == old(self).name,
            final(self).level == old(self).level,
            final(self).friendly_limited_use_on_hit_effects == old(
                self,
            ).friendly_limited_use_on_hit_effects,
            final(self).friendly_duration_on_hit_effects == old(
                self,
            ).friendly_duration_on_hit_effects,
            final(self).friendly_stacking_on_hit_effects == old(
                self,
            ).friendly_stacking_on_hit_effects,
            final(self).enemy_dot_on_hit_effects == old(self).enemy_dot_on_hit_effects,
            final(self).enemy_stacking_on_hit_effects == old(self).enemy_stacking_on_hit_effects,
            final(self).wf(),
            final(damage).wf(),
    {
        let dmg: i64 = damage.physical_component;
        let p: i64 = if dmg <= self.champ_stats.physical_shield_amount {
            dmg
        } else {
            self.champ_stats.physical_shield_amount
        };
        self.champ_stats.physical_shield_amount = self.champ_stats.physical_shield_amount - p;
        let rem1: i64 = dmg - p;
        let g: i64 = if rem1 <= self.champ_stats.shield_amount {
            rem1
        } else {
            self.champ_stats.shield_amount
        };
        self.champ_stats.shield_amount = self.champ_stats.shield_amount - g;
        let rem2: i64 = rem1 - g;
        if rem2 > 0 {
            if self.champ_stats.health <= rem2 {
                self.champ_stats.health = 0;
            } else {
                proof {
                    lemma_round_unit_fixed(old(self).champ_stats.health as int);
                    lemma_round_unit_monotone(
                        old(self).champ_stats.health - rem2,
                        old(self).champ_stats.health as int,
                    );
                }
                self.champ_stats.health = round_to_unit(self.champ_stats.health - rem2);
            }
        }
        damage.physical_component = 0;
    }

    /// Lands the magical component on this combatant: magic-only shield, then
    /// generic shield, then health; the component is fully consumed.
    pub fn take_magical_damage(&mut self, damage: &mut Damage)
        requires
            old(self).wf(),
            old(damage).wf(),
        ensures
            final(self).champ_stats == spec_take_magical(
                old(self).champ_stats,
                old(damage).magical_component as int,
            ),
            *final(damage) == (Damage { magical_component: 0, ..*old(damage) }),
            final(self).champ_stats.health <= old(self).champ_stats.health,
            final(self).name == old(self).name,
            final(self).level == old(self).level,
            final(self).friendly_limited_use_on_hit_effects == old(
                self,
            ).friendly_limited_use_on_hit_effects,
            final(self).friendly_duration_on_hit_effects == old(
                self,
            ).friendly_duration_on_hit_effects,
            final(self).friendly_stacking_on_hit_effects == old(
                self,
            ).friendly_stacking_on_hit_effects,
            final(self).enemy_dot_on_hit_effects == old(self).enemy_dot_on_hit_effects,
            final(self).enemy_stacking_on_hit_effects == old(self).enemy_stacking_on_hit_effects,
            final(self).wf(),
            final(damage).wf(),
    {
        let dmg: i64 = damage.magical_component;
        let m: i64 = if dmg <= self.champ_stats.magic_shield_amount {
            dmg
        } else {
            self.champ_stats.magic_shield_amount
        };
        self.champ_stats.magic_shield_amount = self.champ_stats.magic_shield_amount - m;
        let rem1: i64 = dmg - m;
        let g: i64 = if rem1 <= self.champ_stats.shield_amount {
            rem1
        } else {
            self.champ_stats.shield_amount
        };
        self.champ_stats.shield_amount = self.champ_stats.shield_amount - g;
        let rem2: i64 = rem1 - g;
        if rem2 > 0 {
            if self.champ_stats.health <= rem2 {
                self.champ_stats.health = 0;
            } else {
                proof {
                    lemma_round_unit_fixed(old(self).champ_stats.health as int);
                    lemma_round_unit_monotone(
                        old(self).champ_stats.health - rem2,
                        old(self).champ_stats.health as int,
                    );
                }
                self.champ_stats.health = round_to_unit(self.champ_stats.health - rem2);
            }
        }
        damage.magical_component = 0;
    }

    /// Lands the true component on this combatant: only the generic shield
    /// absorbs, health takes the rest; the component is fully consumed.
    pub fn take_true_damage(&mut self, damage: &mut Damage)
        requires
            old(self).wf(),
            old(damage).wf(),
        ensures
            final(self).champ_stats == spec_take_true(
                old(self).champ_stats,
                old(damage).true_component as int,
            ),
            *final(damage) == (Damage { true_component: 0, ..*old(damage) }),
            final(self).champ_stats.health <= old(self).champ_stats.health,
            final(self).name == old(self).name,
            final(self).level == old(self).level,
            final(self).friendly_limited_use_on_hit_effects == old(
                self,
            ).friendly_limited_use_on_hit_effects,
            final(self).friendly_duration_on_hit_effects == old(
                self,
            ).friendly_duration_on_hit_effects,
            final(self).friendly_stacking_on_hit_effects == old(
                self,
            ).friendly_stacking_on_hit_effects,
            final(self).enemy_dot_on_hit_effects == old(self).enemy_dot_on_hit_effects,
            final(self).enemy_stacking_on_hit_effects == old(self).enemy_stacking_on_hit_effects,
            final(self).wf(),
            final(damage).wf(),
    {
        let dmg: i64 = damage.true_component;
        let g: i64 = if dmg <= self.champ_stats.shield_amount {
            dmg
        } else {
            self.champ_stats.shield_amount
        };
        self.champ_stats.shield_amount = self.champ_stats.shield_amount - g;
        let rem: i64 = dmg - g;
        if rem > 0 {
            if self.champ_stats.health <= rem {
                self.champ_stats.health = 0;
            } else {
                proof {
                    lemma_round_unit_fixed(old(self).champ_stats.health as int);
                    lemma_round_unit_monotone(
                        old(self).champ_stats.health - rem,
                        old(self).champ_stats.health as int,
                    );
                }
                self.champ_stats.health = round_to_unit(self.champ_stats.health - rem);
            }
        }
        damage.true_component = 0;
    }

    /// Lands a full damage accumulator, one type at a time in the fixed order
    /// physical, magical, true.
    pub fn take_damage(&mut self, damage: Damage)
        requires
            old(self).wf(),
            damage.wf(),
        ensures
            final(self).champ_stats == spec_take_damage(old(self).champ_stats, damage),
            final(self).champ_stats.health <= old(self).champ_stats.health,
            final(self).name == old(self).name,
            final(self).level == old(self).level,
            final(self).friendly_limited_use_on_hit_effects == old(
                self,
            ).friendly_limited_use_on_hit_effects,
            final(self).friendly_duration_on_hit_effects == old(
                self,
            ).friendly_duration_on_hit_effects,
            final(self).friendly_stacking_on_hit_effects == old(
                self,
            ).friendly_stacking_on_hit_effects,
            final(self).enemy_dot_on_hit_effects == old(self).enemy_dot_on_hit_effects,
            final(self).enemy_stacking_on_hit_effects == old(self).enemy_stacking_on_hit_effects,
            final(self).wf(),
    {
        let mut remaining = damage;
        self.take_physical_damage(&mut remaining);
        self.take_magical_damage(&mut remaining);
        self.take_true_damage(&mut remaining);
    }

    /// Total flat on-hit damage, per damage type, of the attacker's limited-use
    /// effects that still have uses left.
    pub fn calculate_on_hit_damage(&self, source: &Champion) -> (r: Damage)
        requires
            source.wf(),
        ensures
            r.physical_component == on_hit_sum(
                source.friendly_limited_use_on_hit_effects@,
                DamageType::Physical,
            ),
            r.magical_component == on_hit_sum(
                source.friendly_limited_use_on_hit_effects@,
                DamageType::Magical,
            ),
            r.true_component == on_hit_sum(
                source.friendly_limited_use_on_hit_effects@,
                DamageType::True,
            ),
            r.wf(),
    {
        let mut physical: i64 = 0;
        let mut magical: i64 = 0;
        let mut true_dmg: i64 = 0;
        let n: usize = source.friendly_limited_use_on_hit_effects.len();
        for i in 0..n
            invariant
                n == source.friendly_limited_use_on_hit_effects@.len(),
                lim_reg_wf(source.friendly_limited_use_on_hit_effects@),
                physical == on_hit_sum(
                    source.friendly_limited_use_on_hit_effects@.take(i as int),
                    DamageType::Physical,
                ),
                magical == on_hit_sum(
                    source.friendly_limited_use_on_hit_effects@.take(i as int),
                    DamageType::Magical,
                ),
                true_dmg == on_hit_sum(
                    source.friendly_limited_use_on_hit_effects@.take(i as int),
                    DamageType::True,
                ),
                0 <= physical <= i * STAT_LIMIT,
                0 <= magical <= i * STAT_LIMIT,
                0 <= true_dmg <= i * STAT_LIMIT,
        {
            proof {
                let s = source.friendly_limited_use_on_hit_effects@;
                assert(s.take(i + 1).drop_last() =~= s.take(i as int));
                assert(s.take(i + 1).last() == s[i as int]);
                assert(s[i as int].wf());
            }
            let e = &source.friendly_limited_use_on_hit_effects[i];
            if e.num_uses > 0 {
                match e.damage_type {
                    DamageType::Physical => {
                        physical = physical + e.damage;
                    },
                    DamageType::Magical => {
                        magical = magical + e.damage;
                    },
                    DamageType::True => {
                        true_dmg = true_dmg + e.damage;
                    },
                }
            }
        }
        proof {
            let s = source.friendly_limited_use_on_hit_effects@;
            assert(s.take(n as int) =~= s);
            assert(n * STAT_LIMIT <= DMG_LIMIT);
        }
        Damage::new(physical, magical, true_dmg)
    }

    /// Spends one use on every limited-use effect this combatant grants; all
    /// effects with uses left decrement together per attack landed.
    pub fn decrement_limited_use_on_hit_effects(&mut self)
        requires
            old(self).wf(),
        ensures
            final(self).friendly_limited_use_on_hit_effects@ == old(
                self,
            ).friendly_limited_use_on_hit_effects@.map_values(
                |e: LimitedUseOnHitEffect| spec_dec_uses(e),
            ),
            final(self).name == old(self).name,
            final(self).level == old(self).level,
            final(self).champ_stats == old(self).champ_stats,
            final(self).friendly_duration_on_hit_effects == old(
                self,
            ).friendly_duration_on_hit_effects,
            final(self).friendly_stacking_on_hit_effects == old(
                self,
            ).friendly_stacking_on_hit_effects,
            final(self).enemy_dot_on_hit_effects == old(self).enemy_dot_on_hit_effects,
            final(self).enemy_stacking_on_hit_effects == old(self).enemy_stacking_on_hit_effects,
            final(self).wf(),
    {
        let mut updated: Vec<LimitedUseOnHitEffect> = Vec::new();
        let n: usize = self.friendly_limited_use_on_hit_effects.len();
        for i in 0..n
            invariant
                n == self.friendly_limited_use_on_hit_effects@.len(),
                self.friendly_limited_use_on_hit_effects == old(
                    self,
                ).friendly_limited_use_on_hit_effects,
                lim_reg_wf(self.friendly_limited_use_on_hit_effects@),
                updated@.len() == i,
                forall|k: int|
                    0 <= k < i ==> #[trigger] updated@[k] == spec_dec_uses(
                        self.friendly_limited_use_on_hit_effects@[k],
                    ),
        {
            proof {
                assert(self.friendly_limited_use_on_hit_effects@[i as int].wf());
            }
            let mut e = self.friendly_limited_use_on_hit_effects[i].duplicate();
            e.reduce_num_uses();
            updated.push(e);
        }
        self.friendly_limited_use_on_hit_effects = updated;
        proof {
            let s_old = old(self).friendly_limited_use_on_hit_effects@;
            let s_new = self.friendly_limited_use_on_hit_effects@;
            let m = s_old.map_values(|e: LimitedUseOnHitEffect| spec_dec_uses(e));
            assert(forall|k: int|
                0 <= k < s_old.len() ==> (#[trigger] m[k]) == spec_dec_uses(s_old[k]));
            assert(s_new =~= m) by {
                assert(s_new.len() == s_old.len());
                assert(forall|k: int|
                    0 <= k < s_new.len() ==> (#[trigger] s_new[k]) == spec_dec_uses(s_old[k]));
            }
            assert(forall|k: int|
                0 <= k < s_new.len() ==> (#[trigger] s_new[k]) == spec_dec_uses(s_old[k]));
            assert(forall|k: int| 0 <= k < s_old.len() ==> (#[trigger] s_old[k]).wf());
            assert(forall|k: int| 0 <= k < s_new.len() ==> (#[trigger] s_new[k]).wf());
            assert(forall|x: int, y: int| #![trigger s_new[x].id, s_new[y].id]
                0 <= x < y < s_new.len() ==> s_new[x].id@ != s_new[y].id@) by {
                assert(forall|k: int| 0 <= k < s_new.len() ==> #[trigger] s_new[k].id@
                    == s_old[k].id@);
            }
        }
    }

    /// The mitigated damage of the base hit of one basic attack, for a given
    /// crit roll: a roll under the attacker's crit chance lands a critical.
    pub fn calculate_physical_damage_taken_from_aa_with_roll(
        &self,
        effective: i64,
        source: &ChampStats,
        roll: i64,
    ) -> (r: Damage)
        requires
            source.wf(),
            -MITIGATION_LIMIT <= effective <= MITIGATION_LIMIT,
        ensures
            r == spec_aa_damage(effective as int, *source, roll as int),
            r.physical_component <= 800_000_000_000_000,
            r.wf(),
    {
        let mut physical: i64 = source.ad;
        if roll < source.crit {
            let mult: i64 = calculate_crit_damage_multiplier_from_target(source);
            proof {
                assert(0 <= source.ad as int * mult as int <= 400_000_000_000_000 * (
                SCALE as int)) by (nonlinear_arith)
                    requires
                        0 <= source.ad <= STAT_LIMIT,
                        0 <= mult <= 12_000_000,
                        STAT_LIMIT == 30_000_000_000_000,
                        SCALE == 1_000_000,
                ;
                lemma_round_div_mag(source.ad as int * mult as int, SCALE as int, 400_000_000_000_000);
                lemma_round_div_nonneg_bounds(source.ad as int * mult as int, SCALE as int);
            }
            physical = mul_div_round(physical, mult, SCALE);
        }
        let taken: i64 = self.calculate_physical_damage_taken(effective, physical);
        Damage::new(taken, 0, 0)
    }

    /// The mitigated damage of the base hit of one basic attack. When the
    /// attacker has any crit chance the roll is drawn from the random source;
    /// the result is the with-roll computation for some roll, pinned exactly at
    /// the two deterministic extremes of zero and full crit chance.
    pub fn calculate_physical_damage_taken_from_aa(
        &self,
        effective: i64,
        source: &ChampStats,
    ) -> (r: Damage)
        requires
            source.wf(),
            -MITIGATION_LIMIT <= effective <= MITIGATION_LIMIT,
        ensures
            exists|roll: int|
                0 <= roll <= SCALE && r == spec_aa_damage(effective as int, *source, roll),
            source.crit == 0 ==> r == spec_aa_damage(effective as int, *source, SCALE as int),
            source.crit == SCALE ==> r == spec_aa_damage(effective as int, *source, 0),
            r.physical_component <= 800_000_000_000_000,
            r.wf(),
    {
        let roll: i64 = if source.crit > 0 {
            sample_unit_fraction()
        } else {
            SCALE
        };
        let r = self.calculate_physical_damage_taken_from_aa_with_roll(effective, source, roll);
        proof {
            assert(0 <= roll as int <= SCALE && r == spec_aa_damage(
                effective as int,
                *source,
                roll as int,
            ));
            if source.crit == SCALE {
                assert(roll < SCALE);
                assert(aa_raw(
                    source.ad as int,
                    source.crit as int,
                    source.bonus_crit_percent as int,
                    roll as int,
                ) == aa_raw(
                    source.ad as int,
                    source.crit as int,
                    source.bonus_crit_percent as int,
                    0,
                ));
            }
        }
        r
    }

    /// One tick of time passing for the effects this combatant grants: expired
    /// finite effects are purged, surviving finite ones lose one tick.
    pub fn decrement_own_effect_time_left(&mut self)
        requires
            old(self).wf(),
        ensures
            final(self).friendly_duration_on_hit_effects@ == spec_decay_dots(
                old(self).friendly_duration_on_hit_effects@,
            ),
            final(self).friendly_stacking_on_hit_effects@ == spec_decay_stks(
                old(self).friendly_stacking_on_hit_effects@,
            ),
            final(self).name == old(self).name,
            final(self).level == old(self).level,
            final(self).champ_stats == old(self).champ_stats,
            final(self).friendly_limited_use_on_hit_effects == old(
                self,
            ).friendly_limited_use_on_hit_effects,
            final(self).enemy_dot_on_hit_effects == old(self).enemy_dot_on_hit_effects,
            final(self).enemy_stacking_on_hit_effects == old(self).enemy_stacking_on_hit_effects,
            final(self).wf(),
    {
        let dots = decay_dot_vec(&self.friendly_duration_on_hit_effects);
        self.friendly_duration_on_hit_effects = dots;
        let stks = decay_stk_vec(&self.friendly_stacking_on_hit_effects);
        self.friendly_stacking_on_hit_effects = stks;
    }

    /// One tick of time passing for the effects afflicting this combatant.
    pub fn decrement_enemy_effect_time_left(&mut self)
        requires
            old(self).wf(),
        ensures
            final(self).enemy_dot_on_hit_effects@ == spec_decay_dots(
                old(self).enemy_dot_on_hit_effects@,
            ),
            final(self).enemy_stacking_on_hit_effects@ == spec_decay_stks(
                old(self).enemy_stacking_on_hit_effects@,
            ),
            final(self).name == old(self).name,
            final(self).level == old(self).level,
            final(self).champ_stats == old(self).champ_stats,
            final(self).friendly_limited_use_on_hit_effects == old(
                self,
            ).friendly_limited_use_on_hit_effects,
            final(self).friendly_duration_on_hit_effects == old(
                self,
            ).friendly_duration_on_hit_effects,
            final(self).friendly_stacking_on_hit_effects == old(
                self,
            ).friendly_stacking_on_hit_effects,
            final(self).wf(),
    {
        let dots = decay_dot_vec(&self.enemy_dot_on_hit_effects);
        self.enemy_dot_on_hit_effects = dots;
        let stks = decay_stk_vec(&self.enemy_stacking_on_hit_effects);
        self.enemy_stacking_on_hit_effects = stks;
    }

    /// Lands one tick of the afflicting damage-over-time effect with the given
    /// id, mitigated by this combatant's current armor or magic resist, bonus
    /// included. An unknown id deals nothing.
    pub fn take_dot_damage(&mut self, id: &String) -> (r: Damage)
        requires
            old(self).wf(),
        ensures
            forall|i: int|
                0 <= i < old(self).enemy_dot_on_hit_effects@.len() && (#[trigger] old(
                    self,
                ).enemy_dot_on_hit_effects@[i].id)@ == id@ ==> r == spec_dot_damage(
                    old(self).champ_stats,
                    old(self).enemy_dot_on_hit_effects@[i],
                ) && final(self).champ_stats == spec_take_damage(old(self).champ_stats, r),
            !dot_has_id(old(self).enemy_dot_on_hit_effects@, id@) ==> final(self).champ_stats
                == old(self).champ_stats && r == (Damage {
                physical_component: 0,
                magical_component: 0,
                true_component: 0,
            }),
            final(self).champ_stats.health <= old(self).champ_stats.health,
            final(self).name == old(self).name,
            final(self).level == old(self).level,
            final(self).friendly_limited_use_on_hit_effects == old(
                self,
            ).friendly_limited_use_on_hit_effects,
            final(self).friendly_duration_on_hit_effects == old(
                self,
            ).friendly_duration_on_hit_effects,
            final(self).friendly_stacking_on_hit_effects == old(
                self,
            ).friendly_stacking_on_hit_effects,
            final(self).enemy_dot_on_hit_effects == old(self).enemy_dot_on_hit_effects,
            final(self).enemy_stacking_on_hit_effects == old(self).enemy_stacking_on_hit_effects,
            final(self).wf(),
            r.wf(),
    {
        let effective_armor: i64 = self.champ_stats.armor + self.champ_stats.bonus_armor;
        let effective_mr: i64 = self.champ_stats.mr + self.champ_stats.bonus_mr;
        match find_dot(&self.enemy_dot_on_hit_effects, id) {
            Some(i) => {
                proof {
                    assert(self.enemy_dot_on_hit_effects@[i as int].wf());
                }
                let dot: i64 = self.enemy_dot_on_hit_effects[i].damage_over_time;
                let dmg: Damage = match self.enemy_dot_on_hit_effects[i].damage_type {
                    DamageType::Physical => Damage::new(
                        self.calculate_physical_damage_taken(effective_armor, dot),
                        0,
                        0,
                    ),
                    DamageType::Magical => Damage::new(
                        0,
                        self.calculate_magical_damage_taken(effective_mr, dot),
                        0,
                    ),
                    DamageType::True => Damage::new(0, 0, dot),
                };
                self.take_damage(dmg);
                proof {
                    let s = old(self).enemy_dot_on_hit_effects@;
                    assert(forall|j: int|
                        0 <= j < s.len() && (#[trigger] s[j].id)@ == id@ ==> j == i as int);
                }
                dmg
            },
            None => Damage::new(0, 0, 0),
        }
    }

    /// Fires every afflicting damage-over-time effect that is due on this tick,
    /// in registry order, and reports the accumulated damage.
    pub fn calculate_and_apply_dot_effects(&mut self, tick: i32) -> (r: Damage)
        requires
            old(self).wf(),
            tick >= 0,
        ensures
            ({
                let end = spec_apply_dots(
                    old(self).champ_stats,
                    old(self).enemy_dot_on_hit_effects@,
                    tick as int,
                );
                &&& final(self).champ_stats == end.0
                &&& r.physical_component == end.1.0
                &&& r.magical_component == end.1.1
                &&& r.true_component == end.1.2
            }),
            final(self).champ_stats.health <= old(self).champ_stats.health,
            final(self).name == old(self).name,
            final(self).level == old(self).level,
            final(self).friendly_limited_use_on_hit_effects == old(
                self,
            ).friendly_limited_use_on_hit_effects,
            final(self).friendly_duration_on_hit_effects == old(
                self,
            ).friendly_duration_on_hit_effects,
            final(self).friendly_stacking_on_hit_effects == old(
                self,
            ).friendly_stacking_on_hit_effects,
            final(self).enemy_dot_on_hit_effects == old(self).enemy_dot_on_hit_effects,
            final(self).enemy_stacking_on_hit_effects == old(self).enemy_stacking_on_hit_effects,
            final(self).wf(),
            r.wf(),
    {
        let mut total = Damage::new(0, 0, 0);
        let n: usize = self.enemy_dot_on_hit_effects.len();
        for i in 0..n
            invariant
                n == self.enemy_dot_on_hit_effects@.len(),
                tick >= 0,
                self.enemy_dot_on_hit_effects == old(self).enemy_dot_on_hit_effects,
                self.name == old(self).name,
                self.level == old(self).level,
                self.friendly_limited_use_on_hit_effects == old(
                    self,
                ).friendly_limited_use_on_hit_effects,
                self.friendly_duration_on_hit_effects == old(self).friendly_duration_on_hit_effects,
                self.friendly_stacking_on_hit_effects == old(self).friendly_stacking_on_hit_effects,
                self.enemy_stacking_on_hit_effects == old(self).enemy_stacking_on_hit_effects,
                self.wf(),
                total.wf(),
                ({
                    let mid = spec_apply_dots(
                        old(self).champ_stats,
                        old(self).enemy_dot_on_hit_effects@.take(i as int),
                        tick as int,
                    );
                    &&& self.champ_stats == mid.0
                    &&& total.physical_component == mid.1.0
                    &&& total.magical_component == mid.1.1
                    &&& total.true_component == mid.1.2
                }),
                self.champ_stats.health <= old(self).champ_stats.health,
                0 <= total.physical_component <= i * 60_000_000_000_000,
                0 <= total.magical_component <= i * 60_000_000_000_000,
                0 <= total.true_component <= i * 60_000_000_000_000,
        {
            proof {
                let s = old(self).enemy_dot_on_hit_effects@;
                assert(s.take(i + 1).drop_last() =~= s.take(i as int));
                assert(s.take(i + 1).last() == s[i as int]);
                assert(s[i as int].wf());
            }
            let rate: i32 = self.enemy_dot_on_hit_effects[i].tick_rate.value();
            if tick % rate == 0 {
                let key: String = self.enemy_dot_on_hit_effects[i].id.clone();
                let ghost pre_stats = self.champ_stats;
                let d: Damage = self.take_dot_damage(&key);
                proof {
                    let s = old(self).enemy_dot_on_hit_effects@;
                    assert(s[i as int].id@ == key@);
                    assert(d == spec_dot_damage(pre_stats, s[i as int]));
                    lemma_damage_taken_range(
                        pre_stats.armor + pre_stats.bonus_armor,
                        s[i as int].damage_over_time as int,
                    );
                    lemma_damage_taken_range(
                        pre_stats.mr + pre_stats.bonus_mr,
                        s[i as int].damage_over_time as int,
                    );
                    assert(d.physical_component <= 60_000_000_000_000);
                    assert(d.magical_component <= 60_000_000_000_000);
                    assert(d.true_component <= 60_000_000_000_000);
                    assert(n <= EFFECT_CAP);
                }
                total.add_assign(d);
            }
        }
        proof {
            assert(old(self).enemy_dot_on_hit_effects@.take(n as int) =~= old(
                self,
            ).enemy_dot_on_hit_effects@);
        }
        total
    }

    /// Resolves one basic attack from `source` onto this combatant, for a given
    /// crit roll: mitigation is computed for this attacker, the base hit and
    /// the attacker's on-hit damage land through the shield order, and every
    /// limited-use effect of the attacker with uses left spends one use.
    pub fn take_auto_attack_damage_with_roll(
        &mut self,
        source: &mut Champion,
        roll: i64,
    ) -> (r: Damage)
        requires
            old(self).wf(),
            old(source).wf(),
            0 <= roll <= SCALE,
        ensures
            r == spec_attack_damage(
                old(self).champ_stats,
                old(source).champ_stats,
                old(source).friendly_limited_use_on_hit_effects@,
                roll as int,
            ),
            final(self).champ_stats == spec_take_damage(old(self).champ_stats, r),
            final(self).champ_stats.health <= old(self).champ_stats.health,
            final(self).name == old(self).name,
            final(self).level == old(self).level,
            final(self).friendly_limited_use_on_hit_effects == old(
                self,
            ).friendly_limited_use_on_hit_effects,
            final(self).friendly_duration_on_hit_effects == old(
                self,
            ).friendly_duration_on_hit_effects,
            final(self).friendly_stacking_on_hit_effects == old(
                self,
            ).friendly_stacking_on_hit_effects,
            final(self).enemy_dot_on_hit_effects == old(self).enemy_dot_on_hit_effects,
            final(self).enemy_stacking_on_hit_effects == old(self).enemy_stacking_on_hit_effects,
            final(source).friendly_limited_use_on_hit_effects@ == old(
                source,
            ).friendly_limited_use_on_hit_effects@.map_values(
                |e: LimitedUseOnHitEffect| spec_dec_uses(e),
            ),
            final(source).name == old(source).name,
            final(source).level == old(source).level,
            final(source).champ_stats == old(source).champ_stats,
            final(source).friendly_duration_on_hit_effects == old(
                source,
            ).friendly_duration_on_hit_effects,
            final(source).friendly_stacking_on_hit_effects == old(
                source,
            ).friendly_stacking_on_hit_effects,
            final(source).enemy_dot_on_hit_effects == old(source).enemy_dot_on_hit_effects,
            final(source).enemy_stacking_on_hit_effects == old(
                source,
            ).enemy_stacking_on_hit_effects,
            final(self).wf(),
            final(source).wf(),
            r.wf(),
    {
        let effective_armor: i64 = self.champ_stats.calculate_armor_reduction(
            &source.champ_stats,
        );
        let effective_mr: i64 = self.champ_stats.calculate_magic_resist_reduction(
            &source.champ_stats,
        );

        let mut aa_damage: Damage = self.calculate_physical_damage_taken_from_aa_with_roll(
            effective_armor,
            &source.champ_stats,
            roll,
        );

        let on_hit_pre: Damage = self.calculate_on_hit_damage(source);
        proof {
            lemma_on_hit_sum_bound(
                old(source).friendly_limited_use_on_hit_effects@,
                DamageType::Physical,
            );
            lemma_on_hit_sum_bound(
                old(source).friendly_limited_use_on_hit_effects@,
                DamageType::Magical,
            );
            lemma_on_hit_sum_bound(
                old(source).friendly_limited_use_on_hit_effects@,
                DamageType::True,
            );
            assert(old(source).friendly_limited_use_on_hit_effects@.len() * STAT_LIMIT
                <= RAW_DMG_LIMIT);
        }
        let on_hit_physical: i64 = self.calculate_physical_damage_taken(
            effective_armor,
            on_hit_pre.physical_component,
        );
        let on_hit_magical: i64 = self.calculate_magical_damage_taken(
            effective_mr,
            on_hit_pre.magical_component,
        );
        let on_hit_damage: Damage = Damage::new(
            on_hit_physical,
            on_hit_magical,
            on_hit_pre.true_component,
        );

        aa_damage.add_assign(on_hit_damage);
        proof {
            let spec_d = spec_attack_damage(
                old(self).champ_stats,
                old(source).champ_stats,
                old(source).friendly_limited_use_on_hit_effects@,
                roll as int,
            );
            let def = old(self).champ_stats;
            let atk = old(source).champ_stats;
            let onhits = old(source).friendly_limited_use_on_hit_effects@;
            let ea = crate::champion::stats::effective_armor(
                def.armor as int,
                def.bonus_armor as int,
                atk.armor_reduction as int,
                atk.percent_armor_reduction as int,
                atk.percent_bonus_armor_pen as int,
                atk.lethality as int,
            );
            let em = crate::champion::stats::effective_mr(
                def.mr as int,
                def.bonus_mr as int,
                atk.flat_mr_reduction as int,
                atk.percent_mr_reduction as int,
                atk.percent_mr_pen as int,
                atk.mr_pen as int,
            );
            lemma_aa_raw_range(atk, roll as int);
            lemma_damage_taken_range(
                ea,
                aa_raw(atk.ad as int, atk.crit as int, atk.bonus_crit_percent as int, roll as int),
            );
            lemma_damage_taken_range(ea, on_hit_sum(onhits, DamageType::Physical));
            lemma_damage_taken_range(em, on_hit_sum(onhits, DamageType::Magical));
            assert(aa_damage.physical_component == spec_d.physical_component);
            assert(aa_damage.magical_component == spec_d.magical_component);
            assert(aa_damage.true_component == spec_d.true_component);
            assert(aa_damage == spec_d);
        }

        self.take_damage(aa_damage);

        source.decrement_limited_use_on_hit_effects();

        aa_damage
    }

    /// Resolves one basic attack from `source` onto this combatant. When the
    /// attacker has any crit chance the roll is drawn from the random source;
    /// the outcome is the with-roll resolution for some roll, pinned exactly
    /// when the attacker cannot crit.
    pub fn take_auto_attack_damage(&mut self, source: &mut Champion) -> (r: Damage)
        requires
            old(self).wf(),
            old(source).wf(),
        ensures
            exists|roll: int|
                0 <= roll <= SCALE && r == spec_attack_damage(
                    old(self).champ_stats,
                    old(source).champ_stats,
                    old(source).friendly_limited_use_on_hit_effects@,
                    roll,
                ),
            old(source).champ_stats.crit == 0 ==> r == spec_attack_damage(
                old(self).champ_stats,
                old(source).champ_stats,
                old(source).friendly_limited_use_on_hit_effects@,
                SCALE as int,
            ),
            old(source).champ_stats.crit == SCALE ==> r == spec_attack_damage(
                old(self).champ_stats,
                old(source).champ_stats,
                old(source).friendly_limited_use_on_hit_effects@,
                0,
            ),
            final(self).champ_stats == spec_take_damage(old(self).champ_stats, r),
            final(self).champ_stats.health <= old(self).champ_stats.health,
            final(self).name == old(self).name,
            final(self).level == old(self).level,
            final(self).friendly_limited_use_on_hit_effects == old(
                self,
            ).friendly_limited_use_on_hit_effects,
            final(self).friendly_duration_on_hit_effects == old(
                self,
            ).friendly_duration_on_hit_effects,
            final(self).friendly_stacking_on_hit_effects == old(
                self,
            ).friendly_stacking_on_hit_effects,
            final(self).enemy_dot_on_hit_effects == old(self).enemy_dot_on_hit_effects,
            final(self).enemy_stacking_on_hit_effects == old(self).enemy_stacking_on_hit_effects,
            final(source).friendly_limited_use_on_hit_effects@ == old(
                source,
            ).friendly_limited_use_on_hit_effects@.map_values(
                |e: LimitedUseOnHitEffect| spec_dec_uses(e),
            ),
            final(source).name == old(source).name,
            final(source).level == old(source).level,
            final(source).champ_stats == old(source).champ_stats,
            final(source).friendly_duration_on_hit_effects == old(
                source,
            ).friendly_duration_on_hit_effects,
            final(source).friendly_stacking_on_hit_effects == old(
                source,
            ).friendly_stacking_on_hit_effects,
            final(source).enemy_dot_on_hit_effects == old(source).enemy_dot_on_hit_effects,
            final(source).enemy_stacking_on_hit_effects == old(
                source,
            ).enemy_stacking_on_hit_effects,
            final(self).wf(),
            final(source).wf(),
            r.wf(),
    {
        let roll: i64 = if source.champ_stats.crit > 0 {
            sample_unit_fraction()
        } else {
            SCALE
        };
        proof {
            if old(source).champ_stats.crit == SCALE {
                assert(aa_raw(
                    old(source).champ_stats.ad as int,
                    old(source).champ_stats.crit as int,
                    old(source).champ_stats.bonus_crit_percent as int,
                    roll as int,
                ) == aa_raw(
                    old(source).champ_stats.ad as int,
                    old(source).champ_stats.crit as int,
                    old(source).champ_stats.bonus_crit_percent as int,
                    0,
                ));
            }
        }
        self.take_auto_attack_damage_with_roll(source, roll)
    }
}

} // verus!
