//! The combat stat record: base values and growth rates, the level-scaling
//! curves that resolve them, and the mitigation-reduction calculators that an
//! attacker's penetration terms apply to a defender's armor and magic resist.
//!
//! Every stat is an `i64` count of subunits (`SCALE` subunits per stat point);
//! fields named `base_*` or `bonus_*` and the flat penetration terms are bounded
//! by `BASE_LIMIT`, growth rates by `GROWTH_LIMIT`, fractions (percents, crit
//! chance) by `SCALE`, and every derived or mutable stat by `STAT_LIMIT`.

use vstd::prelude::*;
use crate::fixed::{
    round_div, round_unit, lemma_round_div_mag, lemma_round_div_nonneg_bounds,
    lemma_round_div_monotone, lemma_round_div_exact, lemma_round_unit_monotone, mul_div_round,
    round_to_unit, SCALE, HUNDRED, BASE_LIMIT, GROWTH_LIMIT, STAT_LIMIT, MITIGATION_LIMIT,
    CRIT_BONUS_LIMIT, LEVEL_LIMIT,
};

verus! {

/// Attack speed granted for merely being above level one, before the
/// level-growth curve and the champion's ratio are applied.
pub const LEVEL_BONUS_AS: i64 = 250_000;

#[derive(Clone, Copy, Debug)]
pub struct ChampStats {
    pub base_health: i64,
    pub base_health_growth: i64,
    pub health: i64,
    pub base_hp5: i64,
    pub base_hp5_growth: i64,
    pub hp5: i64,
    pub base_resource: i64,
    pub base_resource_growth: i64,
    pub resource: i64,
    pub base_rp5: i64,
    pub base_rp5_growth: i64,
    pub rp5: i64,
    pub base_ad: i64,
    pub base_ad_growth: i64,
    pub ad: i64,
    pub base_as: i64,
    pub base_as_growth_percent: i64,
    pub attack_windup: i64,
    pub as_: i64,
    pub as_ratio: i64,
    pub base_armor: i64,
    pub base_armor_growth: i64,
    pub armor: i64,
    pub bonus_armor: i64,
    pub base_mr: i64,
    pub base_mr_growth: i64,
    pub mr: i64,
    pub bonus_mr: i64,
    pub base_range: i64,
    pub range: i64,
    pub base_ms: i64,
    pub ms: i64,
    pub base_crit: i64,
    pub crit: i64,
    pub bonus_crit_percent: i64,
    pub shield_amount: i64,
    pub magic_shield_amount: i64,
    pub physical_shield_amount: i64,
    pub mr_pen: i64,
    pub flat_mr_reduction: i64,
    pub percent_mr_reduction: i64,
    pub percent_mr_pen: i64,
    pub lethality: i64,
    pub percent_bonus_armor_pen: i64,
    pub armor_reduction: i64,
    pub percent_armor_reduction: i64,
    pub life_steal: i64,
    pub spell_vamp: i64,
    pub tenacity: i64,
}

/// The growth-curve coefficient of a level: `(level-1) * (0.7025 + 0.0175*(level-1))`
/// expressed in subunits.
pub open spec fn growth_coeff(level: int) -> int {
    (level - 1) * (702_500 + 17_500 * (level - 1))
}

/// A stat resolved at a level: `base + bonus + growth * growth_coeff(level)`.
pub open spec fn leveled_value(base: int, bonus: int, growth: int, level: int) -> int {
    base + bonus + round_div(growth * growth_coeff(level), SCALE as int)
}

/// A leveled stat rounded to the nearest whole stat point.
pub open spec fn leveled_stat(base: int, bonus: int, growth: int, level: int) -> int {
    round_unit(leveled_value(base, bonus, growth, level))
}

/// Attack speed at a level: the flat level bonus plus the growth curve, scaled
/// by the champion's ratio, over the base.
pub open spec fn attack_speed_value(
    base_as: int,
    as_ratio: int,
    growth: int,
    bonus_as: int,
    level: int,
) -> int {
    base_as + round_div(
        (bonus_as + round_div(growth * growth_coeff(level), SCALE as int)) * as_ratio,
        SCALE as int,
    )
}

/// Effective armor a defender presents to one attacker: flat reduction is split
/// over the base and bonus proportions, then (while the remainder is positive)
/// percent reduction hits both parts, percent bonus penetration hits the bonus
/// part, and lethality is taken off the recombined total, floored at zero.
pub open spec fn effective_armor(
    armor: int,
    bonus_armor: int,
    reduction: int,
    pct_reduction: int,
    pct_bonus_pen: int,
    lethality: int,
) -> int {
    let total = armor + bonus_armor;
    if total == 0 {
        0
    } else {
        let a1 = armor - round_div(reduction * armor, total);
        let b1 = bonus_armor - round_div(reduction * bonus_armor, total);
        if a1 + b1 > 0 {
            let a2 = round_div(a1 * (SCALE - pct_reduction), SCALE as int);
            let b2 = round_div(
                round_div(b1 * (SCALE - pct_reduction), SCALE as int) * (SCALE - pct_bonus_pen),
                SCALE as int,
            );
            if a2 + b2 - lethality < 0 {
                0
            } else {
                a2 + b2 - lethality
            }
        } else {
            a1 + b1
        }
    }
}

/// Effective magic resist a defender presents to one attacker: zero total MR
/// short-circuits; flat reduction first, and only while the remainder is
/// positive do percent reduction, percent penetration and flat penetration
/// apply.
pub open spec fn effective_mr(
    mr: int,
    bonus_mr: int,
    flat_reduction: int,
    pct_reduction: int,
    pct_pen: int,
    flat_pen: int,
) -> int {
    let total = mr + bonus_mr;
    if total == 0 {
        0
    } else {
        let m1 = total - flat_reduction;
        if m1 > 0 {
            round_div(
                round_div(m1 * (SCALE - pct_reduction), SCALE as int) * (SCALE - pct_pen),
                SCALE as int,
            ) - flat_pen
        } else {
            m1
        }
    }
}

/// Damage taken through a mitigation value `m`: `d * 100/(100+m)` when `m` is
/// non-negative, and the amplification `d * (2 - 100/(100-m))` — written over a
/// common denominator as `d * (100-2m)/(100-m)` — when `m` is negative.
pub open spec fn damage_taken(mitigation: int, damage: int) -> int {
    if mitigation >= 0 {
        round_div(damage * (HUNDRED as int), HUNDRED + mitigation)
    } else {
        round_div(damage * (HUNDRED - 2 * mitigation), HUNDRED - mitigation)
    }
}

/// Critical-strike damage multiplier: `1 + crit_chance * (0.75 + bonus)`.
pub open spec fn crit_multiplier(crit: int, bonus_crit: int) -> int {
    SCALE + round_div(crit * (750_000 + bonus_crit), SCALE as int)
}

/// The whole stat record after the level-scaling routine: every leveled field
/// recomputed from its base and growth, everything else untouched.
pub open spec fn spec_stats_at_level(s: ChampStats, level: int) -> ChampStats {
    ChampStats {
        health: leveled_stat(s.base_health as int, 0, s.base_health_growth as int, level) as i64,
        hp5: leveled_stat(s.base_hp5 as int, 0, s.base_hp5_growth as int, level) as i64,
        resource: leveled_stat(s.base_resource as int, 0, s.base_resource_growth as int, level) as i64,
        rp5: leveled_stat(s.base_rp5 as int, 0, s.base_rp5_growth as int, level) as i64,
        ad: leveled_stat(s.base_ad as int, 0, s.base_ad_growth as int, level) as i64,
        as_: attack_speed_value(
            s.base_as as int,
            s.as_ratio as int,
            s.base_as_growth_percent as int,
            LEVEL_BONUS_AS as int,
            level,
        ) as i64,
        armor: leveled_stat(
            s.base_armor as int,
            s.bonus_armor as int,
            s.base_armor_growth as int,
            level,
        ) as i64,
        mr: leveled_stat(s.base_mr as int, s.bonus_mr as int, s.base_mr_growth as int, level) as i64,
        ..s
    }
}

impl ChampStats {
    pub open spec fn wf(&self) -> bool {
        &&& 0 <= self.base_health <= BASE_LIMIT
        &&& 0 <= self.base_health_growth <= GROWTH_LIMIT
        &&& 0 <= self.health <= STAT_LIMIT
        &&& self.health % SCALE == 0
        &&& 0 <= self.base_hp5 <= BASE_LIMIT
        &&& 0 <= self.base_hp5_growth <= GROWTH_LIMIT
        &&& 0 <= self.hp5 <= STAT_LIMIT
        &&& 0 <= self.base_resource <= BASE_LIMIT
        &&& 0 <= self.base_resource_growth <= GROWTH_LIMIT
        &&& 0 <= self.resource <= STAT_LIMIT
        &&& 0 <= self.base_rp5 <= BASE_LIMIT
        &&& 0 <= self.base_rp5_growth <= GROWTH_LIMIT
        &&& 0 <= self.rp5 <= STAT_LIMIT
        &&& 0 <= self.base_ad <= BASE_LIMIT
        &&& 0 <= self.base_ad_growth <= GROWTH_LIMIT
        &&& 0 <= self.ad <= STAT_LIMIT
        &&& 0 <= self.base_as <= BASE_LIMIT
        &&& 0 <= self.base_as_growth_percent <= SCALE
        &&& 0 <= self.attack_windup <= SCALE
        &&& 0 <= self.as_ <= STAT_LIMIT
        &&& 0 <= self.as_ratio <= 2_000_000
        &&& 0 <= self.base_armor <= BASE_LIMIT
        &&& 0 <= self.base_armor_growth <= GROWTH_LIMIT
        &&& 0 <= self.armor <= STAT_LIMIT
        &&& 0 <= self.bonus_armor <= BASE_LIMIT
        &&& 0 <= self.base_mr <= BASE_LIMIT
        &&& 0 <= self.base_mr_growth <= GROWTH_LIMIT
        &&& 0 <= self.mr <= STAT_LIMIT
        &&& 0 <= self.bonus_mr <= BASE_LIMIT
        &&& 0 <= self.base_range <= STAT_LIMIT
        &&& 0 <= self.range <= STAT_LIMIT
        &&& 0 <= self.base_ms <= STAT_LIMIT
        &&& 0 <= self.ms <= STAT_LIMIT
        &&& 0 <= self.base_crit <= SCALE
        &&& 0 <= self.crit <= SCALE
        &&& 0 <= self.bonus_crit_percent <= CRIT_BONUS_LIMIT
        &&& 0 <= self.shield_amount <= STAT_LIMIT
        &&& 0 <= self.magic_shield_amount <= STAT_LIMIT
        &&& 0 <= self.physical_shield_amount <= STAT_LIMIT
        &&& 0 <= self.mr_pen <= BASE_LIMIT
        &&& 0 <= self.flat_mr_reduction <= BASE_LIMIT
        &&& 0 <= self.percent_mr_reduction <= SCALE
        &&& 0 <= self.percent_mr_pen <= SCALE
        &&& 0 <= self.lethality <= BASE_LIMIT
        &&& 0 <= self.percent_bonus_armor_pen <= SCALE
        &&& 0 <= self.armor_reduction <= BASE_LIMIT
        &&& 0 <= self.percent_armor_reduction <= SCALE
        &&& 0 <= self.life_steal <= STAT_LIMIT
        &&& 0 <= self.spell_vamp <= STAT_LIMIT
        &&& 0 <= self.tenacity <= STAT_LIMIT
    }

    /// Recomputes every leveled stat from its base and growth. Idempotent for a
    /// fixed level: each stat is recomputed from the bases, never accumulated.
    pub fn calculate_stats_from_level(&mut self, level: i32)
        requires
            old(self).wf(),
            1 <= level <= LEVEL_LIMIT,
        ensures
            *final(self) == spec_stats_at_level(*old(self), level as int),
            final(self).wf(),
    {
        self.health = round_to_unit(calculate_base_stat(self.base_health, 0, self.base_health_growth, level));
        self.hp5 = round_to_unit(calculate_base_stat(self.base_hp5, 0, self.base_hp5_growth, level));
        self.resource = round_to_unit(
            calculate_base_stat(self.base_resource, 0, self.base_resource_growth, level),
        );
        self.rp5 = round_to_unit(calculate_base_stat(self.base_rp5, 0, self.base_rp5_growth, level));
        self.ad = round_to_unit(calculate_base_stat(self.base_ad, 0, self.base_ad_growth, level));
        self.as_ = calculate_attack_speed(
            self.base_as,
            self.as_ratio,
            self.base_as_growth_percent,
            LEVEL_BONUS_AS,
            level,
        );
        self.armor = round_to_unit(
            calculate_base_stat(self.base_armor, self.bonus_armor, self.base_armor_growth, level),
        );
        self.mr = round_to_unit(
            calculate_base_stat(self.base_mr, self.bonus_mr, self.base_mr_growth, level),
        );
    }

    /// Effective armor this record presents to the given attacker.
    pub fn calculate_armor_reduction(&self, source: &ChampStats) -> (r: i64)
        requires
            self.wf(),
            source.wf(),
        ensures
            r == effective_armor(
                self.armor as int,
                self.bonus_armor as int,
                source.armor_reduction as int,
                source.percent_armor_reduction as int,
                source.percent_bonus_armor_pen as int,
                source.lethality as int,
            ),
            -MITIGATION_LIMIT <= r <= MITIGATION_LIMIT,
    {
        let armor: i64 = self.armor;
        let bonus_armor: i64 = self.bonus_armor;
        let total: i64 = armor + bonus_armor;

        if total == 0 {
            return 0;
        }
        proof {
            lemma_prop_reduction_bound(
                source.armor_reduction as int,
                armor as int,
                total as int,
            );
            lemma_prop_reduction_bound(
                source.armor_reduction as int,
                bonus_armor as int,
                total as int,
            );
        }
        let armor_reduced: i64 = mul_div_round(source.armor_reduction, armor, total);
        let bonus_reduced: i64 = mul_div_round(source.armor_reduction, bonus_armor, total);

        let a1: i64 = armor - armor_reduced;
        let b1: i64 = bonus_armor - bonus_reduced;

        if a1 + b1 > 0 {
            proof {
                lemma_pct_keep_bound(a1 as int, (SCALE - source.percent_armor_reduction) as int, STAT_LIMIT as int);
                lemma_pct_keep_bound(b1 as int, (SCALE - source.percent_armor_reduction) as int, STAT_LIMIT as int);
            }
            let a2: i64 = mul_div_round(a1, SCALE - source.percent_armor_reduction, SCALE);
            let b2a: i64 = mul_div_round(b1, SCALE - source.percent_armor_reduction, SCALE);
            proof {
                lemma_pct_keep_bound(b2a as int, (SCALE - source.percent_bonus_armor_pen) as int, STAT_LIMIT as int);
            }
            let b2: i64 = mul_div_round(b2a, SCALE - source.percent_bonus_armor_pen, SCALE);

            let total2: i64 = a2 + b2;
            if total2 - source.lethality < 0 {
                0
            } else {
                total2 - source.lethality
            }
        } else {
            a1 + b1
        }
    }

    /// Effective magic resist this record presents to the given attacker.
    pub fn calculate_magic_resist_reduction(&self, source: &ChampStats) -> (r: i64)
        requires
            self.wf(),
            source.wf(),
        ensures
            r == effective_mr(
                self.mr as int,
                self.bonus_mr as int,
                source.flat_mr_reduction as int,
                source.percent_mr_reduction as int,
                source.percent_mr_pen as int,
                source.mr_pen as int,
            ),
            -MITIGATION_LIMIT <= r <= MITIGATION_LIMIT,
    {
        let total: i64 = self.mr + self.bonus_mr;
        if total == 0 {
            return 0;
        }
        let m1: i64 = total - source.flat_mr_reduction;
        if m1 > 0 {
            proof {
                lemma_pct_keep_bound(m1 as int, (SCALE - source.percent_mr_reduction) as int, 2 * STAT_LIMIT as int);
            }
            let m2: i64 = mul_div_round(m1, SCALE - source.percent_mr_reduction, SCALE);
            proof {
                lemma_pct_keep_bound(m2 as int, (SCALE - source.percent_mr_pen) as int, 2 * STAT_LIMIT as int);
            }
            let m3: i64 = mul_div_round(m2, SCALE - source.percent_mr_pen, SCALE);
            m3 - source.mr_pen
        } else {
            m1
        }
    }
}

/// The level-growth curve shared by health, regen, resource, attack damage,
/// armor and magic resist.
pub fn calculate_base_stat(base_stat: i64, bonus: i64, growth: i64, n: i32) -> (r: i64)
    requires
        0 <= base_stat <= BASE_LIMIT,
        0 <= bonus <= BASE_LIMIT,
        0 <= growth <= GROWTH_LIMIT,
        1 <= n <= LEVEL_LIMIT,
    ensures
        r == leveled_value(base_stat as int, bonus as int, growth as int, n as int),
        base_stat + bonus <= r <= base_stat + bonus + 5_000_000_000_000,
{
    let lm1: i64 = (n - 1) as i64;
    let factor: i64 = 702_500 + 17_500 * lm1;
    proof {
        assert(0 <= lm1 as int * factor as int <= 4_708_065_000) by (nonlinear_arith)
            requires
                0 <= lm1 <= 499,
                factor == 702_500 + 17_500 * lm1,
        ;
    }
    let coeff: i64 = lm1 * factor;
    proof {
        assert(0 <= growth as int * coeff as int <= 5_000_000_000_000 * (SCALE as int))
            by (nonlinear_arith)
            requires
                0 <= growth <= GROWTH_LIMIT,
                0 <= coeff <= 4_708_065_000,
                GROWTH_LIMIT == 1_000_000_000,
                SCALE == 1_000_000,
        ;
        lemma_round_div_mag(growth as int * coeff as int, SCALE as int, 5_000_000_000_000);
        lemma_round_div_nonneg_bounds(growth as int * coeff as int, SCALE as int);
    }
    let term: i64 = mul_div_round(growth, coeff, SCALE);
    base_stat + bonus + term
}

/// The attack-speed curve: the flat level bonus plus the growth curve, scaled
/// by the champion's ratio, over the base attack speed.
pub fn calculate_attack_speed(base_as: i64, as_ratio: i64, growth: i64, bonus_as: i64, n: i32) -> (r: i64)
    requires
        0 <= base_as <= BASE_LIMIT,
        0 <= as_ratio <= 2_000_000,
        0 <= growth <= SCALE,
        0 <= bonus_as <= SCALE,
        1 <= n <= LEVEL_LIMIT,
    ensures
        r == attack_speed_value(
            base_as as int,
            as_ratio as int,
            growth as int,
            bonus_as as int,
            n as int,
        ),
        0 <= r <= STAT_LIMIT,
{
    let lm1: i64 = (n - 1) as i64;
    let factor: i64 = 702_500 + 17_500 * lm1;
    proof {
        assert(0 <= lm1 as int * factor as int <= 4_708_065_000) by (nonlinear_arith)
            requires
                0 <= lm1 <= 499,
                factor == 702_500 + 17_500 * lm1,
        ;
    }
    let coeff: i64 = lm1 * factor;
    proof {
        assert(0 <= growth as int * coeff as int <= 4_708_065_000 * (SCALE as int))
            by (nonlinear_arith)
            requires
                0 <= growth <= SCALE,
                0 <= coeff <= 4_708_065_000,
                SCALE == 1_000_000,
        ;
        lemma_round_div_mag(growth as int * coeff as int, SCALE as int, 4_708_065_000);
        lemma_round_div_nonneg_bounds(growth as int * coeff as int, SCALE as int);
    }
    let term: i64 = mul_div_round(growth, coeff, SCALE);
    let inner: i64 = bonus_as + term;
    proof {
        assert(0 <= inner as int * as_ratio as int <= 9_418_130_000 * (SCALE as int))
            by (nonlinear_arith)
            requires
                0 <= inner <= 4_709_065_000,
                0 <= as_ratio <= 2_000_000,
                SCALE == 1_000_000,
        ;
        lemma_round_div_mag(inner as int * as_ratio as int, SCALE as int, 9_418_130_000);
        lemma_round_div_nonneg_bounds(inner as int * as_ratio as int, SCALE as int);
    }
    let scaled: i64 = mul_div_round(inner, as_ratio, SCALE);
    base_as + scaled
}

/// Critical-strike damage multiplier granted by an attacker's crit stats.
pub fn calculate_crit_damage_multiplier_from_target(source: &ChampStats) -> (r: i64)
    requires
        source.wf(),
    ensures
        r == crit_multiplier(source.crit as int, source.bonus_crit_percent as int),
        SCALE <= r <= 12_000_000,
{
    proof {
        assert(0 <= source.crit as int * (750_000 + source.bonus_crit_percent as int)
            <= 11_000_000 * (SCALE as int)) by (nonlinear_arith)
            requires
                0 <= source.crit <= SCALE,
                0 <= source.bonus_crit_percent <= CRIT_BONUS_LIMIT,
                SCALE == 1_000_000,
                CRIT_BONUS_LIMIT == 10_000_000,
        ;
        lemma_round_div_mag(
            source.crit as int * (750_000 + source.bonus_crit_percent as int),
            SCALE as int,
            11_000_000,
        );
        lemma_round_div_nonneg_bounds(
            source.crit as int * (750_000 + source.bonus_crit_percent as int),
            SCALE as int,
        );
    }
    let boost: i64 = mul_div_round(source.crit, 750_000 + source.bonus_crit_percent, SCALE);
    SCALE + boost
}

/// A flat reduction split over a proportion `part / total` stays within the
/// reduction itself.
proof fn lemma_prop_reduction_bound(reduction: int, part: int, total: int)
    requires
        0 <= reduction,
        0 <= part <= total,
        0 < total,
    ensures
        0 <= round_div(reduction * part, total) <= reduction,
{
    assert(0 <= reduction * part <= reduction * total) by (nonlinear_arith)
        requires
            0 <= reduction,
            0 <= part <= total,
    ;
    lemma_round_div_mag(reduction * part, total, reduction);
}

/// Scaling by a kept fraction `k / SCALE` with `0 <= k <= SCALE` cannot grow a
/// value's magnitude.
proof fn lemma_pct_keep_bound(x: int, k: int, m: int)
    requires
        0 <= k <= SCALE,
        -m <= x <= m,
        0 <= m,
    ensures
        -m <= round_div(x * k, SCALE as int) <= m,
{
    assert(-(m * (SCALE as int)) <= x * k <= m * (SCALE as int)) by (nonlinear_arith)
        requires
            0 <= k <= SCALE,
            -m <= x <= m,
            0 <= m,
            SCALE == 1_000_000,
    ;
    lemma_round_div_mag(x * k, SCALE as int, m);
}

/// Law: for any non-negative growth rate, the leveled value of a stat never
/// decreases as the level rises.
pub proof fn lemma_leveled_value_monotone(base: int, growth: int, level1: int, level2: int)
    requires
        0 <= growth,
        1 <= level1 <= level2,
    ensures
        leveled_value(base, 0, growth, level1) <= leveled_value(base, 0, growth, level2),
{
    assert(growth * growth_coeff(level1) <= growth * growth_coeff(level2)) by (nonlinear_arith)
        requires
            0 <= growth,
            1 <= level1 <= level2,
    ;
    lemma_round_div_monotone(
        growth * growth_coeff(level1),
        growth * growth_coeff(level2),
        SCALE as int,
    );
}

/// Law: the whole-point rounding of a leveled stat is monotone in level too.
pub proof fn lemma_leveled_stat_monotone(base: int, growth: int, level1: int, level2: int)
    requires
        0 <= growth,
        1 <= level1 <= level2,
    ensures
        leveled_stat(base, 0, growth, level1) <= leveled_stat(base, 0, growth, level2),
{
    lemma_leveled_value_monotone(base, growth, level1, level2);
    lemma_round_unit_monotone(
        leveled_value(base, 0, growth, level1),
        leveled_value(base, 0, growth, level2),
    );
}

/// Law: the level-scaling routine is idempotent — resolving a record a second
/// time at the same level changes nothing, because every leveled field is
/// recomputed from base fields that the routine never touches.
pub proof fn lemma_stats_at_level_idempotent(s: ChampStats, level: int)
    ensures
        spec_stats_at_level(spec_stats_at_level(s, level), level) == spec_stats_at_level(s, level),
{
}

/// Law: zero mitigation passes damage through unchanged.
pub proof fn lemma_damage_taken_zero_mitigation(damage: int)
    requires
        0 <= damage,
    ensures
        damage_taken(0, damage) == damage,
{
    let h = HUNDRED as int;
    assert((damage * h) % h == 0 && (damage * h) / h == damage) by (nonlinear_arith)
        requires
            h == 100_000_000,
    ;
    lemma_round_div_exact(damage * h, h);
}

/// Law: one hundred points of mitigation halve damage exactly. Stated for
/// amounts spanning an even number of subunits; an odd subunit count has no
/// exact half and rounds.
pub proof fn lemma_damage_taken_hundred_halves(damage: int)
    requires
        0 <= damage,
        damage % 2 == 0,
    ensures
        damage_taken(100 * SCALE as int, damage) == damage / 2,
{
    let h = HUNDRED as int;
    assert(100 * SCALE as int == h);
    assert((damage * h) % (2 * h) == 0 && (damage * h) / (2 * h) == damage / 2)
        by (nonlinear_arith)
        requires
            h == 100_000_000,
            damage % 2 == 0,
            damage >= 0,
    ;
    lemma_round_div_exact(damage * h, 2 * h);
}

/// `damage_taken` never returns a negative amount and at most doubles the raw
/// damage (the amplification branch tends to `2·d` as mitigation falls without
/// bound).
pub proof fn lemma_damage_taken_range(mitigation: int, damage: int)
    requires
        0 <= damage,
        -MITIGATION_LIMIT <= mitigation <= MITIGATION_LIMIT,
    ensures
        0 <= damage_taken(mitigation, damage) <= 2 * damage,
{
    let h = HUNDRED as int;
    if mitigation >= 0 {
        assert(0 <= damage * h <= (2 * damage) * (h + mitigation)) by (nonlinear_arith)
            requires
                0 <= damage,
                mitigation >= 0,
                h == 100_000_000,
        ;
        lemma_round_div_mag(damage * h, h + mitigation, 2 * damage);
    } else {
        assert(0 <= damage * (h - 2 * mitigation) <= (2 * damage) * (h - mitigation))
            by (nonlinear_arith)
            requires
                0 <= damage,
                mitigation < 0,
                h == 100_000_000,
        ;
        lemma_round_div_mag(damage * (h - 2 * mitigation), h - mitigation, 2 * damage);
    }
}

} // verus!
