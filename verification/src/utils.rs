//! The stat catalog: the hard-coded combatant templates, looked up by name
//! with ASCII-case-insensitive matching.

use vstd::prelude::*;
use vstd::string::StringSliceAdditionalSpecFns;
use crate::champion::Champion;
use crate::champion::stats::ChampStats;
use crate::errors::SimError;

verus! {

/// A byte with any ASCII upper-case letter folded to lower case.
pub open spec fn ascii_lower(b: u8) -> u8 {
    if 65 <= b <= 90 {
        (b + 32) as u8
    } else {
        b
    }
}

/// A byte string with every ASCII upper-case letter folded to lower case.
pub open spec fn lower_bytes(s: Seq<u8>) -> Seq<u8> {
    s.map_values(|b: u8| ascii_lower(b))
}

/// Whether two names agree up to ASCII case.
pub open spec fn name_matches(name: &str, key: &str) -> bool {
    lower_bytes(name.spec_bytes()) == lower_bytes(key.spec_bytes())
}

fn ascii_lower_byte(b: u8) -> (r: u8)
    ensures
        r == ascii_lower(b),
{
    if 65 <= b && b <= 90 {
        b + 32
    } else {
        b
    }
}

fn eq_ignore_ascii_case(a: &str, b: &str) -> (r: bool)
    ensures
        r == name_matches(a, b),
{
    let ab: &[u8] = a.as_bytes();
    let bb: &[u8] = b.as_bytes();
    proof {
        assert(lower_bytes(a.spec_bytes()).len() == a.spec_bytes().len());
        assert(lower_bytes(b.spec_bytes()).len() == b.spec_bytes().len());
    }
    if ab.len() != bb.len() {
        return false;
    }
    let n: usize = ab.len();
    for i in 0..n
        invariant
            ab@ == a.spec_bytes(),
            bb@ == b.spec_bytes(),
            n == ab@.len(),
            n == bb@.len(),
            forall|j: int| 0 <= j < i ==> ascii_lower(ab@[j]) == ascii_lower(bb@[j]),
    {
        let x: u8 = ascii_lower_byte(ab[i]);
        let y: u8 = ascii_lower_byte(bb[i]);
        if x != y {
            proof {
                let la = lower_bytes(a.spec_bytes());
                let lb = lower_bytes(b.spec_bytes());
                assert(la[i as int] == ascii_lower(ab@[i as int]));
                assert(lb[i as int] == ascii_lower(bb@[i as int]));
                assert(la != lb) by {
                    if la == lb {
                        assert(la[i as int] == lb[i as int]);
                    }
                }
            }
            return false;
        }
    }
    proof {
        let la = lower_bytes(a.spec_bytes());
        let lb = lower_bytes(b.spec_bytes());
        assert(la =~= lb) by {
            assert(forall|j: int| 0 <= j < n ==> #[trigger] la[j] == ascii_lower(ab@[j]));
            assert(forall|j: int| 0 <= j < n ==> #[trigger] lb[j] == ascii_lower(bb@[j]));
        }
    }
    true
}

/// Whether `r` is a fresh level-one combatant built from the given template.
pub open spec fn fresh_champion(r: Result<Champion, SimError>, stats: ChampStats, nm: Seq<char>) -> bool {
    &&& r matches Ok(c)
    &&& c.champ_stats == stats
    &&& c.name@ == nm
    &&& c.level == 1
    &&& c.friendly_limited_use_on_hit_effects@.len() == 0
    &&& c.friendly_duration_on_hit_effects@.len() == 0
    &&& c.friendly_stacking_on_hit_effects@.len() == 0
    &&& c.enemy_dot_on_hit_effects@.len() == 0
    &&& c.enemy_stacking_on_hit_effects@.len() == 0
}

/// The catalog template of the Aatrox entry.
pub open spec fn aatrox_template() -> ChampStats {
    ChampStats {
        base_health: 685_000_000,
        base_health_growth: 114_000_000,
        health: 685_000_000,
        base_hp5: 3_000_000,
        base_hp5_growth: 1_000_000,
        hp5: 3_000_000,
        base_resource: 0,
        base_resource_growth: 0,
        resource: 0,
        base_rp5: 0,
        base_rp5_growth: 0,
        rp5: 0,
        base_ad: 60_000_000,
        base_ad_growth: 5_000_000,
        ad: 60_000_000,
        base_as: 651_000,
        base_as_growth_percent: 25_000,
        attack_windup: 233_840,
        as_: 651_000,
        as_ratio: 651_000,
        base_armor: 38_000_000,
        base_armor_growth: 4_450_000,
        armor: 38_000_000,
        bonus_armor: 0,
        base_mr: 32_000_000,
        base_mr_growth: 2_050_000,
        mr: 32_000_000,
        bonus_mr: 0,
        base_range: 175,
        range: 175,
        base_ms: 345,
        ms: 345,
        base_crit: 0,
        crit: 500_000,
        bonus_crit_percent: 0,
        shield_amount: 0,
        magic_shield_amount: 0,
        physical_shield_amount: 0,
        mr_pen: 0,
        flat_mr_reduction: 0,
        percent_mr_reduction: 0,
        percent_mr_pen: 0,
        lethality: 0,
        percent_bonus_armor_pen: 0,
        armor_reduction: 0,
        percent_armor_reduction: 0,
        life_steal: 0,
        spell_vamp: 0,
        tenacity: 0,
    }
}

fn aatrox_stats() -> (r: ChampStats)
    ensures
        r == aatrox_template(),
        r.wf(),
{
    ChampStats {
        base_health: 685_000_000,
        base_health_growth: 114_000_000,
        health: 685_000_000,
        base_hp5: 3_000_000,
        base_hp5_growth: 1_000_000,
        hp5: 3_000_000,
        base_resource: 0,
        base_resource_growth: 0,
        resource: 0,
        base_rp5: 0,
        base_rp5_growth: 0,
        rp5: 0,
        base_ad: 60_000_000,
        base_ad_growth: 5_000_000,
        ad: 60_000_000,
        base_as: 651_000,
        base_as_growth_percent: 25_000,
        attack_windup: 233_840,
        as_: 651_000,
        as_ratio: 651_000,
        base_armor: 38_000_000,
        base_armor_growth: 4_450_000,
        armor: 38_000_000,
        bonus_armor: 0,
        base_mr: 32_000_000,
        base_mr_growth: 2_050_000,
        mr: 32_000_000,
        bonus_mr: 0,
        base_range: 175,
        range: 175,
        base_ms: 345,
        ms: 345,
        base_crit: 0,
        crit: 500_000,
        bonus_crit_percent: 0,
        shield_amount: 0,
        magic_shield_amount: 0,
        physical_shield_amount: 0,
        mr_pen: 0,
        flat_mr_reduction: 0,
        percent_mr_reduction: 0,
        percent_mr_pen: 0,
        lethality: 0,
        percent_bonus_armor_pen: 0,
        armor_reduction: 0,
        percent_armor_reduction: 0,
        life_steal: 0,
        spell_vamp: 0,
        tenacity: 0,
    }
}

/// The catalog template of the crit-free test bruiser entry.
pub open spec fn test_bruiser_template() -> ChampStats {
    ChampStats {
        base_health: 685_000_000,
        base_health_growth: 114_000_000,
        health: 685_000_000,
        base_hp5: 3_000_000,
        base_hp5_growth: 1_000_000,
        hp5: 3_000_000,
        base_resource: 0,
        base_resource_growth: 0,
        resource: 0,
        base_rp5: 0,
        base_rp5_growth: 0,
        rp5: 0,
        base_ad: 60_000_000,
        base_ad_growth: 5_000_000,
        ad: 60_000_000,
        base_as: 651_000,
        base_as_growth_percent: 25_000,
        attack_windup: 233_840,
        as_: 651_000,
        as_ratio: 651_000,
        base_armor: 38_000_000,
        base_armor_growth: 4_450_000,
        armor: 38_000_000,
        bonus_armor: 0,
        base_mr: 32_000_000,
        base_mr_growth: 2_050_000,
        mr: 32_000_000,
        bonus_mr: 0,
        base_range: 175,
        range: 175,
        base_ms: 345,
        ms: 345,
        base_crit: 0,
        crit: 0,
        bonus_crit_percent: 0,
        shield_amount: 0,
        magic_shield_amount: 0,
        physical_shield_amount: 0,
        mr_pen: 0,
        flat_mr_reduction: 0,
        percent_mr_reduction: 0,
        percent_mr_pen: 0,
        lethality: 0,
        percent_bonus_armor_pen: 0,
        armor_reduction: 0,
        percent_armor_reduction: 0,
        life_steal: 0,
        spell_vamp: 0,
        tenacity: 0,
    }
}

fn test_bruiser_stats() -> (r: ChampStats)
    ensures
        r == test_bruiser_template(),
        r.wf(),
{
    ChampStats {
        base_health: 685_000_000,
        base_health_growth: 114_000_000,
        health: 685_000_000,
        base_hp5: 3_000_000,
        base_hp5_growth: 1_000_000,
        hp5: 3_000_000,
        base_resource: 0,
        base_resource_growth: 0,
        resource: 0,
        base_rp5: 0,
        base_rp5_growth: 0,
        rp5: 0,
        base_ad: 60_000_000,
        base_ad_growth: 5_000_000,
        ad: 60_000_000,
        base_as: 651_000,
        base_as_growth_percent: 25_000,
        attack_windup: 233_840,
        as_: 651_000,
        as_ratio: 651_000,
        base_armor: 38_000_000,
        base_armor_growth: 4_450_000,
        armor: 38_000_000,
        bonus_armor: 0,
        base_mr: 32_000_000,
        base_mr_growth: 2_050_000,
        mr: 32_000_000,
        bonus_mr: 0,
        base_range: 175,
        range: 175,
        base_ms: 345,
        ms: 345,
        base_crit: 0,
        crit: 0,
        bonus_crit_percent: 0,
        shield_amount: 0,
        magic_shield_amount: 0,
        physical_shield_amount: 0,
        mr_pen: 0,
        flat_mr_reduction: 0,
        percent_mr_reduction: 0,
        percent_mr_pen: 0,
        lethality: 0,
        percent_bonus_armor_pen: 0,
        armor_reduction: 0,
        percent_armor_reduction: 0,
        life_steal: 0,
        spell_vamp: 0,
        tenacity: 0,
    }
}

/// The catalog template of the inert ten-thousand-health target dummy.
pub open spec fn dummy_template() -> ChampStats {
    ChampStats {
        base_health: 10_000_000_000,
        base_health_growth: 0,
        health: 10_000_000_000,
        base_hp5: 0,
        base_hp5_growth: 0,
        hp5: 0,
        base_resource: 0,
        base_resource_growth: 0,
        resource: 0,
        base_rp5: 0,
        base_rp5_growth: 0,
        rp5: 0,
        base_ad: 0,
        base_ad_growth: 0,
        ad: 0,
        base_as: 0,
        base_as_growth_percent: 0,
        attack_windup: 0,
        as_: 0,
        as_ratio: 0,
        base_armor: 0,
        base_armor_growth: 0,
        armor: 0,
        bonus_armor: 0,
        base_mr: 0,
        base_mr_growth: 0,
        mr: 0,
        bonus_mr: 0,
        base_range: 0,
        range: 0,
        base_ms: 0,
        ms: 0,
        base_crit: 0,
        crit: 0,
        bonus_crit_percent: 0,
        shield_amount: 0,
        magic_shield_amount: 0,
        physical_shield_amount: 0,
        mr_pen: 0,
        flat_mr_reduction: 0,
        percent_mr_reduction: 0,
        percent_mr_pen: 0,
        lethality: 0,
        percent_bonus_armor_pen: 0,
        armor_reduction: 0,
        percent_armor_reduction: 0,
        life_steal: 0,
        spell_vamp: 0,
        tenacity: 0,
    }
}

fn dummy_stats() -> (r: ChampStats)
    ensures
        r == dummy_template(),
        r.wf(),
{
    ChampStats {
        base_health: 10_000_000_000,
        base_health_growth: 0,
        health: 10_000_000_000,
        base_hp5: 0,
        base_hp5_growth: 0,
        hp5: 0,
        base_resource: 0,
        base_resource_growth: 0,
        resource: 0,
        base_rp5: 0,
        base_rp5_growth: 0,
        rp5: 0,
        base_ad: 0,
        base_ad_growth: 0,
        ad: 0,
        base_as: 0,
        base_as_growth_percent: 0,
        attack_windup: 0,
        as_: 0,
        as_ratio: 0,
        base_armor: 0,
        base_armor_growth: 0,
        armor: 0,
        bonus_armor: 0,
        base_mr: 0,
        base_mr_growth: 0,
        mr: 0,
        bonus_mr: 0,
        base_range: 0,
        range: 0,
        base_ms: 0,
        ms: 0,
        base_crit: 0,
        crit: 0,
        bonus_crit_percent: 0,
        shield_amount: 0,
        magic_shield_amount: 0,
        physical_shield_amount: 0,
        mr_pen: 0,
        flat_mr_reduction: 0,
        percent_mr_reduction: 0,
        percent_mr_pen: 0,
        lethality: 0,
        percent_bonus_armor_pen: 0,
        armor_reduction: 0,
        percent_armor_reduction: 0,
        life_steal: 0,
        spell_vamp: 0,
        tenacity: 0,
    }
}

fn fresh_champion_from(stats: ChampStats, nm: &str) -> (c: Champion)
    requires
        stats.wf(),
    ensures
        c.champ_stats == stats,
        c.name@ == nm@,
        c.level == 1,
        c.friendly_limited_use_on_hit_effects@.len() == 0,
        c.friendly_duration_on_hit_effects@.len() == 0,
        c.friendly_stacking_on_hit_effects@.len() == 0,
        c.enemy_dot_on_hit_effects@.len() == 0,
        c.enemy_stacking_on_hit_effects@.len() == 0,
        c.wf(),
{
    Champion {
        name: nm.to_owned(),
        level: 1,
        champ_stats: stats,
        friendly_limited_use_on_hit_effects: Vec::new(),
        friendly_duration_on_hit_effects: Vec::new(),
        friendly_stacking_on_hit_effects: Vec::new(),
        enemy_dot_on_hit_effects: Vec::new(),
        enemy_stacking_on_hit_effects: Vec::new(),
    }
}

/// Looks a combatant template up by name, matching ASCII-case-insensitively,
/// and returns a fresh level-one combatant built from it. The first matching
/// entry wins; a name with no entry is an `UnknownEntity` error.
pub fn create_champion_by_name(name: &str) -> (r: Result<Champion, SimError>)
    ensures
        name_matches(name, "aatrox") ==> fresh_champion(r, aatrox_template(), "Aatrox"@),
        !name_matches(name, "aatrox") && name_matches(name, "test-bruiser") ==> fresh_champion(
            r,
            test_bruiser_template(),
            "Test Bruiser"@,
        ),
        !name_matches(name, "aatrox") && !name_matches(name, "test-bruiser") && name_matches(
            name,
            "dummy",
        ) ==> fresh_champion(r, dummy_template(), "Dummy"@),
        !name_matches(name, "aatrox") && !name_matches(name, "test-bruiser") && !name_matches(
            name,
            "dummy",
        ) ==> (r matches Err(e) && e == SimError::UnknownEntity),
        r matches Ok(c) ==> (c.wf() && c.level == 1),
{
    if eq_ignore_ascii_case(name, "aatrox") {
        Ok(fresh_champion_from(aatrox_stats(), "Aatrox"))
    } else if eq_ignore_ascii_case(name, "test-bruiser") {
        Ok(fresh_champion_from(test_bruiser_stats(), "Test Bruiser"))
    } else if eq_ignore_ascii_case(name, "dummy") {
        Ok(fresh_champion_from(dummy_stats(), "Dummy"))
    } else {
        Err(SimError::UnknownEntity)
    }
}

} // verus!
