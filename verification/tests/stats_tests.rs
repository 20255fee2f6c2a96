use duelsim::champion::stats::{calculate_crit_damage_multiplier_from_target, ChampStats};
use duelsim::fixed::SCALE;
use duelsim::utils::create_champion_by_name;

#[test]
fn test_clone_champ_stats() {
    let stats = ChampStats {
        base_health: 1000 * SCALE,
        base_health_growth: 100 * SCALE,
        health: 1000 * SCALE,
        base_hp5: 10 * SCALE,
        base_hp5_growth: SCALE,
        hp5: 10 * SCALE,
        base_resource: 1000 * SCALE,
        base_resource_growth: 100 * SCALE,
        resource: 1000 * SCALE,
        base_rp5: 10 * SCALE,
        base_rp5_growth: SCALE,
        rp5: 10 * SCALE,
        base_ad: 100 * SCALE,
        base_ad_growth: 10 * SCALE,
        ad: 100 * SCALE,
        base_as: SCALE,
        base_as_growth_percent: 100_000,
        attack_windup: 250_000,
        as_: SCALE,
        as_ratio: 100_000,
        base_armor: 50 * SCALE,
        base_armor_growth: 5 * SCALE,
        armor: 50 * SCALE,
        bonus_armor: 0,
        base_mr: 50 * SCALE,
        base_mr_growth: 5 * SCALE,
        mr: 50 * SCALE,
        bonus_mr: 0,
        base_range: 125,
        range: 125,
        base_ms: 325,
        ms: 325,
        base_crit: 0,
        crit: 0,
        bonus_crit_percent: 0,
        shield_amount: 0,
        magic_shield_amount: 0,
        physical_shield_amount: 0,
        mr_pen: 0,
        flat_mr_reduction: 0,
        percent_mr_reduction: 0,
        percent_mr_pen: 0,
        lethality: 0,
        percent_bonus_armor_pen: 0,
        armor_reduction: 0,
        percent_armor_reduction: 0,
        life_steal: 0,
        spell_vamp: 0,
        tenacity: 0,
    };

    let stats_clone = stats.clone();

    assert_eq!(stats.base_health, stats_clone.base_health);
    assert_eq!(stats.base_health_growth, stats_clone.base_health_growth);
    assert_eq!(stats.health, stats_clone.health);
    assert_eq!(stats.base_hp5, stats_clone.base_hp5);
    assert_eq!(stats.base_hp5_growth, stats_clone.base_hp5_growth);
    assert_eq!(stats.hp5, stats_clone.hp5);
    assert_eq!(stats.base_resource, stats_clone.base_resource);
    assert_eq!(stats.base_resource_growth, stats_clone.base_resource_growth);
    assert_eq!(stats.resource, stats_clone.resource);
    assert_eq!(stats.base_rp5, stats_clone.base_rp5);
}

#[test]
fn test_calculate_crit_damage_multiplier_from_target() {
    let mut source = create_champion_by_name("test-bruiser").unwrap();

    assert_eq!(calculate_crit_damage_multiplier_from_target(&source.champ_stats), SCALE);

    source.champ_stats.crit = SCALE;

    assert_eq!(calculate_crit_damage_multiplier_from_target(&source.champ_stats), 1_750_000);

    source.champ_stats.bonus_crit_percent = 500_000;

    assert_eq!(calculate_crit_damage_multiplier_from_target(&source.champ_stats), 2_250_000);
}

#[test]
fn test_calculate_armor_reduction() {
    let mut champion = create_champion_by_name("test-bruiser").unwrap();

    champion.champ_stats.armor = 100 * SCALE;
    champion.champ_stats.bonus_armor = 200 * SCALE;

    let mut source = create_champion_by_name("test-bruiser").unwrap();

    source.champ_stats.lethality = 10 * SCALE;
    source.champ_stats.percent_bonus_armor_pen = 450_000;
    source.champ_stats.armor_reduction = 30 * SCALE;
    source.champ_stats.percent_armor_reduction = 300_000;

    assert_eq!(
        champion.champ_stats.calculate_armor_reduction(&source.champ_stats),
        122_300_000
    );

    champion.champ_stats.armor = 18 * SCALE;
    champion.champ_stats.bonus_armor = 0;

    assert_eq!(
        champion.champ_stats.calculate_armor_reduction(&source.champ_stats),
        -12 * SCALE
    );
}

#[test]
fn test_calculate_magic_resist_reduction() {
    let mut champion = create_champion_by_name("test-bruiser").unwrap();
    let mut source = create_champion_by_name("test-bruiser").unwrap();

    champion.champ_stats.mr = 80 * SCALE;

    source.champ_stats.mr_pen = 10 * SCALE;
    source.champ_stats.percent_mr_pen = 350_000;
    source.champ_stats.flat_mr_reduction = 20 * SCALE;
    source.champ_stats.percent_mr_reduction = 300_000;

    assert_eq!(
        champion.champ_stats.calculate_magic_resist_reduction(&source.champ_stats),
        17_300_000
    );

    champion.champ_stats.mr = 18 * SCALE;

    assert_eq!(
        champion.champ_stats.calculate_magic_resist_reduction(&source.champ_stats),
        -2 * SCALE
    );
}
