use duelsim::builds::Build;
use duelsim::damage::Damage;
use duelsim::effects::{DamageType, StackingOnHitEffect};
use duelsim::errors::SimError;
use duelsim::champion::stats::calculate_base_stat;
use duelsim::fixed::SCALE;
use duelsim::scenario::Scenario;
use duelsim::utils::create_champion_by_name;

#[test]
fn leveled_value_is_monotone_in_level() {
    let mut previous: i64 = 0;
    for level in 1..=18 {
        let value = calculate_base_stat(685 * SCALE, 0, 114_000_000, level);
        assert!(value >= previous);
        previous = value;
    }
    assert_eq!(calculate_base_stat(685 * SCALE, 0, 114_000_000, 1), 685 * SCALE);
}

#[test]
fn zero_mitigation_passes_damage_through() {
    let champion = create_champion_by_name("test-bruiser").unwrap();
    for damage in [0, 1, 7, 43, 999, 60 * SCALE, 12_345_678_901] {
        assert_eq!(champion.calculate_physical_damage_taken(0, damage), damage);
        assert_eq!(champion.calculate_magical_damage_taken(0, damage), damage);
    }
}

#[test]
fn hundred_mitigation_halves_damage() {
    let champion = create_champion_by_name("test-bruiser").unwrap();
    for damage in [0, 2, 60 * SCALE, 1000 * SCALE, 86_420] {
        assert_eq!(champion.calculate_physical_damage_taken(100 * SCALE, damage), damage / 2);
    }
    // an odd subunit count has no exact half and rounds to the nearest subunit
    assert_eq!(champion.calculate_physical_damage_taken(100 * SCALE, 3), 2);
}

#[test]
fn shield_absorption_conserves_damage() {
    let mut champion = create_champion_by_name("test-bruiser").unwrap();
    champion.champ_stats.physical_shield_amount = 100 * SCALE;
    champion.champ_stats.shield_amount = 50 * SCALE;
    let health_before = champion.champ_stats.health;

    let mut damage = Damage::new(120 * SCALE, 0, 0);
    champion.take_physical_damage(&mut damage);

    let physical_consumed = 100 * SCALE - champion.champ_stats.physical_shield_amount;
    let generic_consumed = 50 * SCALE - champion.champ_stats.shield_amount;
    let health_lost = health_before - champion.champ_stats.health;

    assert_eq!(physical_consumed, 100 * SCALE);
    assert_eq!(generic_consumed, 20 * SCALE);
    assert_eq!(health_lost, 0);
    assert_eq!(physical_consumed + generic_consumed + health_lost, 120 * SCALE);
}

#[test]
fn stacks_never_exceed_cap_and_uses_never_go_negative() {
    let mut champion = create_champion_by_name("test-bruiser").unwrap();
    let effect = StackingOnHitEffect::new("test", 10 * SCALE, DamageType::Physical, 3, 150, 300, true);
    for _ in 0..10 {
        champion.apply_enemy_stacking_on_hit_effect(effect.clone());
    }
    let applied = champion
        .enemy_stacking_on_hit_effects
        .iter()
        .find(|e| e.id == "test")
        .unwrap();
    assert_eq!(applied.current_stacks, 3);

    let mut limited = duelsim::effects::LimitedUseOnHitEffect::new(
        "test",
        10 * SCALE,
        DamageType::Physical,
        1,
        300,
        true,
    );
    limited.reduce_num_uses();
    limited.reduce_num_uses();
    limited.reduce_num_uses();
    assert_eq!(limited.num_uses, 0);
}

#[test]
fn single_attack_end_to_end() {
    // a level-one 685-health, 38-armor defender hit once for 60 physical:
    // 60 * 100/138 mitigates to about 43.48, so health rounds to 642
    let mut defender = create_champion_by_name("aatrox").unwrap();
    let mut attacker = create_champion_by_name("test-bruiser").unwrap();
    defender.take_auto_attack_damage(&mut attacker);
    assert_eq!(defender.champ_stats.health, 642 * SCALE);

    // the symmetric case: an armorless 10000-health target loses exactly 60
    let mut dummy = create_champion_by_name("dummy").unwrap();
    let mut attacker2 = create_champion_by_name("test-bruiser").unwrap();
    dummy.take_auto_attack_damage(&mut attacker2);
    assert_eq!(dummy.champ_stats.health, 9940 * SCALE);
}

#[test]
fn single_attack_against_shields() {
    let mut defender = create_champion_by_name("dummy").unwrap();
    defender.champ_stats.physical_shield_amount = 100 * SCALE;
    defender.champ_stats.shield_amount = 100 * SCALE;

    let mut attacker = create_champion_by_name("test-bruiser").unwrap();
    defender.take_auto_attack_damage(&mut attacker);

    assert_eq!(defender.champ_stats.physical_shield_amount, 40 * SCALE);
    assert_eq!(defender.champ_stats.shield_amount, 100 * SCALE);
    assert_eq!(defender.champ_stats.health, 10000 * SCALE);
}

#[test]
fn mirror_scenario_terminates_with_one_side_down() {
    let champ1 = create_champion_by_name("test-bruiser").unwrap();
    let champ2 = create_champion_by_name("test-bruiser").unwrap();
    let scenario = Scenario::new(
        0,
        500_000,
        Build::new(&champ1, vec![]),
        Build::new(&champ2, vec![]),
    )
    .unwrap();

    let result = scenario.calculate_scenario().unwrap();

    // the first actor wins the mirror match: it lands every exchange first
    assert_eq!(result.winner, 0);
    assert_eq!(result.final_health2, 0);
    assert!(result.final_health1 > 0);
    assert!(result.elapsed_ticks >= 1);
    assert!(result.elapsed_ticks <= 108_000);
}

#[test]
fn unknown_name_is_rejected() {
    assert_eq!(create_champion_by_name("nobody").unwrap_err(), SimError::UnknownEntity);
    assert_eq!(create_champion_by_name("aatrox ").unwrap_err(), SimError::UnknownEntity);
}

#[test]
fn catalog_lookup_ignores_ascii_case() {
    let shouting = create_champion_by_name("AATROX").unwrap();
    assert_eq!(shouting.name, "Aatrox");
    let mixed = create_champion_by_name("Test-Bruiser").unwrap();
    assert_eq!(mixed.name, "Test Bruiser");
}

#[test]
fn zero_attack_speed_is_an_invalid_configuration() {
    // the target dummy never attacks; a fight cannot be scheduled around it
    let dummy = create_champion_by_name("dummy").unwrap();
    let champ = create_champion_by_name("test-bruiser").unwrap();
    let result = Scenario::new(0, 500_000, Build::new(&dummy, vec![]), Build::new(&champ, vec![]));
    assert!(matches!(result, Err(SimError::InvalidConfiguration)));
}

#[test]
fn negative_reaction_delay_is_an_invalid_configuration() {
    let champ1 = create_champion_by_name("test-bruiser").unwrap();
    let champ2 = create_champion_by_name("test-bruiser").unwrap();
    let result = Scenario::new(
        0,
        -1,
        Build::new(&champ1, vec![]),
        Build::new(&champ2, vec![]),
    );
    assert!(matches!(result, Err(SimError::InvalidConfiguration)));
}

#[test]
fn zero_damage_duel_hits_the_iteration_cap() {
    let mut champ1 = create_champion_by_name("test-bruiser").unwrap();
    let mut champ2 = create_champion_by_name("test-bruiser").unwrap();
    champ1.champ_stats.ad = 0;
    champ2.champ_stats.ad = 0;
    let scenario = Scenario::new(
        0,
        500_000,
        Build::new(&champ1, vec![]),
        Build::new(&champ2, vec![]),
    )
    .unwrap();
    assert_eq!(scenario.calculate_scenario().unwrap_err(), SimError::IterationCapReached);
}

#[test]
fn crit_roll_lands_one_of_the_two_outcomes() {
    // a half-crit attacker either hits plain for 60 or lands the critical
    // for 60 * (1 + 0.5 * 0.75) = 82.5; the random draw decides, and nothing
    // else may come out
    let mut saw = [false, false];
    for _ in 0..64 {
        let mut dummy = create_champion_by_name("dummy").unwrap();
        let mut attacker = create_champion_by_name("aatrox").unwrap();
        dummy.take_auto_attack_damage(&mut attacker);
        let health = dummy.champ_stats.health;
        assert!(health == 9940 * SCALE || health == 9918 * SCALE);
        saw[if health == 9940 * SCALE { 0 } else { 1 }] = true;
    }
    let _ = saw;
}

#[test]
fn releveling_at_the_same_level_changes_nothing() {
    let mut champion = create_champion_by_name("aatrox").unwrap();
    champion.set_level(7);
    let once = champion.champ_stats;
    champion.set_level(7);
    assert_eq!(champion.champ_stats.health, once.health);
    assert_eq!(champion.champ_stats.ad, once.ad);
    assert_eq!(champion.champ_stats.as_, once.as_);
    assert_eq!(champion.champ_stats.armor, once.armor);
    assert_eq!(champion.champ_stats.mr, once.mr);
}

#[test]
fn full_registry_ignores_new_effects() {
    let mut champion = create_champion_by_name("test-bruiser").unwrap();
    for k in 0..duelsim::fixed::EFFECT_CAP {
        let effect = duelsim::effects::LimitedUseOnHitEffect::new(
            &format!("effect-{}", k),
            SCALE,
            DamageType::Physical,
            1,
            300,
            true,
        );
        champion.add_friendly_limited_use_on_hit_effect(effect);
    }
    assert_eq!(champion.friendly_limited_use_on_hit_effects.len(), duelsim::fixed::EFFECT_CAP);

    let overflowing = duelsim::effects::LimitedUseOnHitEffect::new(
        "one-too-many",
        SCALE,
        DamageType::Physical,
        1,
        300,
        true,
    );
    champion.add_friendly_limited_use_on_hit_effect(overflowing);
    assert_eq!(champion.friendly_limited_use_on_hit_effects.len(), duelsim::fixed::EFFECT_CAP);
}

#[test]
fn due_damage_over_time_fires_through_mitigation() {
    let mut champion = create_champion_by_name("test-bruiser").unwrap();
    let burn = duelsim::effects::DoTEffect::new(
        "burn",
        10 * SCALE,
        DamageType::Physical,
        150,
        duelsim::effects::EffectTickRate::PerSecond,
        300,
        true,
    );
    champion.apply_enemy_dot_on_hit_effect(burn);

    // tick 0 is due for a 30-tick period: 10 physical through 38 armor is
    // 10 * 100/138 = 7.246..., so 685 drops to round(677.75) = 678
    let dealt = champion.calculate_and_apply_dot_effects(0);
    assert_eq!(dealt.physical_component, 7_246_377);
    assert_eq!(champion.champ_stats.health, 678 * SCALE);

    // tick 1 is not due: nothing fires
    let idle = champion.calculate_and_apply_dot_effects(1);
    assert_eq!(idle.total(), 0);
    assert_eq!(champion.champ_stats.health, 678 * SCALE);
}

#[test]
fn true_damage_over_time_ignores_mitigation() {
    let mut champion = create_champion_by_name("test-bruiser").unwrap();
    let bleed = duelsim::effects::DoTEffect::new(
        "bleed",
        10 * SCALE,
        DamageType::True,
        150,
        duelsim::effects::EffectTickRate::PerSecond,
        300,
        true,
    );
    champion.apply_enemy_dot_on_hit_effect(bleed);

    let dealt = champion.calculate_and_apply_dot_effects(0);
    assert_eq!(dealt.true_component, 10 * SCALE);
    assert_eq!(champion.champ_stats.health, 675 * SCALE);
}

#[test]
fn finite_effects_expire_and_infinite_effects_persist() {
    let mut champion = create_champion_by_name("test-bruiser").unwrap();
    let fading = duelsim::effects::DoTEffect::new(
        "fading",
        10 * SCALE,
        DamageType::True,
        150,
        duelsim::effects::EffectTickRate::PerSecond,
        1,
        true,
    );
    let lasting = duelsim::effects::DoTEffect::new(
        "lasting",
        10 * SCALE,
        DamageType::True,
        150,
        duelsim::effects::EffectTickRate::PerSecond,
        0,
        false,
    );
    champion.apply_enemy_dot_on_hit_effect(fading);
    champion.apply_enemy_dot_on_hit_effect(lasting);

    champion.decrement_enemy_effect_time_left();
    assert_eq!(champion.enemy_dot_on_hit_effects.len(), 2);

    champion.decrement_enemy_effect_time_left();
    assert_eq!(champion.enemy_dot_on_hit_effects.len(), 1);
    assert!(champion.enemy_dot_on_hit_effects.iter().any(|e| e.id == "lasting"));

    champion.decrement_enemy_effect_time_left();
    assert_eq!(champion.enemy_dot_on_hit_effects.len(), 1);
}

#[test]
fn reapplied_damage_over_time_refreshes_its_timer() {
    let mut champion = create_champion_by_name("test-bruiser").unwrap();
    let burn = duelsim::effects::DoTEffect::new(
        "burn",
        10 * SCALE,
        DamageType::Magical,
        150,
        duelsim::effects::EffectTickRate::PerSecond,
        300,
        true,
    );
    champion.apply_enemy_dot_on_hit_effect(burn.clone());

    let mut refreshed = burn.clone();
    refreshed.set_time_left(40);
    champion.apply_enemy_dot_on_hit_effect(refreshed);

    assert_eq!(champion.enemy_dot_on_hit_effects.len(), 1);
    assert_eq!(champion.enemy_dot_on_hit_effects[0].damage_time_left, 40);
}

#[test]
fn landed_attack_propagates_granted_effects() {
    let mut attacker = create_champion_by_name("test-bruiser").unwrap();
    let bleed = StackingOnHitEffect::new("bleed", SCALE, DamageType::Physical, 5, 150, 300, true);
    let burn = duelsim::effects::DoTEffect::new(
        "burn",
        2 * SCALE,
        DamageType::Magical,
        90,
        duelsim::effects::EffectTickRate::PerSecond,
        300,
        true,
    );
    attacker.add_friendly_stacking_on_hit_effect(bleed);
    attacker.add_friendly_duration_on_hit_effect(burn);

    let champ1 = create_champion_by_name("test-bruiser").unwrap();
    let scenario = Scenario::new(
        0,
        500_000,
        Build::new(&attacker, vec![]),
        Build::new(&champ1, vec![]),
    )
    .unwrap();

    let mut victim = create_champion_by_name("dummy").unwrap();
    let mut giver = scenario.champ1_build.champion.clone();
    victim.take_auto_attack_damage(&mut giver);
    scenario.apply_stacking_on_hit_effects(&mut victim, &giver);
    scenario.apply_duration_on_hit_effects(&mut victim, &giver);

    let stacks = victim
        .enemy_stacking_on_hit_effects
        .iter()
        .find(|e| e.id == "bleed")
        .unwrap()
        .current_stacks;
    assert_eq!(stacks, 1);
    assert!(victim.enemy_dot_on_hit_effects.iter().any(|e| e.id == "burn"));

    // a second landed attack adds a stack and refreshes the burn's timer
    victim.take_auto_attack_damage(&mut giver);
    scenario.apply_stacking_on_hit_effects(&mut victim, &giver);
    scenario.apply_duration_on_hit_effects(&mut victim, &giver);

    let stacks2 = victim
        .enemy_stacking_on_hit_effects
        .iter()
        .find(|e| e.id == "bleed")
        .unwrap()
        .current_stacks;
    assert_eq!(stacks2, 2);
    let timer = victim
        .enemy_dot_on_hit_effects
        .iter()
        .find(|e| e.id == "burn")
        .unwrap()
        .damage_time_left;
    assert_eq!(timer, 90);
}

#[test]
fn one_hit_duel_ends_after_the_opening_tick() {
    let champ1 = create_champion_by_name("test-bruiser").unwrap();
    let mut champ2 = create_champion_by_name("test-bruiser").unwrap();
    // the defender cannot survive the opening hit of about 43.48
    champ2.champ_stats.health = 40 * SCALE;

    let scenario = Scenario::new(
        0,
        500_000,
        Build::new(&champ1, vec![]),
        Build::new(&champ2, vec![]),
    )
    .unwrap();

    let result = scenario.calculate_scenario().unwrap();
    assert_eq!(result.winner, 0);
    assert_eq!(result.final_health1, 685 * SCALE);
    assert_eq!(result.final_health2, 0);
    assert_eq!(result.elapsed_ticks, 1);
}
