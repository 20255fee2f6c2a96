use duelsim::damage::Damage;
use duelsim::effects::{DamageType, DoTEffect, EffectTickRate, LimitedUseOnHitEffect, StackingOnHitEffect};
use duelsim::fixed::SCALE;
use duelsim::utils::create_champion_by_name;

fn bruiser() -> duelsim::champion::Champion {
    create_champion_by_name("test-bruiser").unwrap()
}

#[test]
fn test_set_level() {
    let mut champion = bruiser();

    assert_eq!(champion.champ_stats.health, 685 * SCALE);
    assert_eq!(champion.champ_stats.hp5, 3 * SCALE);
    assert_eq!(champion.champ_stats.resource, 0);
    assert_eq!(champion.champ_stats.rp5, 0);
    assert_eq!(champion.champ_stats.ad, 60 * SCALE);
    assert_eq!(champion.champ_stats.as_, 651_000);
    assert_eq!(champion.champ_stats.armor, 38 * SCALE);
    assert_eq!(champion.champ_stats.mr, 32 * SCALE);

    champion.set_level(2);

    assert_eq!(champion.champ_stats.health, 767 * SCALE);
    assert_eq!(champion.champ_stats.hp5, 4 * SCALE);
    assert_eq!(champion.champ_stats.resource, 0);
    assert_eq!(champion.champ_stats.rp5, 0);
    assert_eq!(champion.champ_stats.ad, 64 * SCALE);
    assert_eq!(champion.champ_stats.as_, 825_468);
    assert_eq!(champion.champ_stats.armor, 41 * SCALE);
    assert_eq!(champion.champ_stats.mr, 33 * SCALE);
}

#[test]
fn test_take_true_damage() {
    let mut champion = bruiser();

    champion.champ_stats.shield_amount = 100 * SCALE;
    champion.champ_stats.magic_shield_amount = 100 * SCALE;
    champion.champ_stats.physical_shield_amount = 100 * SCALE;

    let mut damage = Damage::new(0, 0, 100 * SCALE);

    champion.take_true_damage(&mut damage);

    assert_eq!(champion.champ_stats.shield_amount, 0);
    assert_eq!(champion.champ_stats.health, 685 * SCALE);
    assert_eq!(champion.champ_stats.magic_shield_amount, 100 * SCALE);
    assert_eq!(champion.champ_stats.physical_shield_amount, 100 * SCALE);

    damage.true_component = 100 * SCALE;

    champion.take_true_damage(&mut damage);

    assert_eq!(champion.champ_stats.shield_amount, 0);
    assert_eq!(champion.champ_stats.health, 585 * SCALE);

    champion.champ_stats.shield_amount = 99 * SCALE;
    damage.true_component = 100 * SCALE;

    champion.take_true_damage(&mut damage);

    assert_eq!(champion.champ_stats.shield_amount, 0);
    assert_eq!(champion.champ_stats.health, 584 * SCALE);

    damage.true_component = 600 * SCALE;

    champion.take_true_damage(&mut damage);

    assert_eq!(champion.champ_stats.shield_amount, 0);
    assert_eq!(champion.champ_stats.health, 0);
}

#[test]
fn take_magic_damage() {
    let mut champion = bruiser();

    champion.champ_stats.shield_amount = 100 * SCALE;
    champion.champ_stats.magic_shield_amount = 100 * SCALE;
    champion.champ_stats.physical_shield_amount = 100 * SCALE;

    let mut damage = Damage::new(0, 100 * SCALE, 0);

    champion.take_magical_damage(&mut damage);

    assert_eq!(champion.champ_stats.shield_amount, 100 * SCALE);
    assert_eq!(champion.champ_stats.health, 685 * SCALE);
    assert_eq!(champion.champ_stats.magic_shield_amount, 0);
    assert_eq!(champion.champ_stats.physical_shield_amount, 100 * SCALE);

    damage.magical_component = 100 * SCALE;

    champion.take_magical_damage(&mut damage);

    assert_eq!(champion.champ_stats.shield_amount, 0);
    assert_eq!(champion.champ_stats.health, 685 * SCALE);

    champion.champ_stats.shield_amount = 99 * SCALE;
    damage.magical_component = 100 * SCALE;

    champion.take_magical_damage(&mut damage);

    assert_eq!(champion.champ_stats.shield_amount, 0);
    assert_eq!(champion.champ_stats.health, 684 * SCALE);

    damage.magical_component = 700 * SCALE;

    champion.take_magical_damage(&mut damage);

    assert_eq!(champion.champ_stats.shield_amount, 0);
    assert_eq!(champion.champ_stats.health, 0);
}

#[test]
fn take_physical_damage() {
    let mut champion = bruiser();

    champion.champ_stats.shield_amount = 100 * SCALE;
    champion.champ_stats.magic_shield_amount = 100 * SCALE;
    champion.champ_stats.physical_shield_amount = 100 * SCALE;

    let mut damage = Damage::new(100 * SCALE, 0, 0);

    champion.take_physical_damage(&mut damage);

    assert_eq!(champion.champ_stats.shield_amount, 100 * SCALE);
    assert_eq!(champion.champ_stats.health, 685 * SCALE);
    assert_eq!(champion.champ_stats.magic_shield_amount, 100 * SCALE);
    assert_eq!(champion.champ_stats.physical_shield_amount, 0);

    damage.physical_component = 100 * SCALE;

    champion.take_physical_damage(&mut damage);

    assert_eq!(champion.champ_stats.shield_amount, 0);
    assert_eq!(champion.champ_stats.health, 685 * SCALE);

    champion.champ_stats.shield_amount = 99 * SCALE;
    damage.physical_component = 100 * SCALE;

    champion.take_physical_damage(&mut damage);

    assert_eq!(champion.champ_stats.shield_amount, 0);
    assert_eq!(champion.champ_stats.health, 684 * SCALE);

    damage.physical_component = 700 * SCALE;

    champion.take_physical_damage(&mut damage);

    assert_eq!(champion.champ_stats.shield_amount, 0);
    assert_eq!(champion.champ_stats.health, 0);
}

#[test]
fn test_calculate_physical_damage_taken() {
    let champion = bruiser();
    let damage = 1000 * SCALE;

    assert_eq!(champion.calculate_physical_damage_taken(25 * SCALE, damage), 800 * SCALE);

    assert_eq!(champion.calculate_physical_damage_taken(100 * SCALE, damage), 500 * SCALE);

    assert_eq!(champion.calculate_physical_damage_taken(200 * SCALE, damage), 333_333_333);

    assert_eq!(champion.calculate_physical_damage_taken(-100 * SCALE, damage), 1500 * SCALE);

    assert_eq!(champion.calculate_physical_damage_taken(0, damage), 1000 * SCALE);
}

#[test]
fn test_calculate_magic_damage_taken() {
    let champion = bruiser();
    let damage = 1000 * SCALE;

    assert_eq!(champion.calculate_magical_damage_taken(25 * SCALE, damage), 800 * SCALE);

    assert_eq!(champion.calculate_magical_damage_taken(100 * SCALE, damage), 500 * SCALE);

    assert_eq!(champion.calculate_magical_damage_taken(200 * SCALE, damage), 333_333_333);

    assert_eq!(champion.calculate_magical_damage_taken(-100 * SCALE, damage), 1500 * SCALE);

    assert_eq!(champion.calculate_magical_damage_taken(0, damage), 1000 * SCALE);
}

#[test]
fn test_take_damage() {
    let mut champion = bruiser();

    let damage1 = Damage::new(100 * SCALE, 100 * SCALE, 100 * SCALE);
    let damage2 = Damage::new(100 * SCALE, 100 * SCALE, 100 * SCALE);

    champion.take_damage(damage1);

    assert_eq!(champion.champ_stats.health, 385 * SCALE);
    assert_eq!(champion.champ_stats.shield_amount, 0);
    assert_eq!(champion.champ_stats.magic_shield_amount, 0);
    assert_eq!(champion.champ_stats.physical_shield_amount, 0);

    champion.champ_stats.shield_amount = 100 * SCALE;
    champion.champ_stats.magic_shield_amount = 100 * SCALE;
    champion.champ_stats.physical_shield_amount = 100 * SCALE;

    champion.take_damage(damage2);

    assert_eq!(champion.champ_stats.health, 385 * SCALE);
    assert_eq!(champion.champ_stats.shield_amount, 0);
    assert_eq!(champion.champ_stats.magic_shield_amount, 0);
    assert_eq!(champion.champ_stats.physical_shield_amount, 0);
}

#[test]
fn test_add_limited_use_on_hit_effect() {
    let mut champion = bruiser();

    let effect = LimitedUseOnHitEffect::new("test", 100 * SCALE, DamageType::Physical, 1, 300, true);

    champion.add_friendly_limited_use_on_hit_effect(effect);

    assert_eq!(champion.friendly_limited_use_on_hit_effects.len(), 1);
}

#[test]
fn test_add_duplicate_limited_use_on_hit_effect() {
    let mut champion = bruiser();

    let effect = LimitedUseOnHitEffect::new("test", 100 * SCALE, DamageType::Physical, 1, 300, true);
    let effect2 = LimitedUseOnHitEffect::new("test", 100 * SCALE, DamageType::Physical, 1, 300, true);

    champion.add_friendly_limited_use_on_hit_effect(effect);
    champion.add_friendly_limited_use_on_hit_effect(effect2);

    assert_eq!(champion.friendly_limited_use_on_hit_effects.len(), 1);
}

#[test]
fn test_add_duration_on_hit_effect() {
    let mut champion = bruiser();

    let effect = DoTEffect::new(
        "test",
        100 * SCALE,
        DamageType::Physical,
        60,
        EffectTickRate::PerSecond,
        300,
        true,
    );

    champion.add_friendly_duration_on_hit_effect(effect);

    assert_eq!(champion.friendly_duration_on_hit_effects.len(), 1);
}

#[test]
fn test_add_duplicate_duration_on_hit_effect() {
    let mut champion = bruiser();

    let effect = DoTEffect::new(
        "test",
        100 * SCALE,
        DamageType::Physical,
        60,
        EffectTickRate::PerSecond,
        300,
        true,
    );
    let effect2 = DoTEffect::new(
        "test",
        100 * SCALE,
        DamageType::Physical,
        60,
        EffectTickRate::PerSecond,
        300,
        true,
    );

    champion.add_friendly_duration_on_hit_effect(effect);
    champion.add_friendly_duration_on_hit_effect(effect2);

    assert_eq!(champion.friendly_duration_on_hit_effects.len(), 1);
}

#[test]
fn test_add_stacking_on_hit_effect() {
    let mut champion = bruiser();

    let effect = StackingOnHitEffect::new("test", 5 * SCALE, DamageType::Physical, 100, 60, 300, true);

    champion.add_friendly_stacking_on_hit_effect(effect);

    assert_eq!(champion.friendly_stacking_on_hit_effects.len(), 1);
}

#[test]
fn test_add_duplicate_stacking_on_hit_effect() {
    let mut champion = bruiser();

    let effect = StackingOnHitEffect::new("test", 5 * SCALE, DamageType::Physical, 100, 60, 300, true);
    let effect2 = StackingOnHitEffect::new("test", 5 * SCALE, DamageType::Physical, 100, 60, 300, true);

    champion.add_friendly_stacking_on_hit_effect(effect);
    champion.add_friendly_stacking_on_hit_effect(effect2);

    assert_eq!(champion.friendly_stacking_on_hit_effects.len(), 1);
}

#[test]
fn test_remove_limited_use_on_hit_effects() {
    let mut champion = bruiser();

    let effect = LimitedUseOnHitEffect::new("test", 100 * SCALE, DamageType::Physical, 1, 300, true);
    let effect2 = LimitedUseOnHitEffect::new("test2", 100 * SCALE, DamageType::Physical, 1, 300, true);
    let effect3 = LimitedUseOnHitEffect::new("test3", 100 * SCALE, DamageType::Physical, 1, 300, true);

    champion.add_friendly_limited_use_on_hit_effect(effect);
    champion.add_friendly_limited_use_on_hit_effect(effect2);
    champion.add_friendly_limited_use_on_hit_effect(effect3);

    champion.remove_on_hit_effect("test2");

    assert_eq!(champion.friendly_limited_use_on_hit_effects.len(), 2);
    assert!(!champion.friendly_limited_use_on_hit_effects.iter().any(|e| e.id == "test2"));
    assert!(champion.friendly_limited_use_on_hit_effects.iter().any(|e| e.id == "test"));
    assert!(champion.friendly_limited_use_on_hit_effects.iter().any(|e| e.id == "test3"));
}

#[test]
fn test_remove_on_hit_effects_duration() {
    let mut champion = bruiser();

    let effect = DoTEffect::new(
        "test",
        100 * SCALE,
        DamageType::Physical,
        60,
        EffectTickRate::PerSecond,
        300,
        true,
    );
    let effect2 = DoTEffect::new(
        "test2",
        100 * SCALE,
        DamageType::Physical,
        60,
        EffectTickRate::PerSecond,
        300,
        true,
    );
    let effect3 = DoTEffect::new(
        "test3",
        100 * SCALE,
        DamageType::Physical,
        60,
        EffectTickRate::PerSecond,
        300,
        true,
    );

    champion.add_friendly_duration_on_hit_effect(effect);
    champion.add_friendly_duration_on_hit_effect(effect2);
    champion.add_friendly_duration_on_hit_effect(effect3);

    champion.remove_on_hit_effect("test2");

    assert_eq!(champion.friendly_duration_on_hit_effects.len(), 2);
    assert!(!champion.friendly_duration_on_hit_effects.iter().any(|e| e.id == "test2"));
    assert!(champion.friendly_duration_on_hit_effects.iter().any(|e| e.id == "test"));
    assert!(champion.friendly_duration_on_hit_effects.iter().any(|e| e.id == "test3"));
}

#[test]
fn test_remove_on_hit_effects_stacking() {
    let mut champion = bruiser();

    let effect = StackingOnHitEffect::new("test", 5 * SCALE, DamageType::Physical, 100, 60, 300, true);
    let effect2 = StackingOnHitEffect::new("test2", 5 * SCALE, DamageType::Physical, 100, 60, 300, true);
    let effect3 = StackingOnHitEffect::new("test3", 5 * SCALE, DamageType::Physical, 100, 60, 300, true);

    champion.add_friendly_stacking_on_hit_effect(effect);
    champion.add_friendly_stacking_on_hit_effect(effect2);
    champion.add_friendly_stacking_on_hit_effect(effect3);

    champion.remove_on_hit_effect("test2");

    assert_eq!(champion.friendly_stacking_on_hit_effects.len(), 2);
    assert!(!champion.friendly_stacking_on_hit_effects.iter().any(|e| e.id == "test2"));
    assert!(champion.friendly_stacking_on_hit_effects.iter().any(|e| e.id == "test"));
    assert!(champion.friendly_stacking_on_hit_effects.iter().any(|e| e.id == "test3"));
}

#[test]
fn test_decrement_limited_use_on_hit_effects() {
    let mut champion = bruiser();

    let effect = LimitedUseOnHitEffect::new("test", 100 * SCALE, DamageType::Physical, 1, 300, true);
    let effect2 = LimitedUseOnHitEffect::new("test2", 100 * SCALE, DamageType::Physical, 2, 300, true);
    let effect3 = LimitedUseOnHitEffect::new("test3", 100 * SCALE, DamageType::Physical, 0, 300, true);

    champion.add_friendly_limited_use_on_hit_effect(effect);
    champion.add_friendly_limited_use_on_hit_effect(effect2);
    champion.add_friendly_limited_use_on_hit_effect(effect3);

    champion.decrement_limited_use_on_hit_effects();

    assert_eq!(champion.friendly_limited_use_on_hit_effects.len(), 3);
    let uses = |id: &str| {
        champion
            .friendly_limited_use_on_hit_effects
            .iter()
            .find(|e| e.id == id)
            .unwrap()
            .num_uses
    };
    assert_eq!(uses("test"), 0);
    assert_eq!(uses("test2"), 1);
    assert_eq!(uses("test3"), 0);
}

#[test]
fn test_calculate_on_hit_damage() {
    let champion = bruiser();
    let mut source = bruiser();

    let effect = LimitedUseOnHitEffect::new("test", 100 * SCALE, DamageType::Physical, 1, 300, true);
    let effect2 = LimitedUseOnHitEffect::new("test2", 100 * SCALE, DamageType::Physical, 2, 300, true);
    let effect3 = LimitedUseOnHitEffect::new("test3", 100 * SCALE, DamageType::Physical, 0, 300, true);
    let effect4 = LimitedUseOnHitEffect::new("test4", 100 * SCALE, DamageType::Magical, 1, 300, true);
    let effect5 = LimitedUseOnHitEffect::new("test5", 100 * SCALE, DamageType::True, 1, 300, true);

    source.add_friendly_limited_use_on_hit_effect(effect);
    source.add_friendly_limited_use_on_hit_effect(effect2);
    source.add_friendly_limited_use_on_hit_effect(effect3);
    source.add_friendly_limited_use_on_hit_effect(effect4);
    source.add_friendly_limited_use_on_hit_effect(effect5);

    let damage = champion.calculate_on_hit_damage(&source);

    assert_eq!(damage.physical_component, 200 * SCALE);
    assert_eq!(damage.magical_component, 100 * SCALE);
    assert_eq!(damage.true_component, 100 * SCALE);
}

#[test]
fn test_calculate_physical_damage_taken_from_aa_no_armor() {
    let champion = bruiser();
    let source = bruiser();

    let damage = champion.calculate_physical_damage_taken_from_aa(0, &source.champ_stats);

    assert_eq!(damage.physical_component, 60 * SCALE);
}

#[test]
fn test_calculate_physical_damage_taken_from_aa_with_armor() {
    let champion = bruiser();
    let source = bruiser();

    let damage = champion.calculate_physical_damage_taken_from_aa(100 * SCALE, &source.champ_stats);

    assert_eq!(damage.physical_component, 30 * SCALE);
}

#[test]
fn test_calculate_physical_damage_taken_from_aa_crit() {
    let champion = bruiser();
    let mut source = bruiser();

    source.champ_stats.crit = SCALE;

    let damage = champion.calculate_physical_damage_taken_from_aa(0, &source.champ_stats);

    assert_eq!(damage.physical_component, 105 * SCALE);
}

#[test]
fn test_take_auto_attack_damage() {
    let mut champion = bruiser();
    let mut source = bruiser();

    source.champ_stats.ad = 100 * SCALE;
    source.champ_stats.crit = SCALE;

    champion.take_auto_attack_damage(&mut source);

    assert_eq!(champion.champ_stats.health, 558 * SCALE);
}

#[test]
fn test_clone_champion() {
    let champion = bruiser();

    let clone = champion.clone();

    assert_eq!(champion.name, clone.name);
    assert_eq!(champion.level, clone.level);
    assert_eq!(
        champion.friendly_limited_use_on_hit_effects.len(),
        clone.friendly_limited_use_on_hit_effects.len()
    );
    assert_eq!(
        champion.friendly_duration_on_hit_effects.len(),
        clone.friendly_duration_on_hit_effects.len()
    );
}

#[test]
fn test_apply_enemy_stacking_on_hit_effect() {
    let mut champion = bruiser();

    let effect = StackingOnHitEffect::new("test", 10 * SCALE, DamageType::Physical, 3, 150, 300, true);

    champion.apply_enemy_stacking_on_hit_effect(effect.clone());

    assert_eq!(champion.enemy_stacking_on_hit_effects.len(), 1);

    champion.apply_enemy_stacking_on_hit_effect(effect.clone());

    assert_eq!(champion.enemy_stacking_on_hit_effects.len(), 1);
    let stacks = |c: &duelsim::champion::Champion, id: &str| {
        c.enemy_stacking_on_hit_effects
            .iter()
            .find(|e| e.id == id)
            .unwrap()
            .current_stacks
    };
    assert_eq!(stacks(&champion, "test"), 2);

    let effect2 = StackingOnHitEffect::new("test2", 10 * SCALE, DamageType::Physical, 1, 150, 300, true);

    champion.apply_enemy_stacking_on_hit_effect(effect2.clone());
    champion.apply_enemy_stacking_on_hit_effect(effect2.clone());

    assert_eq!(champion.enemy_stacking_on_hit_effects.len(), 2);
    assert_eq!(stacks(&champion, "test2"), 1);

    let effect3 = StackingOnHitEffect::new("test3", 10 * SCALE, DamageType::Physical, 1, 150, 300, true);

    champion.apply_enemy_stacking_on_hit_effect(effect3.clone());

    assert_eq!(champion.enemy_stacking_on_hit_effects.len(), 3);
    assert_eq!(stacks(&champion, "test3"), 1);
}
