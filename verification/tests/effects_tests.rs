use duelsim::effects::{DamageType, DoTEffect, EffectTickRate, LimitedUseOnHitEffect, StackingOnHitEffect};
use duelsim::fixed::SCALE;

#[test]
fn test_dot_effect_new() {
    let dot_effect = DoTEffect::new(
        "burn",
        5 * SCALE,
        DamageType::Magical,
        150,
        EffectTickRate::PerSecond,
        300,
        true,
    );

    assert_eq!(dot_effect.id, "burn");
    assert_eq!(dot_effect.damage_over_time, 5 * SCALE);
    assert_eq!(dot_effect.damage_type, DamageType::Magical);
    assert_eq!(dot_effect.damage_time_left, 150);
    assert_eq!(dot_effect.tick_rate, EffectTickRate::PerSecond);
}

#[test]
fn test_dot_effect_set_time_left() {
    let mut dot_effect = DoTEffect::new(
        "burn",
        5 * SCALE,
        DamageType::Magical,
        150,
        EffectTickRate::PerSecond,
        300,
        true,
    );
    dot_effect.set_time_left(300);

    assert_eq!(dot_effect.damage_time_left, 300);
}

#[test]
fn test_dot_effect_reduce_time_left() {
    let mut dot_effect = DoTEffect::new(
        "burn",
        5 * SCALE,
        DamageType::Magical,
        150,
        EffectTickRate::PerSecond,
        300,
        true,
    );
    dot_effect.reduce_time_left(60);

    assert_eq!(dot_effect.damage_time_left, 90);
}

#[test]
fn test_limited_use_on_hit_effect_new() {
    let limited_use_on_hit_effect =
        LimitedUseOnHitEffect::new("test", 50 * SCALE, DamageType::True, 5, 300, true);

    assert_eq!(limited_use_on_hit_effect.id, "test");
    assert_eq!(limited_use_on_hit_effect.damage, 50 * SCALE);
    assert_eq!(limited_use_on_hit_effect.damage_type, DamageType::True);
    assert_eq!(limited_use_on_hit_effect.num_uses, 5);
}

#[test]
fn test_limited_use_on_hit_effect_reduce_num_uses() {
    let mut limited_use_on_hit_effect =
        LimitedUseOnHitEffect::new("test", 50 * SCALE, DamageType::True, 5, 300, true);
    limited_use_on_hit_effect.reduce_num_uses();

    assert_eq!(limited_use_on_hit_effect.num_uses, 4);
}

#[test]
fn test_stacking_on_hit_effect_new() {
    let stacking_on_hit_effect =
        StackingOnHitEffect::new("test", 5 * SCALE, DamageType::True, 5, 150, 300, true);

    assert_eq!(stacking_on_hit_effect.id, "test");
    assert_eq!(stacking_on_hit_effect.damage_over_time, 5 * SCALE);
    assert_eq!(stacking_on_hit_effect.damage_type, DamageType::True);
    assert_eq!(stacking_on_hit_effect.max_stacks, 5);
    assert_eq!(stacking_on_hit_effect.current_stacks, 0);
    assert_eq!(stacking_on_hit_effect.damage_time_left, 150);
}

#[test]
fn test_stacking_on_hit_effect_set_current_stacks() {
    let mut stacking_on_hit_effect =
        StackingOnHitEffect::new("test", 5 * SCALE, DamageType::True, 5, 150, 300, true);
    stacking_on_hit_effect.set_current_stacks(3);

    assert_eq!(stacking_on_hit_effect.current_stacks, 3);
}

#[test]
fn test_stacking_on_hit_effect_set_time_left() {
    let mut stacking_on_hit_effect =
        StackingOnHitEffect::new("test", 5 * SCALE, DamageType::True, 5, 150, 300, true);
    stacking_on_hit_effect.set_time_left(300);

    assert_eq!(stacking_on_hit_effect.damage_time_left, 300);
}

#[test]
fn test_stacking_on_hit_effect_reduce_time_left() {
    let mut stacking_on_hit_effect =
        StackingOnHitEffect::new("test", 5 * SCALE, DamageType::True, 5, 150, 300, true);
    stacking_on_hit_effect.reduce_damage_time_left(60);

    assert_eq!(stacking_on_hit_effect.damage_time_left, 90);
}

#[test]
fn test_stacking_on_hit_effect_reduce_current_stacks() {
    let mut stacking_on_hit_effect =
        StackingOnHitEffect::new("test", 5 * SCALE, DamageType::True, 5, 150, 300, true);
    stacking_on_hit_effect.set_current_stacks(3);
    stacking_on_hit_effect.reduce_current_stacks();

    assert_eq!(stacking_on_hit_effect.current_stacks, 2);
}

#[test]
fn test_partial_eq_for_dot_effect() {
    let dot_effect1 = DoTEffect::new(
        "burn",
        5 * SCALE,
        DamageType::Magical,
        150,
        EffectTickRate::PerSecond,
        300,
        true,
    );
    let dot_effect2 = DoTEffect::new(
        "burn",
        5 * SCALE,
        DamageType::Magical,
        150,
        EffectTickRate::PerSecond,
        300,
        true,
    );

    assert_eq!(&dot_effect1, &dot_effect2);
}

#[test]
fn test_partial_eq_for_limited_use_on_hit_effect() {
    let limited_use_on_hit_effect1 =
        LimitedUseOnHitEffect::new("test", 50 * SCALE, DamageType::True, 5, 300, true);
    let limited_use_on_hit_effect2 =
        LimitedUseOnHitEffect::new("test", 50 * SCALE, DamageType::True, 5, 300, true);

    assert_eq!(&limited_use_on_hit_effect1, &limited_use_on_hit_effect2);
}

#[test]
fn test_partial_eq_for_stacking_on_hit_effect() {
    let stacking_on_hit_effect1 =
        StackingOnHitEffect::new("test", 5 * SCALE, DamageType::True, 5, 150, 300, true);
    let stacking_on_hit_effect2 =
        StackingOnHitEffect::new("test", 5 * SCALE, DamageType::True, 5, 150, 300, true);

    assert_eq!(&stacking_on_hit_effect1, &stacking_on_hit_effect2);
}

#[test]
fn test_partial_eq_for_damage_type() {
    let damage_type1 = DamageType::Physical;
    let damage_type2 = DamageType::Physical;

    let damage_type3 = DamageType::Magical;
    let damage_type4 = DamageType::Magical;

    let damage_type5 = DamageType::True;
    let damage_type6 = DamageType::True;

    assert_eq!(&damage_type1, &damage_type2);
    assert_eq!(&damage_type3, &damage_type4);
    assert_eq!(&damage_type5, &damage_type6);

    assert_ne!(&damage_type1, &damage_type3);
    assert_ne!(&damage_type1, &damage_type5);
    assert_ne!(&damage_type3, &damage_type5);
}

#[test]
fn test_partial_eq_for_effect_tick_rate() {
    let effect_tick_rate1 = EffectTickRate::PerSecond;
    let effect_tick_rate2 = EffectTickRate::PerSecond;

    let effect_tick_rate3 = EffectTickRate::PerHalfSecond;
    let effect_tick_rate4 = EffectTickRate::PerHalfSecond;

    let effect_tick_rate5 = EffectTickRate::PerQuarterSecond;
    let effect_tick_rate6 = EffectTickRate::PerQuarterSecond;

    let effect_tick_rate7 = EffectTickRate::PerHalfQuarterSecond;
    let effect_tick_rate8 = EffectTickRate::PerHalfQuarterSecond;

    assert_eq!(&effect_tick_rate1, &effect_tick_rate2);
    assert_eq!(&effect_tick_rate3, &effect_tick_rate4);
    assert_eq!(&effect_tick_rate5, &effect_tick_rate6);
    assert_eq!(&effect_tick_rate7, &effect_tick_rate8);

    assert_ne!(&effect_tick_rate1, &effect_tick_rate3);
    assert_ne!(&effect_tick_rate1, &effect_tick_rate5);
    assert_ne!(&effect_tick_rate1, &effect_tick_rate7);
    assert_ne!(&effect_tick_rate3, &effect_tick_rate5);
    assert_ne!(&effect_tick_rate3, &effect_tick_rate7);
    assert_ne!(&effect_tick_rate5, &effect_tick_rate7);
}

#[test]
fn test_effect_tick_rate_values() {
    assert_eq!(EffectTickRate::PerSecond.value(), 30);
    assert_eq!(EffectTickRate::PerHalfSecond.value(), 15);
    assert_eq!(EffectTickRate::PerQuarterSecond.value(), 8);
    assert_eq!(EffectTickRate::PerHalfQuarterSecond.value(), 4);
}
