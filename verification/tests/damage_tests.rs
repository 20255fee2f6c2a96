use duelsim::damage::Damage;
use duelsim::fixed::SCALE;

#[test]
fn test_damage() {
    let mut damage = Damage::new(100 * SCALE, 100 * SCALE, 100 * SCALE);
    assert_eq!(damage.total(), 300 * SCALE);

    damage.reduce_physical_damage(50 * SCALE);
    assert_eq!(damage.total(), 250 * SCALE);
    assert_eq!(damage.physical_component, 50 * SCALE);

    damage.reduce_magical_damage(50 * SCALE);
    assert_eq!(damage.total(), 200 * SCALE);
    assert_eq!(damage.magical_component, 50 * SCALE);

    damage.reduce_true_damage(50 * SCALE);
    assert_eq!(damage.total(), 150 * SCALE);
    assert_eq!(damage.true_component, 50 * SCALE);
}

#[test]
fn test_add_assign() {
    let mut damage1 = Damage::new(100 * SCALE, 100 * SCALE, 100 * SCALE);
    let damage2 = Damage::new(50 * SCALE, 50 * SCALE, 50 * SCALE);

    damage1.add_assign(damage2);

    assert_eq!(damage1.total(), 450 * SCALE);
    assert_eq!(damage1.physical_component, 150 * SCALE);
    assert_eq!(damage1.magical_component, 150 * SCALE);
    assert_eq!(damage1.true_component, 150 * SCALE);
}

#[test]
fn test_add() {
    let damage1 = Damage::new(100 * SCALE, 100 * SCALE, 100 * SCALE);
    let damage2 = Damage::new(50 * SCALE, 50 * SCALE, 50 * SCALE);

    let damage3 = damage1.add(damage2);

    assert_eq!(damage3.total(), 450 * SCALE);
    assert_eq!(damage3.physical_component, 150 * SCALE);
    assert_eq!(damage3.magical_component, 150 * SCALE);
    assert_eq!(damage3.true_component, 150 * SCALE);
}

#[test]
fn test_clone() {
    let damage1 = Damage::new(100 * SCALE, 100 * SCALE, 100 * SCALE);
    let mut damage2 = damage1.clone();

    assert_eq!(damage2.total(), 300 * SCALE);
    assert_eq!(damage2.physical_component, 100 * SCALE);
    assert_eq!(damage2.magical_component, 100 * SCALE);
    assert_eq!(damage2.true_component, 100 * SCALE);

    damage2.physical_component = 50 * SCALE;
    damage2.magical_component = 50 * SCALE;
    damage2.true_component = 50 * SCALE;

    assert_eq!(damage1.total(), 300 * SCALE);
    assert_eq!(damage1.physical_component, 100 * SCALE);
    assert_eq!(damage1.magical_component, 100 * SCALE);
    assert_eq!(damage1.true_component, 100 * SCALE);

    assert_eq!(damage2.total(), 150 * SCALE);
    assert_eq!(damage2.physical_component, 50 * SCALE);
    assert_eq!(damage2.magical_component, 50 * SCALE);
    assert_eq!(damage2.true_component, 50 * SCALE);
}

#[test]
fn test_copy() {
    let damage1 = Damage::new(100 * SCALE, 100 * SCALE, 100 * SCALE);
    let mut damage2 = damage1;

    assert_eq!(damage2.total(), 300 * SCALE);
    assert_eq!(damage2.physical_component, 100 * SCALE);
    assert_eq!(damage2.magical_component, 100 * SCALE);
    assert_eq!(damage2.true_component, 100 * SCALE);

    damage2.physical_component = 50 * SCALE;
    damage2.magical_component = 50 * SCALE;
    damage2.true_component = 50 * SCALE;

    assert_eq!(damage1.total(), 300 * SCALE);
    assert_eq!(damage1.physical_component, 100 * SCALE);
    assert_eq!(damage1.magical_component, 100 * SCALE);
    assert_eq!(damage1.true_component, 100 * SCALE);

    assert_eq!(damage2.total(), 150 * SCALE);
    assert_eq!(damage2.physical_component, 50 * SCALE);
    assert_eq!(damage2.magical_component, 50 * SCALE);
    assert_eq!(damage2.true_component, 50 * SCALE);
}
