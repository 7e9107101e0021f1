use dragon_lair::lair::{
    experience_for_level_up, get_lair_object, lair_object_00_heart, lair_object_01_imp_chef,
    production_progress, purchase_button_id, LairObject, PlayerData, Purchaseable, ResourceAmount,
};

#[test]
fn heart_at_level_zero() {
    let h = lair_object_00_heart(0, 1);
    assert_eq!(h.name, "Dragon's Heart");
    assert_eq!(h.icon_name.as_deref(), Some("dragons_heart"));
    assert!(h.active && h.unlocked);
    assert_eq!(h.production_duration, 5_000);
    assert_eq!(h.production_amount, ResourceAmount { food: Some(1), gold: None });
    assert_eq!(h.production_cost, ResourceAmount { food: None, gold: Some(5) });
    assert_eq!(h.purchase_cost(), h.production_cost);
}

#[test]
fn heart_multipliers() {
    // level 12: production 1 + 12 + 144/10 = 27, cost 1 + 12 + 144/100 = 14
    let h = lair_object_00_heart(12, 3);
    assert_eq!(h.production_amount.food, Some(81));
    assert_eq!(h.production_cost.gold, Some(5 * 14 * 3));
}

#[test]
fn imp_chef_multipliers() {
    // level 10: production 10 + 100/10 = 20, cost 10 + 100/100 = 11
    let c = lair_object_01_imp_chef(10, 2);
    assert_eq!(c.name, "Imp Chef");
    assert!(!c.active && !c.unlocked);
    assert_eq!(c.production_duration, 50_000);
    assert_eq!(c.production_amount.food, Some(40));
    assert_eq!(c.production_cost.gold, Some(110));
    assert_eq!(lair_object_01_imp_chef(0, 5).production_amount.food, Some(0));
}

#[test]
fn largest_level() {
    let h = lair_object_00_heart(65535, u32::MAX);
    let m: u64 = 1 + 65535 + 65535 * 65535 / 10;
    assert_eq!(h.production_amount.food, Some(m * u32::MAX as u64));
}

#[test]
fn lair_object_catalogue() {
    assert_eq!(get_lair_object(0, 2).name, "Dragon's Heart");
    assert_eq!(get_lair_object(0, 2).quantity, 1);
    assert_eq!(get_lair_object(1, 2).name, "Imp Chef");
    assert_eq!(get_lair_object(1, 2).quantity, 0);
    let e = get_lair_object(7, 2);
    assert_eq!(e.name, "Empty");
    assert_eq!(e.quantity, 0);
    assert_eq!(e.production_duration, u64::MAX);
}

#[test]
fn new_object_defaults() {
    let o = LairObject::new("Bat".to_string(), 3, 2, None);
    assert!(!o.active && !o.unlocked);
    assert_eq!(o.production_duration, u64::MAX);
    assert_eq!(o.production_cost, ResourceAmount::default());
    assert_eq!((o.level, o.quantity), (3, 2));
}

#[test]
fn purchase_increments_first_match() {
    let heart = lair_object_00_heart(1, 1);
    let mut player = PlayerData {
        resources_persistent: ResourceAmount { food: Some(3), gold: Some(4) },
        lair_objects: vec![lair_object_01_imp_chef(1, 0), heart.clone(), heart.clone()],
    };
    heart.attempt_purchase(&mut player);
    assert_eq!(player.lair_objects[0].quantity, 0);
    assert_eq!(player.lair_objects[1].quantity, 2);
    assert_eq!(player.lair_objects[2].quantity, 1);
    assert_eq!(player.resources_persistent, ResourceAmount { food: Some(3), gold: Some(4) });
}

#[test]
fn purchase_without_match_changes_nothing() {
    let mut player = PlayerData {
        resources_persistent: ResourceAmount::default(),
        lair_objects: vec![lair_object_01_imp_chef(1, 0)],
    };
    lair_object_00_heart(1, 1).attempt_purchase(&mut player);
    assert_eq!(player.lair_objects.len(), 1);
    assert_eq!(player.lair_objects[0].quantity, 0);
}

#[test]
fn affording_and_paying() {
    let have = ResourceAmount { food: Some(10), gold: None };
    assert!(ResourceAmount::can_afford(&have, &ResourceAmount { food: Some(10), gold: None }));
    assert!(!ResourceAmount::can_afford(&have, &ResourceAmount { food: Some(11), gold: None }));
    assert!(!ResourceAmount::can_afford(&have, &ResourceAmount { food: None, gold: Some(1) }));
    assert!(ResourceAmount::can_afford(&have, &ResourceAmount::default()));
    let mut r = have;
    ResourceAmount::pay_cost(&mut r, &ResourceAmount { food: Some(4), gold: Some(0) });
    assert_eq!(r, ResourceAmount { food: Some(6), gold: Some(0) });
    let mut r = have;
    ResourceAmount::pay_cost(&mut r, &ResourceAmount::default());
    assert_eq!(r, have);
}

#[test]
fn ui_rules() {
    assert_eq!(experience_for_level_up(0), 100);
    assert_eq!(experience_for_level_up(7), 170);
    assert_eq!(production_progress(1200, 5000), 1200);
    assert_eq!(production_progress(9000, 5000), 5000);
    assert_eq!(purchase_button_id("Imp Chef"), "Imp Chef-purchase-button");
}
