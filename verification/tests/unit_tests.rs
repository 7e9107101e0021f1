use dragon_lair::colour::Colour;
use dragon_lair::units::{unit_plan, HealthBarStyle, ObjectType, SpriteLayer, UnitPlan};

#[test]
fn off_screen_draws_nothing() {
    assert_eq!(unit_plan(ObjectType::Player, false, false, true, true), UnitPlan::Nothing);
}

#[test]
fn small_units_are_markers_except_player() {
    assert_eq!(unit_plan(ObjectType::Enemy, true, true, true, true), UnitPlan::Marker(Colour::from_rgb(255, 0, 0)));
    assert_eq!(unit_plan(ObjectType::Attack, true, true, false, true), UnitPlan::Marker(Colour::from_rgb(255, 0, 0)));
    assert!(matches!(unit_plan(ObjectType::Player, true, true, true, true), UnitPlan::Sprite(_)));
}

#[test]
fn missing_sheet_draws_nothing() {
    assert_eq!(unit_plan(ObjectType::Enemy, true, false, false, true), UnitPlan::Nothing);
}

#[test]
fn player_sprite() {
    match unit_plan(ObjectType::Player, true, false, true, true) {
        UnitPlan::Sprite(s) => {
            assert_eq!(s.layer, SpriteLayer::Players);
            assert!(s.damage_flash && s.full_alpha_blend && !s.aim_rotation);
            assert_eq!(
                s.health_bar,
                Some(HealthBarStyle { fill: Colour::from_rgb(0, 255, 0), width_percent: 90, height_units: 4, clamp_at_zero: false })
            );
            assert_eq!(s.shadow_tint, Colour { r: 0, g: 0, b: 0, a: 192 });
        }
        _ => panic!("player must be a sprite"),
    }
}

#[test]
fn enemy_health_bar_only_when_hurt() {
    match unit_plan(ObjectType::Enemy, true, false, true, true) {
        UnitPlan::Sprite(s) => {
            assert_eq!(s.layer, SpriteLayer::Images);
            assert!(s.damage_flash && !s.full_alpha_blend);
            assert_eq!(s.health_bar, None);
        }
        _ => panic!(),
    }
    match unit_plan(ObjectType::Enemy, true, false, true, false) {
        UnitPlan::Sprite(s) => assert_eq!(
            s.health_bar,
            Some(HealthBarStyle { fill: Colour::from_rgb(255, 0, 0), width_percent: 70, height_units: 3, clamp_at_zero: true })
        ),
        _ => panic!(),
    }
}

#[test]
fn collectable_and_attack() {
    match unit_plan(ObjectType::Collectable, true, false, true, false) {
        UnitPlan::Sprite(s) => {
            assert!(!s.damage_flash && s.health_bar.is_some() && !s.aim_rotation);
        }
        _ => panic!(),
    }
    match unit_plan(ObjectType::Attack, true, false, true, false) {
        UnitPlan::Sprite(s) => {
            assert!(!s.damage_flash && s.health_bar.is_none() && s.aim_rotation);
            assert_eq!(s.layer, SpriteLayer::Images);
        }
        _ => panic!(),
    }
}
