//! How each game unit is drawn: as a small marker, or as a sprite on one of
//! the draw layers with its effects, health bar and shadow. The geometry
//! (screen rectangles, sizes, the damage flash curve) is the caller's; this
//! module decides what is drawn.

use vstd::prelude::*;
use crate::colour::Colour;

verus! {

/// The kinds of game object.
#[derive(Clone, Copy, Debug, PartialEq, Eq, Structural)]
pub enum ObjectType {
    Player,
    Enemy,
    Collectable,
    Attack,
}

/// The sprite layers, drawn (after shadows and markers) in the order
/// `Images` then health bars then `Players`.
#[derive(Clone, Copy, Debug, PartialEq, Eq, Structural)]
pub enum SpriteLayer {
    Images,
    Players,
}

/// A health bar over a unit: a black background bar and a filled part.
#[derive(Clone, Copy, Debug, PartialEq, Eq, Structural)]
pub struct HealthBarStyle {
    /// Colour of the filled part.
    pub fill: Colour,
    /// Bar width as a percentage of the unit's width.
    pub width_percent: u32,
    /// Bar height in units of the camera zoom.
    pub height_units: u32,
    /// Whether a negative health ratio is drawn as an empty bar.
    pub clamp_at_zero: bool,
}

/// How a unit sprite is drawn.
#[derive(Clone, Copy, Debug, PartialEq, Eq, Structural)]
pub struct SpritePlan {
    pub layer: SpriteLayer,
    /// Whether the sprite flashes white after taking damage.
    pub damage_flash: bool,
    /// Whether the sprite's alpha is blended fully to the blend target.
    pub full_alpha_blend: bool,
    /// Whether the sprite is turned to face its attack direction.
    pub aim_rotation: bool,
    pub health_bar: Option<HealthBarStyle>,
    /// Tint of the shadow drawn under the unit.
    pub shadow_tint: Colour,
}

/// What is drawn for a unit.
#[derive(Clone, Copy, Debug, PartialEq, Eq, Structural)]
pub enum UnitPlan {
    /// Nothing: the unit is off screen or its sprite sheet is missing.
    Nothing,
    /// A flat rectangle of this colour, for units too small to show a sprite.
    Marker(Colour),
    Sprite(SpritePlan),
}

pub open spec fn red() -> Colour {
    Colour { r: 255, g: 0, b: 0, a: 255 }
}

pub open spec fn green() -> Colour {
    Colour { r: 0, g: 255, b: 0, a: 255 }
}

pub open spec fn shadow() -> Colour {
    Colour { r: 0, g: 0, b: 0, a: 192 }
}

/// The health bar of a unit of the given kind, if it has one: players always
/// show a wide green bar; enemies and collectables a narrower red one while
/// hurt; attacks none.
pub open spec fn spec_health_bar(object_type: ObjectType, at_full_health: bool) -> Option<
    HealthBarStyle,
> {
    match object_type {
        ObjectType::Player => Some(
            HealthBarStyle { fill: green(), width_percent: 90, height_units: 4, clamp_at_zero: false },
        ),
        ObjectType::Enemy | ObjectType::Collectable => if at_full_health {
            None
        } else {
            Some(
                HealthBarStyle { fill: red(), width_percent: 70, height_units: 3, clamp_at_zero: true },
            )
        },
        ObjectType::Attack => None,
    }
}

/// The drawing decision for a unit with an animation.
pub open spec fn spec_unit_plan(
    object_type: ObjectType,
    on_screen: bool,
    too_small: bool,
    sheet_found: bool,
    at_full_health: bool,
) -> UnitPlan {
    if !on_screen {
        UnitPlan::Nothing
    } else if too_small && object_type != ObjectType::Player {
        UnitPlan::Marker(red())
    } else if !sheet_found {
        UnitPlan::Nothing
    } else {
        UnitPlan::Sprite(
            SpritePlan {
                layer: if object_type == ObjectType::Player {
                    SpriteLayer::Players
                } else {
                    SpriteLayer::Images
                },
                damage_flash: object_type == ObjectType::Player || object_type == ObjectType::Enemy,
                full_alpha_blend: object_type == ObjectType::Player,
                aim_rotation: object_type == ObjectType::Attack,
                health_bar: spec_health_bar(object_type, at_full_health),
                shadow_tint: shadow(),
            },
        )
    }
}

fn health_bar(object_type: ObjectType, at_full_health: bool) -> (h: Option<HealthBarStyle>)
    ensures
        h == spec_health_bar(object_type, at_full_health),
{
    match object_type {
        ObjectType::Player => Some(
            HealthBarStyle {
                fill: Colour::from_rgb(0, 255, 0),
                width_percent: 90,
                height_units: 4,
                clamp_at_zero: false,
            },
        ),
        ObjectType::Enemy | ObjectType::Collectable => {
            if at_full_health {
                None
            } else {
                Some(
                    HealthBarStyle {
                        fill: Colour::from_rgb(255, 0, 0),
                        width_percent: 70,
                        height_units: 3,
                        clamp_at_zero: true,
                    },
                )
            }
        },
        ObjectType::Attack => None,
    }
}

/// Decides how a unit that has an animation is drawn. A unit whose
/// rectangle misses the view draws nothing; a unit too small for a sprite
/// (less than five pixels either way) is a red marker unless it is the
/// player; a unit whose sprite sheet is missing draws nothing; otherwise it
/// is a sprite with a shadow, on the player layer for players and the image
/// layer for everything else.
pub fn unit_plan(
    object_type: ObjectType,
    on_screen: bool,
    too_small: bool,
    sheet_found: bool,
    at_full_health: bool,
) -> (p: UnitPlan)
    ensures
        p == spec_unit_plan(object_type, on_screen, too_small, sheet_found, at_full_health),
        !on_screen ==> p == UnitPlan::Nothing,
        on_screen && too_small && object_type != ObjectType::Player ==> p == UnitPlan::Marker(
            Colour { r: 255, g: 0, b: 0, a: 255 },
        ),
        on_screen && !(too_small && object_type != ObjectType::Player) && !sheet_found ==> p
            == UnitPlan::Nothing,
        on_screen && !(too_small && object_type != ObjectType::Player) && sheet_found ==> (p is Sprite
            && (p->Sprite_0.layer == SpriteLayer::Players <==> object_type == ObjectType::Player)
            && (p->Sprite_0.damage_flash <==> (object_type == ObjectType::Player || object_type
            == ObjectType::Enemy)) && (p->Sprite_0.full_alpha_blend <==> object_type
            == ObjectType::Player) && (p->Sprite_0.aim_rotation <==> object_type
            == ObjectType::Attack) && p->Sprite_0.shadow_tint == (Colour {
            r: 0,
            g: 0,
            b: 0,
            a: 192,
        }) && (p->Sprite_0.health_bar is Some <==> (object_type == ObjectType::Player || (
        object_type != ObjectType::Attack && !at_full_health)))),
{
    if !on_screen {
        return UnitPlan::Nothing;
    }
    let is_player = match object_type {
        ObjectType::Player => true,
        _ => false,
    };
    if too_small && !is_player {
        return UnitPlan::Marker(Colour::from_rgb(255, 0, 0));
    }
    if !sheet_found {
        return UnitPlan::Nothing;
    }
    let (layer, damage_flash, full_alpha_blend, aim_rotation) = match object_type {
        ObjectType::Player => (SpriteLayer::Players, true, true, false),
        ObjectType::Enemy => (SpriteLayer::Images, true, false, false),
        ObjectType::Collectable => (SpriteLayer::Images, false, false, false),
        ObjectType::Attack => (SpriteLayer::Images, false, false, true),
    };
    UnitPlan::Sprite(
        SpritePlan {
            layer,
            damage_flash,
            full_alpha_blend,
            aim_rotation,
            health_bar: health_bar(object_type, at_full_health),
            shadow_tint: Colour { r: 0, g: 0, b: 0, a: 192 },
        },
    )
}

/// The player is never reduced to a marker: once on screen with its sheet
/// loaded it is a sprite on the player layer with a health bar, whatever
/// its size.
pub proof fn lemma_player_always_sprite(too_small: bool, at_full_health: bool)
    ensures
        spec_unit_plan(ObjectType::Player, true, too_small, true, at_full_health) matches UnitPlan::Sprite(
            s,
        ) && s.layer == SpriteLayer::Players && s.health_bar is Some,
{
}

/// Only players are drawn on the player layer.
pub proof fn lemma_player_layer_only_players(
    object_type: ObjectType,
    on_screen: bool,
    too_small: bool,
    sheet_found: bool,
    at_full_health: bool,
)
    ensures
        spec_unit_plan(object_type, on_screen, too_small, sheet_found, at_full_health) matches UnitPlan::Sprite(
            s,
        ) && s.layer == SpriteLayer::Players ==> object_type == ObjectType::Player,
{
}

/// A unit at full health other than the player shows no health bar.
pub proof fn lemma_full_health_no_bar(object_type: ObjectType)
    requires
        object_type != ObjectType::Player,
    ensures
        spec_health_bar(object_type, true) is None,
{
}

/// Every unit on screen that is too small for a sprite and is not the
/// player is drawn as the red marker, whatever its kind and whether or not
/// its sheet is loaded; a unit off screen draws nothing.
pub proof fn lemma_small_units_are_markers(
    object_type: ObjectType,
    sheet_found: bool,
    at_full_health: bool,
)
    ensures
        object_type != ObjectType::Player ==> spec_unit_plan(
            object_type,
            true,
            true,
            sheet_found,
            at_full_health,
        ) == UnitPlan::Marker(Colour { r: 255, g: 0, b: 0, a: 255 }),
        spec_unit_plan(object_type, false, true, sheet_found, at_full_health) == UnitPlan::Nothing,
        spec_unit_plan(object_type, false, false, sheet_found, at_full_health) == UnitPlan::Nothing,
{
}

} // verus!
