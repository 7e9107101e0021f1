//! Press-and-release tracking and hover/press shading of interactive widgets.
//!
//! A widget remembers, between frames, whether the current press of the
//! primary pointer button began inside it (`None` until a press was seen).
//! The pointer geometry is reduced by the caller to booleans: whether the
//! press origin lies inside the widget and whether the pointer is over it.

use vstd::prelude::*;
use crate::colour::{Colour, lighten_colour, lightened};

verus! {

/// What `button_clicked` answers: the button is held down by a press that began on it.
pub open spec fn spec_button_clicked(
    enabled: bool,
    mouse_down: bool,
    press_inside: Option<bool>,
) -> bool {
    enabled && mouse_down && press_inside == Some(true)
}

/// What `button_clicked` leaves in the widget's memory.
pub open spec fn memory_after_press(
    enabled: bool,
    memory: Option<bool>,
    mouse_down: bool,
    press_inside: Option<bool>,
) -> Option<bool> {
    if enabled && mouse_down {
        Some(press_inside == Some(true))
    } else {
        memory
    }
}

/// Whether the widget is currently pressed. While the primary button is down,
/// the widget records whether the press began inside it (`press_inside` is
/// `None` when there is no press origin). A disabled widget is never pressed
/// and its memory is left alone.
pub fn button_clicked(
    enabled: bool,
    memory: &mut Option<bool>,
    mouse_down: bool,
    press_inside: Option<bool>,
) -> (clicked: bool)
    ensures
        clicked == spec_button_clicked(enabled, mouse_down, press_inside),
        *final(memory) == memory_after_press(enabled, *old(memory), mouse_down, press_inside),
{
    if !enabled {
        return false;
    }
    let mut click_started_inside = match *memory {
        Some(b) => b,
        None => false,
    };
    if mouse_down {
        click_started_inside = match press_inside {
            Some(b) => b,
            None => false,
        };
        *memory = Some(click_started_inside);
    }
    mouse_down && click_started_inside
}

/// What `released_inside` answers.
pub open spec fn spec_released_inside(
    enabled: bool,
    memory: Option<bool>,
    mouse_released: bool,
    pointer_inside: bool,
) -> bool {
    enabled && mouse_released && memory == Some(true) && pointer_inside
}

/// Whether this frame completes a click: the primary button was released
/// over the widget and the press had begun on it.
pub fn released_inside(
    enabled: bool,
    memory: Option<bool>,
    mouse_released: bool,
    pointer_inside: bool,
) -> (released: bool)
    ensures
        released == spec_released_inside(enabled, memory, mouse_released, pointer_inside),
{
    if !enabled {
        return false;
    }
    let click_started_inside = match memory {
        Some(b) => b,
        None => false,
    };
    mouse_released && click_started_inside && pointer_inside
}

/// A press that begins outside a widget (or with no press origin) can never
/// complete a click on it, wherever the pointer is released.
pub proof fn lemma_press_outside_never_clicks(
    enabled: bool,
    memory: Option<bool>,
    press_inside: Option<bool>,
    mouse_released: bool,
    pointer_inside: bool,
)
    requires
        press_inside != Some(true),
    ensures
        !spec_released_inside(
            enabled,
            memory_after_press(enabled, memory, true, press_inside),
            mouse_released,
            pointer_inside,
        ),
{
}

/// A press that begins inside an enabled widget and is released over it
/// completes a click.
pub proof fn lemma_press_inside_then_release_clicks(memory: Option<bool>)
    ensures
        spec_button_clicked(true, true, Some(true)),
        spec_released_inside(true, memory_after_press(true, memory, true, Some(true)), true, true),
{
}

/// A disabled widget is never pressed, never clicked and keeps its memory.
pub proof fn lemma_disabled_is_inert(
    memory: Option<bool>,
    mouse_down: bool,
    press_inside: Option<bool>,
    mouse_released: bool,
    pointer_inside: bool,
)
    ensures
        !spec_button_clicked(false, mouse_down, press_inside),
        memory_after_press(false, memory, mouse_down, press_inside) == memory,
        !spec_released_inside(false, memory, mouse_released, pointer_inside),
{
}

/// Shading amounts of the generic interactive widget while pressed.
pub fn default_click_colours() -> (v: Vec<i8>)
    ensures
        v@ == seq![-20i8, -25i8, -30i8],
{
    vec![-20, -25, -30]
}

/// Shading amounts of the generic interactive widget while hovered.
pub fn default_hover_colours() -> (v: Vec<i8>)
    ensures
        v@ == seq![25i8, 30i8, 35i8],
{
    vec![25, 30, 35]
}

/// Shading amounts of a button (background, border) while pressed.
pub fn button_click_colours() -> (v: Vec<i8>)
    ensures
        v@ == seq![-25i8, -30i8],
{
    vec![-25, -30]
}

/// Shading amounts of a button (background, border) while hovered.
pub fn button_hover_colours() -> (v: Vec<i8>)
    ensures
        v@ == seq![20i8, 30i8],
{
    vec![20, 30]
}

/// Shading amounts of a progress bar (bar, background, border) while pressed.
pub fn progress_bar_click_colours() -> (v: Vec<i8>)
    ensures
        v@ == seq![-40i8, -25i8, -30i8],
{
    vec![-40, -25, -30]
}

/// Shading amounts of a progress bar (bar, background, border) while hovered.
pub fn progress_bar_hover_colours() -> (v: Vec<i8>)
    ensures
        v@ == seq![30i8, 30i8, 35i8],
{
    vec![30, 30, 35]
}

/// The colour shown for the `i`-th base colour of a widget.
pub open spec fn shaded_colour(
    base: Seq<Colour>,
    click: Seq<i8>,
    hover: Seq<i8>,
    clicked: bool,
    hovering: bool,
    i: int,
) -> Colour {
    if clicked {
        lightened(base[i], click[i])
    } else if hovering {
        lightened(base[i], hover[i])
    } else {
        base[i]
    }
}

/// The colours of a widget after its hover and press effects: each base
/// colour is shaded by the matching press amount while pressed, else by the
/// matching hover amount while hovered, else kept. A disabled widget keeps
/// its base colours. The three lists must have the same length.
pub fn determine_colour(
    enabled: bool,
    base_colours: Vec<Colour>,
    click_colours: &Vec<i8>,
    hover_colours: &Vec<i8>,
    button_clicked: bool,
    hovering: bool,
) -> (res: Vec<Colour>)
    requires
        enabled ==> base_colours.len() == click_colours.len(),
        enabled ==> base_colours.len() == hover_colours.len(),
    ensures
        !enabled ==> res@ == base_colours@,
        enabled ==> res.len() == base_colours.len(),
        enabled && button_clicked ==> forall|i: int|
            0 <= i < res.len() ==> #[trigger] res@[i] == lightened(
                base_colours@[i],
                click_colours@[i],
            ),
        enabled && !button_clicked && hovering ==> forall|i: int|
            0 <= i < res.len() ==> #[trigger] res@[i] == lightened(
                base_colours@[i],
                hover_colours@[i],
            ),
        enabled && !button_clicked && !hovering ==> res@ == base_colours@,
        enabled ==> forall|i: int|
            0 <= i < res.len() ==> #[trigger] res@[i] == shaded_colour(
                base_colours@,
                click_colours@,
                hover_colours@,
                button_clicked,
                hovering,
                i,
            ),
{
    if !enabled {
        return base_colours;
    }
    let mut res: Vec<Colour> = Vec::new();
    let n = base_colours.len();
    for i in 0..n
        invariant
            n == base_colours.len(),
            n == click_colours.len(),
            n == hover_colours.len(),
            res.len() == i,
            forall|j: int|
                0 <= j < i ==> #[trigger] res@[j] == shaded_colour(
                    base_colours@,
                    click_colours@,
                    hover_colours@,
                    button_clicked,
                    hovering,
                    j,
                ),
    {
        let colour = base_colours[i];
        let shaded = if button_clicked {
            lighten_colour(colour, click_colours[i])
        } else if hovering {
            lighten_colour(colour, hover_colours[i])
        } else {
            colour
        };
        res.push(shaded);
    }
    res
}

/// Background and border of the icon button after its hover and press
/// effects, each of which can be switched off.
pub open spec fn spec_icon_button_colours(
    background: Colour,
    border: Colour,
    click_effect: bool,
    hover_effect: bool,
    button_clicked: bool,
    hovering: bool,
) -> (Colour, Colour) {
    if click_effect && button_clicked {
        (lightened(background, -20i8), lightened(border, -30i8))
    } else if hover_effect && hovering {
        (lightened(background, 25i8), lightened(border, 40i8))
    } else {
        (background, border)
    }
}

/// The colours of the icon button: darkened while pressed (when the press
/// effect is on), else lightened while hovered (when the hover effect is
/// on), else unchanged.
pub fn icon_button_colours(
    background: Colour,
    border: Colour,
    click_effect: bool,
    hover_effect: bool,
    button_clicked: bool,
    hovering: bool,
) -> (res: (Colour, Colour))
    ensures
        click_effect && button_clicked ==> res == (lightened(background, -20i8), lightened(
            border,
            -30i8,
        )),
        !(click_effect && button_clicked) && hover_effect && hovering ==> res == (lightened(
            background,
            25i8,
        ), lightened(border, 40i8)),
        !(click_effect && button_clicked) && !(hover_effect && hovering) ==> res == (
            background,
            border,
        ),
        res == spec_icon_button_colours(
            background,
            border,
            click_effect,
            hover_effect,
            button_clicked,
            hovering,
        ),
{
    if click_effect && button_clicked {
        (lighten_colour(background, -20), lighten_colour(border, -30))
    } else if hover_effect && hovering {
        (lighten_colour(background, 25), lighten_colour(border, 40))
    } else {
        (background, border)
    }
}

/// A pressed widget shows its press shading whether or not the pointer is
/// still over it; hover shading shows only when it is not pressed.
pub proof fn lemma_press_shading_wins(
    base: Seq<Colour>,
    click: Seq<i8>,
    hover: Seq<i8>,
    hovering: bool,
    i: int,
)
    ensures
        shaded_colour(base, click, hover, true, hovering, i) == lightened(base[i], click[i]),
        shaded_colour(base, click, hover, false, true, i) == lightened(base[i], hover[i]),
        shaded_colour(base, click, hover, false, false, i) == base[i],
{
}

/// Colour of a progress bar's filled part: green once the bar is full,
/// red before.
pub fn progress_bar_colour(completed: bool) -> (c: Colour)
    ensures
        c == (if completed {
            Colour { r: 0, g: 200, b: 0, a: 255 }
        } else {
            Colour { r: 200, g: 0, b: 0, a: 255 }
        }),
{
    if completed {
        Colour::from_rgb(0, 200, 0)
    } else {
        Colour::from_rgb(200, 0, 0)
    }
}

/// The text drawn over a progress bar.
#[derive(Clone, Copy, Debug, PartialEq, Eq, Structural)]
pub enum BarLabel {
    /// "Level Up!" once the bar is full.
    LevelUp,
    /// The filled percentage, with one decimal.
    Percentage,
    NoLabel,
}

/// The label of a progress bar: a full bar says so; otherwise the
/// percentage shows when asked for.
pub fn progress_bar_label(completed: bool, show_percentage: bool) -> (l: BarLabel)
    ensures
        l == (if completed {
            BarLabel::LevelUp
        } else if show_percentage {
            BarLabel::Percentage
        } else {
            BarLabel::NoLabel
        }),
{
    if completed {
        BarLabel::LevelUp
    } else if show_percentage {
        BarLabel::Percentage
    } else {
        BarLabel::NoLabel
    }
}

/// The widget id a button gets by default: its text, or the empty string
/// for a button without text.
pub fn default_button_id(text: Option<&str>) -> (id: String)
    ensures
        id@ == match text {
            Some(t) => t@,
            None => Seq::<char>::empty(),
        },
{
    match text {
        Some(t) => String::from_str(t),
        None => String::new(),
    }
}

} // verus!
