use dragon_lair::colour::{lighten_colour, Colour};
use dragon_lair::interaction::{
    button_click_colours, button_clicked, button_hover_colours, default_button_id,
    default_click_colours, default_hover_colours, determine_colour, icon_button_colours,
    progress_bar_click_colours, progress_bar_colour, progress_bar_hover_colours, released_inside,
};

#[test]
fn press_inside_then_release_inside_clicks() {
    let mut memory = None;
    assert!(button_clicked(true, &mut memory, true, Some(true)));
    assert_eq!(memory, Some(true));
    assert!(released_inside(true, memory, true, true));
}

#[test]
fn press_outside_never_clicks() {
    let mut memory = Some(true);
    assert!(!button_clicked(true, &mut memory, true, Some(false)));
    assert_eq!(memory, Some(false));
    assert!(!released_inside(true, memory, true, true));
}

#[test]
fn press_without_origin_counts_as_outside() {
    let mut memory = Some(true);
    assert!(!button_clicked(true, &mut memory, true, None));
    assert_eq!(memory, Some(false));
}

#[test]
fn mouse_up_keeps_memory() {
    let mut memory = Some(true);
    assert!(!button_clicked(true, &mut memory, false, Some(false)));
    assert_eq!(memory, Some(true));
}

#[test]
fn release_outside_does_not_click() {
    assert!(!released_inside(true, Some(true), true, false));
    assert!(!released_inside(true, Some(true), false, true));
    assert!(!released_inside(true, None, true, true));
}

#[test]
fn disabled_widget_is_inert() {
    let mut memory = Some(false);
    assert!(!button_clicked(false, &mut memory, true, Some(true)));
    assert_eq!(memory, Some(false));
    assert!(!released_inside(false, Some(true), true, true));
}

#[test]
fn colour_tables() {
    assert_eq!(default_click_colours(), vec![-20, -25, -30]);
    assert_eq!(default_hover_colours(), vec![25, 30, 35]);
    assert_eq!(button_click_colours(), vec![-25, -30]);
    assert_eq!(button_hover_colours(), vec![20, 30]);
    assert_eq!(progress_bar_click_colours(), vec![-40, -25, -30]);
    assert_eq!(progress_bar_hover_colours(), vec![30, 30, 35]);
}

#[test]
fn determine_colour_shades_each_colour() {
    let base = vec![Colour::from_rgb(0, 0, 0), Colour::from_rgb(100, 0, 100)];
    let clicked = determine_colour(true, base.clone(), &button_click_colours(), &button_hover_colours(), true, true);
    assert_eq!(clicked, vec![Colour::from_rgb(0, 0, 0), Colour::from_rgb(70, 0, 70)]);
    let hovered = determine_colour(true, base.clone(), &button_click_colours(), &button_hover_colours(), false, true);
    assert_eq!(hovered, vec![Colour::from_rgb(20, 20, 20), Colour::from_rgb(130, 30, 130)]);
    let idle = determine_colour(true, base.clone(), &button_click_colours(), &button_hover_colours(), false, false);
    assert_eq!(idle, base);
}

#[test]
fn determine_colour_disabled_keeps_base() {
    let base = vec![Colour { r: 1, g: 2, b: 3, a: 4 }];
    let out = determine_colour(false, base.clone(), &vec![], &vec![], true, true);
    assert_eq!(out, base);
}

#[test]
fn icon_button_effects() {
    let bg = Colour::from_rgb(0, 0, 0);
    let border = Colour::from_rgb(100, 0, 100);
    assert_eq!(
        icon_button_colours(bg, border, true, true, true, true),
        (lighten_colour(bg, -20), lighten_colour(border, -30))
    );
    assert_eq!(
        icon_button_colours(bg, border, true, true, false, true),
        (Colour::from_rgb(25, 25, 25), Colour::from_rgb(140, 40, 140))
    );
    assert_eq!(icon_button_colours(bg, border, false, false, true, true), (bg, border));
    assert_eq!(
        icon_button_colours(bg, border, false, true, true, true),
        (Colour::from_rgb(25, 25, 25), Colour::from_rgb(140, 40, 140))
    );
}

#[test]
fn progress_bar_colours() {
    assert_eq!(progress_bar_colour(true), Colour::from_rgb(0, 200, 0));
    assert_eq!(progress_bar_colour(false), Colour::from_rgb(200, 0, 0));
}

#[test]
fn button_ids() {
    assert_eq!(default_button_id(Some("Quit")), "Quit");
    assert_eq!(default_button_id(None), "");
}
