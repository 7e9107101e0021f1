use dragon_lair::pixels::{blacken_transparent_white, invert_rgb};

#[test]
fn invert_keeps_alpha_and_trailing_bytes() {
    let mut p = vec![0, 10, 255, 7, 100, 200, 50, 0, 9, 9];
    invert_rgb(&mut p);
    assert_eq!(p, vec![255, 245, 0, 7, 155, 55, 205, 0, 9, 9]);
}

#[test]
fn invert_twice_is_identity() {
    let orig = vec![1, 2, 3, 4, 250, 128, 0, 255, 77];
    let mut p = orig.clone();
    invert_rgb(&mut p);
    invert_rgb(&mut p);
    assert_eq!(p, orig);
}

#[test]
fn invert_empty() {
    let mut p: Vec<u8> = vec![];
    invert_rgb(&mut p);
    assert!(p.is_empty());
}

#[test]
fn blacken_only_transparent_white() {
    let mut p = vec![255, 255, 255, 0, 255, 255, 255, 1, 255, 254, 255, 0, 255, 255, 255];
    blacken_transparent_white(&mut p);
    assert_eq!(p, vec![0, 0, 0, 0, 255, 255, 255, 1, 255, 254, 255, 0, 255, 255, 255]);
}

#[test]
fn blacken_is_idempotent() {
    let mut p = vec![255, 255, 255, 0, 10, 20, 30, 40];
    blacken_transparent_white(&mut p);
    let once = p.clone();
    blacken_transparent_white(&mut p);
    assert_eq!(p, once);
}
