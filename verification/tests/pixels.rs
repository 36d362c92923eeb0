use niri_workspace::pixels::swap_red_blue;

#[test]
fn rgba_becomes_bgra() {
    let mut px = vec![1, 2, 3, 4, 5, 6, 7, 8];
    swap_red_blue(&mut px);
    assert_eq!(px, vec![3, 2, 1, 4, 7, 6, 5, 8]);
}

#[test]
fn incomplete_trailing_pixel_is_left_alone() {
    let mut px = vec![10, 20, 30, 40, 50, 60, 70];
    swap_red_blue(&mut px);
    assert_eq!(px, vec![30, 20, 10, 40, 50, 60, 70]);
    let mut empty: Vec<u8> = Vec::new();
    swap_red_blue(&mut empty);
    assert!(empty.is_empty());
}

#[test]
fn swapping_twice_restores_pixels() {
    let orig: Vec<u8> = (0..=40).collect();
    let mut px = orig.clone();
    swap_red_blue(&mut px);
    assert_ne!(px, orig);
    swap_red_blue(&mut px);
    assert_eq!(px, orig);
}
