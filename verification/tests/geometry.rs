use qrcoderust::geometry::{
    find_safe_center_cutout, is_finder_pattern, is_within, safe_cutout_side, Square,
};
use qrcoderust::symbol::{EcLevel, Symbol};

fn blank(width: usize, level: EcLevel) -> Symbol {
    Symbol::new(1, level, width, vec![false; width * width]).unwrap()
}

#[test]
fn within_takes_all_four_bounds() {
    let square = Square { x1: 2, y1: 3, x2: 5, y2: 7 };
    assert!(is_within(2, 3, &square));
    assert!(is_within(5, 7, &square));
    assert!(is_within(2, 7, &square));
    assert!(is_within(4, 5, &square));
    assert!(!is_within(1, 5, &square));
    assert!(!is_within(6, 5, &square));
    assert!(!is_within(4, 2, &square));
    assert!(!is_within(4, 8, &square));
}

#[test]
fn finder_zone_top_left() {
    assert!(is_finder_pattern(21, 0, 0));
    assert!(is_finder_pattern(21, 6, 6));
    assert!(is_finder_pattern(21, 3, 5));
    assert!(!is_finder_pattern(21, 7, 7));
    assert!(!is_finder_pattern(21, 7, 0));
    assert!(!is_finder_pattern(21, 0, 7));
}

#[test]
fn finder_zone_top_right() {
    assert!(is_finder_pattern(21, 14, 0));
    assert!(is_finder_pattern(21, 20, 6));
    assert!(is_finder_pattern(21, 21, 0));
    assert!(!is_finder_pattern(21, 13, 0));
    assert!(!is_finder_pattern(21, 20, 7));
}

#[test]
fn finder_zone_bottom_left() {
    assert!(is_finder_pattern(21, 0, 14));
    assert!(is_finder_pattern(21, 6, 20));
    assert!(is_finder_pattern(21, 0, 21));
    assert!(!is_finder_pattern(21, 0, 13));
    assert!(!is_finder_pattern(21, 7, 20));
}

#[test]
fn no_finder_zone_at_centre_or_bottom_right() {
    assert!(!is_finder_pattern(21, 10, 10));
    assert!(!is_finder_pattern(21, 20, 20));
    assert!(!is_finder_pattern(177, 88, 88));
    assert!(is_finder_pattern(177, 170, 3));
}

#[test]
fn finder_zones_of_a_narrow_grid() {
    assert!(is_finder_pattern(5, 0, 0));
    assert!(is_finder_pattern(5, 4, 4));
    assert!(is_finder_pattern(0, 0, 0));
    assert!(!is_finder_pattern(5, 7, 7));
}

#[test]
fn cutout_side_is_floor_of_share() {
    assert_eq!(safe_cutout_side(25, EcLevel::L), 1);
    assert_eq!(safe_cutout_side(25, EcLevel::M), 3);
    assert_eq!(safe_cutout_side(25, EcLevel::Q), 6);
    assert_eq!(safe_cutout_side(25, EcLevel::H), 7);
    assert_eq!(safe_cutout_side(21, EcLevel::L), 1);
    assert_eq!(safe_cutout_side(177, EcLevel::L), 12);
    assert_eq!(safe_cutout_side(177, EcLevel::M), 26);
    assert_eq!(safe_cutout_side(177, EcLevel::Q), 44);
    assert_eq!(safe_cutout_side(177, EcLevel::H), 53);
    assert_eq!(safe_cutout_side(100, EcLevel::L), 7);
    assert_eq!(safe_cutout_side(20, EcLevel::M), 3);
    assert_eq!(safe_cutout_side(0, EcLevel::H), 0);
}

#[test]
fn cutout_side_of_a_huge_width() {
    assert_eq!(safe_cutout_side(usize::MAX, EcLevel::H), usize::MAX / 10 * 3 + 1);
}

#[test]
fn cutout_side_grows_with_level() {
    for width in 0..400usize {
        let l = safe_cutout_side(width, EcLevel::L);
        let m = safe_cutout_side(width, EcLevel::M);
        let q = safe_cutout_side(width, EcLevel::Q);
        let h = safe_cutout_side(width, EcLevel::H);
        assert!(l <= m && m <= q && q <= h, "width {}", width);
    }
}

#[test]
fn cutout_at_width_25_level_h() {
    let square = find_safe_center_cutout(&blank(25, EcLevel::H));
    assert_eq!(square, Square { x1: 9, y1: 9, x2: 15, y2: 15 });
    assert_eq!(square.x2 - square.x1 + 1, 7);
}

#[test]
fn cutout_with_even_side() {
    // side 6, centre 12: three modules either way
    let square = find_safe_center_cutout(&blank(25, EcLevel::Q));
    assert_eq!(square, Square { x1: 9, y1: 9, x2: 15, y2: 15 });
    // side 12, centre 88
    let square = find_safe_center_cutout(&blank(177, EcLevel::L));
    assert_eq!(square, Square { x1: 82, y1: 82, x2: 94, y2: 94 });
}

#[test]
fn cutout_of_side_one_is_the_centre_module() {
    let square = find_safe_center_cutout(&blank(21, EcLevel::L));
    assert_eq!(square, Square { x1: 10, y1: 10, x2: 10, y2: 10 });
}

#[test]
fn cutout_of_side_zero_is_still_a_box() {
    assert_eq!(safe_cutout_side(10, EcLevel::L), 0);
    let square = find_safe_center_cutout(&blank(10, EcLevel::L));
    assert_eq!(square, Square { x1: 5, y1: 5, x2: 5, y2: 5 });
}
