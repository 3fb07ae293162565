use bls2brs::transform::{compose_rotation, rotate_90_2d, rotate_offset, transform};
use bls2brs::types::BrickDesc;

#[test]
fn quarter_turn_swaps_and_negates() {
    assert_eq!(rotate_90_2d((3, 4)), (-4, 3));
    assert_eq!(rotate_90_2d((0, -65)), (65, 0));
}

#[test]
fn turns_add_up() {
    assert_eq!(rotate_offset((3, 4), 0), (3, 4));
    assert_eq!(rotate_offset((3, 4), 1), (-4, 3));
    assert_eq!(rotate_offset((3, 4), 2), (-3, -4));
    assert_eq!(rotate_offset((3, 4), 3), (4, -3));
}

#[test]
fn four_turns_are_none() {
    for offset in [(3, 4), (0, 0), (-115, 115), (i32::MIN, i32::MAX), (i32::MAX, i32::MIN)] {
        let same = (offset.0 as i64, offset.1 as i64);
        assert_eq!(rotate_offset(offset, 4), same);
        assert_eq!(rotate_offset(offset, 8), same);
        assert_eq!(rotate_offset(offset, 252), same);
        assert_eq!(rotate_offset(offset, 5), rotate_offset(offset, 1));
        assert_eq!(rotate_offset(offset, 255), rotate_offset(offset, 3));
    }
}

#[test]
fn extreme_offsets_do_not_wrap() {
    assert_eq!(rotate_offset((0, i32::MIN), 1), (2147483648, 0));
    assert_eq!(rotate_offset((i32::MIN, 0), 2), (2147483648, 0));
}

#[test]
fn rotation_is_the_sum_modulo_four() {
    assert_eq!(compose_rotation(0, 1), 1);
    assert_eq!(compose_rotation(3, 1), 0);
    assert_eq!(compose_rotation(2, 3), 1);
    assert_eq!(compose_rotation(0, 0), 0);
    assert_eq!(compose_rotation(255, 255), 2);
    assert_eq!(compose_rotation(7, 0), 3);
}

#[test]
fn axes_are_swapped() {
    let desc = BrickDesc::new("PB_DefaultBrick").rotation_offset(0);
    let placed = transform((10, 20, 30), 0, &desc);
    assert_eq!(placed.position, (20, 10, 30));
    assert_eq!(placed.rotation, 0);
}

#[test]
fn offset_is_turned_with_the_brick() {
    let desc = BrickDesc::new("PB_DefaultTile").offset((0, -65, 4));
    assert_eq!(transform((100, 200, 300), 0, &desc).position, (200, 35, 304));
    assert_eq!(transform((100, 200, 300), 1, &desc).position, (265, 100, 304));
    assert_eq!(transform((100, 200, 300), 2, &desc).position, (200, 165, 304));
    assert_eq!(transform((100, 200, 300), 3, &desc).position, (135, 100, 304));
    assert_eq!(transform((100, 200, 300), 3, &desc).rotation, 0);
}

#[test]
fn placement_does_not_wrap() {
    let desc = BrickDesc::new("PB_DefaultTile").offset((i32::MAX, i32::MAX, i32::MAX));
    let placed = transform((i32::MAX, i32::MAX, i32::MAX), 0, &desc);
    assert_eq!(placed.position, (4294967294, 4294967294, 4294967294));
    let low = BrickDesc::new("PB_DefaultTile").offset((i32::MIN, i32::MIN, i32::MIN));
    let placed = transform((i32::MIN, i32::MIN, i32::MIN), 0, &low);
    assert_eq!(placed.position, (-4294967296, -4294967296, -4294967296));
}
