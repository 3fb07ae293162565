use bls2brs::literal::{describe, literal, LITERALS};
use bls2brs::mappings::map_brick;
use bls2brs::types::{BrickDesc, Color, SourceBrick};

fn brick(name: &str) -> SourceBrick {
    SourceBrick {
        ui_name: name.to_string(),
        position: (0, 0, 0),
        angle: 0,
        color_index: 0,
        print: String::new(),
        color_fx: 0,
        collision: true,
        rendering: true,
    }
}

fn printed(name: &str, print: &str) -> SourceBrick {
    let mut source = brick(name);
    source.print = print.to_string();
    source
}

fn only(name: &str) -> BrickDesc {
    let mapping = map_brick(&brick(name)).expect("mapped");
    assert_eq!(mapping.len(), 1);
    mapping[0]
}

fn unmapped(name: &str) -> bool {
    map_brick(&brick(name)).is_none()
}

#[test]
fn plain_size_is_a_brick_turned_once() {
    let desc = only("4x6");
    assert_eq!(desc.asset, "PB_DefaultBrick");
    assert_eq!(desc.size, (20, 30, 6));
    assert_eq!(desc.offset, (0, 0, 0));
    assert_eq!(desc.rotation_offset, 1);
    assert_eq!(desc.color_override, None);
    assert_eq!(desc.direction_override, None);
    assert!(!desc.microwedge_rotate);
    assert!(!desc.inverted_modter_rotate);
}

#[test]
fn flat_size_is_two_units_high() {
    assert_eq!(only("2x2F").size, (10, 10, 2));
    assert_eq!(only("2x2f").size, (10, 10, 2));
}

#[test]
fn half_size_is_four_units_high() {
    assert_eq!(only("1x2H").size, (5, 10, 4));
    assert_eq!(only("1x2h").size, (5, 10, 4));
}

#[test]
fn explicit_height_counts_bricks() {
    assert_eq!(only("3x3x5").size, (15, 15, 30));
    assert_eq!(only("1x1x0").size, (5, 5, 0));
}

#[test]
fn width_and_length_scale_by_five() {
    assert_eq!(only("1x1").size, (5, 5, 6));
    assert_eq!(only("2x1").size, (10, 5, 6));
    assert_eq!(only("1x2").size, (5, 10, 6));
    assert_eq!(only("64x48").size, (320, 240, 6));
    assert_eq!(only("007x010").size, (35, 50, 6));
}

#[test]
fn print_is_a_brick_that_is_not_turned() {
    let mapping = map_brick(&printed("1x1 Print", "Letters/A")).expect("mapped");
    assert_eq!(mapping.len(), 1);
    assert_eq!(mapping[0].asset, "PB_DefaultBrick");
    assert_eq!(mapping[0].size, (5, 5, 6));
    assert_eq!(mapping[0].rotation_offset, 0);
}

#[test]
fn blank_print_is_a_tile() {
    for print in ["Letters/-space", "1x2f/blank", "2x2f/blank"] {
        let mapping = map_brick(&printed("1x2F Print", print)).expect("mapped");
        assert_eq!(mapping[0].asset, "PB_DefaultTile");
        assert_eq!(mapping[0].size, (5, 10, 2));
        assert_eq!(mapping[0].rotation_offset, 0);
    }
}

#[test]
fn blank_print_without_print_suffix_is_a_brick() {
    let mapping = map_brick(&printed("1x2F", "1x2f/blank")).expect("mapped");
    assert_eq!(mapping[0].asset, "PB_DefaultBrick");
    assert_eq!(mapping[0].rotation_offset, 1);
}

#[test]
fn size_that_does_not_fit_is_unmapped() {
    assert!(unmapped("4294967296x1"));
    assert!(unmapped("1x4294967296"));
    assert!(unmapped("999999999x1"));
    assert!(unmapped("1x999999999"));
    assert!(unmapped("1x1x999999999"));
    assert_eq!(only("858993459x1").size, (4294967295, 5, 6));
    assert!(unmapped("858993460x1"));
    assert_eq!(only("1x1x715827882").size, (5, 5, 4294967292));
    assert!(unmapped("1x1x715827883"));
}

#[test]
fn digits_of_other_scripts_are_unmapped() {
    assert!(unmapped("\u{0663}x1"));
}

#[test]
fn ramps() {
    let plain = only("25° Ramp");
    assert_eq!(plain.asset, "PB_DefaultRamp");
    assert_eq!(plain.size, (15, 15, 6));
    assert_eq!(plain.rotation_offset, 0);
    assert_eq!(only("45° Ramp").size, (10, 10, 6));
    assert_eq!(only("72° Ramp").size, (10, 10, 18));
    assert_eq!(only("80° Ramp").size, (10, 10, 30));
    assert_eq!(only("-45° Ramp").asset, "PB_DefaultRampInverted");
    assert_eq!(only("72° Ramp Corner").asset, "PB_DefaultRampCorner");
    assert_eq!(only("-72° Ramp Corner").asset, "PB_DefaultRampCornerInverted");
    assert_eq!(only("45° Inv Ramp Corner").asset, "PB_DefaultRampInnerCorner");
    let inner = only("-80° Inv Ramp Corner");
    assert_eq!(inner.asset, "PB_DefaultRampInnerCornerInverted");
    assert_eq!(inner.size, (10, 10, 30));
}

#[test]
fn ramp_with_length() {
    let desc = only("45° Ramp 4x");
    assert_eq!(desc.asset, "PB_DefaultRamp");
    assert_eq!(desc.size, (10, 20, 6));
    assert_eq!(desc.rotation_offset, 0);
    assert_eq!(only("25° Ramp 2x Print").size, (15, 10, 6));
}

#[test]
fn ramp_combinations_without_a_counterpart() {
    assert!(unmapped("45° Inv Ramp"));
    assert!(unmapped("-45° Inv Ramp"));
    assert!(unmapped("45° Ramp 2x Corner"));
    assert!(unmapped("45° Ramp 4294967296x"));
    assert!(unmapped("30° Ramp"));
}

#[test]
fn crests() {
    let end = only("25° Crest End");
    assert_eq!(end.asset, "PB_DefaultRampCrestEnd");
    assert_eq!(end.size, (10, 5, 4));
    assert_eq!(end.rotation_offset, 2);
    assert_eq!(end.offset, (0, 0, -2));
    let corner = only("45° Crest Corner");
    assert_eq!(corner.asset, "PB_DefaultRampCrestCorner");
    assert_eq!(corner.size, (10, 10, 6));
    assert_eq!(corner.rotation_offset, 0);
    assert_eq!(corner.offset, (0, 0, 0));
    let long = only("45° Crest 4x");
    assert_eq!(long.asset, "PB_DefaultRampCrest");
    assert_eq!(long.size, (10, 20, 6));
    assert_eq!(long.rotation_offset, 0);
    assert_eq!(only("25° Crest 2x").size, (10, 10, 4));
}

#[test]
fn tiles_and_baseplates() {
    let tile = only("2x4F Tile");
    assert_eq!(tile.asset, "PB_DefaultTile");
    assert_eq!(tile.size, (10, 20, 2));
    assert_eq!(tile.rotation_offset, 1);
    let base = only("16x32 Base");
    assert_eq!(base.asset, "PB_DefaultBrick");
    assert_eq!(base.size, (80, 160, 2));
    assert_eq!(base.rotation_offset, 1);
}

#[test]
fn cubes() {
    let cube = only("4x Cube");
    assert_eq!(cube.asset, "PB_DefaultBrick");
    assert_eq!(cube.size, (20, 20, 20));
    assert_eq!(cube.rotation_offset, 1);
}

#[test]
fn shapes_with_a_height() {
    let steep = only("4x Cube Steep");
    assert_eq!(steep.asset, "PB_DefaultBrick");
    assert_eq!(steep.size, (20, 20, 40));
    assert_eq!(steep.rotation_offset, 1);
    let ramp = only("4x Ramp");
    assert_eq!(ramp.asset, "PB_DefaultWedge");
    assert_eq!(ramp.size, (20, 20, 20));
    assert_eq!(ramp.rotation_offset, 3);
    assert_eq!(ramp.offset, (0, 0, 0));
    let wedge = only("8x Wedge 1/2h");
    assert_eq!(wedge.asset, "PB_DefaultSideWedge");
    assert_eq!(wedge.size, (40, 40, 20));
    assert_eq!(wedge.rotation_offset, 2);
    let corner = only("8x CornerC 1/4h");
    assert_eq!(corner.asset, "PB_DefaultRampCorner");
    assert_eq!(corner.size, (40, 40, 10));
    assert_eq!(corner.rotation_offset, 2);
    assert_eq!(only("4x CornerB").asset, "PB_DefaultRampInnerCorner");
    assert_eq!(only("4x CornerD Steep").asset, "PB_DefaultRampInnerCorner");
    assert_eq!(only("4x CornerD Steep").size, (20, 20, 40));
    assert_eq!(only("5x Ramp 1/2h").size, (25, 25, 10));
    assert_eq!(only("4x Ramp ").size, (20, 20, 20));
}

#[test]
fn shapes_without_a_counterpart() {
    assert!(unmapped("4x CornerA"));
    assert!(unmapped("4x CornerA Steep"));
    assert!(unmapped("4x Ramp 3/4h"));
    assert!(unmapped("4x Cube 3/4h"));
    assert!(unmapped("4294967296x Ramp"));
    assert!(unmapped("858993460x Ramp"));
    assert!(unmapped("429496730x Ramp Steep"));
}

#[test]
fn pine_tree_is_lowered() {
    let desc = only("Pine Tree");
    assert_eq!(desc.asset, "B_Pine_Tree");
    assert_eq!(desc.size, (0, 0, 0));
    assert_eq!(desc.offset, (0, 0, -6));
    assert_eq!(desc.rotation_offset, 1);
}

#[test]
fn single_literals() {
    assert_eq!(only("1x1 Cone").asset, "B_1x1_Cone");
    assert_eq!(only("1x1 Round").asset, "B_1x1_Round");
    assert_eq!(only("1x1 Octo Plate").asset, "B_1x1F_Octo");
    assert_eq!(only("1x1F Round").asset, "B_1x1F_Round");
    assert_eq!(only("2x2 Round").asset, "B_2x2_Round");
    assert_eq!(only("2x2F Round").asset, "B_2x2F_Round");
    assert_eq!(only("2x2 Corner").asset, "B_2x2_Corner");
    assert_eq!(only("2x2 Corner").rotation_offset, 0);
    assert_eq!(only("2x2 Octo Plate").asset, "B_2x2F_Octo");
    assert_eq!(only("8x8 Grill").asset, "B_8x8_Lattice_Plate");
    assert_eq!(only("1x4x2 Picket").asset, "B_Picket_Fence");
    assert_eq!(only("2x2 Disc").asset, "B_2x2F_Round");
    assert_eq!(only("Music Brick").asset, "PB_DefaultBrick");
    assert_eq!(only("Music Brick").size, (5, 5, 6));
    assert_eq!(only("1x4x2 Fence").size, (5, 20, 12));
    assert_eq!(only("1x4x2 Fence").rotation_offset, 0);
    assert_eq!(only("2x2x1 Octo Cone").asset, "B_2x2_Round");
}

#[test]
fn composite_literals() {
    let cone = map_brick(&brick("2x2x2 Cone")).expect("mapped");
    assert_eq!(cone.len(), 2);
    assert_eq!(cone[0].asset, "B_2x_Octo_Cone");
    assert_eq!(cone[0].offset, (0, 0, -2));
    assert_eq!(cone[1].asset, "B_1x1F_Round");
    assert_eq!(cone[1].offset, (0, 0, 10));
    let octo = map_brick(&brick("2x2 Octo")).expect("mapped");
    assert_eq!(octo.len(), 3);
    assert_eq!(octo[0].offset, (0, 0, -4));
    assert_eq!(octo[1].offset, (0, 0, 0));
    assert_eq!(octo[2].offset, (0, 0, 4));
    let wall = map_brick(&brick("Castle Wall")).expect("mapped");
    assert_eq!(wall.len(), 4);
    assert_eq!(wall[0].size, (5, 5, 36));
    assert_eq!(wall[2].size, (5, 5, 18));
    assert_eq!(wall[2].offset, (0, 0, -18));
    assert_eq!(wall[3].size, (5, 5, 8));
    assert_eq!(wall[3].offset, (0, 0, 28));
    let window = map_brick(&brick("1x4x5 Window")).expect("mapped");
    assert_eq!(window.len(), 2);
    assert_eq!(window[0].asset, "PB_DefaultBrick");
    assert_eq!(window[0].offset, (0, 0, -28));
    assert_eq!(window[0].color_override, None);
    assert_eq!(window[1].asset, "PB_DefaultTile");
    assert_eq!(window[1].size, (5, 20, 28));
    assert_eq!(window[1].rotation_offset, 0);
    assert_eq!(window[1].color_override, Some(Color { r: 255, g: 255, b: 255, a: 76 }));
}

#[test]
fn road_has_six_parts() {
    let mapping = map_brick(&brick("32x32 Road")).expect("mapped");
    assert_eq!(mapping.len(), 6);
    assert_eq!(mapping[0].asset, "PB_DefaultBrick");
    assert_eq!(mapping[0].size, (45, 160, 2));
    assert_eq!(mapping[0].offset, (0, -115, 0));
    assert_eq!(mapping[0].color_override, None);
    assert_eq!(mapping[1].offset, (0, 115, 0));
    assert_eq!(mapping[2].asset, "PB_DefaultTile");
    assert_eq!(mapping[2].size, (5, 160, 2));
    assert_eq!(mapping[2].color_override, Some(Color { r: 254, g: 254, b: 232, a: 255 }));
    assert_eq!(mapping[3].offset, (0, 65, 0));
    assert_eq!(mapping[4].size, (30, 160, 2));
    assert_eq!(mapping[4].offset, (0, -30, 0));
    assert_eq!(mapping[4].color_override, Some(Color { r: 51, g: 51, b: 51, a: 255 }));
    assert_eq!(mapping[5].offset, (0, 30, 0));
    for desc in mapping.iter() {
        assert_eq!(desc.rotation_offset, 1);
    }
}

#[test]
fn junctions() {
    let tee = map_brick(&brick("32x32 Road T")).expect("mapped");
    assert_eq!(tee.len(), 11);
    assert_eq!(tee[5].size, (5, 45, 2));
    assert_eq!(tee[5].rotation_offset, 0);
    assert_eq!(tee[5].offset, (-65, 115, 0));
    let cross = map_brick(&brick("32x32 Road X")).expect("mapped");
    assert_eq!(cross.len(), 32);
    assert_eq!(cross[0].offset, (-115, -115, 0));
    assert_eq!(cross[31].offset, (115, 30, 0));
    assert_eq!(cross[31].size, (30, 45, 2));
    let curve = map_brick(&brick("32x32 Road C")).expect("mapped");
    assert_eq!(curve.len(), 16);
    assert_eq!(curve[2].size, (45, 115, 2));
    assert_eq!(curve[2].rotation_offset, 0);
    assert_eq!(curve[2].offset, (115, 45, 0));
    assert_eq!(curve[15].offset, (30, -30, 0));
}

#[test]
fn literal_rule_ignores_the_rest_of_the_brick() {
    let here = brick("32x32 Road T");
    let mut there = printed("32x32 Road T", "2x2f/blank");
    there.position = (400, -20, 7);
    there.angle = 3;
    there.color_index = 9;
    there.color_fx = 3;
    let a = map_brick(&here).expect("mapped");
    let b = map_brick(&there).expect("mapped");
    assert_eq!(a.len(), b.len());
    for k in 0..a.len() {
        assert_eq!(a[k], b[k]);
    }
    let again = map_brick(&here).expect("mapped");
    assert_eq!(a, again);
}

#[test]
fn table_lookup_gives_the_rows_of_the_name() {
    assert!(literal("32x32 Road Y").is_none());
    assert!(literal("").is_none());
    let tree = literal("Pine Tree").expect("found");
    assert_eq!(tree.len(), 1);
    let mut rows = 0;
    for row in LITERALS.iter() {
        if row.0 == "32x32 Road X" {
            rows += 1;
        }
    }
    assert_eq!(rows, 32);
    let first = describe(LITERALS[0]);
    assert_eq!(first.asset, "B_1x1_Cone");
}

#[test]
fn unknown_name_is_unmapped() {
    assert!(unmapped("Nonexistent Brick 42"));
    assert!(unmapped(""));
    assert!(unmapped("4x"));
    assert!(unmapped("4x6 "));
    assert!(unmapped(" 4x6"));
    assert!(unmapped("4x6G"));
    assert!(unmapped("4x6F Print Tile"));
}

#[test]
fn first_pattern_that_matches_decides() {
    let desc = only("2x Cube");
    assert_eq!(desc.size, (10, 10, 10));
    assert!(unmapped("858993460x Cube"));
}
