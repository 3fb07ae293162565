use bls2brs::rules::size_rule;
use bls2brs::types::{BrickDesc, BrickMapping, Color, Direction};

#[test]
fn new_descriptor_has_the_defaults() {
    let desc = BrickDesc::new("PB_DefaultBrick");
    assert_eq!(desc.asset, "PB_DefaultBrick");
    assert_eq!(desc.size, (0, 0, 0));
    assert_eq!(desc.offset, (0, 0, 0));
    assert_eq!(desc.rotation_offset, 1);
    assert_eq!(desc.color_override, None);
    assert_eq!(desc.direction_override, None);
    assert!(!desc.microwedge_rotate);
    assert!(!desc.inverted_modter_rotate);
}

#[test]
fn builders_set_one_field_each() {
    let plain = BrickDesc::new("PB_DefaultTile");
    let sized = plain.size((5, 160, 2));
    assert_eq!(sized.size, (5, 160, 2));
    assert_eq!(sized.offset, (0, 0, 0));
    let moved = sized.offset((0, -65, 0));
    assert_eq!(moved.offset, (0, -65, 0));
    assert_eq!(moved.size, (5, 160, 2));
    let turned = moved.rotation_offset(0);
    assert_eq!(turned.rotation_offset, 0);
    let stripe = Color::from_rgba(254, 254, 232, 255);
    let painted = turned.color_override(stripe);
    assert_eq!(painted.color_override, Some(stripe));
    let pointed = painted.direction_override(Direction::XNegative);
    assert_eq!(pointed.direction_override, Some(Direction::XNegative));
    let wedge = pointed.microwedge_rotate(true);
    assert!(wedge.microwedge_rotate);
    assert!(!wedge.inverted_modter_rotate);
    let terrain = wedge.inverted_modter_rotate(true);
    assert!(terrain.inverted_modter_rotate);
    assert_eq!(terrain.asset, "PB_DefaultTile");
    assert_eq!(terrain.size, (5, 160, 2));
    assert_eq!(terrain.offset, (0, -65, 0));
    assert_eq!(terrain.rotation_offset, 0);
    assert_eq!(terrain.color_override, Some(stripe));
}

#[test]
fn one_descriptor_makes_a_mapping() {
    let desc = BrickDesc::new("B_Pine_Tree").offset((0, 0, -6));
    let mapping = BrickMapping::from(desc);
    assert_eq!(mapping, vec![desc]);
}

#[test]
fn rule_works_on_groups_alone() {
    let groups = vec![
        Some("3x3x5".to_string()),
        Some("3".to_string()),
        Some("3".to_string()),
        Some("5".to_string()),
        None,
        None,
        None,
    ];
    let mapping = size_rule(&groups, "").expect("mapped");
    assert_eq!(mapping.len(), 1);
    assert_eq!(mapping[0].size, (15, 15, 30));
    let short = vec![Some("3".to_string())];
    assert!(size_rule(&short, "").is_none());
    assert!(size_rule(&vec![], "").is_none());
}
