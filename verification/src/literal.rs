//! The literal rules: brick names that map to fixed descriptors.
//!
//! The table is data. A name may own several rows: such a brick becomes
//! several target bricks around the same source position, in row order.

use vstd::prelude::*;
use crate::text::str_eq;
use crate::types::{BrickDesc, BrickMapping, Color, DescModel};

verus! {

/// A colour to paint a descriptor with: whether there is one, then its red,
/// green, blue and alpha channels.
pub type Paint = (bool, u8, u8, u8, u8);

/// One row of the table: the brick name, the target asset, its size, its
/// rotation offset, its local offset and its paint.
pub type Row = (&'static str, &'static str, (u32, u32, u32), u8, (i32, i32, i32), Paint);

/// The descriptor takes the colour of the source brick.
pub const UNPAINTED: Paint = (false, 0, 0, 0, 0);

/// The stripes along a road.
pub const STRIPE: Paint = (true, 254, 254, 232, 255);

/// The lanes of a road.
pub const LANE: Paint = (true, 51, 51, 51, 255);

/// The pane of a window.
pub const GLASS: Paint = (true, 255, 255, 255, 76);

/// Sizes and offsets are in target grid units: 5 to a stud, 6 to a brick
/// height, 2 to a plate height. A road tile is 32 studs square; its
/// sidewalks are 9 studs wide, its stripes 1, its lanes 6.
pub const LITERALS: [Row; 91] = [
    ("1x1 Cone", "B_1x1_Cone", (0, 0, 0), 1, (0, 0, 0), UNPAINTED),
    ("1x1 Round", "B_1x1_Round", (0, 0, 0), 1, (0, 0, 0), UNPAINTED),
    ("1x1 Octo Plate", "B_1x1F_Octo", (0, 0, 0), 1, (0, 0, 0), UNPAINTED),
    ("1x1F Round", "B_1x1F_Round", (0, 0, 0), 1, (0, 0, 0), UNPAINTED),
    ("2x2 Round", "B_2x2_Round", (0, 0, 0), 1, (0, 0, 0), UNPAINTED),
    ("2x2F Round", "B_2x2F_Round", (0, 0, 0), 1, (0, 0, 0), UNPAINTED),
    ("Pine Tree", "B_Pine_Tree", (0, 0, 0), 1, (0, 0, -6), UNPAINTED),
    ("2x2 Corner", "B_2x2_Corner", (0, 0, 0), 0, (0, 0, 0), UNPAINTED),
    ("2x2 Octo Plate", "B_2x2F_Octo", (0, 0, 0), 1, (0, 0, 0), UNPAINTED),
    ("8x8 Grill", "B_8x8_Lattice_Plate", (0, 0, 0), 1, (0, 0, 0), UNPAINTED),
    ("1x4x2 Picket", "B_Picket_Fence", (0, 0, 0), 1, (0, 0, 0), UNPAINTED),
    ("2x2 Disc", "B_2x2F_Round", (0, 0, 0), 1, (0, 0, 0), UNPAINTED),
    ("Music Brick", "PB_DefaultBrick", (5, 5, 6), 1, (0, 0, 0), UNPAINTED),
    ("1x4x2 Fence", "PB_DefaultBrick", (5, 4 * 5, 2 * 6), 0, (0, 0, 0), UNPAINTED),
    ("2x2x1 Octo Cone", "B_2x2_Round", (0, 0, 0), 1, (0, 0, 0), UNPAINTED),
    ("2x2x2 Cone", "B_2x_Octo_Cone", (0, 0, 0), 1, (0, 0, -2), UNPAINTED),
    ("2x2x2 Cone", "B_1x1F_Round", (0, 0, 0), 1, (0, 0, 2 * 6 - 2), UNPAINTED),
    ("2x2 Octo", "B_2x2F_Octo", (0, 0, 0), 1, (0, 0, -4), UNPAINTED),
    ("2x2 Octo", "B_2x2F_Octo", (0, 0, 0), 1, (0, 0, 0), UNPAINTED),
    ("2x2 Octo", "B_2x2F_Octo", (0, 0, 0), 1, (0, 0, 4), UNPAINTED),
    ("Castle Wall", "PB_DefaultTile", (5, 5, 6 * 6), 1, (0, -10, 0), UNPAINTED),
    ("Castle Wall", "PB_DefaultTile", (5, 5, 6 * 6), 1, (0, 10, 0), UNPAINTED),
    ("Castle Wall", "PB_DefaultTile", (5, 5, 3 * 6), 1, (0, 0, -9 * 2), UNPAINTED),
    ("Castle Wall", "PB_DefaultTile", (5, 5, 4 * 2), 1, (0, 0, 14 * 2), UNPAINTED),
    ("1x4x5 Window", "PB_DefaultBrick", (5, 4 * 5, 2), 0, (0, 0, -14 * 2), UNPAINTED),
    ("1x4x5 Window", "PB_DefaultTile", (5, 4 * 5, 5 * 6 - 2), 0, (0, 0, 2), GLASS),
    ("32x32 Road", "PB_DefaultBrick", (9 * 5, 32 * 5, 2), 1, (0, -115, 0), UNPAINTED),
    ("32x32 Road", "PB_DefaultBrick", (9 * 5, 32 * 5, 2), 1, (0, 115, 0), UNPAINTED),
    ("32x32 Road", "PB_DefaultTile", (1 * 5, 32 * 5, 2), 1, (0, -65, 0), STRIPE),
    ("32x32 Road", "PB_DefaultTile", (1 * 5, 32 * 5, 2), 1, (0, 65, 0), STRIPE),
    ("32x32 Road", "PB_DefaultTile", (6 * 5, 32 * 5, 2), 1, (0, -6 * 5, 0), LANE),
    ("32x32 Road", "PB_DefaultTile", (6 * 5, 32 * 5, 2), 1, (0, 6 * 5, 0), LANE),
    ("32x32 Road T", "PB_DefaultBrick", (9 * 5, 32 * 5, 2), 1, (0, -115, 0), UNPAINTED),
    ("32x32 Road T", "PB_DefaultBrick", (9 * 5, 9 * 5, 2), 1, (-115, 115, 0), UNPAINTED),
    ("32x32 Road T", "PB_DefaultBrick", (9 * 5, 9 * 5, 2), 1, (115, 115, 0), UNPAINTED),
    ("32x32 Road T", "PB_DefaultTile", (1 * 5, 32 * 5, 2), 1, (0, -65, 0), STRIPE),
    ("32x32 Road T", "PB_DefaultTile", (1 * 5, 32 * 5, 2), 1, (0, 65, 0), STRIPE),
    ("32x32 Road T", "PB_DefaultTile", (1 * 5, 9 * 5, 2), 0, (-13 * 5, 23 * 5, 0), STRIPE),
    ("32x32 Road T", "PB_DefaultTile", (1 * 5, 9 * 5, 2), 0, (13 * 5, 23 * 5, 0), STRIPE),
    ("32x32 Road T", "PB_DefaultTile", (6 * 5, 32 * 5, 2), 1, (0, -6 * 5, 0), LANE),
    ("32x32 Road T", "PB_DefaultTile", (6 * 5, 32 * 5, 2), 1, (0, 6 * 5, 0), LANE),
    ("32x32 Road T", "PB_DefaultTile", (6 * 5, 9 * 5, 2), 0, (-6 * 5, 23 * 5, 0), LANE),
    ("32x32 Road T", "PB_DefaultTile", (6 * 5, 9 * 5, 2), 0, (6 * 5, 23 * 5, 0), LANE),
    ("32x32 Road X", "PB_DefaultBrick", (9 * 5, 9 * 5, 2), 1, (-23 * 5, -23 * 5, 0), UNPAINTED),
    ("32x32 Road X", "PB_DefaultBrick", (9 * 5, 9 * 5, 2), 1, (23 * 5, -23 * 5, 0), UNPAINTED),
    ("32x32 Road X", "PB_DefaultBrick", (9 * 5, 9 * 5, 2), 1, (-23 * 5, 23 * 5, 0), UNPAINTED),
    ("32x32 Road X", "PB_DefaultBrick", (9 * 5, 9 * 5, 2), 1, (23 * 5, 23 * 5, 0), UNPAINTED),
    ("32x32 Road X", "PB_DefaultTile", (1 * 5, 1 * 5, 2), 1, (13 * 5, -13 * 5, 0), STRIPE),
    ("32x32 Road X", "PB_DefaultTile", (1 * 5, 1 * 5, 2), 1, (13 * 5, 13 * 5, 0), STRIPE),
    ("32x32 Road X", "PB_DefaultTile", (1 * 5, 1 * 5, 2), 1, (-13 * 5, -13 * 5, 0), STRIPE),
    ("32x32 Road X", "PB_DefaultTile", (1 * 5, 1 * 5, 2), 1, (-13 * 5, 13 * 5, 0), STRIPE),
    ("32x32 Road X", "PB_DefaultTile", (1 * 5, 12 * 5, 2), 0, (-13 * 5, 0, 0), STRIPE),
    ("32x32 Road X", "PB_DefaultTile", (1 * 5, 12 * 5, 2), 0, (13 * 5, 0, 0), STRIPE),
    ("32x32 Road X", "PB_DefaultTile", (1 * 5, 12 * 5, 2), 1, (0, -13 * 5, 0), STRIPE),
    ("32x32 Road X", "PB_DefaultTile", (1 * 5, 12 * 5, 2), 1, (0, 13 * 5, 0), STRIPE),
    ("32x32 Road X", "PB_DefaultTile", (1 * 5, 9 * 5, 2), 0, (-13 * 5, 23 * 5, 0), STRIPE),
    ("32x32 Road X", "PB_DefaultTile", (1 * 5, 9 * 5, 2), 0, (13 * 5, 23 * 5, 0), STRIPE),
    ("32x32 Road X", "PB_DefaultTile", (1 * 5, 9 * 5, 2), 0, (-13 * 5, -23 * 5, 0), STRIPE),
    ("32x32 Road X", "PB_DefaultTile", (1 * 5, 9 * 5, 2), 0, (13 * 5, -23 * 5, 0), STRIPE),
    ("32x32 Road X", "PB_DefaultTile", (1 * 5, 9 * 5, 2), 1, (-23 * 5, -13 * 5, 0), STRIPE),
    ("32x32 Road X", "PB_DefaultTile", (1 * 5, 9 * 5, 2), 1, (-23 * 5, 13 * 5, 0), STRIPE),
    ("32x32 Road X", "PB_DefaultTile", (1 * 5, 9 * 5, 2), 1, (23 * 5, -13 * 5, 0), STRIPE),
    ("32x32 Road X", "PB_DefaultTile", (1 * 5, 9 * 5, 2), 1, (23 * 5, 13 * 5, 0), STRIPE),
    ("32x32 Road X", "PB_DefaultTile", (6 * 5, 6 * 5, 2), 1, (-6 * 5, -6 * 5, 0), LANE),
    ("32x32 Road X", "PB_DefaultTile", (6 * 5, 6 * 5, 2), 1, (-6 * 5, 6 * 5, 0), LANE),
    ("32x32 Road X", "PB_DefaultTile", (6 * 5, 6 * 5, 2), 1, (6 * 5, -6 * 5, 0), LANE),
    ("32x32 Road X", "PB_DefaultTile", (6 * 5, 6 * 5, 2), 1, (6 * 5, 6 * 5, 0), LANE),
    ("32x32 Road X", "PB_DefaultTile", (6 * 5, 9 * 5, 2), 0, (-6 * 5, 23 * 5, 0), LANE),
    ("32x32 Road X", "PB_DefaultTile", (6 * 5, 9 * 5, 2), 0, (6 * 5, 23 * 5, 0), LANE),
    ("32x32 Road X", "PB_DefaultTile", (6 * 5, 9 * 5, 2), 0, (-6 * 5, -23 * 5, 0), LANE),
    ("32x32 Road X", "PB_DefaultTile", (6 * 5, 9 * 5, 2), 0, (6 * 5, -23 * 5, 0), LANE),
    ("32x32 Road X", "PB_DefaultTile", (6 * 5, 9 * 5, 2), 1, (-23 * 5, -6 * 5, 0), LANE),
    ("32x32 Road X", "PB_DefaultTile", (6 * 5, 9 * 5, 2), 1, (-23 * 5, 6 * 5, 0), LANE),
    ("32x32 Road X", "PB_DefaultTile", (6 * 5, 9 * 5, 2), 1, (23 * 5, -6 * 5, 0), LANE),
    ("32x32 Road X", "PB_DefaultTile", (6 * 5, 9 * 5, 2), 1, (23 * 5, 6 * 5, 0), LANE),
    ("32x32 Road C", "PB_DefaultBrick", (9 * 5, 9 * 5, 2), 1, (-115, 115, 0), UNPAINTED),
    ("32x32 Road C", "PB_DefaultBrick", (9 * 5, 9 * 5, 2), 1, (115, -115, 0), UNPAINTED),
    ("32x32 Road C", "PB_DefaultBrick", (9 * 5, 23 * 5, 2), 0, (115, 45, 0), UNPAINTED),
    ("32x32 Road C", "PB_DefaultBrick", (9 * 5, 23 * 5, 2), 1, (-45, -115, 0), UNPAINTED),
    ("32x32 Road C", "PB_DefaultTile", (1 * 5, 9 * 5, 2), 1, (-115, 65, 0), STRIPE),
    ("32x32 Road C", "PB_DefaultTile", (1 * 5, 9 * 5, 2), 0, (-65, 115, 0), STRIPE),
    ("32x32 Road C", "PB_DefaultTile", (1 * 5, 22 * 5, 2), 1, (-50, -65, 0), STRIPE),
    ("32x32 Road C", "PB_DefaultTile", (1 * 5, 22 * 5, 2), 0, (65, 50, 0), STRIPE),
    ("32x32 Road C", "PB_DefaultTile", (1 * 5, 1 * 5, 2), 1, (65, -65, 0), STRIPE),
    ("32x32 Road C", "PB_DefaultTile", (1 * 5, 1 * 5, 2), 0, (-65, 65, 0), STRIPE),
    ("32x32 Road C", "PB_DefaultTile", (6 * 5, 10 * 5, 2), 1, (-22 * 5, 6 * 5, 0), LANE),
    ("32x32 Road C", "PB_DefaultTile", (6 * 5, 16 * 5, 2), 1, (-16 * 5, -6 * 5, 0), LANE),
    ("32x32 Road C", "PB_DefaultTile", (6 * 5, 16 * 5, 2), 0, (6 * 5, 16 * 5, 0), LANE),
    ("32x32 Road C", "PB_DefaultTile", (6 * 5, 10 * 5, 2), 0, (-6 * 5, 22 * 5, 0), LANE),
    ("32x32 Road C", "PB_DefaultTile", (6 * 5, 6 * 5, 2), 1, (-6 * 5, 6 * 5, 0), LANE),
    ("32x32 Road C", "PB_DefaultTile", (6 * 5, 6 * 5, 2), 1, (6 * 5, -6 * 5, 0), LANE),
];

/// The colour that a paint stands for.
pub open spec fn paint_color(paint: Paint) -> Option<Color> {
    if paint.0 {
        Some(Color { r: paint.1, g: paint.2, b: paint.3, a: paint.4 })
    } else {
        None
    }
}

/// The descriptor that a row stands for.
pub open spec fn row_model(row: Row) -> DescModel {
    DescModel {
        asset: row.1@,
        size: row.2,
        offset: row.4,
        rotation_offset: row.3,
        color_override: paint_color(row.5),
        direction_override: None,
        microwedge_rotate: false,
        inverted_modter_rotate: false,
    }
}

/// The descriptors of the rows of `table` that carry `name`, in row order.
pub open spec fn rows_named(table: Seq<Row>, name: Seq<char>) -> Seq<DescModel>
    decreases table.len(),
{
    if table.len() == 0 {
        Seq::empty()
    } else if table.last().0@ == name {
        rows_named(table.drop_last(), name).push(row_model(table.last()))
    } else {
        rows_named(table.drop_last(), name)
    }
}

/// What the literal rules give for `name`: the descriptors of its rows, or
/// `None` where the table has no row for it.
pub open spec fn literal_rule(name: Seq<char>) -> Option<Seq<DescModel>> {
    let found = rows_named(LITERALS@, name);
    if found.len() == 0 {
        None
    } else {
        Some(found)
    }
}

/// The descriptor that a row stands for.
pub fn describe(row: Row) -> (desc: BrickDesc)
    ensures
        desc@ == row_model(row),
{
    let desc = BrickDesc::new(row.1).size(row.2).rotation_offset(row.3).offset(row.4);
    let paint = row.5;
    if paint.0 {
        desc.color_override(Color::from_rgba(paint.1, paint.2, paint.3, paint.4))
    } else {
        desc
    }
}

/// Looks `name` up in the table.
pub fn literal(name: &str) -> (mapping: Option<BrickMapping>)
    ensures
        mapping.deep_view() == literal_rule(name@),
{
    let mut found: BrickMapping = Vec::new();
    let mut i: usize = 0;
    assert(found.deep_view() =~= rows_named(LITERALS@.take(0), name@));
    while i < LITERALS.len()
        invariant
            i <= LITERALS@.len(),
            found.deep_view() == rows_named(LITERALS@.take(i as int), name@),
        decreases LITERALS@.len() - i,
    {
        let row = LITERALS[i];
        let ghost before = found.deep_view();
        assert(LITERALS@.take(i + 1).drop_last() =~= LITERALS@.take(i as int));
        if str_eq(row.0, name) {
            let desc = describe(row);
            found.push(desc);
            assert(found.deep_view() =~= before.push(desc@));
        }
        i = i + 1;
    }
    assert(LITERALS@.take(i as int) =~= LITERALS@);
    if found.len() == 0 {
        None
    } else {
        Some(found)
    }
}

/// No row turns its brick by more than three quarter turns.
pub proof fn lemma_rows_turn_less_than_four()
    ensures
        forall|i: int| 0 <= i < LITERALS@.len() ==> (#[trigger] LITERALS@[i]).3 < 4,
{
}

/// The rows of a table that turns nothing by more than three quarter
/// turns give descriptors that do not either.
pub proof fn lemma_rows_named_turn(table: Seq<Row>, name: Seq<char>)
    requires
        forall|i: int| 0 <= i < table.len() ==> (#[trigger] table[i]).3 < 4,
    ensures
        forall|k: int|
            0 <= k < rows_named(table, name).len() ==> (#[trigger] rows_named(
                table,
                name,
            )[k]).rotation_offset < 4,
    decreases table.len(),
{
    if table.len() > 0 {
        let front = table.drop_last();
        assert forall|i: int| 0 <= i < front.len() implies (#[trigger] front[i]).3 < 4 by {
            assert(front[i] == table[i]);
        }
        lemma_rows_named_turn(front, name);
    }
}

/// A literal rule never yields an empty mapping.
pub proof fn lemma_literal_nonempty(name: Seq<char>)
    ensures
        literal_rule(name) matches Some(found) ==> found.len() > 0,
{
}

} // verus!
