//! The descriptor model: what one rule yields for one source brick.

use vstd::prelude::*;

verus! {

/// An RGBA colour with 8-bit channels.
#[derive(Clone, Copy, Debug, PartialEq, Eq, Structural)]
pub struct Color {
    pub r: u8,
    pub g: u8,
    pub b: u8,
    pub a: u8,
}

impl Color {
    /// The colour with these four channels.
    pub fn from_rgba(r: u8, g: u8, b: u8, a: u8) -> (color: Color)
        ensures
            color == (Color { r, g, b, a }),
    {
        Color { r, g, b, a }
    }
}

/// The axis along which a target brick points.
#[derive(Clone, Copy, Debug, PartialEq, Eq, Structural)]
pub enum Direction {
    XPositive,
    XNegative,
    YPositive,
    YNegative,
    ZPositive,
    ZNegative,
}

/// One brick of the source save, as far as the conversion reads it.
///
/// `position` is in target grid units, cut toward zero, and keeps the
/// source's axis order. `angle` counts quarter turns.
#[derive(Debug)]
pub struct SourceBrick {
    pub ui_name: String,
    pub position: (i32, i32, i32),
    pub angle: u8,
    pub color_index: u8,
    pub print: String,
    pub color_fx: u8,
    pub collision: bool,
    pub rendering: bool,
}

impl Clone for SourceBrick {
    fn clone(&self) -> (copy: SourceBrick)
        ensures
            copy == *self,
    {
        SourceBrick {
            ui_name: self.ui_name.clone(),
            position: self.position,
            angle: self.angle,
            color_index: self.color_index,
            print: self.print.clone(),
            color_fx: self.color_fx,
            collision: self.collision,
            rendering: self.rendering,
        }
    }
}

/// One target-side brick template.
///
/// `offset` is given in the brick's own unrotated frame. `rotation_offset`
/// is added to the source brick's rotation index, modulo 4. A descriptor
/// without `color_override` takes the colour of the source brick.
///
/// `direction_override`, `microwedge_rotate` and `inverted_modter_rotate`
/// are kept with the descriptor for its users; the conversion places every
/// brick along the positive Z axis and reads none of the three.
#[derive(Clone, Copy, Debug, PartialEq, Eq)]
pub struct BrickDesc {
    pub asset: &'static str,
    pub size: (u32, u32, u32),
    pub offset: (i32, i32, i32),
    pub rotation_offset: u8,
    pub color_override: Option<Color>,
    pub direction_override: Option<Direction>,
    pub microwedge_rotate: bool,
    pub inverted_modter_rotate: bool,
}

/// The descriptors that one rule yields, in order.
pub type BrickMapping = Vec<BrickDesc>;

/// What a `BrickDesc` stands for: the asset by its characters, the rest as held.
pub ghost struct DescModel {
    pub asset: Seq<char>,
    pub size: (u32, u32, u32),
    pub offset: (i32, i32, i32),
    pub rotation_offset: u8,
    pub color_override: Option<Color>,
    pub direction_override: Option<Direction>,
    pub microwedge_rotate: bool,
    pub inverted_modter_rotate: bool,
}

impl DescModel {
    /// The descriptor that `BrickDesc::new` builds: no size, no offset,
    /// a quarter turn, nothing overridden.
    pub open spec fn plain(asset: Seq<char>) -> DescModel {
        DescModel {
            asset,
            size: (0, 0, 0),
            offset: (0, 0, 0),
            rotation_offset: 1,
            color_override: None,
            direction_override: None,
            microwedge_rotate: false,
            inverted_modter_rotate: false,
        }
    }

    pub open spec fn with_size(self, size: (u32, u32, u32)) -> DescModel {
        DescModel { size, ..self }
    }

    pub open spec fn with_offset(self, offset: (i32, i32, i32)) -> DescModel {
        DescModel { offset, ..self }
    }

    pub open spec fn with_rotation(self, rotation_offset: u8) -> DescModel {
        DescModel { rotation_offset, ..self }
    }

    pub open spec fn with_color(self, color: Color) -> DescModel {
        DescModel { color_override: Some(color), ..self }
    }
}

impl View for BrickDesc {
    type V = DescModel;

    open spec fn view(&self) -> DescModel {
        DescModel {
            asset: self.asset@,
            size: self.size,
            offset: self.offset,
            rotation_offset: self.rotation_offset,
            color_override: self.color_override,
            direction_override: self.direction_override,
            microwedge_rotate: self.microwedge_rotate,
            inverted_modter_rotate: self.inverted_modter_rotate,
        }
    }
}

impl DeepView for BrickDesc {
    type V = DescModel;

    open spec fn deep_view(&self) -> DescModel {
        self@
    }
}

impl BrickDesc {
    /// A descriptor of `asset` with the defaults: no size, no offset, a
    /// rotation offset of 1, nothing overridden.
    pub fn new(asset: &'static str) -> (desc: BrickDesc)
        ensures
            desc@ == DescModel::plain(asset@),
    {
        BrickDesc {
            asset,
            size: (0, 0, 0),
            offset: (0, 0, 0),
            rotation_offset: 1,
            color_override: None,
            direction_override: None,
            microwedge_rotate: false,
            inverted_modter_rotate: false,
        }
    }

    /// The same descriptor with this size.
    pub fn size(self, size: (u32, u32, u32)) -> (desc: BrickDesc)
        ensures
            desc@ == self@.with_size(size),
    {
        let mut desc = self;
        desc.size = size;
        desc
    }

    /// The same descriptor with this local offset.
    pub fn offset(self, offset: (i32, i32, i32)) -> (desc: BrickDesc)
        ensures
            desc@ == self@.with_offset(offset),
    {
        let mut desc = self;
        desc.offset = offset;
        desc
    }

    /// The same descriptor with this rotation offset.
    pub fn rotation_offset(self, rotation: u8) -> (desc: BrickDesc)
        ensures
            desc@ == self@.with_rotation(rotation),
    {
        let mut desc = self;
        desc.rotation_offset = rotation;
        desc
    }

    /// The same descriptor, painted with this colour.
    pub fn color_override(self, color_override: Color) -> (desc: BrickDesc)
        ensures
            desc@ == self@.with_color(color_override),
    {
        let mut desc = self;
        desc.color_override = Some(color_override);
        desc
    }

    /// The same descriptor, pointing along this axis.
    pub fn direction_override(self, direction_override: Direction) -> (desc: BrickDesc)
        ensures
            desc@ == (DescModel { direction_override: Some(direction_override), ..self@ }),
    {
        let mut desc = self;
        desc.direction_override = Some(direction_override);
        desc
    }

    /// The same descriptor with this micro wedge flag.
    pub fn microwedge_rotate(self, microwedge_rotate: bool) -> (desc: BrickDesc)
        ensures
            desc@ == (DescModel { microwedge_rotate, ..self@ }),
    {
        let mut desc = self;
        desc.microwedge_rotate = microwedge_rotate;
        desc
    }

    /// The same descriptor with this inverted terrain flag.
    pub fn inverted_modter_rotate(self, inverted_modter_rotate: bool) -> (desc: BrickDesc)
        ensures
            desc@ == (DescModel { inverted_modter_rotate, ..self@ }),
    {
        let mut desc = self;
        desc.inverted_modter_rotate = inverted_modter_rotate;
        desc
    }
}

impl From<BrickDesc> for BrickMapping {
    /// The mapping that holds `desc` alone.
    fn from(desc: BrickDesc) -> (mapping: BrickMapping)
        ensures
            mapping.deep_view() == seq![desc@],
    {
        let mapping = vec![desc];
        assert(mapping.deep_view() =~= seq![desc@]);
        mapping
    }
}

impl vstd::std_specs::convert::FromSpecImpl<BrickDesc> for BrickMapping {
    open spec fn obeys_from_spec() -> bool {
        false
    }

    open spec fn from_spec(desc: BrickDesc) -> BrickMapping {
        arbitrary()
    }
}

} // verus!
