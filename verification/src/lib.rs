//! Conversion of brick placements from one block-building game's save model
//! to another's: a rule table that maps a brick's name to target brick
//! descriptors, the change of coordinate frame, and the shared asset and
//! colour tables of the output document.

pub mod convert;
pub mod document;
pub mod literal;
pub mod mappings;
pub mod number;
pub mod palette;
pub mod pattern;
pub mod report;
pub mod rules;
pub mod text;
pub mod transform;
pub mod types;

pub use convert::{convert, ConvertReport};
pub use mappings::map_brick;
pub use report::errmsg;
pub use types::{BrickDesc, BrickMapping, Color, DescModel, Direction, SourceBrick};
