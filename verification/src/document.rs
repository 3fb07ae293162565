//! The output document: its tables and its bricks.

use vstd::prelude::*;
use vstd::string::*;
use crate::types::{Color, Direction};

verus! {

/// Index of the plastic material in the material table.
pub const BMC_PLASTIC: usize = 0;

/// Index of the glowing material in the material table.
pub const BMC_GLOW: usize = 1;

/// Index of the metallic material in the material table.
pub const BMC_METALLIC: usize = 2;

/// Index of the owner of every converted brick in the owner table.
pub const BRICK_OWNER: usize = 0;

/// The identity of the public owner.
pub const PUBLIC_ID: u128 = 0xffff_ffff_ffff_ffff_ffff_ffff_ffff_ffff;

/// A user of the target game: a 128-bit identity and a name.
#[derive(Debug)]
pub struct User {
    pub id: u128,
    pub name: String,
}

/// What a `User` stands for.
pub ghost struct UserModel {
    pub id: u128,
    pub name: Seq<char>,
}

impl DeepView for User {
    type V = UserModel;

    open spec fn deep_view(&self) -> UserModel {
        UserModel { id: self.id, name: self.name@ }
    }
}

/// One brick of the output document. The three indices point into the
/// document's asset, material and owner tables, `color_index` into its
/// colour table.
#[derive(Clone, Copy, Debug, PartialEq, Eq)]
pub struct OutputBrick {
    pub asset_name_index: usize,
    pub size: (u32, u32, u32),
    pub position: (i64, i64, i64),
    pub direction: Direction,
    pub rotation: u8,
    pub collision: bool,
    pub visibility: bool,
    pub material_index: usize,
    pub color_index: usize,
    pub owner_index: usize,
}

/// Everything that is written to a save of the target game, but for the
/// time of saving.
#[derive(Debug)]
pub struct WriteData {
    pub map: String,
    pub author: User,
    pub description: String,
    pub mods: Vec<String>,
    pub brick_assets: Vec<String>,
    pub colors: Vec<Color>,
    pub materials: Vec<String>,
    pub brick_owners: Vec<User>,
    pub bricks: Vec<OutputBrick>,
}

/// What a `WriteData` stands for: every text by its characters.
pub ghost struct DocModel {
    pub map: Seq<char>,
    pub author: UserModel,
    pub description: Seq<char>,
    pub mods: Seq<Seq<char>>,
    pub brick_assets: Seq<Seq<char>>,
    pub colors: Seq<Color>,
    pub materials: Seq<Seq<char>>,
    pub brick_owners: Seq<UserModel>,
    pub bricks: Seq<OutputBrick>,
}

impl View for WriteData {
    type V = DocModel;

    open spec fn view(&self) -> DocModel {
        DocModel {
            map: self.map@,
            author: self.author.deep_view(),
            description: self.description@,
            mods: self.mods.deep_view(),
            brick_assets: self.brick_assets.deep_view(),
            colors: self.colors@,
            materials: self.materials.deep_view(),
            brick_owners: self.brick_owners.deep_view(),
            bricks: self.bricks@,
        }
    }
}

/// The material table of every output document.
pub open spec fn material_table() -> Seq<Seq<char>> {
    seq!["BMC_Plastic"@, "BMC_Glow"@, "BMC_Metallic"@]
}

/// The material that a colour effect of the source calls for: effect 3
/// glows, effects 1 and 2 are metallic, every other value is plastic.
pub open spec fn material_of(color_fx: u8) -> usize {
    if color_fx == 3 {
        BMC_GLOW
    } else if color_fx == 1 || color_fx == 2 {
        BMC_METALLIC
    } else {
        BMC_PLASTIC
    }
}

/// The index in the material table of the material that `color_fx` calls
/// for.
pub fn material_index(color_fx: u8) -> (index: usize)
    ensures
        index == material_of(color_fx),
        index < material_table().len(),
{
    match color_fx {
        3 => BMC_GLOW,
        1 | 2 => BMC_METALLIC,
        _ => BMC_PLASTIC,
    }
}

/// Lines of text as one text, with a line feed between every two.
pub open spec fn joined(lines: Seq<Seq<char>>) -> Seq<char>
    decreases lines.len(),
{
    if lines.len() == 0 {
        Seq::empty()
    } else if lines.len() == 1 {
        lines[0]
    } else {
        joined(lines.drop_last()) + "\n"@ + lines.last()
    }
}

/// Joins the lines of a description.
pub fn join_lines(lines: &Vec<String>) -> (text: String)
    ensures
        text@ == joined(lines.deep_view()),
{
    let ghost all = lines.deep_view();
    let mut text = String::new();
    let mut i: usize = 0;
    assert(all.take(0) =~= Seq::<Seq<char>>::empty());
    while i < lines.len()
        invariant
            i <= lines.len(),
            all == lines.deep_view(),
            text@ == joined(all.take(i as int)),
        decreases lines.len() - i,
    {
        assert(all.take(i + 1).drop_last() =~= all.take(i as int));
        assert(all.take(i + 1).last() == lines[i as int]@);
        if i > 0 {
            text.append("\n");
        } else {
            assert(all.take(1)[0] == lines[0]@);
            assert(text@ + lines[0]@ =~= lines[0]@);
        }
        text.append(lines[i].as_str());
        i = i + 1;
    }
    assert(all.take(i as int) =~= all);
    text
}

/// The document before any brick is converted: no assets, no bricks, the
/// colours of the source, the three materials, and the public owner.
pub open spec fn blank_document(description: Seq<char>, colors: Seq<Color>) -> DocModel {
    DocModel {
        map: "Unknown"@,
        author: UserModel { id: 0, name: "Unknown"@ },
        description,
        mods: Seq::empty(),
        brick_assets: Seq::empty(),
        colors,
        materials: material_table(),
        brick_owners: seq![UserModel { id: PUBLIC_ID, name: "PUBLIC"@ }],
        bricks: Seq::empty(),
    }
}

impl WriteData {
    /// A document without bricks.
    pub fn blank(description: String, colors: Vec<Color>) -> (data: WriteData)
        ensures
            data@ == blank_document(description@, colors@),
    {
        let materials = vec![
            "BMC_Plastic".to_owned(),
            "BMC_Glow".to_owned(),
            "BMC_Metallic".to_owned(),
        ];
        let brick_owners = vec![User { id: PUBLIC_ID, name: "PUBLIC".to_owned() }];
        let data = WriteData {
            map: "Unknown".to_owned(),
            author: User { id: 0, name: "Unknown".to_owned() },
            description,
            mods: Vec::new(),
            brick_assets: Vec::new(),
            colors,
            materials,
            brick_owners,
            bricks: Vec::new(),
        };
        assert(data.mods.deep_view() =~= Seq::empty());
        assert(data.brick_assets.deep_view() =~= Seq::empty());
        assert(data.materials.deep_view() =~= material_table());
        assert(data.brick_owners.deep_view() =~= seq![
            UserModel { id: PUBLIC_ID, name: "PUBLIC"@ },
        ]);
        data
    }
}

} // verus!
