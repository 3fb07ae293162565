//! The conversion: one pass over the source bricks, in order.
//!
//! A brick that the rule table maps adds one target brick per descriptor
//! and counts once as converted. A brick that it does not map adds none,
//! counts as failed, and has its name tallied.

use vstd::prelude::*;
use crate::document::{
    blank_document, join_lines, joined, material_index, material_of, DocModel, OutputBrick,
    WriteData, BRICK_OWNER,
};
use crate::mappings::{map_brick, mapping_of};
use crate::palette::{
    intern_asset, intern_color, interned, lemma_intern_distinct, lemma_intern_idempotent,
    lemma_intern_stable, lemma_interned_holds, lemma_position_is, lemma_position_of, position_of,
};
use crate::text::str_eq;
use crate::transform::{composed_rotation, placed_position, transform};
use crate::types::{BrickDesc, BrickMapping, Color, DescModel, Direction, SourceBrick};

verus! {

/// A brick name and how many unmapped bricks carried it.
#[derive(Debug)]
pub struct NameCount {
    pub name: String,
    pub count: usize,
}

impl DeepView for NameCount {
    type V = (Seq<char>, nat);

    open spec fn deep_view(&self) -> (Seq<char>, nat) {
        (self.name@, self.count as nat)
    }
}

/// The names of a tally, in its order.
pub open spec fn tally_names(tally: Seq<(Seq<char>, nat)>) -> Seq<Seq<char>> {
    tally.map_values(|entry: (Seq<char>, nat)| entry.0)
}

/// The tally after one more brick called `name` went unmapped: the count of
/// that name is one higher, and a name not seen before comes last, with a
/// count of one.
pub open spec fn counted(tally: Seq<(Seq<char>, nat)>, name: Seq<char>) -> Seq<(Seq<char>, nat)> {
    let at = position_of(tally_names(tally), name);
    if at < tally.len() {
        tally.update(at, (name, tally[at].1 + 1))
    } else {
        tally.push((name, 1))
    }
}

/// The target brick that `desc` gives for the source brick `from`, in a
/// document that so far holds `assets` and `colors`.
pub open spec fn output_brick(
    assets: Seq<Seq<char>>,
    colors: Seq<Color>,
    from: SourceBrick,
    desc: DescModel,
) -> OutputBrick {
    let at = placed_position(from.position, from.angle, desc.offset);
    OutputBrick {
        asset_name_index: position_of(assets, desc.asset) as usize,
        size: desc.size,
        position: (at.0 as i64, at.1 as i64, at.2 as i64),
        direction: Direction::ZPositive,
        rotation: composed_rotation(from.angle, desc.rotation_offset) as u8,
        collision: from.collision,
        visibility: from.rendering,
        material_index: material_of(from.color_fx),
        color_index: match desc.color_override {
            Some(color) => position_of(colors, color) as usize,
            None => from.color_index as usize,
        },
        owner_index: BRICK_OWNER,
    }
}

/// The document after `desc` was applied to `from`: the asset is interned,
/// the colour too where the descriptor overrides it, and the new brick
/// comes last.
pub open spec fn emitted(doc: DocModel, from: SourceBrick, desc: DescModel) -> DocModel {
    DocModel {
        brick_assets: interned(doc.brick_assets, desc.asset),
        colors: match desc.color_override {
            Some(color) => interned(doc.colors, color),
            None => doc.colors,
        },
        bricks: doc.bricks.push(output_brick(doc.brick_assets, doc.colors, from, desc)),
        ..doc
    }
}

/// The document after every descriptor of `descs` was applied to `from`,
/// in order.
pub open spec fn emitted_all(doc: DocModel, from: SourceBrick, descs: Seq<DescModel>) -> DocModel
    decreases descs.len(),
{
    if descs.len() == 0 {
        doc
    } else {
        emitted(emitted_all(doc, from, descs.drop_last()), from, descs.last())
    }
}

/// The document after the bricks were converted, in order.
pub open spec fn converted(doc: DocModel, bricks: Seq<SourceBrick>) -> DocModel
    decreases bricks.len(),
{
    if bricks.len() == 0 {
        doc
    } else {
        let before = converted(doc, bricks.drop_last());
        let from = bricks.last();
        match mapping_of(from.ui_name@, from.print@) {
            Some(descs) => emitted_all(before, from, descs),
            None => before,
        }
    }
}

/// The tally of the names of the bricks that no rule maps.
pub open spec fn unknown_names(bricks: Seq<SourceBrick>) -> Seq<(Seq<char>, nat)>
    decreases bricks.len(),
{
    if bricks.len() == 0 {
        Seq::empty()
    } else {
        let before = unknown_names(bricks.drop_last());
        let from = bricks.last();
        if mapping_of(from.ui_name@, from.print@) is None {
            counted(before, from.ui_name@)
        } else {
            before
        }
    }
}

/// How many of the bricks no rule maps.
pub open spec fn failures(bricks: Seq<SourceBrick>) -> nat
    decreases bricks.len(),
{
    if bricks.len() == 0 {
        0
    } else {
        let from = bricks.last();
        failures(bricks.drop_last()) + if mapping_of(from.ui_name@, from.print@) is None {
            1nat
        } else {
            0nat
        }
    }
}

/// No count of the tally is above `limit`.
pub open spec fn counts_within(tally: Seq<(Seq<char>, nat)>, limit: nat) -> bool {
    forall|k: int| 0 <= k < tally.len() ==> (#[trigger] tally[k]).1 <= limit
}

/// Counting one more name raises no count by more than one.
pub proof fn lemma_counted_within(tally: Seq<(Seq<char>, nat)>, name: Seq<char>, limit: nat)
    requires
        counts_within(tally, limit),
    ensures
        counts_within(counted(tally, name), limit + 1),
{
    let after = counted(tally, name);
    let at = position_of(tally_names(tally), name);
    lemma_position_of(tally_names(tally), name);
    assert forall|k: int| 0 <= k < after.len() implies (#[trigger] after[k]).1 <= limit + 1 by {
        if k < tally.len() && k != at {
            assert(after[k] == tally[k]);
        } else if k < tally.len() {
            assert(tally[k].1 <= limit);
        }
    }
}

/// No name is tallied more often than there are bricks.
pub proof fn lemma_unknown_within(bricks: Seq<SourceBrick>)
    ensures
        counts_within(unknown_names(bricks), bricks.len()),
    decreases bricks.len(),
{
    if bricks.len() > 0 {
        let before = bricks.drop_last();
        lemma_unknown_within(before);
        let from = bricks.last();
        if mapping_of(from.ui_name@, from.print@) is None {
            lemma_counted_within(unknown_names(before), from.ui_name@, before.len());
        } else {
            assert forall|k: int| 0 <= k < unknown_names(before).len() implies (
            #[trigger] unknown_names(before)[k]).1 <= bricks.len() by {}
        }
    }
}

/// How often the tally counted `name`: the count of its entry, or zero
/// where it has none.
pub open spec fn count_of(tally: Seq<(Seq<char>, nat)>, name: Seq<char>) -> nat {
    let at = position_of(tally_names(tally), name);
    if at < tally.len() {
        tally[at].1
    } else {
        0
    }
}

/// How many of the bricks are called `name` and are mapped by no rule.
pub open spec fn unmapped_called(bricks: Seq<SourceBrick>, name: Seq<char>) -> nat
    decreases bricks.len(),
{
    if bricks.len() == 0 {
        0
    } else {
        let from = bricks.last();
        unmapped_called(bricks.drop_last(), name) + if from.ui_name@ == name && mapping_of(
            from.ui_name@,
            from.print@,
        ) is None {
            1nat
        } else {
            0nat
        }
    }
}

/// Counting a name takes it into the names of the tally as interning
/// would, raises its count by one, and leaves every other count as it was.
pub proof fn lemma_counted(tally: Seq<(Seq<char>, nat)>, name: Seq<char>, other: Seq<char>)
    ensures
        tally_names(counted(tally, name)) == interned(tally_names(tally), name),
        count_of(counted(tally, name), name) == count_of(tally, name) + 1,
        other != name ==> count_of(counted(tally, name), other) == count_of(tally, other),
{
    let held = tally_names(tally);
    let after = counted(tally, name);
    let at = position_of(held, name);
    lemma_position_of(held, name);
    assert(tally_names(after) =~= interned(held, name)) by {
        if at < tally.len() {
            assert(held[at] == name);
        }
    }
    lemma_intern_idempotent(held, name);
    if other != name {
        lemma_position_of(held, other);
        let p = position_of(held, other);
        if p < held.len() {
            lemma_intern_stable(held, name, other);
            assert(p != at);
        } else {
            let grown = interned(held, name);
            assert forall|j: int| 0 <= j < grown.len() implies grown[j] != other by {
                if j < held.len() {
                    assert(grown[j] == held[j]);
                }
            }
            lemma_position_is(grown, other, grown.len() as int);
        }
    }
}

/// The tally holds every name once, and with each name the number of
/// bricks of that name that no rule maps.
pub proof fn lemma_unknown_names_count(bricks: Seq<SourceBrick>, name: Seq<char>)
    ensures
        tally_names(unknown_names(bricks)).no_duplicates(),
        count_of(unknown_names(bricks), name) == unmapped_called(bricks, name),
    decreases bricks.len(),
{
    if bricks.len() > 0 {
        let before = unknown_names(bricks.drop_last());
        let from = bricks.last();
        lemma_unknown_names_count(bricks.drop_last(), name);
        if mapping_of(from.ui_name@, from.print@) is None {
            lemma_counted(before, from.ui_name@, name);
            lemma_intern_distinct(tally_names(before), from.ui_name@);
        }
    }
}

/// How many descriptors the rule table gives for the bricks, all told.
pub open spec fn descriptor_count(bricks: Seq<SourceBrick>) -> nat
    decreases bricks.len(),
{
    if bricks.len() == 0 {
        0
    } else {
        let from = bricks.last();
        descriptor_count(bricks.drop_last()) + match mapping_of(from.ui_name@, from.print@) {
            Some(descs) => descs.len(),
            None => 0nat,
        }
    }
}

/// `later` is `earlier` with nothing changed and, possibly, more at its end.
pub open spec fn grown_from(later: DocModel, earlier: DocModel) -> bool {
    &&& later.map == earlier.map
    &&& later.author == earlier.author
    &&& later.description == earlier.description
    &&& later.mods == earlier.mods
    &&& later.materials == earlier.materials
    &&& later.brick_owners == earlier.brick_owners
    &&& earlier.brick_assets.is_prefix_of(later.brick_assets)
    &&& earlier.colors.is_prefix_of(later.colors)
    &&& earlier.bricks.is_prefix_of(later.bricks)
    &&& earlier.brick_assets.no_duplicates() ==> later.brick_assets.no_duplicates()
}

/// Applying a descriptor only adds to a document: one brick, and at most
/// one asset and one colour, each at the end of its table.
pub proof fn lemma_emitted_grows(doc: DocModel, from: SourceBrick, desc: DescModel)
    ensures
        grown_from(emitted(doc, from, desc), doc),
        emitted(doc, from, desc).bricks.len() == doc.bricks.len() + 1,
{
    if doc.brick_assets.no_duplicates() {
        lemma_intern_distinct(doc.brick_assets, desc.asset);
    }
}

/// A descriptor's brick refers to the descriptor's asset, to the colour
/// that the descriptor overrides or else to the source brick's colour
/// index, and to the material of the source brick's colour effect; its
/// rotation index is below 4.
pub proof fn lemma_emitted_refers(doc: DocModel, from: SourceBrick, desc: DescModel)
    requires
        doc.brick_assets.len() <= usize::MAX,
        doc.colors.len() <= usize::MAX,
    ensures
        ({
            let after = emitted(doc, from, desc);
            let brick = after.bricks.last();
            &&& 0 <= brick.asset_name_index < after.brick_assets.len()
            &&& after.brick_assets[brick.asset_name_index as int] == desc.asset
            &&& match desc.color_override {
                Some(color) => 0 <= brick.color_index < after.colors.len()
                    && after.colors[brick.color_index as int] == color,
                None => brick.color_index == from.color_index,
            }
            &&& brick.material_index == material_of(from.color_fx)
            &&& brick.rotation < 4
            &&& brick.rotation == (from.angle + desc.rotation_offset) % 4
            &&& brick.size == desc.size
        }),
{
    lemma_interned_holds(doc.brick_assets, desc.asset);
    lemma_position_of(doc.brick_assets, desc.asset);
    if let Some(color) = desc.color_override {
        lemma_interned_holds(doc.colors, color);
        lemma_position_of(doc.colors, color);
    }
}

/// The descriptors of one source brick add one brick each, in their order,
/// each where its own offset, turned with the source brick, puts it.
pub proof fn lemma_emitted_all_places(doc: DocModel, from: SourceBrick, descs: Seq<DescModel>)
    ensures
        grown_from(emitted_all(doc, from, descs), doc),
        emitted_all(doc, from, descs).bricks.len() == doc.bricks.len() + descs.len(),
        forall|k: int|
            #![trigger descs[k]]
            0 <= k < descs.len() ==> {
                let brick = emitted_all(doc, from, descs).bricks[doc.bricks.len() + k];
                let at = placed_position(from.position, from.angle, descs[k].offset);
                &&& brick.position == (at.0 as i64, at.1 as i64, at.2 as i64)
                &&& brick.size == descs[k].size
            },
    decreases descs.len(),
{
    if descs.len() > 0 {
        let front = descs.drop_last();
        let before = emitted_all(doc, from, front);
        lemma_emitted_all_places(doc, from, front);
        lemma_emitted_grows(before, from, descs.last());
        let after = emitted_all(doc, from, descs);
        assert forall|k: int| #![trigger descs[k]] 0 <= k < descs.len() implies {
            let brick = after.bricks[doc.bricks.len() + k];
            let at = placed_position(from.position, from.angle, descs[k].offset);
            &&& brick.position == (at.0 as i64, at.1 as i64, at.2 as i64)
            &&& brick.size == descs[k].size
        } by {
            if k < front.len() {
                assert(front[k] == descs[k]);
                assert(after.bricks[doc.bricks.len() + k] == before.bricks[doc.bricks.len() + k]);
            }
        }
    }
}

/// A conversion only adds to the document it starts from, and adds one
/// brick per descriptor.
pub proof fn lemma_converted_grows(doc: DocModel, bricks: Seq<SourceBrick>)
    ensures
        grown_from(converted(doc, bricks), doc),
        converted(doc, bricks).bricks.len() == doc.bricks.len() + descriptor_count(bricks),
    decreases bricks.len(),
{
    if bricks.len() > 0 {
        let before = converted(doc, bricks.drop_last());
        lemma_converted_grows(doc, bricks.drop_last());
        let from = bricks.last();
        if let Some(descs) = mapping_of(from.ui_name@, from.print@) {
            lemma_emitted_all_places(before, from, descs);
        }
    }
}

/// Every brick of the document refers to an entry of its asset table, of
/// its material table and of its owner table, and has a rotation index
/// below 4.
pub open spec fn refers_within(doc: DocModel) -> bool {
    forall|k: int|
        0 <= k < doc.bricks.len() ==> {
            let brick = #[trigger] doc.bricks[k];
            &&& brick.asset_name_index < doc.brick_assets.len()
            &&& brick.material_index < doc.materials.len()
            &&& brick.owner_index < doc.brick_owners.len()
            &&& brick.rotation < 4
        }
}

/// The descriptors of one source brick leave a document whose bricks refer
/// within its tables in that state.
pub proof fn lemma_emitted_all_within(doc: DocModel, from: SourceBrick, descs: Seq<DescModel>)
    requires
        refers_within(doc),
        doc.materials.len() == 3,
        doc.brick_owners.len() > 0,
        emitted_all(doc, from, descs).brick_assets.len() <= usize::MAX,
    ensures
        refers_within(emitted_all(doc, from, descs)),
    decreases descs.len(),
{
    if descs.len() > 0 {
        let before = emitted_all(doc, from, descs.drop_last());
        let after = emitted_all(doc, from, descs);
        lemma_emitted_all_places(doc, from, descs.drop_last());
        lemma_emitted_grows(before, from, descs.last());
        lemma_emitted_all_within(doc, from, descs.drop_last());
        lemma_interned_holds(before.brick_assets, descs.last().asset);
        lemma_position_of(before.brick_assets, descs.last().asset);
        assert forall|k: int| 0 <= k < after.bricks.len() implies {
            let brick = #[trigger] after.bricks[k];
            &&& brick.asset_name_index < after.brick_assets.len()
            &&& brick.material_index < after.materials.len()
            &&& brick.owner_index < after.brick_owners.len()
            &&& brick.rotation < 4
        } by {
            if k < before.bricks.len() {
                assert(after.bricks[k] == before.bricks[k]);
            }
        }
    }
}

/// A conversion that starts from a document whose bricks refer within its
/// tables ends with one.
pub proof fn lemma_converted_within(doc: DocModel, bricks: Seq<SourceBrick>)
    requires
        refers_within(doc),
        doc.materials.len() == 3,
        doc.brick_owners.len() > 0,
        converted(doc, bricks).brick_assets.len() <= usize::MAX,
    ensures
        refers_within(converted(doc, bricks)),
    decreases bricks.len(),
{
    if bricks.len() > 0 {
        let before = converted(doc, bricks.drop_last());
        let from = bricks.last();
        lemma_converted_grows(doc, bricks.drop_last());
        if let Some(descs) = mapping_of(from.ui_name@, from.print@) {
            lemma_emitted_all_places(before, from, descs);
            lemma_converted_within(doc, bricks.drop_last());
            lemma_emitted_all_within(before, from, descs);
        } else {
            lemma_converted_within(doc, bricks.drop_last());
        }
    }
}

/// A brick that no rule maps adds nothing to the document, counts as one
/// more failure, and has its name counted once more.
pub proof fn lemma_unmapped_adds_nothing(doc: DocModel, bricks: Seq<SourceBrick>, from: SourceBrick)
    requires
        mapping_of(from.ui_name@, from.print@) is None,
    ensures
        converted(doc, bricks.push(from)) == converted(doc, bricks),
        failures(bricks.push(from)) == failures(bricks) + 1,
        unknown_names(bricks.push(from)) == counted(unknown_names(bricks), from.ui_name@),
{
    assert(bricks.push(from).drop_last() =~= bricks);
}

/// What a conversion has built so far.
pub struct Converter {
    pub write_data: WriteData,
    pub unknown_ui_names: Vec<NameCount>,
}

impl Converter {
    /// Starts on a document without bricks and an empty tally.
    pub fn new(write_data: WriteData) -> (converter: Converter)
        ensures
            converter.write_data == write_data,
            converter.unknown_ui_names.deep_view() == Seq::<(Seq<char>, nat)>::empty(),
    {
        let converter = Converter { write_data, unknown_ui_names: Vec::new() };
        assert(converter.unknown_ui_names.deep_view() =~= Seq::<(Seq<char>, nat)>::empty());
        converter
    }

    /// Counts one more unmapped brick called `name`.
    pub fn count_unknown(&mut self, name: &str)
        requires
            forall|k: int|
                0 <= k < old(self).unknown_ui_names.len() ==> (
                #[trigger] old(self).unknown_ui_names[k]).count < usize::MAX,
        ensures
            final(self).write_data == old(self).write_data,
            final(self).unknown_ui_names.deep_view() == counted(
                old(self).unknown_ui_names.deep_view(),
                name@,
            ),
    {
        let ghost tally = self.unknown_ui_names.deep_view();
        let ghost held = tally_names(tally);
        let mut i: usize = 0;
        while i < self.unknown_ui_names.len()
            invariant
                i <= self.unknown_ui_names.len(),
                *self == *old(self),
                tally == self.unknown_ui_names.deep_view(),
                held == tally_names(tally),
                forall|j: int| 0 <= j < i ==> held[j] != name@,
                forall|k: int|
                    0 <= k < self.unknown_ui_names.len() ==> (
                    #[trigger] self.unknown_ui_names[k]).count < usize::MAX,
            decreases self.unknown_ui_names.len() - i,
        {
            if str_eq(self.unknown_ui_names[i].name.as_str(), name) {
                proof {
                    assert(held[i as int] == name@);
                    lemma_position_is(held, name@, i as int);
                }
                let count = self.unknown_ui_names[i].count;
                self.unknown_ui_names.set(i, NameCount { name: name.to_owned(), count: count + 1 });
                assert(self.unknown_ui_names.deep_view() =~= tally.update(
                    i as int,
                    (name@, tally[i as int].1 + 1),
                ));
                return ;
            }
            i = i + 1;
        }
        proof {
            lemma_position_is(held, name@, i as int);
        }
        self.unknown_ui_names.push(NameCount { name: name.to_owned(), count: 1 });
        assert(self.unknown_ui_names.deep_view() =~= tally.push((name@, 1nat)));
    }

    /// Maps one source brick, and tallies its name where no rule covers it.
    pub fn map_brick(&mut self, from: &SourceBrick) -> (mapping: Option<BrickMapping>)
        requires
            forall|k: int|
                0 <= k < old(self).unknown_ui_names.len() ==> (
                #[trigger] old(self).unknown_ui_names[k]).count < usize::MAX,
        ensures
            mapping.deep_view() == mapping_of(from.ui_name@, from.print@),
            mapping matches Some(found) ==> found.len() > 0,
            final(self).write_data == old(self).write_data,
            final(self).unknown_ui_names.deep_view() == if mapping is None {
                counted(old(self).unknown_ui_names.deep_view(), from.ui_name@)
            } else {
                old(self).unknown_ui_names.deep_view()
            },
    {
        let mapping = map_brick(from);
        if mapping.is_none() {
            self.count_unknown(from.ui_name.as_str());
        }
        mapping
    }

    /// The index of an asset name in the asset table, which takes the name
    /// in where it does not hold it yet.
    pub fn asset(&mut self, asset_name: &str) -> (index: usize)
        ensures
            index == position_of(old(self).write_data@.brick_assets, asset_name@),
            index < final(self).write_data.brick_assets.len(),
            final(self).write_data@ == (DocModel {
                brick_assets: interned(old(self).write_data@.brick_assets, asset_name@),
                ..old(self).write_data@
            }),
            final(self).unknown_ui_names == old(self).unknown_ui_names,
    {
        intern_asset(&mut self.write_data.brick_assets, asset_name)
    }

    /// The index of a colour in the colour table, which takes the colour in
    /// where it does not hold it yet.
    pub fn color(&mut self, color: &Color) -> (index: usize)
        ensures
            index == position_of(old(self).write_data@.colors, *color),
            index < final(self).write_data.colors.len(),
            final(self).write_data@ == (DocModel {
                colors: interned(old(self).write_data@.colors, *color),
                ..old(self).write_data@
            }),
            final(self).unknown_ui_names == old(self).unknown_ui_names,
    {
        intern_color(&mut self.write_data.colors, *color)
    }

    /// Adds the target brick that `desc` gives for the source brick `from`.
    pub fn emit(&mut self, from: &SourceBrick, desc: &BrickDesc)
        ensures
            final(self).write_data@ == emitted(old(self).write_data@, *from, desc@),
            final(self).unknown_ui_names == old(self).unknown_ui_names,
    {
        let ghost before = self.write_data@;
        let asset_name_index = self.asset(desc.asset);
        let placement = transform(from.position, from.angle, desc);
        let material_index = material_index(from.color_fx);
        let color_index = match desc.color_override {
            Some(color) => self.color(&color),
            None => from.color_index as usize,
        };
        let brick = OutputBrick {
            asset_name_index,
            size: desc.size,
            position: placement.position,
            direction: Direction::ZPositive,
            rotation: placement.rotation,
            collision: from.collision,
            visibility: from.rendering,
            material_index,
            color_index,
            owner_index: BRICK_OWNER,
        };
        assert(brick == output_brick(before.brick_assets, before.colors, *from, desc@));
        self.write_data.bricks.push(brick);
    }
}

/// The result of one conversion: the document, the tally of the names that
/// no rule maps, in the order in which they were first met, and how many
/// source bricks were converted and how many were not.
pub struct ConvertReport {
    pub write_data: WriteData,
    pub unknown_ui_names: Vec<NameCount>,
    pub count_success: usize,
    pub count_failure: usize,
}

/// Converts a save: `description` holds the lines of its description,
/// `colors` its colour table and `bricks` its bricks, in order.
pub fn convert(description: &Vec<String>, colors: Vec<Color>, bricks: &Vec<SourceBrick>) -> (report:
    ConvertReport)
    ensures
        report.write_data@ == converted(
            blank_document(joined(description.deep_view()), colors@),
            bricks@,
        ),
        report.unknown_ui_names.deep_view() == unknown_names(bricks@),
        report.count_failure == failures(bricks@),
        report.count_success + report.count_failure == bricks.len(),
        report.write_data.bricks.len() == descriptor_count(bricks@),
        report.write_data@.brick_assets.no_duplicates(),
        colors@.is_prefix_of(report.write_data.colors@),
        refers_within(report.write_data@),
{
    let data = WriteData::blank(join_lines(description), colors);
    let ghost start = data@;
    let mut converter = Converter::new(data);
    let mut count_success: usize = 0;
    let mut count_failure: usize = 0;
    let mut i: usize = 0;
    assert(bricks@.take(0) =~= Seq::<SourceBrick>::empty());
    while i < bricks.len()
        invariant
            i <= bricks.len(),
            converter.write_data@ == converted(start, bricks@.take(i as int)),
            converter.unknown_ui_names.deep_view() == unknown_names(bricks@.take(i as int)),
            count_failure == failures(bricks@.take(i as int)),
            count_success + count_failure == i,
        decreases bricks.len() - i,
    {
        let from = &bricks[i];
        let ghost done = bricks@.take(i as int);
        proof {
            assert(bricks@.take(i + 1).drop_last() =~= done);
            assert(bricks@.take(i + 1).last() == *from);
            lemma_unknown_within(done);
            assert forall|k: int| 0 <= k < converter.unknown_ui_names.len() implies (
            #[trigger] converter.unknown_ui_names[k]).count < usize::MAX by {
                assert(converter.unknown_ui_names.deep_view()[k].1 <= i);
            }
        }
        match converter.map_brick(from) {
            Some(mapping) => {
                count_success = count_success + 1;
                let ghost descs = mapping.deep_view();
                let ghost before = converter.write_data@;
                let mut j: usize = 0;
                assert(descs.take(0) =~= Seq::<DescModel>::empty());
                while j < mapping.len()
                    invariant
                        j <= mapping.len(),
                        descs == mapping.deep_view(),
                        converter.write_data@ == emitted_all(before, *from, descs.take(j as int)),
                        converter.unknown_ui_names.deep_view() == unknown_names(
                            bricks@.take(i + 1),
                        ),
                    decreases mapping.len() - j,
                {
                    assert(descs.take(j + 1).drop_last() =~= descs.take(j as int));
                    assert(descs.take(j + 1).last() == mapping[j as int]@);
                    converter.emit(from, &mapping[j]);
                    j = j + 1;
                }
                assert(descs.take(j as int) =~= descs);
            },
            None => {
                count_failure = count_failure + 1;
            },
        }
        i = i + 1;
    }
    assert(bricks@.take(i as int) =~= bricks@);
    proof {
        assert(converter.write_data@.brick_assets.len() == converter.write_data.brick_assets.len());
        lemma_converted_grows(start, bricks@);
        lemma_converted_within(start, bricks@);
    }
    ConvertReport {
        write_data: converter.write_data,
        unknown_ui_names: converter.unknown_ui_names,
        count_success,
        count_failure,
    }
}

} // verus!
