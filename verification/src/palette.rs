//! Shared tables: every distinct value is stored once and referred to by its
//! index. A table only grows, so an index, once given, stays good.

use vstd::prelude::*;
use crate::text::str_eq;
use crate::types::Color;

verus! {

/// The first index at which `table` holds `item`, or the table's length
/// where it holds none.
pub open spec fn position_of<T>(table: Seq<T>, item: T) -> int
    decreases table.len(),
{
    if table.len() == 0 {
        0
    } else if table[0] == item {
        0
    } else {
        1 + position_of(table.drop_first(), item)
    }
}

/// The table after `item` was interned: as it was where it held the item,
/// with the item at its end where it did not.
pub open spec fn interned<T>(table: Seq<T>, item: T) -> Seq<T> {
    if table.contains(item) {
        table
    } else {
        table.push(item)
    }
}

/// `position_of` is the one index up to which the item does not occur and
/// at which, unless it is the length, it does.
pub proof fn lemma_position_of<T>(table: Seq<T>, item: T)
    ensures
        0 <= position_of(table, item) <= table.len(),
        position_of(table, item) < table.len() ==> table[position_of(table, item)] == item,
        forall|j: int| 0 <= j < position_of(table, item) ==> table[j] != item,
        position_of(table, item) < table.len() <==> table.contains(item),
    decreases table.len(),
{
    if table.len() > 0 && table[0] != item {
        let rest = table.drop_first();
        lemma_position_of(rest, item);
        let p = position_of(rest, item);
        assert forall|j: int| 0 <= j < p + 1 implies table[j] != item by {
            if j > 0 {
                assert(table[j] == rest[j - 1]);
            }
        }
        if p < rest.len() {
            assert(table[p + 1] == rest[p]);
        }
        if table.contains(item) {
            let k = choose|k: int| 0 <= k < table.len() && table[k] == item;
            assert(rest[k - 1] == item);
        }
    }
}

/// An index up to which the item does not occur and at which it does, or
/// which is the length, is `position_of`.
pub proof fn lemma_position_is<T>(table: Seq<T>, item: T, p: int)
    requires
        0 <= p <= table.len(),
        forall|j: int| 0 <= j < p ==> table[j] != item,
        p < table.len() ==> table[p] == item,
    ensures
        position_of(table, item) == p,
{
    lemma_position_of(table, item);
}

/// Interning hands out the index at which the item stands afterwards.
pub proof fn lemma_interned_holds<T>(table: Seq<T>, item: T)
    ensures
        0 <= position_of(table, item) < interned(table, item).len(),
        interned(table, item)[position_of(table, item)] == item,
{
    lemma_position_of(table, item);
}

/// Interning the same item again gives the same index and leaves the table
/// as it is.
pub proof fn lemma_intern_idempotent<T>(table: Seq<T>, item: T)
    ensures
        interned(interned(table, item), item) == interned(table, item),
        position_of(interned(table, item), item) == position_of(table, item),
{
    lemma_position_of(table, item);
    let after = interned(table, item);
    let p = position_of(table, item);
    assert(after[p] == item);
    assert(after.contains(item));
    lemma_position_is(after, item, p);
}

/// Interning one item moves no other: what the table held keeps its index.
pub proof fn lemma_intern_stable<T>(table: Seq<T>, item: T, other: T)
    requires
        table.contains(other),
    ensures
        interned(table, item).contains(other),
        position_of(interned(table, item), other) == position_of(table, other),
{
    lemma_position_of(table, other);
    let after = interned(table, item);
    let p = position_of(table, other);
    assert(after[p] == other);
    lemma_position_is(after, other, p);
}

/// A table that holds nothing twice still holds nothing twice after interning.
pub proof fn lemma_intern_distinct<T>(table: Seq<T>, item: T)
    requires
        table.no_duplicates(),
    ensures
        interned(table, item).no_duplicates(),
{
    if !table.contains(item) {
        let after = table.push(item);
        assert forall|i: int, j: int| 0 <= i < after.len() && 0 <= j < after.len() && i != j implies after[i] != after[j] by {
            if i == table.len() {
                assert(table[j] == after[j]);
            } else if j == table.len() {
                assert(table[i] == after[i]);
            }
        }
    }
}

/// Interns an asset name.
pub fn intern_asset(table: &mut Vec<String>, name: &str) -> (index: usize)
    ensures
        final(table).deep_view() == interned(old(table).deep_view(), name@),
        index == position_of(old(table).deep_view(), name@),
        index < final(table).len(),
{
    let ghost held = table.deep_view();
    let mut i: usize = 0;
    while i < table.len()
        invariant
            i <= table.len(),
            *table == *old(table),
            held == table.deep_view(),
            forall|j: int| 0 <= j < i ==> held[j] != name@,
        decreases table.len() - i,
    {
        if str_eq(table[i].as_str(), name) {
            proof {
                assert(held[i as int] == name@);
                lemma_position_is(held, name@, i as int);
                assert(held.contains(name@));
            }
            return i;
        }
        i = i + 1;
    }
    proof {
        lemma_position_is(held, name@, i as int);
        lemma_position_of(held, name@);
    }
    table.push(name.to_owned());
    assert(table.deep_view() =~= held.push(name@));
    i
}

/// Interns a colour.
pub fn intern_color(table: &mut Vec<Color>, color: Color) -> (index: usize)
    ensures
        final(table)@ == interned(old(table)@, color),
        index == position_of(old(table)@, color),
        index < final(table).len(),
{
    let mut i: usize = 0;
    while i < table.len()
        invariant
            i <= table.len(),
            *table == *old(table),
            forall|j: int| 0 <= j < i ==> table@[j] != color,
        decreases table.len() - i,
    {
        if table[i] == color {
            proof {
                lemma_position_is(table@, color, i as int);
                assert(table@.contains(color));
            }
            return i;
        }
        i = i + 1;
    }
    proof {
        lemma_position_is(table@, color, i as int);
        lemma_position_of(table@, color);
    }
    table.push(color);
    i
}

} // verus!
