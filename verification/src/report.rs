//! What is told to the user after a conversion.

use vstd::prelude::*;
use vstd::seq_lib::*;
use vstd::string::*;
use crate::convert::NameCount;

verus! {

/// An error message with what was being done in front of it.
pub open spec fn prefixed(message_prefix: Seq<char>, shown: Seq<char>) -> Seq<char> {
    message_prefix + ": "@ + shown
}

/// Turns the error of `r`, if it is one, into a message: `message_prefix`,
/// a colon and a space, then the error as `Display` shows it.
pub fn errmsg<T, E: core::fmt::Display>(r: Result<T, E>, message_prefix: &str) -> (out: Result<
    T,
    String,
>)
    ensures
        match r {
            Ok(value) => out == Ok::<T, String>(value),
            Err(error) => out is Err && exists|shown: String|
                to_string_from_display_ensures::<E>(&error, shown) && out->Err_0@ == prefixed(
                    message_prefix@,
                    #[trigger] shown@,
                ),
        },
{
    match r {
        Ok(value) => Ok(value),
        Err(error) => {
            let shown = error.to_string();
            let mut message = message_prefix.to_owned();
            message.append(": ");
            message.append(shown.as_str());
            Err(message)
        },
    }
}

/// The description of a converted save: a line that names the file it was
/// converted from, then, on a line of its own, the description that the
/// source save had, if it had one.
pub open spec fn credited(file_name: Seq<char>, description: Seq<char>) -> Seq<char> {
    let credit = "Converted from "@ + file_name + " with bls2brs."@;
    if description.len() == 0 {
        credit
    } else {
        credit + "\n"@ + description
    }
}

/// The description of a save converted from the file `file_name`.
pub fn credit(file_name: &str, description: &str) -> (text: String)
    ensures
        text@ == credited(file_name@, description@),
{
    let mut text = "Converted from ".to_owned();
    text.append(file_name);
    text.append(" with bls2brs.");
    if !description.is_empty() {
        text.append("\n");
        text.append(description);
    }
    text
}

/// Where a name that was counted `count` times goes in a tally that runs
/// from the highest count down: behind every entry that was counted at
/// least as often.
pub open spec fn rank(sorted: Seq<(Seq<char>, nat)>, count: nat) -> int
    decreases sorted.len(),
{
    if sorted.len() == 0 {
        0
    } else if sorted[0].1 < count {
        0
    } else {
        1 + rank(sorted.drop_first(), count)
    }
}

/// The tally ordered from the highest count down. Names that were counted
/// equally often keep the order they had.
pub open spec fn by_count(tally: Seq<(Seq<char>, nat)>) -> Seq<(Seq<char>, nat)>
    decreases tally.len(),
{
    if tally.len() == 0 {
        Seq::empty()
    } else {
        let sorted = by_count(tally.drop_last());
        sorted.insert(rank(sorted, tally.last().1), tally.last())
    }
}

/// No entry was counted more often than one before it.
pub open spec fn is_descending(tally: Seq<(Seq<char>, nat)>) -> bool {
    forall|i: int, j: int| 0 <= i < j < tally.len() ==> tally[i].1 >= tally[j].1
}

/// `rank` is the one index before which every entry was counted at least
/// `count` times and at which, unless it is the length, the entry was
/// counted less often.
pub proof fn lemma_rank(sorted: Seq<(Seq<char>, nat)>, count: nat)
    ensures
        0 <= rank(sorted, count) <= sorted.len(),
        forall|j: int| 0 <= j < rank(sorted, count) ==> sorted[j].1 >= count,
        rank(sorted, count) < sorted.len() ==> sorted[rank(sorted, count)].1 < count,
    decreases sorted.len(),
{
    if sorted.len() > 0 && sorted[0].1 >= count {
        let rest = sorted.drop_first();
        lemma_rank(rest, count);
        let p = rank(rest, count);
        assert forall|j: int| 0 <= j < p + 1 implies sorted[j].1 >= count by {
            if j > 0 {
                assert(sorted[j] == rest[j - 1]);
            }
        }
        if p < rest.len() {
            assert(sorted[p + 1] == rest[p]);
        }
    }
}

/// An index before which every entry was counted at least `count` times
/// and at which, unless it is the length, the entry was counted less often,
/// is `rank`.
pub proof fn lemma_rank_is(sorted: Seq<(Seq<char>, nat)>, count: nat, p: int)
    requires
        0 <= p <= sorted.len(),
        forall|j: int| 0 <= j < p ==> sorted[j].1 >= count,
        p < sorted.len() ==> sorted[p].1 < count,
    ensures
        rank(sorted, count) == p,
{
    lemma_rank(sorted, count);
}

/// The tally ordered by count runs from the highest count down.
pub proof fn lemma_by_count_descending(tally: Seq<(Seq<char>, nat)>)
    ensures
        is_descending(by_count(tally)),
    decreases tally.len(),
{
    if tally.len() > 0 {
        let sorted = by_count(tally.drop_last());
        let entry = tally.last();
        let at = rank(sorted, entry.1);
        lemma_by_count_descending(tally.drop_last());
        lemma_rank(sorted, entry.1);
        let after = sorted.insert(at, entry);
        assert forall|i: int, j: int| 0 <= i < j < after.len() implies after[i].1 >= after[j].1 by {
            if j < at {
                assert(after[i] == sorted[i] && after[j] == sorted[j]);
            } else if j == at {
                assert(after[i] == sorted[i]);
            } else if i < at {
                assert(after[i] == sorted[i] && after[j] == sorted[j - 1]);
            } else if i == at {
                assert(after[j] == sorted[j - 1]);
                assert(sorted[at].1 >= sorted[j - 1].1 || at == j - 1);
            } else {
                assert(after[i] == sorted[i - 1] && after[j] == sorted[j - 1]);
            }
        }
    }
}

/// Ordering a tally by count loses no entry and adds none.
pub proof fn lemma_by_count_permutes(tally: Seq<(Seq<char>, nat)>)
    ensures
        by_count(tally).to_multiset() == tally.to_multiset(),
        by_count(tally).len() == tally.len(),
    decreases tally.len(),
{
    broadcast use group_to_multiset_ensures;

    if tally.len() > 0 {
        let front = tally.drop_last();
        let sorted = by_count(front);
        let entry = tally.last();
        let at = rank(sorted, entry.1);
        lemma_by_count_permutes(front);
        lemma_rank(sorted, entry.1);
        let after = sorted.insert(at, entry);
        assert(after.remove(at) =~= sorted);
        assert(after[at] == entry);
        assert(after.to_multiset() =~= sorted.to_multiset().insert(entry)) by {
            assert(after.remove(at).to_multiset() =~= after.to_multiset().remove(entry));
            assert(after.contains(entry));
        }
        assert(front.push(entry) =~= tally);
        assert(tally.to_multiset() =~= front.to_multiset().insert(entry));
    } else {
        assert(by_count(tally) =~= tally);
    }
}

/// The tally of unmapped names as it is shown: the most frequent first.
pub fn sorted_by_count(tally: &Vec<NameCount>) -> (sorted: Vec<NameCount>)
    ensures
        sorted.deep_view() == by_count(tally.deep_view()),
{
    let ghost all = tally.deep_view();
    let mut sorted: Vec<NameCount> = Vec::new();
    let mut i: usize = 0;
    assert(sorted.deep_view() =~= by_count(all.take(0)));
    while i < tally.len()
        invariant
            i <= tally.len(),
            all == tally.deep_view(),
            sorted.deep_view() == by_count(all.take(i as int)),
        decreases tally.len() - i,
    {
        let count = tally[i].count;
        let ghost held = sorted.deep_view();
        let mut at: usize = 0;
        while at < sorted.len() && sorted[at].count >= count
            invariant
                at <= sorted.len(),
                held == sorted.deep_view(),
                forall|j: int| 0 <= j < at ==> held[j].1 >= count,
            decreases sorted.len() - at,
        {
            at = at + 1;
        }
        proof {
            lemma_rank_is(held, count as nat, at as int);
            assert(all.take(i + 1).drop_last() =~= all.take(i as int));
            assert(all.take(i + 1).last() == tally[i as int].deep_view());
        }
        let entry = NameCount { name: tally[i].name.clone(), count };
        sorted.insert(at, entry);
        assert(sorted.deep_view() =~= held.insert(at as int, entry.deep_view()));
        i = i + 1;
    }
    assert(all.take(i as int) =~= all);
    sorted
}

} // verus!
