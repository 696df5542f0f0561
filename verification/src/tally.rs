//! Counts of labels, in the order of the labels.

use crate::text;
use crate::text::{chars_of, same_text};
use vstd::prelude::*;

verus! {

/// Whether `left` comes before `right` in dictionary order, by code point.
pub open spec fn text_before(left: Seq<char>, right: Seq<char>) -> bool
    decreases left.len(),
{
    if right.len() == 0 {
        false
    } else if left.len() == 0 {
        true
    } else if left[0] == right[0] {
        text_before(left.drop_first(), right.drop_first())
    } else {
        left[0] < right[0]
    }
}

/// No text comes before itself.
pub proof fn order_is_irreflexive(s: Seq<char>)
    ensures
        !text_before(s, s),
    decreases s.len(),
{
    if s.len() > 0 {
        order_is_irreflexive(s.drop_first());
    }
}

/// The order is transitive.
pub proof fn order_is_transitive(first: Seq<char>, second: Seq<char>, third: Seq<char>)
    requires
        text_before(first, second),
        text_before(second, third),
    ensures
        text_before(first, third),
    decreases first.len(),
{
    if first.len() > 0 && first[0] == second[0] && second[0] == third[0] {
        order_is_transitive(first.drop_first(), second.drop_first(), third.drop_first());
    }
}

/// Of two texts that differ, one comes before the other.
pub proof fn order_is_total(left: Seq<char>, right: Seq<char>)
    ensures
        left == right || text_before(left, right) || text_before(right, left),
    decreases left.len(),
{
    if left.len() == 0 && right.len() == 0 {
        assert(left =~= right);
    } else if left.len() > 0 && right.len() > 0 && left[0] == right[0] {
        order_is_total(left.drop_first(), right.drop_first());
        if left.drop_first() == right.drop_first() {
            assert(left =~= seq![left[0]] + left.drop_first());
            assert(right =~= seq![right[0]] + right.drop_first());
        }
    }
}

/// Whether `left` comes before `right` in dictionary order, by code point.
pub fn comes_before(left: &str, right: &str) -> (before: bool)
    ensures
        before == text_before(left@, right@),
{
    let these = chars_of(left);
    let those = chars_of(right);
    let mut i: usize = 0;
    assert(left@.skip(0) =~= left@);
    assert(right@.skip(0) =~= right@);
    while i < these.len() && i < those.len() && these[i] == those[i]
        invariant
            these@ == left@,
            those@ == right@,
            i <= these@.len(),
            i <= those@.len(),
            text_before(left@, right@) == text_before(
                left@.skip(i as int),
                right@.skip(i as int),
            ),
        decreases these@.len() - i,
    {
        assert(left@.skip(i as int).drop_first() =~= left@.skip(i + 1));
        assert(right@.skip(i as int).drop_first() =~= right@.skip(i + 1));
        i = i + 1;
    }
    if i >= those.len() {
        false
    } else if i >= these.len() {
        true
    } else {
        these[i] < those[i]
    }
}

/// The tally with one more of `label`, which takes its place in the order where it is new.
pub open spec fn counted_in(entries: Seq<(Seq<char>, nat)>, label: Seq<char>) -> Seq<
    (Seq<char>, nat),
>
    decreases entries.len(),
{
    if entries.len() == 0 {
        seq![(label, 1)]
    } else if entries[0].0 == label {
        seq![(label, entries[0].1 + 1)] + entries.drop_first()
    } else if text_before(label, entries[0].0) {
        seq![(label, 1)] + entries
    } else {
        seq![entries[0]] + counted_in(entries.drop_first(), label)
    }
}

/// Each distinct label with how often it occurs, in the order of the labels.
pub open spec fn tally(labels: Seq<Seq<char>>) -> Seq<(Seq<char>, nat)>
    decreases labels.len(),
{
    if labels.len() == 0 {
        Seq::empty()
    } else {
        counted_in(tally(labels.drop_last()), labels.last())
    }
}

/// How often `label` occurs.
pub open spec fn occurrences(labels: Seq<Seq<char>>, label: Seq<char>) -> nat
    decreases labels.len(),
{
    if labels.len() == 0 {
        0
    } else {
        occurrences(labels.drop_last(), label) + if labels.last() == label {
            1nat
        } else {
            0nat
        }
    }
}

/// The count that a tally holds for `label`; zero where it holds none.
pub open spec fn count_of(entries: Seq<(Seq<char>, nat)>, label: Seq<char>) -> nat
    decreases entries.len(),
{
    if entries.len() == 0 {
        0
    } else if entries[0].0 == label {
        entries[0].1
    } else {
        count_of(entries.drop_first(), label)
    }
}

/// Whether the labels of a tally stand in strict order.
pub open spec fn in_order(entries: Seq<(Seq<char>, nat)>) -> bool {
    forall|i: int, j: int|
        0 <= i < j < entries.len() ==> text_before(#[trigger] entries[i].0, #[trigger] entries[j].0)
}

proof fn lemma_counted_in(entries: Seq<(Seq<char>, nat)>, label: Seq<char>, other: Seq<char>)
    requires
        in_order(entries),
        forall|i: int| 0 <= i < entries.len() ==> (#[trigger] entries[i]).1 > 0,
    ensures
        in_order(counted_in(entries, label)),
        forall|i: int|
            0 <= i < counted_in(entries, label).len() ==> (#[trigger] counted_in(
                entries,
                label,
            )[i]).1 > 0,
        forall|i: int|
            0 <= i < counted_in(entries, label).len() ==> (#[trigger] counted_in(
                entries,
                label,
            )[i]).0 == label || exists|j: int|
                0 <= j < entries.len() && (#[trigger] entries[j]).0 == counted_in(
                    entries,
                    label,
                )[i].0,
        count_of(counted_in(entries, label), other) == count_of(entries, other) + if other
            == label {
            1nat
        } else {
            0nat
        },
    decreases entries.len(),
{
    let after = counted_in(entries, label);
    if entries.len() == 0 {
        reveal_with_fuel(count_of, 2);
        assert(after.drop_first() =~= Seq::empty());
    } else if entries[0].0 == label {
        assert(after.drop_first() =~= entries.drop_first());
        assert forall|i: int, j: int| 0 <= i < j < after.len() implies text_before(
            #[trigger] after[i].0,
            #[trigger] after[j].0,
        ) by {
            assert(text_before(entries[i].0, entries[j].0));
        }
        assert forall|i: int| 0 <= i < after.len() implies (#[trigger] after[i]).0 == label
            || exists|j: int|
            0 <= j < entries.len() && (#[trigger] entries[j]).0 == after[i].0 by {
            assert(entries[i].0 == after[i].0);
        }
        assert forall|i: int| 0 <= i < after.len() implies (#[trigger] after[i]).1 > 0 by {
            assert(entries[i].1 > 0);
        }
    } else if text_before(label, entries[0].0) {
        assert(after.drop_first() =~= entries);
        assert forall|i: int, j: int| 0 <= i < j < after.len() implies text_before(
            #[trigger] after[i].0,
            #[trigger] after[j].0,
        ) by {
            assert(after[j] == entries[j - 1]);
            if i == 0 {
                if j > 1 {
                    assert(text_before(entries[0].0, entries[j - 1].0));
                    order_is_transitive(label, entries[0].0, entries[j - 1].0);
                }
            } else {
                assert(after[i] == entries[i - 1]);
            }
        }
        assert forall|i: int| 0 <= i < after.len() implies (#[trigger] after[i]).0 == label
            || exists|j: int|
            0 <= j < entries.len() && (#[trigger] entries[j]).0 == after[i].0 by {
            if i > 0 {
                assert(entries[i - 1].0 == after[i].0);
            }
        }
        assert forall|i: int| 0 <= i < after.len() implies (#[trigger] after[i]).1 > 0 by {
            if i > 0 {
                assert(entries[i - 1].1 > 0);
            }
        }
        if other == label {
            lemma_absent(entries, label);
        }
    } else {
        let rest = entries.drop_first();
        assert forall|i: int, j: int| 0 <= i < j < rest.len() implies text_before(
            #[trigger] rest[i].0,
            #[trigger] rest[j].0,
        ) by {
            assert(text_before(entries[i + 1].0, entries[j + 1].0));
        }
        assert forall|i: int| 0 <= i < rest.len() implies (#[trigger] rest[i]).1 > 0 by {
            assert(entries[i + 1].1 > 0);
        }
        lemma_counted_in(rest, label, other);
        order_is_total(label, entries[0].0);
        let tail = counted_in(rest, label);
        assert(after.drop_first() =~= tail);
        assert forall|i: int| 0 <= i < after.len() implies (#[trigger] after[i]).0 == label
            || exists|j: int|
            0 <= j < entries.len() && (#[trigger] entries[j]).0 == after[i].0 by {
            if i == 0 {
                assert(entries[0].0 == after[0].0);
            } else {
                assert(after[i] == tail[i - 1]);
                if tail[i - 1].0 != label {
                    let j = choose|j: int|
                        0 <= j < rest.len() && (#[trigger] rest[j]).0 == tail[i - 1].0;
                    assert(entries[j + 1].0 == after[i].0);
                }
            }
        }
        assert forall|i: int, j: int| 0 <= i < j < after.len() implies text_before(
            #[trigger] after[i].0,
            #[trigger] after[j].0,
        ) by {
            assert(after[j] == tail[j - 1]);
            if i > 0 {
                assert(after[i] == tail[i - 1]);
            } else if tail[j - 1].0 != label {
                let k = choose|k: int|
                    0 <= k < rest.len() && (#[trigger] rest[k]).0 == tail[j - 1].0;
                assert(text_before(entries[0].0, entries[k + 1].0));
            }
        }
        assert forall|i: int| 0 <= i < after.len() implies (#[trigger] after[i]).1 > 0 by {
            if i > 0 {
                assert(after[i] == tail[i - 1]);
            }
        }
    }
}

proof fn lemma_absent(entries: Seq<(Seq<char>, nat)>, label: Seq<char>)
    requires
        in_order(entries),
        entries.len() > 0 ==> text_before(label, entries[0].0),
    ensures
        count_of(entries, label) == 0,
    decreases entries.len(),
{
    if entries.len() > 0 {
        order_is_irreflexive(label);
        let rest = entries.drop_first();
        assert forall|i: int, j: int| 0 <= i < j < rest.len() implies text_before(
            #[trigger] rest[i].0,
            #[trigger] rest[j].0,
        ) by {
            assert(text_before(entries[i + 1].0, entries[j + 1].0));
        }
        if rest.len() > 0 {
            assert(text_before(entries[0].0, entries[1].0));
            order_is_transitive(label, entries[0].0, entries[1].0);
        }
        lemma_absent(rest, label);
    }
}

/// A tally names each label once, in strict order, never with a count of zero, and its count
/// of a label is how often that label occurs.
pub proof fn tally_counts_every_label(labels: Seq<Seq<char>>, label: Seq<char>)
    ensures
        in_order(tally(labels)),
        forall|i: int| 0 <= i < tally(labels).len() ==> (#[trigger] tally(labels)[i]).1 > 0,
        count_of(tally(labels), label) == occurrences(labels, label),
    decreases labels.len(),
{
    if labels.len() > 0 {
        tally_counts_every_label(labels.drop_last(), label);
        lemma_counted_in(tally(labels.drop_last()), labels.last(), label);
    }
}

/// The characters and the count of each entry.
pub open spec fn entries_of(entries: Seq<(String, usize)>) -> Seq<(Seq<char>, nat)> {
    entries.map_values(|entry: (String, usize)| (entry.0@, entry.1 as nat))
}

proof fn lemma_counts_bounded(entries: Seq<(Seq<char>, nat)>, label: Seq<char>, bound: nat)
    requires
        forall|i: int| 0 <= i < entries.len() ==> (#[trigger] entries[i]).1 <= bound,
    ensures
        forall|i: int|
            0 <= i < counted_in(entries, label).len() ==> (#[trigger] counted_in(
                entries,
                label,
            )[i]).1 <= bound + 1,
    decreases entries.len(),
{
    if entries.len() > 0 {
        let rest = entries.drop_first();
        assert forall|i: int| 0 <= i < rest.len() implies (#[trigger] rest[i]).1 <= bound by {
            assert(entries[i + 1].1 <= bound);
        }
        lemma_counts_bounded(rest, label, bound);
        let after = counted_in(entries, label);
        assert forall|i: int| 0 <= i < after.len() implies (#[trigger] after[i]).1 <= bound
            + 1 by {
            if entries[0].0 == label {
                if i > 0 {
                    assert(after[i] == rest[i - 1]);
                } else {
                    assert(entries[0].1 <= bound);
                }
            } else if text_before(label, entries[0].0) {
                if i > 0 {
                    assert(after[i] == entries[i - 1]);
                }
            } else {
                if i > 0 {
                    assert(after[i] == counted_in(rest, label)[i - 1]);
                } else {
                    assert(entries[0].1 <= bound);
                }
            }
        }
    }
}

fn count_in(entries: &mut Vec<(String, usize)>, label: &str)
    requires
        forall|i: int| 0 <= i < old(entries)@.len() ==> (#[trigger] old(entries)@[i]).1 < usize::MAX,
    ensures
        entries_of(final(entries)@) == counted_in(entries_of(old(entries)@), label@),
{
    let ghost all = entries_of(entries@);
    let mut place: usize = 0;
    assert(all.take(0) + counted_in(all.skip(0), label@) =~= counted_in(all, label@)) by {
        assert(all.skip(0) =~= all);
    }
    while place < entries.len() && !same_text(entries[place].0.as_str(), label) && !comes_before(
        label,
        entries[place].0.as_str(),
    )
        invariant
            place <= entries@.len(),
            all == entries_of(entries@),
            counted_in(all, label@) == all.take(place as int) + counted_in(
                all.skip(place as int),
                label@,
            ),
        decreases entries@.len() - place,
    {
        let ghost here = all.skip(place as int);
        assert(here.drop_first() =~= all.skip(place + 1));
        assert(here[0] == all[place as int]);
        assert(all.take(place as int) + (seq![here[0]] + counted_in(here.drop_first(), label@))
            =~= all.take(place + 1) + counted_in(all.skip(place + 1), label@));
        place = place + 1;
    }
    let ghost here = all.skip(place as int);
    if place < entries.len() && same_text(entries[place].0.as_str(), label) {
        let count = entries[place].1;
        assert(here[0] == all[place as int]);
        entries.set(place, (label.to_owned(), count + 1));
        assert(entries_of(entries@) =~= all.take(place as int) + (seq![
            (label@, here[0].1 + 1),
        ] + here.drop_first()));
    } else {
        assert(place < entries@.len() ==> here[0] == all[place as int]);
        entries.insert(place, (label.to_owned(), 1));
        assert(entries_of(entries@) =~= all.take(place as int) + (seq![(label@, 1nat)] + here));
        assert(here.len() == 0 ==> seq![(label@, 1nat)] + here =~= seq![(label@, 1nat)]);
    }
}

/// Each distinct label with how often it occurs, in the order of the labels.
pub fn tally_of(labels: &Vec<String>) -> (entries: Vec<(String, usize)>)
    ensures
        entries_of(entries@) == tally(text::texts(labels@)),
{
    let ghost all = text::texts(labels@);
    let mut entries: Vec<(String, usize)> = Vec::new();
    let mut i: usize = 0;
    assert(entries_of(entries@) =~= tally(all.take(0)));
    while i < labels.len()
        invariant
            i <= labels@.len(),
            all == text::texts(labels@),
            entries_of(entries@) == tally(all.take(i as int)),
            forall|j: int| 0 <= j < entries@.len() ==> (#[trigger] entries@[j]).1 <= i,
        decreases labels@.len() - i,
    {
        assert(all.take(i + 1).drop_last() =~= all.take(i as int));
        assert(all.take(i + 1).last() == labels@[i as int]@);
        let ghost before = entries_of(entries@);
        proof {
            assert forall|j: int| 0 <= j < before.len() implies (#[trigger] before[j]).1 <= i by {
                assert(entries@[j].1 <= i);
            }
            lemma_counts_bounded(before, labels@[i as int]@, i as nat);
        }
        count_in(&mut entries, labels[i].as_str());
        proof {
            assert forall|j: int| 0 <= j < entries@.len() implies (#[trigger] entries@[j]).1 <= i
                + 1 by {
                assert(entries_of(entries@)[j].1 <= i + 1);
            }
        }
        i = i + 1;
    }
    assert(all.take(i as int) =~= all);
    entries
}

/// Texts are ordered by the first character in which they differ, and a beginning of a text
/// comes before it.
pub proof fn the_first_difference_orders(
    common: Seq<char>,
    left: char,
    right: char,
    left_rest: Seq<char>,
    right_rest: Seq<char>,
)
    requires
        left < right,
    ensures
        text_before(common + seq![left] + left_rest, common + seq![right] + right_rest),
        !text_before(common + seq![right] + right_rest, common + seq![left] + left_rest),
        text_before(common, common + seq![left] + left_rest),
        !text_before(common + seq![left] + left_rest, common),
    decreases common.len(),
{
    let smaller = common + seq![left] + left_rest;
    let larger = common + seq![right] + right_rest;
    if common.len() > 0 {
        let rest = common.drop_first();
        the_first_difference_orders(rest, left, right, left_rest, right_rest);
        assert(smaller.drop_first() =~= rest + seq![left] + left_rest);
        assert(larger.drop_first() =~= rest + seq![right] + right_rest);
    }
}

/// One more label is one more occurrence of it, and of no other.
pub proof fn each_label_counts_once(labels: Seq<Seq<char>>, label: Seq<char>, other: Seq<char>)
    ensures
        occurrences(Seq::empty(), label) == 0,
        occurrences(labels.push(label), label) == occurrences(labels, label) + 1,
        other != label ==> occurrences(labels.push(label), other) == occurrences(labels, other),
{
    assert(labels.push(label).drop_last() =~= labels);
}

/// Every label that occurs is named by the tally, with how often it occurs.
pub proof fn every_label_is_named(labels: Seq<Seq<char>>, label: Seq<char>)
    requires
        occurrences(labels, label) > 0,
    ensures
        tally(labels).contains((label, occurrences(labels, label))),
{
    tally_counts_every_label(labels, label);
    lemma_count_is_held(tally(labels), label);
}

proof fn lemma_count_is_held(entries: Seq<(Seq<char>, nat)>, label: Seq<char>)
    requires
        count_of(entries, label) > 0,
    ensures
        entries.contains((label, count_of(entries, label))),
    decreases entries.len(),
{
    if entries[0].0 == label {
        assert(entries[0] == (label, count_of(entries, label)));
    } else {
        let rest = entries.drop_first();
        lemma_count_is_held(rest, label);
        let i = choose|i: int| 0 <= i < rest.len() && rest[i] == (label, count_of(rest, label));
        assert(entries[i + 1] == rest[i]);
    }
}

/// Entries stand for their labels and counts, one for one and in order.
pub proof fn entries_stand_for_labels_and_counts(entries: Seq<(String, usize)>, i: int)
    requires
        0 <= i < entries.len(),
    ensures
        entries_of(entries).len() == entries.len(),
        entries_of(entries)[i] == (entries[i].0@, entries[i].1 as nat),
{
}

} // verus!
