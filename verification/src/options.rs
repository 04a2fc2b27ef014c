//! The branches offered for selection: read from the listings that the
//! external tool prints, without duplicates, local and remote-tracking
//! ones merged, in the order of their labels.

use vstd::prelude::*;
use crate::text::{
    contains, has_infix, join, lemma_text_le_total, lemma_text_le_transitive, lines_of, precedes, same, split_lines,
    strip_prefix, text_le, trim, trim_start_matches, trimmed, without_leading,
};

verus! {

/// One item of a selection: what is shown and what it stands for.
#[derive(Clone, Debug, PartialEq, Eq)]
pub struct SelectOption<V: Clone> {
    pub display: String,
    pub value: V,
}

/// The mathematical content of a [`SelectOption`].
pub ghost struct SelectOptionView<W> {
    pub display: Seq<char>,
    pub value: W,
}

impl<V: Clone + DeepView> DeepView for SelectOption<V> {
    type V = SelectOptionView<V::V>;

    open spec fn deep_view(&self) -> SelectOptionView<V::V> {
        SelectOptionView { display: self.display@, value: self.value.deep_view() }
    }
}

impl<V: Clone> SelectOption<V> {
    /// What is shown of this item.
    pub fn to_string(&self) -> (r: String)
        ensures
            r@ == self.display@,
    {
        self.display.clone()
    }
}

/// A branch as an item of a selection.
pub type BranchOption = SelectOptionView<Seq<char>>;

/// A line of a branch listing without the marker of the current branch
/// and without surrounding white space.
pub open spec fn listed_name(line: Seq<char>) -> Seq<char> {
    trimmed(without_leading(line, "* "@))
}

/// The item that a line of the local listing stands for: a local branch
/// under its name, shown as the name and ` (local)`. Empty lines and lines
/// that hold an arrow stand for none.
pub open spec fn local_entry(line: Seq<char>) -> Option<BranchOption> {
    let name = listed_name(line);
    if name.len() > 0 && !has_infix(name, "->"@) {
        Some(SelectOptionView { display: name + " (local)"@, value: name })
    } else {
        None
    }
}

/// The item that a line of the full listing stands for: a branch `b` of
/// the remote, listed as `remotes/origin/b`, under the value `origin/b`,
/// shown as `b` and ` (origin)`. Other lines, and the line of the remote's
/// `HEAD`, stand for none.
pub open spec fn remote_entry(line: Seq<char>) -> Option<BranchOption> {
    let listed = listed_name(line);
    if "remotes/origin/"@.is_prefix_of(listed) {
        let name = listed.skip("remotes/origin/"@.len() as int);
        if !has_infix(name, "HEAD ->"@) {
            Some(SelectOptionView { display: name + " (origin)"@, value: "origin/"@ + name })
        } else {
            None
        }
    } else {
        None
    }
}

/// The item that a line stands for in the local or in the full listing.
pub open spec fn entry(line: Seq<char>, remote: bool) -> Option<BranchOption> {
    if remote {
        remote_entry(line)
    } else {
        local_entry(line)
    }
}

/// Whether one of `options` stands for `value`.
pub open spec fn has_value(options: Seq<BranchOption>, value: Seq<char>) -> bool {
    exists|i: int| 0 <= i < options.len() && #[trigger] options[i].value == value
}

/// `options` with the item of `line` at its end, unless the line stands
/// for none or for a value that is there already.
pub open spec fn with_line(options: Seq<BranchOption>, line: Seq<char>, remote: bool) -> Seq<BranchOption> {
    match entry(line, remote) {
        Some(e) => if has_value(options, e.value) {
            options
        } else {
            options.push(e)
        },
        None => options,
    }
}

/// `options` with the items of `lines` added one after the other.
pub open spec fn with_lines(options: Seq<BranchOption>, lines: Seq<Seq<char>>, remote: bool) -> Seq<BranchOption>
    decreases lines.len(),
{
    if lines.len() == 0 {
        options
    } else {
        with_lines(with_line(options, lines[0], remote), lines.drop_first(), remote)
    }
}

/// A list sorted by label with `e` put in behind every item whose label
/// comes no later than its own.
pub open spec fn inserted(sorted: Seq<BranchOption>, e: BranchOption) -> Seq<BranchOption>
    decreases sorted.len(),
{
    if sorted.len() == 0 {
        seq![e]
    } else if text_le(sorted.last().display, e.display) {
        sorted.push(e)
    } else {
        inserted(sorted.drop_last(), e).push(sorted.last())
    }
}

/// `options` in the order of their labels; items with the same label keep
/// their order.
pub open spec fn sorted_by_display(options: Seq<BranchOption>) -> Seq<BranchOption>
    decreases options.len(),
{
    if options.len() == 0 {
        options
    } else {
        inserted(sorted_by_display(options.drop_last()), options.last())
    }
}

/// The branches to offer, given what the local listing and the full
/// listing printed.
pub open spec fn branch_options(local_listing: Seq<char>, full_listing: Seq<char>) -> Seq<BranchOption> {
    sorted_by_display(
        with_lines(with_lines(Seq::empty(), lines_of(local_listing), false), lines_of(full_listing), true),
    )
}

/// The item that a line of the local listing stands for.
pub fn local_option(line: &str) -> (r: Option<SelectOption<String>>)
    ensures
        match r {
            Some(o) => local_entry(line@) == Some(o.deep_view()),
            None => local_entry(line@) is None,
        },
{
    let name = trim(trim_start_matches(line, "* ").as_str());
    if name.as_str().unicode_len() > 0 && !contains(name.as_str(), "->") {
        Some(SelectOption { display: join(name.as_str(), " (local)"), value: name })
    } else {
        None
    }
}

/// The item that a line of the full listing stands for.
pub fn remote_option(line: &str) -> (r: Option<SelectOption<String>>)
    ensures
        match r {
            Some(o) => remote_entry(line@) == Some(o.deep_view()),
            None => remote_entry(line@) is None,
        },
{
    let listed = trim(trim_start_matches(line, "* ").as_str());
    match strip_prefix(listed.as_str(), "remotes/origin/") {
        Some(name) => {
            if !contains(name.as_str(), "HEAD ->") {
                Some(
                    SelectOption {
                        display: join(name.as_str(), " (origin)"),
                        value: join("origin/", name.as_str()),
                    },
                )
            } else {
                None
            }
        },
        None => None,
    }
}

/// Whether one of `options` stands for `value`.
pub fn offers(options: &Vec<SelectOption<String>>, value: &str) -> (r: bool)
    ensures
        r == has_value(options.deep_view(), value@),
{
    let mut i: usize = 0;
    while i < options.len()
        invariant
            i <= options.len(),
            forall|j: int| 0 <= j < i ==> #[trigger] options.deep_view()[j].value != value@,
        decreases options.len() - i,
    {
        if same(options[i].value.as_str(), value) {
            assert(options.deep_view()[i as int].value == value@);
            return true;
        }
        i = i + 1;
    }
    false
}

/// Adds the items of `lines` to `options`, one after the other.
pub fn add_lines(options: &mut Vec<SelectOption<String>>, lines: &Vec<String>, remote: bool)
    ensures
        final(options).deep_view() == with_lines(old(options).deep_view(), lines.deep_view(), remote),
{
    let mut i: usize = 0;
    assert(lines.deep_view().skip(0) =~= lines.deep_view());
    while i < lines.len()
        invariant
            i <= lines.len(),
            with_lines(old(options).deep_view(), lines.deep_view(), remote) == with_lines(
                options.deep_view(),
                lines.deep_view().skip(i as int),
                remote,
            ),
        decreases lines.len() - i,
    {
        let found = if remote {
            remote_option(lines[i].as_str())
        } else {
            local_option(lines[i].as_str())
        };
        proof {
            let rest = lines.deep_view().skip(i as int);
            assert(rest[0] == lines[i as int]@);
            assert(rest.drop_first() =~= lines.deep_view().skip(i + 1));
        }
        let ghost before = options.deep_view();
        match found {
            Some(o) => {
                if !offers(options, o.value.as_str()) {
                    options.push(o);
                    assert(options.deep_view() =~= before.push(o.deep_view()));
                }
            },
            None => {},
        }
        i = i + 1;
    }
}

/// Puts `e` into the sorted list behind every item whose label comes no
/// later than its own.
pub fn insert_by_display(sorted: &mut Vec<SelectOption<String>>, e: SelectOption<String>)
    ensures
        final(sorted).deep_view() == inserted(old(sorted).deep_view(), e.deep_view()),
{
    let ghost all = sorted.deep_view();
    let ghost item = e.deep_view();
    let mut i: usize = sorted.len();
    assert(all.take(i as int) =~= all);
    assert(inserted(all, item) + all.skip(i as int) =~= inserted(all, item));
    while i > 0 && !precedes(sorted[i - 1].display.as_str(), e.display.as_str())
        invariant
            i <= sorted.len(),
            sorted.deep_view() == all,
            item == e.deep_view(),
            inserted(all, item) == inserted(all.take(i as int), item) + all.skip(i as int),
        decreases i,
    {
        proof {
            let front = all.take(i as int);
            assert(front.last() == all[i - 1]);
            assert(front.drop_last() =~= all.take(i - 1));
            assert(inserted(all.take(i - 1), item).push(all[i - 1]) + all.skip(i as int) =~= inserted(
                all.take(i - 1),
                item,
            ) + all.skip(i - 1));
        }
        i = i - 1;
    }
    proof {
        let front = all.take(i as int);
        if i > 0 {
            assert(front.last() == all[i - 1]);
        }
        assert(inserted(front, item) =~= front.push(item));
    }
    sorted.insert(i, e);
    assert(sorted.deep_view() =~= all.take(i as int).push(item) + all.skip(i as int));
}

/// `options` in the order of their labels; items with the same label keep
/// their order.
pub fn sort_by_display(options: &Vec<SelectOption<String>>) -> (r: Vec<SelectOption<String>>)
    ensures
        r.deep_view() == sorted_by_display(options.deep_view()),
{
    let mut out: Vec<SelectOption<String>> = Vec::new();
    let mut i: usize = 0;
    assert(out.deep_view() =~= options.deep_view().take(0));
    while i < options.len()
        invariant
            i <= options.len(),
            out.deep_view() == sorted_by_display(options.deep_view().take(i as int)),
        decreases options.len() - i,
    {
        let o = SelectOption { display: options[i].display.clone(), value: options[i].value.clone() };
        proof {
            let next = options.deep_view().take(i + 1);
            assert(next.drop_last() =~= options.deep_view().take(i as int));
            assert(next.last() == o.deep_view());
        }
        insert_by_display(&mut out, o);
        i = i + 1;
    }
    assert(options.deep_view().take(i as int) =~= options.deep_view());
    out
}

/// The branches to offer, given what the local listing and the full
/// listing printed.
pub fn list_branch_options(local_listing: &str, full_listing: &str) -> (r: Vec<SelectOption<String>>)
    ensures
        r.deep_view() == branch_options(local_listing@, full_listing@),
{
    let mut options: Vec<SelectOption<String>> = Vec::new();
    assert(options.deep_view() =~= Seq::<BranchOption>::empty());
    let local_lines = split_lines(local_listing);
    add_lines(&mut options, &local_lines, false);
    let full_lines = split_lines(full_listing);
    add_lines(&mut options, &full_lines, true);
    sort_by_display(&options)
}

/// Whether the labels of `options` stand in order.
pub open spec fn in_label_order(options: Seq<BranchOption>) -> bool {
    forall|i: int, j: int| 0 <= i < j < options.len() ==> text_le(#[trigger] options[i].display, #[trigger] options[j].display)
}

/// Whether no two of `options` stand for the same value.
pub open spec fn values_distinct(options: Seq<BranchOption>) -> bool {
    forall|i: int, j: int|
        0 <= i < options.len() && 0 <= j < options.len() && i != j ==> #[trigger] options[i].value
            != #[trigger] options[j].value
}

/// Putting an item into a list in label order keeps the order, adds that
/// item and nothing else, and keeps values apart if the item's value is
/// new.
pub proof fn lemma_inserted(sorted: Seq<BranchOption>, e: BranchOption)
    requires
        in_label_order(sorted),
    ensures
        in_label_order(inserted(sorted, e)),
        inserted(sorted, e).len() == sorted.len() + 1,
        inserted(sorted, e).to_multiset() == sorted.to_multiset().insert(e),
        forall|v: Seq<char>|
            #![trigger has_value(inserted(sorted, e), v)]
            #![trigger has_value(sorted, v)]
            has_value(inserted(sorted, e), v) <==> (has_value(sorted, v) || v == e.value),
        values_distinct(sorted) && !has_value(sorted, e.value) ==> values_distinct(inserted(sorted, e)),
    decreases sorted.len(),
{
    broadcast use vstd::seq_lib::group_to_multiset_ensures;

    let r = inserted(sorted, e);
    if sorted.len() == 0 {
        assert(r =~= sorted.push(e));
        assert(r[0] == e);
        assert forall|v: Seq<char>| has_value(r, v) <==> (has_value(sorted, v) || v == e.value) by {
            if v == e.value {
                assert(r[0].value == v);
            }
        }
    } else if text_le(sorted.last().display, e.display) {
        assert(r == sorted.push(e));
        assert forall|i: int, j: int| 0 <= i < j < r.len() implies text_le(
            #[trigger] r[i].display,
            #[trigger] r[j].display,
        ) by {
            if j == sorted.len() {
                if i < sorted.len() - 1 {
                    assert(text_le(sorted[i].display, sorted[sorted.len() - 1].display));
                    lemma_text_le_transitive(sorted[i].display, sorted.last().display, e.display);
                }
            } else {
                assert(text_le(sorted[i].display, sorted[j].display));
            }
        }
        assert forall|v: Seq<char>| has_value(r, v) <==> (has_value(sorted, v) || v == e.value) by {
            if has_value(r, v) {
                let k = choose|k: int| 0 <= k < r.len() && #[trigger] r[k].value == v;
                if k < sorted.len() {
                    assert(sorted[k].value == v);
                }
            }
            if has_value(sorted, v) {
                let k = choose|k: int| 0 <= k < sorted.len() && #[trigger] sorted[k].value == v;
                assert(r[k].value == v);
            }
            if v == e.value {
                assert(r[sorted.len() as int].value == v);
            }
        }
        if values_distinct(sorted) && !has_value(sorted, e.value) {
            assert forall|i: int, j: int| 0 <= i < r.len() && 0 <= j < r.len() && i != j implies #[trigger] r[i].value
                != #[trigger] r[j].value by {
                if i < sorted.len() && j < sorted.len() {
                    assert(sorted[i].value != sorted[j].value);
                } else if i < sorted.len() {
                    assert(sorted[i].value == r[i].value);
                } else {
                    assert(sorted[j].value == r[j].value);
                }
            }
        }
    } else {
        let front = sorted.drop_last();
        let last = sorted.last();
        assert(in_label_order(front)) by {
            assert forall|i: int, j: int| 0 <= i < j < front.len() implies text_le(
                #[trigger] front[i].display,
                #[trigger] front[j].display,
            ) by {
                assert(text_le(sorted[i].display, sorted[j].display));
            }
        }
        lemma_inserted(front, e);
        let inner = inserted(front, e);
        assert(r == inner.push(last));
        assert(sorted =~= front.push(last));
        lemma_text_le_total(last.display, e.display);
        assert forall|k: int| 0 <= k < inner.len() implies text_le(#[trigger] inner[k].display, last.display) by {
            assert(inner.to_multiset().count(inner[k]) > 0);
            if inner[k] != e {
                assert(front.to_multiset().count(inner[k]) > 0);
                assert(front.contains(inner[k]));
                let m = choose|m: int| 0 <= m < front.len() && front[m] == inner[k];
                assert(text_le(sorted[m].display, sorted[sorted.len() - 1].display));
            }
        }
        assert forall|i: int, j: int| 0 <= i < j < r.len() implies text_le(
            #[trigger] r[i].display,
            #[trigger] r[j].display,
        ) by {
            if j == inner.len() {
                assert(text_le(inner[i].display, last.display));
            } else {
                assert(text_le(inner[i].display, inner[j].display));
            }
        }
        assert(r.to_multiset() =~= sorted.to_multiset().insert(e));
        assert forall|v: Seq<char>| has_value(r, v) <==> (has_value(sorted, v) || v == e.value) by {
            if has_value(r, v) {
                let k = choose|k: int| 0 <= k < r.len() && #[trigger] r[k].value == v;
                if k < inner.len() {
                    assert(inner[k].value == v);
                    assert(has_value(inner, v));
                    if has_value(front, v) {
                        let m = choose|m: int| 0 <= m < front.len() && #[trigger] front[m].value == v;
                        assert(sorted[m].value == v);
                    }
                } else {
                    assert(sorted[sorted.len() - 1].value == v);
                }
            }
            if has_value(sorted, v) {
                let k = choose|k: int| 0 <= k < sorted.len() && #[trigger] sorted[k].value == v;
                if k < front.len() {
                    assert(front[k].value == v);
                    assert(has_value(front, v));
                    assert(has_value(inner, v));
                    let m = choose|m: int| 0 <= m < inner.len() && #[trigger] inner[m].value == v;
                    assert(r[m].value == v);
                } else {
                    assert(r[inner.len() as int].value == v);
                }
            }
            if v == e.value {
                assert(has_value(inner, v));
                let m = choose|m: int| 0 <= m < inner.len() && #[trigger] inner[m].value == v;
                assert(r[m].value == v);
            }
        }
        if values_distinct(sorted) && !has_value(sorted, e.value) {
            assert(values_distinct(front)) by {
                assert forall|i: int, j: int|
                    0 <= i < front.len() && 0 <= j < front.len() && i != j implies #[trigger] front[i].value
                    != #[trigger] front[j].value by {
                    assert(sorted[i].value != sorted[j].value);
                }
            }
            assert(!has_value(front, e.value)) by {
                if has_value(front, e.value) {
                    let m = choose|m: int| 0 <= m < front.len() && #[trigger] front[m].value == e.value;
                    assert(sorted[m].value == e.value);
                }
            }
            assert(!has_value(inner, last.value)) by {
                if has_value(inner, last.value) {
                    if has_value(front, last.value) {
                        let m = choose|m: int| 0 <= m < front.len() && #[trigger] front[m].value == last.value;
                        assert(sorted[m].value == sorted[sorted.len() - 1].value);
                    } else {
                        assert(sorted[sorted.len() - 1].value == e.value);
                    }
                }
            }
            assert forall|i: int, j: int| 0 <= i < r.len() && 0 <= j < r.len() && i != j implies #[trigger] r[i].value
                != #[trigger] r[j].value by {
                if i < inner.len() && j < inner.len() {
                    assert(inner[i].value != inner[j].value);
                } else if i < inner.len() {
                    assert(inner[i].value == r[i].value);
                } else {
                    assert(inner[j].value == r[j].value);
                }
            }
        }
    }
}

/// Sorting by label puts the labels in order and neither adds nor drops
/// an item; values that were apart stay apart.
pub proof fn lemma_sorted_by_display(options: Seq<BranchOption>)
    ensures
        in_label_order(sorted_by_display(options)),
        sorted_by_display(options).len() == options.len(),
        sorted_by_display(options).to_multiset() == options.to_multiset(),
        forall|v: Seq<char>|
            #![trigger has_value(sorted_by_display(options), v)]
            #![trigger has_value(options, v)]
            has_value(sorted_by_display(options), v) <==> has_value(options, v),
        values_distinct(options) ==> values_distinct(sorted_by_display(options)),
    decreases options.len(),
{
    broadcast use vstd::seq_lib::group_to_multiset_ensures;

    if options.len() > 0 {
        let front = options.drop_last();
        let last = options.last();
        lemma_sorted_by_display(front);
        lemma_inserted(sorted_by_display(front), last);
        assert(options =~= front.push(last));
        let r = sorted_by_display(options);
        assert forall|v: Seq<char>| has_value(r, v) <==> has_value(options, v) by {
            if has_value(options, v) {
                let k = choose|k: int| 0 <= k < options.len() && #[trigger] options[k].value == v;
                if k < front.len() {
                    assert(front[k].value == v);
                }
            }
            if has_value(front, v) {
                let k = choose|k: int| 0 <= k < front.len() && #[trigger] front[k].value == v;
                assert(options[k].value == v);
            }
            if v == last.value {
                assert(options[options.len() - 1].value == v);
            }
        }
        if values_distinct(options) {
            assert(values_distinct(front)) by {
                assert forall|i: int, j: int|
                    0 <= i < front.len() && 0 <= j < front.len() && i != j implies #[trigger] front[i].value
                    != #[trigger] front[j].value by {
                    assert(options[i].value != options[j].value);
                }
            }
            assert(!has_value(front, last.value)) by {
                if has_value(front, last.value) {
                    let k = choose|k: int| 0 <= k < front.len() && #[trigger] front[k].value == last.value;
                    assert(options[k].value == options[options.len() - 1].value);
                }
            }
        }
    }
}

/// Adding the items of lines never makes two items stand for the same
/// value.
pub proof fn lemma_with_lines_distinct(options: Seq<BranchOption>, lines: Seq<Seq<char>>, remote: bool)
    requires
        values_distinct(options),
    ensures
        values_distinct(with_lines(options, lines, remote)),
    decreases lines.len(),
{
    if lines.len() > 0 {
        let next = with_line(options, lines[0], remote);
        assert(values_distinct(next)) by {
            match entry(lines[0], remote) {
                Some(e) => {
                    if !has_value(options, e.value) {
                        assert forall|i: int, j: int|
                            0 <= i < next.len() && 0 <= j < next.len() && i != j implies #[trigger] next[i].value
                            != #[trigger] next[j].value by {
                            if i < options.len() && j < options.len() {
                                assert(options[i].value != options[j].value);
                            } else if i < options.len() {
                                assert(options[i].value == next[i].value);
                            } else {
                                assert(options[j].value == next[j].value);
                            }
                        }
                    }
                },
                None => {},
            }
        }
        lemma_with_lines_distinct(next, lines.drop_first(), remote);
    }
}

/// The branches offered stand in the order of their labels, and no two
/// of them stand for the same value.
pub proof fn lemma_branch_options_sorted_and_distinct(local_listing: Seq<char>, full_listing: Seq<char>)
    ensures
        in_label_order(branch_options(local_listing, full_listing)),
        values_distinct(branch_options(local_listing, full_listing)),
{
    let locals = with_lines(Seq::empty(), lines_of(local_listing), false);
    lemma_with_lines_distinct(Seq::empty(), lines_of(local_listing), false);
    lemma_with_lines_distinct(locals, lines_of(full_listing), true);
    lemma_sorted_by_display(with_lines(locals, lines_of(full_listing), true));
}

} // verus!
