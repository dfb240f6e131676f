//! Tags: named lists of values that rolls carry and scopes ask for.

use vstd::prelude::*;
use crate::seqs::{first_where, first_where_bounds, first_where_is, unique};
use crate::text::{clone_strings, strings_view};

verus! {

/// One tag as the contracts see it: its name and its values.
pub type TagView = (Seq<char>, Seq<Seq<char>>);

/// A tag table as the contracts see it: its tags in order.
pub type TagsView = Seq<TagView>;

/// The test for a tag called `key`.
pub open spec fn named(key: Seq<char>) -> spec_fn(TagView) -> bool {
    |e: TagView| e.0 == key
}

/// Where the tag called `key` stands in `t`: the position of the first
/// tag of that name, or the length of `t` when there is none.
pub open spec fn tag_position(t: TagsView, key: Seq<char>) -> int {
    first_where(t, named(key))
}

/// The values of the tag called `key`, if `t` has one.
pub open spec fn tag_values(t: TagsView, key: Seq<char>) -> Option<Seq<Seq<char>>> {
    if tag_position(t, key) < t.len() {
        Some(t[tag_position(t, key)].1)
    } else {
        None
    }
}

/// No two tags of `t` share a name.
pub open spec fn distinct_names(t: TagsView) -> bool {
    forall|i: int, j: int| 0 <= i < j < t.len() ==> (#[trigger] t[i]).0 != (#[trigger] t[j]).0
}

/// `t` with the tag `key` set to `values`: an existing tag of that name
/// gets the new values where it stands, a new one goes to the end.
pub open spec fn with_tag(t: TagsView, key: Seq<char>, values: Seq<Seq<char>>) -> TagsView {
    if tag_position(t, key) < t.len() {
        t.update(tag_position(t, key), (key, values))
    } else {
        t.push((key, values))
    }
}

/// Whether a target that carries the tags `have` meets the request
/// `wanted`: every requested tag is there, with every requested value
/// among its values. What else the target carries does not matter.
pub open spec fn covers(have: TagsView, wanted: TagsView) -> bool {
    forall|i: int| 0 <= i < wanted.len() ==> covers_tag(have, #[trigger] wanted[i])
}

/// Whether `have` holds the tag `wanted` with all of its values.
pub open spec fn covers_tag(have: TagsView, wanted: TagView) -> bool {
    match tag_values(have, wanted.0) {
        None => false,
        Some(values) => forall|j: int| 0 <= j < wanted.1.len() ==> values.contains(#[trigger] wanted.1[j]),
    }
}

/// One tag of a base table after an overlay: where the overlay has a tag
/// of that name, the values of both, base first, each once.
pub open spec fn merged_tag(base: TagView, overlay: TagsView) -> TagView {
    match tag_values(overlay, base.0) {
        Some(more) => (base.0, unique(base.1 + more)),
        None => base,
    }
}

/// The tags of `overlay` whose names `base` does not have, in order.
pub open spec fn added_tags(base: TagsView, overlay: TagsView) -> TagsView
    decreases overlay.len(),
{
    if overlay.len() == 0 {
        overlay
    } else if tag_position(base, overlay.last().0) < base.len() {
        added_tags(base, overlay.drop_last())
    } else {
        added_tags(base, overlay.drop_last()).push(overlay.last())
    }
}

/// The union of two tag tables: the tags of `base` in their order, each
/// merged with the overlay's tag of the same name, then the tags that
/// only the overlay has.
pub open spec fn merged_tags(base: TagsView, overlay: TagsView) -> TagsView {
    Seq::new(base.len(), |i: int| merged_tag(base[i], overlay)) + added_tags(base, overlay)
}

/// Setting a tag keeps the names of a table distinct.
pub proof fn with_tag_keeps_names_distinct(t: TagsView, key: Seq<char>, values: Seq<Seq<char>>)
    requires
        distinct_names(t),
    ensures
        distinct_names(with_tag(t, key, values)),
        tag_values(with_tag(t, key, values), key) == Some(values),
        forall|other: Seq<char>|
            other != key ==> #[trigger] tag_values(with_tag(t, key, values), other) == tag_values(
                t,
                other,
            ),
{
    let after = with_tag(t, key, values);
    let at = tag_position(t, key);
    first_where_bounds(t, named(key));
    if at < t.len() {
        assert forall|i: int, j: int| 0 <= i < j < after.len() implies (#[trigger] after[i]).0 != (
        #[trigger] after[j]).0 by {
            assert(t[i].0 != t[j].0);
        }
        first_where_is(after, named(key), at);
    } else {
        assert forall|i: int, j: int| 0 <= i < j < after.len() implies (#[trigger] after[i]).0 != (
        #[trigger] after[j]).0 by {
            if j < t.len() {
                assert(t[i].0 != t[j].0);
            } else {
                assert(!named(key)(t[i]));
            }
        }
        first_where_is(after, named(key), t.len() as int);
    }
    assert forall|other: Seq<char>| other != key implies #[trigger] tag_values(after, other)
        == tag_values(t, other) by {
        let was = tag_position(t, other);
        first_where_bounds(t, named(other));
        assert forall|j: int| 0 <= j < was implies !named(other)(#[trigger] after[j]) by {
            assert(!named(other)(t[j]));
        }
        if was < t.len() {
            first_where_is(after, named(other), was);
        } else {
            assert forall|j: int| 0 <= j < after.len() implies !named(other)(
                #[trigger] after[j],
            ) by {
                if j < t.len() {
                    assert(!named(other)(t[j]));
                }
            }
            first_where_is(after, named(other), after.len() as int);
        }
    }
}

/// The added tags are tags of the overlay that the base does not have,
/// in the overlay's order.
pub proof fn added_tags_are_new(base: TagsView, overlay: TagsView)
    ensures
        forall|k: int|
            0 <= k < added_tags(base, overlay).len() ==> tag_position(
                base,
                (#[trigger] added_tags(base, overlay)[k]).0,
            ) >= base.len(),
        forall|k: int|
            0 <= k < added_tags(base, overlay).len() ==> exists|j: int|
                0 <= j < overlay.len() && overlay[j] == #[trigger] added_tags(base, overlay)[k],
        distinct_names(overlay) ==> distinct_names(added_tags(base, overlay)),
    decreases overlay.len(),
{
    if overlay.len() > 0 {
        let front = overlay.drop_last();
        added_tags_are_new(base, front);
        let added = added_tags(base, overlay);
        let before = added_tags(base, front);
        assert forall|k: int| 0 <= k < added.len() implies exists|j: int|
            0 <= j < overlay.len() && overlay[j] == #[trigger] added[k] by {
            if k < before.len() {
                let j = choose|j: int| 0 <= j < front.len() && front[j] == before[k];
                assert(overlay[j] == added[k]);
            } else {
                assert(overlay[overlay.len() - 1] == added[k]);
            }
        }
        if distinct_names(overlay) {
            assert(distinct_names(front)) by {
                assert forall|i: int, j: int| 0 <= i < j < front.len() implies (
                #[trigger] front[i]).0 != (#[trigger] front[j]).0 by {
                    assert(overlay[i].0 != overlay[j].0);
                }
            }
            assert forall|i: int, j: int| 0 <= i < j < added.len() implies (#[trigger] added[i]).0
                != (#[trigger] added[j]).0 by {
                if j < before.len() {
                    assert(before[i].0 != before[j].0);
                } else {
                    let from = choose|from: int|
                        0 <= from < front.len() && front[from] == before[i];
                    assert(overlay[from].0 != overlay[overlay.len() - 1].0);
                }
            }
        }
    }
}

/// The union of two tables with distinct names has distinct names.
pub proof fn merged_tags_keep_names_distinct(base: TagsView, overlay: TagsView)
    requires
        distinct_names(base),
        distinct_names(overlay),
    ensures
        distinct_names(merged_tags(base, overlay)),
{
    let merged = merged_tags(base, overlay);
    let added = added_tags(base, overlay);
    added_tags_are_new(base, overlay);
    assert forall|i: int| 0 <= i < base.len() implies (#[trigger] merged[i]).0 == base[i].0 by {}
    assert forall|i: int, j: int| 0 <= i < j < merged.len() implies (#[trigger] merged[i]).0 != (
    #[trigger] merged[j]).0 by {
        if j < base.len() {
            assert(base[i].0 != base[j].0);
        } else if i < base.len() {
            let new = added[j - base.len()];
            assert(merged[j] == new);
            first_where_bounds(base, named(new.0));
            assert(!named(new.0)(base[i]));
        } else {
            assert(merged[i] == added[i - base.len()]);
            assert(merged[j] == added[j - base.len()]);
        }
    }
}

/// A table of tags. Looking a name up finds the first tag of that name;
/// tables built with `insert` hold each name once.
#[derive(Debug, PartialEq, Eq)]
pub struct Tags {
    pub entries: Vec<(String, Vec<String>)>,
}

impl View for Tags {
    type V = TagsView;

    open spec fn view(&self) -> TagsView {
        entries_view(self.entries@)
    }
}

/// The tags that a list of entries stands for.
pub open spec fn entries_view(entries: Seq<(String, Vec<String>)>) -> TagsView {
    entries.map_values(|e: (String, Vec<String>)| (e.0@, strings_view(e.1@)))
}

impl Clone for Tags {
    fn clone(&self) -> (r: Tags)
        ensures
            r@ == self@,
    {
        let mut entries: Vec<(String, Vec<String>)> = Vec::new();
        let mut i: usize = 0;
        while i < self.entries.len()
            invariant
                i <= self.entries.len(),
                entries@.len() == i,
                forall|j: int|
                    0 <= j < i ==> entries@[j].0@ == self.entries@[j].0@ && strings_view(
                        entries@[j].1@,
                    ) == strings_view(self.entries@[j].1@),
            decreases self.entries.len() - i,
        {
            entries.push((self.entries[i].0.clone(), clone_strings(&self.entries[i].1)));
            i += 1;
        }
        let r = Tags { entries };
        assert(r@ =~= self@);
        r
    }
}

/// Whether `x` is one of `values`.
pub fn contains_string(values: &Vec<String>, x: &String) -> (r: bool)
    ensures
        r == strings_view(values@).contains(x@),
{
    let mut i: usize = 0;
    while i < values.len()
        invariant
            i <= values.len(),
            forall|j: int| 0 <= j < i ==> values@[j]@ != x@,
        decreases values.len() - i,
    {
        if values[i] == *x {
            assert(strings_view(values@)[i as int] == x@);
            return true;
        }
        i += 1;
    }
    false
}

/// The strings of `values` without repetitions, first occurrences kept.
pub fn unique_strings(values: &Vec<String>) -> (r: Vec<String>)
    ensures
        strings_view(r@) == unique(strings_view(values@)),
{
    let mut out: Vec<String> = Vec::new();
    let mut i: usize = 0;
    assert(strings_view(values@).take(0) =~= Seq::empty());
    assert(strings_view(out@) =~= Seq::empty());
    while i < values.len()
        invariant
            i <= values.len(),
            strings_view(out@) == unique(strings_view(values@).take(i as int)),
        decreases values.len() - i,
    {
        let ghost before = strings_view(values@).take(i as int);
        let ghost after = strings_view(values@).take(i + 1);
        assert(after.drop_last() =~= before);
        assert(after.last() == values@[i as int]@);
        if !contains_string(&out, &values[i]) {
            let ghost old_out = strings_view(out@);
            out.push(values[i].clone());
            assert(strings_view(out@) =~= old_out.push(values@[i as int]@));
        }
        i += 1;
    }
    assert(strings_view(values@).take(values@.len() as int) =~= strings_view(values@));
    out
}

impl Tags {
    /// A table without tags.
    pub fn new() -> (r: Tags)
        ensures
            r@ == Seq::<TagView>::empty(),
            distinct_names(r@),
    {
        let r = Tags { entries: Vec::new() };
        assert(r@ =~= Seq::<TagView>::empty());
        r
    }

    pub fn is_empty(&self) -> (r: bool)
        ensures
            r == (self@.len() == 0),
    {
        self.entries.len() == 0
    }

    /// Where the tag called `key` stands, or the number of tags.
    pub fn position(&self, key: &String) -> (i: usize)
        ensures
            i == tag_position(self@, key@),
            i <= self@.len(),
    {
        let mut i: usize = 0;
        while i < self.entries.len()
            invariant
                i <= self.entries.len(),
                forall|j: int| 0 <= j < i ==> !named(key@)(#[trigger] self@[j]),
            decreases self.entries.len() - i,
        {
            if self.entries[i].0 == *key {
                proof {
                    first_where_is(self@, named(key@), i as int);
                }
                return i;
            }
            i += 1;
        }
        proof {
            first_where_is(self@, named(key@), i as int);
        }
        i
    }

    /// The values of the tag called `key`.
    pub fn get(&self, key: &String) -> (r: Option<Vec<String>>)
        ensures
            match r {
                Some(values) => tag_values(self@, key@) == Some(strings_view(values@)),
                None => tag_values(self@, key@) is None,
            },
    {
        let i = self.position(key);
        if i < self.entries.len() {
            Some(clone_strings(&self.entries[i].1))
        } else {
            None
        }
    }

    /// Sets the tag `key` to `values`.
    pub fn insert(&mut self, key: String, values: Vec<String>)
        ensures
            final(self)@ == with_tag(old(self)@, key@, strings_view(values@)),
            distinct_names(old(self)@) ==> distinct_names(final(self)@),
    {
        proof {
            if distinct_names(self@) {
                with_tag_keeps_names_distinct(self@, key@, strings_view(values@));
            }
        }
        let i = self.position(&key);
        if i < self.entries.len() {
            self.entries[i] = (key, values);
            assert(self@ =~= with_tag(old(self)@, key@, strings_view(values@)));
        } else {
            self.entries.push((key, values));
            assert(self@ =~= with_tag(old(self)@, key@, strings_view(values@)));
        }
    }

    /// Whether these tags meet the request `wanted`.
    pub fn covers(&self, wanted: &Tags) -> (r: bool)
        ensures
            r == covers(self@, wanted@),
    {
        let mut i: usize = 0;
        while i < wanted.entries.len()
            invariant
                i <= wanted.entries.len(),
                forall|k: int| 0 <= k < i ==> covers_tag(self@, #[trigger] wanted@[k]),
            decreases wanted.entries.len() - i,
        {
            let at = self.position(&wanted.entries[i].0);
            if at >= self.entries.len() {
                assert(!covers_tag(self@, wanted@[i as int]));
                return false;
            }
            let ghost asked = wanted@[i as int].1;
            let ghost held = self@[at as int].1;
            let mut j: usize = 0;
            while j < wanted.entries[i].1.len()
                invariant
                    i < wanted.entries.len(),
                    at < self.entries.len(),
                    at == tag_position(self@, wanted@[i as int].0),
                    asked == wanted@[i as int].1,
                    asked == strings_view(wanted.entries@[i as int].1@),
                    held == self@[at as int].1,
                    held == strings_view(self.entries@[at as int].1@),
                    j <= wanted.entries[i as int].1.len(),
                    forall|k: int| 0 <= k < j ==> held.contains(#[trigger] asked[k]),
                decreases wanted.entries[i as int].1.len() - j,
            {
                if !contains_string(&self.entries[at].1, &wanted.entries[i].1[j]) {
                    assert(!held.contains(asked[j as int]));
                    assert(!covers_tag(self@, wanted@[i as int]));
                    return false;
                }
                j += 1;
            }
            assert(covers_tag(self@, wanted@[i as int]));
            i += 1;
        }
        true
    }

    /// The union of these tags with those of `overlay`.
    pub fn merge(&self, overlay: &Tags) -> (r: Tags)
        ensures
            r@ == merged_tags(self@, overlay@),
            distinct_names(self@) && distinct_names(overlay@) ==> distinct_names(r@),
    {
        proof {
            if distinct_names(self@) && distinct_names(overlay@) {
                merged_tags_keep_names_distinct(self@, overlay@);
            }
        }
        let mut entries: Vec<(String, Vec<String>)> = Vec::new();
        let mut i: usize = 0;
        while i < self.entries.len()
            invariant
                i <= self.entries.len(),
                entries@.len() == i,
                forall|k: int|
                    0 <= k < i ==> (entries@[k].0@, strings_view(entries@[k].1@)) == merged_tag(
                        self@[k],
                        overlay@,
                    ),
            decreases self.entries.len() - i,
        {
            let at = overlay.position(&self.entries[i].0);
            if at < overlay.entries.len() {
                let mut both = clone_strings(&self.entries[i].1);
                let mut j: usize = 0;
                while j < overlay.entries[at].1.len()
                    invariant
                        at < overlay.entries.len(),
                        j <= overlay.entries[at as int].1.len(),
                        strings_view(both@) == strings_view(self.entries@[i as int].1@)
                            + strings_view(overlay.entries@[at as int].1@).take(j as int),
                    decreases overlay.entries[at as int].1.len() - j,
                {
                    let ghost before = strings_view(both@);
                    both.push(overlay.entries[at].1[j].clone());
                    assert(strings_view(both@) =~= before.push(overlay.entries@[at as int].1@[j as int]@));
                    assert(strings_view(both@) =~= strings_view(self.entries@[i as int].1@)
                        + strings_view(overlay.entries@[at as int].1@).take(j + 1));
                    j += 1;
                }
                assert(strings_view(overlay.entries@[at as int].1@).take(j as int) =~= strings_view(
                    overlay.entries@[at as int].1@,
                ));
                let values = unique_strings(&both);
                entries.push((self.entries[i].0.clone(), values));
            } else {
                entries.push((self.entries[i].0.clone(), clone_strings(&self.entries[i].1)));
            }
            i += 1;
        }
        let ghost kept = entries@;
        let mut k: usize = 0;
        while k < overlay.entries.len()
            invariant
                k <= overlay.entries.len(),
                kept.len() == self.entries.len(),
                entries@.len() >= kept.len(),
                entries@.subrange(0, kept.len() as int) == kept,
                entries_view(entries@).subrange(kept.len() as int, entries@.len() as int) == added_tags(
                    self@,
                    overlay@.take(k as int),
                ),
            decreases overlay.entries.len() - k,
        {
            let ghost before_view = entries_view(entries@);
            let ghost before = entries@;
            assert(overlay@.take(k + 1).drop_last() =~= overlay@.take(k as int));
            assert(overlay@.take(k + 1).last() == overlay@[k as int]);
            let at = self.position(&overlay.entries[k].0);
            if at >= self.entries.len() {
                entries.push((overlay.entries[k].0.clone(), clone_strings(&overlay.entries[k].1)));
                assert(entries@.subrange(0, kept.len() as int) =~= before.subrange(0, kept.len() as int));
                assert(entries_view(entries@).subrange(kept.len() as int, entries@.len() as int)
                    =~= before_view.subrange(kept.len() as int, before.len() as int).push(
                    overlay@[k as int],
                ));
            }
            k += 1;
        }
        assert(overlay@.take(overlay@.len() as int) =~= overlay@);
        let r = Tags { entries };
        assert(r@ =~= merged_tags(self@, overlay@)) by {
            assert(r@.len() == self@.len() + added_tags(self@, overlay@).len());
            assert forall|x: int| 0 <= x < r@.len() implies r@[x] == merged_tags(self@, overlay@)[x] by {
                if x < self@.len() {
                    assert(r.entries@[x] == kept[x]);
                } else {
                    assert(r@[x] == r@.subrange(kept.len() as int, r.entries@.len() as int)[x - kept.len()]);
                }
            }
        }
        r
    }
}

} // verus!
