//! Laying one definition over another of the same name.

use vstd::prelude::*;
use crate::seqs::{first_where, first_where_is};

verus! {

/// Something with a name under which a more specific definition of the
/// same thing can be laid over it.
pub trait Overlay: View + Clone + Sized {
    /// The name that decides which two definitions belong together.
    spec fn key_of(v: Self::V) -> Seq<char>;

    /// `base` with `over` laid over it.
    spec fn overlaid(base: Self::V, over: Self::V) -> Self::V;

    /// A copy stands for what the item that it was made of stands for.
    proof fn copy_keeps_view(a: &Self, b: &Self)
        requires
            cloned(*a, *b),
        ensures
            a@ == b@,
    ;

    fn overlay_by(&self) -> (r: String)
        ensures
            r@ == Self::key_of(self@),
    ;

    fn overlay(&self, overlay: &Self) -> (r: Self)
        ensures
            r@ == Self::overlaid(self@, overlay@),
    ;
}

/// What a list of items stands for in contracts.
pub open spec fn items_view<T: View>(items: Seq<T>) -> Seq<T::V> {
    items.map_values(|x: T| x@)
}

/// The test for an item whose name is `key`.
pub open spec fn keyed<T: Overlay>(key: Seq<char>) -> spec_fn(T::V) -> bool {
    |v: T::V| T::key_of(v) == key
}

/// Where the first item called `key` stands in `items`, or their number
/// when there is none.
pub open spec fn position_of<T: Overlay>(items: Seq<T::V>, key: Seq<char>) -> int {
    first_where(items, keyed::<T>(key))
}

/// One item of the base list after the overlay: laid under the overlay's
/// first item of the same name, or as it is when the overlay has none.
pub open spec fn overlaid_item<T: Overlay>(base: T::V, over: Seq<T::V>) -> T::V {
    let at = position_of::<T>(over, T::key_of(base));
    if at < over.len() {
        T::overlaid(base, over[at])
    } else {
        base
    }
}

/// The items of `over` whose names `base` does not have, in order.
pub open spec fn added_items<T: Overlay>(base: Seq<T::V>, over: Seq<T::V>) -> Seq<T::V>
    decreases over.len(),
{
    if over.len() == 0 {
        over
    } else if position_of::<T>(base, T::key_of(over.last())) < base.len() {
        added_items::<T>(base, over.drop_last())
    } else {
        added_items::<T>(base, over.drop_last()).push(over.last())
    }
}

/// The union of two lists by name. Items that only `base` has stay as
/// they are and where they are; items that both have are overlaid, in the
/// place of the base item; items that only `over` has follow, as they
/// are.
pub open spec fn overlaid_all<T: Overlay>(base: Seq<T::V>, over: Seq<T::V>) -> Seq<T::V> {
    Seq::new(base.len(), |i: int| overlaid_item::<T>(base[i], over)) + added_items::<T>(
        base,
        over,
    )
}

/// Where the first item called `key` stands in `items`.
pub fn find<T: Overlay>(items: &Vec<T>, key: &String) -> (i: usize)
    ensures
        i == position_of::<T>(items_view(items@), key@),
        i <= items@.len(),
{
    let mut i: usize = 0;
    while i < items.len()
        invariant
            i <= items.len(),
            forall|j: int| 0 <= j < i ==> !keyed::<T>(key@)(#[trigger] items_view(items@)[j]),
        decreases items.len() - i,
    {
        let name = items[i].overlay_by();
        if name == *key {
            proof {
                first_where_is(items_view(items@), keyed::<T>(key@), i as int);
            }
            return i;
        }
        i += 1;
    }
    proof {
        first_where_is(items_view(items@), keyed::<T>(key@), i as int);
    }
    i
}

/// Lays the list `overlay` over the list `template`, name by name.
pub fn overlay_all<T: Overlay>(template: &Vec<T>, overlay: &Vec<T>) -> (r: Vec<T>)
    ensures
        items_view(r@) == overlaid_all::<T>(items_view(template@), items_view(overlay@)),
{
    let ghost base = items_view(template@);
    let ghost over = items_view(overlay@);
    let mut result: Vec<T> = Vec::new();
    let mut i: usize = 0;
    while i < template.len()
        invariant
            i <= template.len(),
            base == items_view(template@),
            over == items_view(overlay@),
            result@.len() == i,
            forall|k: int| 0 <= k < i ==> (#[trigger] result@[k])@ == overlaid_item::<T>(base[k], over),
        decreases template.len() - i,
    {
        let key = template[i].overlay_by();
        let at = find(overlay, &key);
        if at < overlay.len() {
            result.push(template[i].overlay(&overlay[at]));
        } else {
            let copy = template[i].clone();
            proof {
                T::copy_keeps_view(&template[i as int], &copy);
            }
            result.push(copy);
        }
        i += 1;
    }
    let ghost kept = items_view(result@);
    let mut k: usize = 0;
    while k < overlay.len()
        invariant
            k <= overlay.len(),
            base == items_view(template@),
            over == items_view(overlay@),
            kept.len() == base.len(),
            result@.len() >= kept.len(),
            items_view(result@).subrange(0, kept.len() as int) == kept,
            items_view(result@).subrange(kept.len() as int, result@.len() as int) == added_items::<T>(
                base,
                over.take(k as int),
            ),
        decreases overlay.len() - k,
    {
        let ghost before = items_view(result@);
        assert(over.take(k + 1).drop_last() =~= over.take(k as int));
        assert(over.take(k + 1).last() == over[k as int]);
        let key = overlay[k].overlay_by();
        let at = find(template, &key);
        if at >= template.len() {
            let copy = overlay[k].clone();
            proof {
                T::copy_keeps_view(&overlay[k as int], &copy);
            }
            result.push(copy);
            assert(items_view(result@) =~= before.push(over[k as int]));
            assert(items_view(result@).subrange(0, kept.len() as int) =~= before.subrange(
                0,
                kept.len() as int,
            ));
            assert(items_view(result@).subrange(kept.len() as int, result@.len() as int)
                =~= before.subrange(kept.len() as int, before.len() as int).push(over[k as int]));
        }
        k += 1;
    }
    assert(over.take(over.len() as int) =~= over);
    assert(items_view(result@) =~= overlaid_all::<T>(base, over)) by {
        let got = items_view(result@);
        assert(got.len() == base.len() + added_items::<T>(base, over).len());
        assert forall|x: int| 0 <= x < got.len() implies got[x] == overlaid_all::<T>(base, over)[x] by {
            if x < base.len() {
                assert(got[x] == got.subrange(0, kept.len() as int)[x]);
            } else {
                assert(got[x] == got.subrange(kept.len() as int, got.len() as int)[x - kept.len()]);
            }
        }
    }
    result
}

} // verus!
