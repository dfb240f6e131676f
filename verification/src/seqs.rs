//! Searching and de-duplicating sequences.

use std::collections::HashSet;
use vstd::prelude::*;
use vstd::std_specs::hash::spec_hash_keys_iter;
use vstd::std_specs::iter::IteratorSpec;

verus! {

/// The position of the first item of `s` that satisfies `p`, or the
/// length of `s` when none does.
pub open spec fn first_where<T>(s: Seq<T>, p: spec_fn(T) -> bool) -> int
    decreases s.len(),
{
    if s.len() == 0 {
        0
    } else if p(s[0]) {
        0
    } else {
        1 + first_where(s.drop_first(), p)
    }
}

/// Whether some item of `s` satisfies `p`.
pub open spec fn any_where<T>(s: Seq<T>, p: spec_fn(T) -> bool) -> bool {
    first_where(s, p) < s.len()
}

/// `first_where` lies within the sequence or just past it, nothing
/// before it satisfies the predicate, and what it points at does.
pub proof fn first_where_bounds<T>(s: Seq<T>, p: spec_fn(T) -> bool)
    ensures
        0 <= first_where(s, p) <= s.len(),
        forall|j: int| 0 <= j < first_where(s, p) ==> !p(#[trigger] s[j]),
        first_where(s, p) < s.len() ==> p(s[first_where(s, p)]),
    decreases s.len(),
{
    if s.len() == 0 {
    } else if p(s[0]) {
    } else {
        let rest = s.drop_first();
        first_where_bounds(rest, p);
        assert forall|j: int| 0 <= j < first_where(s, p) implies !p(#[trigger] s[j]) by {
            if j > 0 {
                assert(s[j] == rest[j - 1]);
            }
        }
        if first_where(s, p) < s.len() {
            assert(s[first_where(s, p)] == rest[first_where(rest, p)]);
        }
    }
}

/// A position with nothing satisfying the predicate before it, and which
/// satisfies it unless it is the length, is the one `first_where` gives.
pub proof fn first_where_is<T>(s: Seq<T>, p: spec_fn(T) -> bool, i: int)
    requires
        0 <= i <= s.len(),
        forall|j: int| 0 <= j < i ==> !p(#[trigger] s[j]),
        i < s.len() ==> p(s[i]),
    ensures
        first_where(s, p) == i,
{
    first_where_bounds(s, p);
    let k = first_where(s, p);
    if k < i {
        assert(!p(s[k]));
    } else if i < k {
        assert(p(s[i]));
    }
}

/// Tests that agree on every item find the same position.
pub proof fn first_where_same<T>(s: Seq<T>, p: spec_fn(T) -> bool, q: spec_fn(T) -> bool)
    requires
        forall|x: T| #[trigger] p(x) == q(x),
    ensures
        first_where(s, p) == first_where(s, q),
    decreases s.len(),
{
    if s.len() > 0 && !p(s[0]) {
        first_where_same(s.drop_first(), p, q);
    }
}

/// In two sequences put end to end, the first item that satisfies a test
/// is the first such item of the first sequence, or else of the second.
pub proof fn first_where_joined<T>(a: Seq<T>, b: Seq<T>, p: spec_fn(T) -> bool)
    ensures
        first_where(a + b, p) == if first_where(a, p) < a.len() {
            first_where(a, p)
        } else {
            a.len() + first_where(b, p)
        },
{
    first_where_bounds(a, p);
    first_where_bounds(b, p);
    let whole = a + b;
    if first_where(a, p) < a.len() {
        first_where_is(whole, p, first_where(a, p));
    } else {
        let at = a.len() + first_where(b, p);
        assert forall|j: int| 0 <= j < at implies !p(#[trigger] whole[j]) by {
            if j < a.len() {
                assert(whole[j] == a[j]);
            } else {
                assert(whole[j] == b[j - a.len()]);
            }
        }
        if at < whole.len() {
            assert(whole[at] == b[first_where(b, p)]);
        }
        first_where_is(whole, p, at);
    }
}

/// Two sequences of one length whose items pass two tests alike, place
/// by place, have their first passing items at the same place.
pub proof fn first_where_alike<A, B>(
    a: Seq<A>,
    p: spec_fn(A) -> bool,
    b: Seq<B>,
    q: spec_fn(B) -> bool,
)
    requires
        a.len() == b.len(),
        forall|i: int| 0 <= i < a.len() ==> p(#[trigger] a[i]) == q(b[i]),
    ensures
        first_where(a, p) == first_where(b, q),
{
    first_where_bounds(a, p);
    let at = first_where(a, p);
    assert forall|j: int| 0 <= j < at implies !q(#[trigger] b[j]) by {
        assert(!p(a[j]));
    }
    if at < a.len() {
        assert(p(a[at]));
    }
    first_where_is(b, q, at);
}

/// The items of `s` without repetitions: of equal items only the first
/// stays, and the order of what stays is kept.
pub open spec fn unique<T>(s: Seq<T>) -> Seq<T>
    decreases s.len(),
{
    if s.len() == 0 {
        s
    } else if unique(s.drop_last()).contains(s.last()) {
        unique(s.drop_last())
    } else {
        unique(s.drop_last()).push(s.last())
    }
}

/// `unique` holds exactly the items of its argument, each once.
pub proof fn unique_properties<T>(s: Seq<T>)
    ensures
        unique(s).no_duplicates(),
        forall|x: T| unique(s).contains(x) <==> s.contains(x),
        unique(s).len() <= s.len(),
    decreases s.len(),
{
    if s.len() == 0 {
    } else {
        let front = s.drop_last();
        unique_properties(front);
        assert forall|x: T| unique(s).contains(x) <==> s.contains(x) by {
            if s.contains(x) {
                let i = choose|i: int| 0 <= i < s.len() && s[i] == x;
                if i < s.len() - 1 {
                    assert(front[i] == x);
                    assert(front.contains(x));
                }
                if unique(front).contains(s.last()) {
                } else {
                    if x == s.last() {
                        assert(unique(s)[unique(s).len() - 1] == x);
                    } else {
                        let k = choose|k: int| 0 <= k < unique(front).len() && unique(front)[k] == x;
                        assert(unique(s)[k] == x);
                    }
                }
            }
            if unique(s).contains(x) {
                let k = choose|k: int| 0 <= k < unique(s).len() && unique(s)[k] == x;
                if k < unique(front).len() {
                    assert(unique(front)[k] == x);
                    assert(unique(front).contains(x));
                    assert(front.contains(x));
                    let i = choose|i: int| 0 <= i < front.len() && front[i] == x;
                    assert(s[i] == x);
                } else {
                    assert(x == s.last());
                    assert(s[s.len() - 1] == x);
                }
            }
        }
    }
}

/// The items of `s` with runs of equal neighbours shortened to their
/// first item.
pub open spec fn without_runs<T>(s: Seq<T>) -> Seq<T>
    decreases s.len(),
{
    if s.len() <= 1 {
        s
    } else if s[s.len() - 2] == s.last() {
        without_runs(s.drop_last())
    } else {
        without_runs(s.drop_last()).push(s.last())
    }
}

/// What `f` makes of the items of `s`, in order, without the items of
/// which it makes nothing.
pub open spec fn collect<A, B>(s: Seq<A>, f: spec_fn(A) -> Option<B>) -> Seq<B>
    decreases s.len(),
{
    if s.len() == 0 {
        Seq::empty()
    } else {
        match f(s.last()) {
            Some(b) => collect(s.drop_last(), f).push(b),
            None => collect(s.drop_last(), f),
        }
    }
}

/// Collecting from one item more adds what `f` makes of that item.
pub proof fn collect_step<A, B>(s: Seq<A>, f: spec_fn(A) -> Option<B>, i: int)
    requires
        0 <= i < s.len(),
    ensures
        collect(s.take(i + 1), f) == match f(s[i]) {
            Some(b) => collect(s.take(i), f).push(b),
            None => collect(s.take(i), f),
        },
{
    assert(s.take(i + 1).drop_last() =~= s.take(i));
}

/// Everything collected was made of some item, and something is
/// collected as soon as `f` makes something of one item.
pub proof fn collect_origin<A, B>(s: Seq<A>, f: spec_fn(A) -> Option<B>)
    ensures
        forall|j: int|
            0 <= j < collect(s, f).len() ==> exists|i: int|
                0 <= i < s.len() && f(s[i]) == Some(#[trigger] collect(s, f)[j]),
        (exists|i: int| 0 <= i < s.len() && f(s[i]) is Some) ==> collect(s, f).len() > 0,
        collect(s, f).len() <= s.len(),
    decreases s.len(),
{
    if s.len() > 0 {
        let front = s.drop_last();
        collect_origin(front, f);
        assert forall|j: int| 0 <= j < collect(s, f).len() implies exists|i: int|
            0 <= i < s.len() && f(s[i]) == Some(#[trigger] collect(s, f)[j]) by {
            if j < collect(front, f).len() {
                let i = choose|i: int|
                    0 <= i < front.len() && f(front[i]) == Some(collect(front, f)[j]);
                assert(s[i] == front[i]);
            } else {
                assert(f(s[s.len() - 1]) == Some(collect(s, f)[j]));
            }
        }
        if exists|i: int| 0 <= i < s.len() && f(s[i]) is Some {
            let i = choose|i: int| 0 <= i < s.len() && f(s[i]) is Some;
            if i < front.len() {
                assert(front[i] == s[i]);
            }
        }
    }
}

/// The sum of the first `k` numbers of `s`.
pub open spec fn sum_of_first(s: Seq<isize>, k: nat) -> int
    decreases k,
{
    if k == 0 || k > s.len() {
        0
    } else {
        sum_of_first(s, (k - 1) as nat) + s[k - 1]
    }
}

/// The sum of the numbers of `s`.
pub open spec fn sum_of(s: Seq<isize>) -> int {
    sum_of_first(s, s.len())
}

/// Whether the numbers of `s` can be added up one after the other in
/// machine integers.
pub open spec fn sums_fit(s: Seq<isize>) -> bool {
    forall|k: nat| k <= s.len() ==> isize::MIN <= #[trigger] sum_of_first(s, k) <= isize::MAX
}

/// Adds up the numbers of `v`.
pub fn sum(v: &Vec<isize>) -> (r: isize)
    requires
        sums_fit(v@),
    ensures
        r == sum_of(v@),
{
    let mut total: isize = 0;
    let mut i: usize = 0;
    while i < v.len()
        invariant
            i <= v.len(),
            sums_fit(v@),
            total == sum_of_first(v@, i as nat),
        decreases v.len() - i,
    {
        assert(isize::MIN <= sum_of_first(v@, (i + 1) as nat) <= isize::MAX);
        total = total + v[i];
        i += 1;
    }
    total
}

/// What is collected from the beginning of a sequence is the beginning
/// of what is collected from all of it.
pub proof fn collect_prefix<A, B>(s: Seq<A>, f: spec_fn(A) -> Option<B>, i: int)
    requires
        0 <= i <= s.len(),
    ensures
        collect(s.take(i), f).len() <= collect(s, f).len(),
        collect(s.take(i), f) == collect(s, f).take(collect(s.take(i), f).len() as int),
    decreases s.len() - i,
{
    if i == s.len() {
        assert(s.take(i) =~= s);
        assert(collect(s, f).take(collect(s, f).len() as int) =~= collect(s, f));
    } else {
        collect_prefix(s, f, i + 1);
        collect_step(s, f, i);
        let more = collect(s.take(i + 1), f);
        let less = collect(s.take(i), f);
        assert(less =~= more.take(less.len() as int));
        assert(less =~= collect(s, f).take(less.len() as int));
    }
}

/// The sum of the beginning of a sequence is the sum of as many of its
/// first numbers.
pub proof fn sum_of_prefix(s: Seq<isize>, k: nat)
    requires
        k <= s.len(),
    ensures
        sum_of(s.take(k as int)) == sum_of_first(s, k),
    decreases k,
{
    let front = s.take(k as int);
    if k > 0 {
        sum_of_prefix(s, (k - 1) as nat);
        sum_same(front, s.take(k - 1), (k - 1) as nat);
    }
}

/// Sequences that begin alike have the same sums over that beginning.
pub proof fn sum_same(a: Seq<isize>, b: Seq<isize>, k: nat)
    requires
        k <= a.len(),
        k <= b.len(),
        forall|i: int| 0 <= i < k ==> a[i] == b[i],
    ensures
        sum_of_first(a, k) == sum_of_first(b, k),
    decreases k,
{
    if k > 0 {
        sum_same(a, b, (k - 1) as nat);
    }
}

/// The numbers of a list of named numbers.
pub open spec fn amounts(entries: Seq<(String, isize)>) -> Seq<isize> {
    entries.map_values(|e: (String, isize)| e.1)
}

/// What a list of named numbers stands for in contracts.
pub open spec fn named_amounts(entries: Seq<(String, isize)>) -> Seq<(Seq<char>, isize)> {
    entries.map_values(|e: (String, isize)| (e.0@, e.1))
}

/// Adds up the numbers of a list of named numbers.
pub fn sum_amounts(entries: &Vec<(String, isize)>) -> (r: isize)
    requires
        sums_fit(amounts(entries@)),
    ensures
        r == sum_of(amounts(entries@)),
{
    let mut numbers: Vec<isize> = Vec::new();
    let mut i: usize = 0;
    while i < entries.len()
        invariant
            i <= entries.len(),
            numbers@ == amounts(entries@).take(i as int),
        decreases entries.len() - i,
    {
        numbers.push(entries[i].1);
        assert(numbers@ =~= amounts(entries@).take(i + 1));
        i += 1;
    }
    assert(amounts(entries@).take(entries@.len() as int) =~= amounts(entries@));
    sum(&numbers)
}

/// A copy of a list of named numbers.
pub fn clone_amounts(entries: &Vec<(String, isize)>) -> (r: Vec<(String, isize)>)
    ensures
        named_amounts(r@) == named_amounts(entries@),
        amounts(r@) == amounts(entries@),
{
    let mut r: Vec<(String, isize)> = Vec::new();
    let mut i: usize = 0;
    while i < entries.len()
        invariant
            i <= entries.len(),
            r@.len() == i,
            forall|k: int|
                0 <= k < i ==> (#[trigger] r@[k]).0@ == entries@[k].0@ && r@[k].1 == entries@[k].1,
        decreases entries.len() - i,
    {
        r.push((entries[i].0.clone(), entries[i].1));
        i += 1;
    }
    assert(amounts(r@) =~= amounts(entries@));
    assert(named_amounts(r@) =~= named_amounts(entries@));
    r
}

/// Takes the numbers of `src` into `dst`.
pub fn unite_numbers(dst: &mut HashSet<isize>, src: &HashSet<isize>)
    ensures
        final(dst)@ == old(dst)@.union(src@),
{
    broadcast use vstd::std_specs::hash::group_hash_axioms;

    let ghost all = spec_hash_keys_iter(src).remaining();
    for n in it: src.iter()
        invariant
            it.seq() == all,
            all.unref().to_set() == src@,
            forall|x: isize|
                dst@.contains(x) <==> (old(dst)@.contains(x) || exists|k: int|
                    0 <= k < it.index() && *all[k] == x),
    {
        dst.insert(*n);
    }
    assert forall|x: isize| dst@.contains(x) <==> old(dst)@.union(src@).contains(x) by {
        if src@.contains(x) {
            assert(all.unref().to_set().contains(x));
            let k = choose|k: int| 0 <= k < all.unref().len() && all.unref()[k] == x;
            assert(*all[k] == x);
        }
        if exists|k: int| 0 <= k < all.len() && *all[k] == x {
            let k = choose|k: int| 0 <= k < all.len() && *all[k] == x;
            assert(all.unref()[k] == x);
            assert(all.unref().to_set().contains(x));
        }
    }
    assert(dst@ =~= old(dst)@.union(src@));
}

/// A set without numbers.
pub fn no_numbers() -> (r: HashSet<isize>)
    ensures
        r@ == Set::<isize>::empty(),
{
    broadcast use vstd::std_specs::hash::group_hash_axioms;

    HashSet::new()
}

/// A copy of a set of numbers.
pub fn clone_numbers(numbers: &HashSet<isize>) -> (r: HashSet<isize>)
    ensures
        r@ == numbers@,
{
    let mut r = no_numbers();
    unite_numbers(&mut r, numbers);
    assert(r@ =~= numbers@);
    r
}

} // verus!
