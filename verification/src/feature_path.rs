//! Addresses in the feature tree.

use vstd::prelude::*;
use vstd::string::StringExecFns;
use crate::text::{clone_strings, join, joined, strings_view};

verus! {

/// A location in the feature tree: the names to walk through, outermost
/// first, and whether everything below the addressed feature is meant too.
#[derive(Debug, PartialEq, Eq)]
pub struct FeaturePath {
    pub path: Vec<String>,
    pub include_children: bool,
}

/// What a `FeaturePath` stands for in contracts.
pub struct FeaturePathView {
    pub path: Seq<Seq<char>>,
    pub include_children: bool,
}

impl View for FeaturePath {
    type V = FeaturePathView;

    open spec fn view(&self) -> FeaturePathView {
        FeaturePathView {
            path: strings_view(self.path@),
            include_children: self.include_children,
        }
    }
}

impl FeaturePathView {
    /// The path that addresses nothing and no descendants.
    pub open spec fn empty() -> FeaturePathView {
        FeaturePathView { path: Seq::empty(), include_children: false }
    }

    /// Walks one step into a feature called `name`. An empty path consumes
    /// nothing and matches if it includes descendants; otherwise the head
    /// must equal `name`, and the rest of the path remains.
    pub open spec fn step(self, name: Seq<char>) -> (bool, FeaturePathView) {
        if self.path.len() == 0 {
            (self.include_children, self)
        } else if self.path[0] == name {
            (
                true,
                FeaturePathView {
                    path: self.path.drop_first(),
                    include_children: self.include_children,
                },
            )
        } else {
            (false, FeaturePathView::empty())
        }
    }
}

/// How a path is written.
pub open spec fn path_text(path: FeaturePathView) -> Seq<char> {
    joined(path.path, " "@) + if path.include_children {
        "..."@
    } else {
        Seq::empty()
    }
}

impl FeaturePathView {
    /// What is left of the path after it was walked down a chain of
    /// features with these names, outermost first.
    pub open spec fn walked(self, names: Seq<Seq<char>>) -> FeaturePathView
        decreases names.len(),
    {
        if names.len() == 0 {
            self
        } else {
            self.walked(names.drop_last()).step(names.last()).1
        }
    }

    /// Whether the path leads into every feature of a chain with these
    /// names.
    pub open spec fn walks(self, names: Seq<Seq<char>>) -> bool {
        forall|k: int|
            0 <= k < names.len() ==> self.walked(#[trigger] names.take(k)).step(names[k]).0
    }
}

/// A step into the feature that the path names first takes exactly that
/// name off the path and keeps the rest and the flag.
pub proof fn step_takes_one_name(path: FeaturePathView, name: Seq<char>)
    requires
        path.path.len() > 0,
        path.path[0] == name,
    ensures
        path.step(name).0,
        path.step(name).1.path.len() == path.path.len() - 1,
        path.step(name).1.path == path.path.skip(1),
        path.step(name).1.include_children == path.include_children,
{
    assert(path.path.drop_first() =~= path.path.skip(1));
}

/// A step into a feature that the path does not name first fails and
/// leaves nothing to walk on with.
pub proof fn step_stops_at_other_name(path: FeaturePathView, name: Seq<char>)
    requires
        path.path.len() > 0,
        path.path[0] != name,
    ensures
        !path.step(name).0,
        path.step(name).1 == FeaturePathView::empty(),
        forall|next: Seq<char>| !(#[trigger] path.step(name).1.step(next)).0,
{
}

/// Walked down the features that it names, a path leads into each of
/// them and loses one name with each step.
pub proof fn walk_takes_one_name_per_step(path: FeaturePathView, names: Seq<Seq<char>>)
    requires
        names.len() <= path.path.len(),
        names == path.path.take(names.len() as int),
    ensures
        path.walks(names),
        path.walked(names).path == path.path.skip(names.len() as int),
        path.walked(names).path.len() == path.path.len() - names.len(),
        path.walked(names).include_children == path.include_children,
    decreases names.len(),
{
    if names.len() == 0 {
        assert(path.path.skip(0) =~= path.path);
    } else {
        let front = names.drop_last();
        assert(front =~= path.path.take(front.len() as int));
        walk_takes_one_name_per_step(path, front);
        let before = path.walked(front);
        assert(before.path[0] == names.last());
        step_takes_one_name(before, names.last());
        assert(before.path.skip(1) =~= path.path.skip(names.len() as int));
        assert forall|k: int| 0 <= k < names.len() implies path.walked(
            #[trigger] names.take(k),
        ).step(names[k]).0 by {
            if k < front.len() {
                assert(names.take(k) =~= front.take(k));
                assert(path.walked(front.take(k)).step(front[k]).0);
            } else {
                assert(names.take(k) =~= front);
            }
        }
    }
}

/// The empty path that includes descendants leads into every feature of
/// every chain, and stays as it is however far it is walked.
pub proof fn empty_path_reaches_all_descendants(names: Seq<Seq<char>>)
    ensures
        (FeaturePathView { path: Seq::empty(), include_children: true }).walks(names),
        (FeaturePathView { path: Seq::empty(), include_children: true }).walked(names) == (
        FeaturePathView { path: Seq::empty(), include_children: true }),
    decreases names.len(),
{
    let all = FeaturePathView { path: Seq::empty(), include_children: true };
    if names.len() > 0 {
        let front = names.drop_last();
        empty_path_reaches_all_descendants(front);
        assert forall|k: int| 0 <= k < names.len() implies all.walked(
            #[trigger] names.take(k),
        ).step(names[k]).0 by {
            empty_path_reaches_all_descendants(names.take(k));
        }
    }
}

impl Clone for FeaturePath {
    fn clone(&self) -> (r: FeaturePath)
        ensures
            r@ == self@,
    {
        FeaturePath { path: clone_strings(&self.path), include_children: self.include_children }
    }
}

impl FeaturePath {
    pub fn include_children(&self) -> (r: bool)
        ensures
            r == self@.include_children,
    {
        self.include_children
    }

    pub fn of(path: Vec<String>) -> (r: FeaturePath)
        ensures
            r@.path == strings_view(path@),
            !r@.include_children,
    {
        FeaturePath { path, include_children: false }
    }

    pub fn empty() -> (r: FeaturePath)
        ensures
            r@ == FeaturePathView::empty(),
    {
        let r = FeaturePath { path: Vec::new(), include_children: false };
        assert(r@.path =~= Seq::empty());
        r
    }

    /// Tests the path against the name of the feature being entered and
    /// gives the path that is left for that feature's children.
    pub fn matches(&self, feature: String) -> (r: (bool, FeaturePath))
        ensures
            r.0 == self@.step(feature@).0,
            r.1@ == self@.step(feature@).1,
    {
        if self.path.len() == 0 {
            (self.include_children, self.clone())
        } else if feature == self.path[0] {
            let mut rest: Vec<String> = Vec::new();
            let mut i: usize = 1;
            while i < self.path.len()
                invariant
                    1 <= i <= self.path.len(),
                    rest@.len() == i - 1,
                    forall|j: int| 0 <= j < i - 1 ==> rest@[j]@ == self.path@[j + 1]@,
                decreases self.path.len() - i,
            {
                rest.push(self.path[i].clone());
                i += 1;
            }
            let r = FeaturePath { path: rest, include_children: self.include_children };
            assert(r@.path =~= self@.path.drop_first());
            (true, r)
        } else {
            (false, FeaturePath::empty())
        }
    }

    /// The path in words: its names with spaces between, and three dots
    /// where everything below is meant too.
    pub fn to_string(&self) -> (r: String)
        ensures
            r@ == path_text(self@),
    {
        let mut out = join(&self.path, " ");
        if self.include_children {
            out.append("...");
        }
        out
    }

    pub fn is_empty(&self) -> (r: bool)
        ensures
            r == (self@.path.len() == 0),
    {
        self.path.len() == 0
    }

    pub fn with_child(&self, child: String) -> (r: FeaturePath)
        ensures
            r@.path == self@.path.push(child@),
            r@.include_children == self@.include_children,
    {
        let mut path = clone_strings(&self.path);
        path.push(child);
        let r = FeaturePath { path, include_children: self.include_children };
        assert(r@.path =~= self@.path.push(child@));
        r
    }

    pub fn with_include_children(&self, descendants: bool) -> (r: FeaturePath)
        ensures
            r@.path == self@.path,
            r@.include_children == descendants,
    {
        FeaturePath { path: clone_strings(&self.path), include_children: descendants }
    }
}

} // verus!
