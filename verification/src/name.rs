//! The name of a character.

use vstd::prelude::*;

verus! {

/// What a character is called.
#[derive(Debug, PartialEq, Eq)]
pub struct Name {
    pub name: String,
}

impl View for Name {
    type V = Seq<char>;

    open spec fn view(&self) -> Seq<char> {
        self.name@
    }
}

impl Default for Name {
    fn default() -> (r: Name)
        ensures
            r@ == Seq::<char>::empty(),
    {
        Name { name: String::new() }
    }
}

impl Clone for Name {
    fn clone(&self) -> (r: Name)
        ensures
            r@ == self@,
    {
        Name { name: self.name.clone() }
    }
}

} // verus!
