//! Where things are kept: the names of the files of a store.

use vstd::prelude::*;
use vstd::string::{StrSliceExecFns, StringExecFns};

verus! {

/// What can go wrong with a store.
#[derive(Debug, PartialEq, Eq)]
pub enum StoreError {
    FileError(String),
    DirectoryError(String),
    WriteError(String),
}

impl Clone for StoreError {
    fn clone(&self) -> (r: StoreError)
        ensures
            r == *self,
    {
        match self {
            StoreError::FileError(text) => StoreError::FileError(text.clone()),
            StoreError::DirectoryError(text) => StoreError::DirectoryError(text.clone()),
            StoreError::WriteError(text) => StoreError::WriteError(text.clone()),
        }
    }
}

/// A place where texts are kept under keys.
#[derive(Debug, PartialEq, Eq)]
pub struct Store {
    pub base_path: String,
}

impl Clone for Store {
    fn clone(&self) -> (r: Store)
        ensures
            r == *self,
    {
        Store { base_path: self.base_path.clone() }
    }
}

/// The path of the file for `key` in a store at `base`: the base without
/// one stroke at its end, a stroke, and the key without one stroke at its
/// beginning.
pub open spec fn store_path(base: Seq<char>, key: Seq<char>) -> Seq<char> {
    (if base.len() > 0 && base.last() == '/' {
        base.drop_last()
    } else {
        base
    }) + seq!['/'] + (if key.len() > 0 && key[0] == '/' {
        key.drop_first()
    } else {
        key
    })
}

impl Store {
    /// The path of the file for `key`.
    pub fn path_for(&self, key: String) -> (r: String)
        ensures
            r@ == store_path(self.base_path@, key@),
    {
        let base = self.base_path.as_str();
        let base_len = base.unicode_len();
        let trimmed = if base_len > 0 && base.get_char(base_len - 1) == '/' {
            base.substring_char(0, base_len - 1)
        } else {
            base
        };
        let key_text = key.as_str();
        let key_len = key_text.unicode_len();
        let rest = if key_len > 0 && key_text.get_char(0) == '/' {
            key_text.substring_char(1, key_len)
        } else {
            key_text
        };
        let mut out = String::from_str(trimmed);
        out.append("/");
        out.append(rest);
        proof {
            reveal_strlit("/");
            assert("/"@ =~= seq!['/']);
            assert(out@ =~= store_path(self.base_path@, key@));
        }
        out
    }
}

} // verus!
