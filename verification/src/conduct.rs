//! What each operation does, said of its arguments and of what it gives back.
//!
//! Each law speaks of a call: whatever a function gives back for its arguments has the
//! property that the law names. Nothing in between is mentioned, so a law says of the
//! fields, the characters and the positions that go in what comes out.

pub mod commands;
pub mod documents;
pub mod lists;
pub mod memories;
pub mod runs;
pub mod states;
pub mod writes;
pub mod words;

use vstd::prelude::*;

verus! {

/// The characters of a text that may be missing.
pub open spec fn chars(text: Option<String>) -> Option<Seq<char>> {
    if text is Some {
        Some(text->0@)
    } else {
        None
    }
}

} // verus!
