//! Saved-profile bookkeeping that does not touch the disk.

use vstd::prelude::*;
use crate::text::{chars_of, string_of, trim, trimmed};

verus! {

/// The name recorded in the `active-profile` file: its trimmed content, or
/// none when that is empty.
pub fn active_name_from(content: &str) -> (r: Option<String>)
    ensures
        match r {
            Some(n) => trim(content@).len() > 0 && n@ == trim(content@),
            None => trim(content@).len() == 0,
        },
{
    let t = trimmed(&chars_of(content));
    if t.len() == 0 {
        None
    } else {
        Some(string_of(&t))
    }
}

} // verus!
