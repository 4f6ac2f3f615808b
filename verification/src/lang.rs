//! Defaults for language and voice, and the part of a Speech Dispatcher
//! language code that names the language.

use vstd::prelude::*;

use crate::text::{chars_of, string_of};

verus! {

pub const DEFAULT_LANGUAGE: &'static str = "en";

pub const DEFAULT_PRESET_VOICE: &'static str = "ryan";

/// The language part of a language code, the text before its first `-`
/// (what `code.split('-').next()` gives): region suffixes such as the `us` of
/// `en-us` are ignored.
pub fn language_base(code: &str) -> (r: String)
    ensures
        r@.len() <= code@.len(),
        r@ == code@.take(r@.len() as int),
        !r@.contains('-'),
        r@.len() < code@.len() ==> code@[r@.len() as int] == '-',
{
    let v = chars_of(code);
    let n = v.len();
    let mut i: usize = 0;
    while i < n && v[i] != '-'
        invariant
            i <= n,
            n == v@.len(),
            v@ == code@,
            forall|k: int| 0 <= k < i ==> v@[k] != '-',
        decreases n - i,
    {
        i += 1;
    }
    let r = string_of(&v, 0, i);
    assert(r@ =~= code@.take(i as int));
    r
}

} // verus!
