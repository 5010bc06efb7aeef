//! DNS host-label validation, optionally recursive over dot-separated labels.

use vstd::prelude::*;

verus! {

use vstd::string::StrSliceExecFns;
use crate::strutil::{spec_split, split_char};

/// Whether `c` has the Unicode `Alphabetic` property, exactly as
/// `char::is_alphabetic` decides it.
pub uninterp spec fn char_alphabetic(c: char) -> bool;

/// Whether `c` is alphabetic or numeric, exactly as `char::is_alphanumeric`
/// decides it.
pub uninterp spec fn char_alphanumeric(c: char) -> bool;

/// Relies on char::is_alphabetic of std: the result depends on the character
/// alone.
pub assume_specification[ char::is_alphabetic ](c: char) -> (r: bool)
    ensures
        r == char_alphabetic(c),
;

/// Relies on char::is_alphanumeric of std: the result depends on the
/// character alone.
pub assume_specification[ char::is_alphanumeric ](c: char) -> (r: bool)
    ensures
        r == char_alphanumeric(c),
;

/// A single label is valid when its length lies in [1, 63], its first
/// character is alphabetic, and every character is alphanumeric or '-'.
pub open spec fn spec_valid_label(s: Seq<char>) -> bool {
    &&& 1 <= s.len() <= 63
    &&& char_alphabetic(s[0])
    &&& forall|i: int| 0 <= i < s.len() ==> char_alphanumeric(s[i]) || s[i] == '-'
}

/// With dots allowed, every dot-separated component must be a valid single
/// label; consecutive dots yield an empty component, which fails the length
/// bound and so fails validation.
pub open spec fn spec_valid_host_label(s: Seq<char>, allow_dots: bool) -> bool {
    if allow_dots {
        forall|i: int|
            0 <= i < spec_split(s, '.').len() ==> spec_valid_label(spec_split(s, '.')[i])
    } else {
        spec_valid_label(s)
    }
}

pub fn is_valid_host_label(label: &str, allow_dots: bool) -> (r: bool)
    ensures
        r == spec_valid_host_label(label@, allow_dots),
    decreases (if allow_dots {
        1int
    } else {
        0int
    }),
{
    if allow_dots {
        let parts = split_char(label, '.');
        let mut i: usize = 0;
        while i < parts.len()
            invariant
                allow_dots,
                i <= parts.len(),
                parts.deep_view() == spec_split(label@, '.'),
                parts.deep_view().len() == parts.len(),
                forall|j: int| 0 <= j < i ==> spec_valid_label(parts.deep_view()[j]),
            decreases parts.len() - i,
        {
            if !is_valid_host_label(parts[i], false) {
                proof {
                    assert(!spec_valid_label(spec_split(label@, '.')[i as int]));
                }
                return false;
            }
            i += 1;
        }
        true
    } else {
        let n = label.unicode_len();
        if n < 1 || n > 63 {
            return false;
        }
        if !label.get_char(0).is_alphabetic() {
            return false;
        }
        let mut i: usize = 0;
        while i < n
            invariant
                !allow_dots,
                i <= n,
                n == label@.len(),
                1 <= n <= 63,
                char_alphabetic(label@[0]),
                forall|j: int| 0 <= j < i ==> char_alphanumeric(label@[j]) || label@[j] == '-',
            decreases n - i,
        {
            let c = label.get_char(i);
            if !(c.is_alphanumeric() || c == '-') {
                proof {
                    assert(!(char_alphanumeric(label@[i as int]) || label@[i as int] == '-'));
                }
                return false;
            }
            i += 1;
        }
        true
    }
}

} // verus!
