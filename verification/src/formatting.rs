//! Values that the display formats, and the text clean-up for terminals
//! without Unicode.

use vstd::prelude::*;
use vstd::std_specs::iter::IteratorSpec;
use vstd::string::StringExecFns;

verus! {

/// A number of bytes, shown in human-readable form (e.g., 1.23 MB).
#[derive(Debug, Clone, Copy, PartialEq, Eq, PartialOrd, Ord)]
pub struct Bytes(pub u64);

/// The character is one of the first 128.
pub open spec fn is_ascii_char(c: char) -> bool {
    (c as u32) < 128
}

/// The text with every character outside ASCII replaced by `with`.
pub open spec fn stripped(s: Seq<char>, with: Seq<char>) -> Seq<char>
    decreases s.len(),
{
    if s.len() == 0 {
        Seq::empty()
    } else {
        stripped(s.drop_last(), with) + if is_ascii_char(s.last()) {
            seq![s.last()]
        } else {
            with
        }
    }
}

/// Replaces every character outside ASCII by `replacement`, or by a
/// question mark where none is given.
pub fn strip_non_ascii(s: String, replacement: Option<&str>) -> (r: String)
    ensures
        r@ == stripped(
            s@,
            match replacement {
                Some(with) => with@,
                None => "?"@,
            },
        ),
{
    let with: &str = match replacement {
        Some(with) => with,
        None => "?",
    };
    let mut r = String::new();
    let chars = s.as_str().chars();
    let ghost all = chars.remaining();
    for c in iter: chars
        invariant
            iter.seq() == all,
            all == s@,
            r@ == stripped(s@.take(iter.index()), with@),
    {
        proof {
            let i = iter.index();
            assert(s@.take(i + 1).drop_last() =~= s@.take(i));
        }
        if (c as u32) < 128 {
            r.push(c);
        } else {
            r.append(with);
        }
    }
    assert(s@.take(s@.len() as int) =~= s@);
    r
}

} // verus!
