//! Unicode facts that the name rules rest on, taken from `std` and from the
//! `unicode-segmentation` crate.

use unicode_segmentation::UnicodeSegmentation;
use vstd::prelude::*;

verus! {

/// The characters that have the Unicode `White_Space` property
/// (PropList.txt): U+0009..U+000D, U+0020, U+0085, U+00A0, U+1680,
/// U+2000..U+200A, U+2028, U+2029, U+202F, U+205F and U+3000.
pub open spec fn white_space(c: char) -> bool {
    ||| ('\u{9}' <= c && c <= '\u{d}')
    ||| c == ' '
    ||| c == '\u{85}'
    ||| c == '\u{a0}'
    ||| c == '\u{1680}'
    ||| ('\u{2000}' <= c && c <= '\u{200a}')
    ||| c == '\u{2028}'
    ||| c == '\u{2029}'
    ||| c == '\u{202f}'
    ||| c == '\u{205f}'
    ||| c == '\u{3000}'
}

/// Calls `char::is_whitespace`, which std documents as "returns true if this
/// char has the White_Space property"; the contract spells that property out
/// as the list of code points in `white_space`.
#[verifier::external_body]
pub fn is_white_space(c: char) -> (r: bool)
    ensures
        r == white_space(c),
{
    c.is_whitespace()
}

/// Number of extended grapheme clusters (UAX #29) in `text`, as segmented by
/// the `unicode-segmentation` crate.
pub uninterp spec fn extended_grapheme_clusters(text: Seq<char>) -> nat;

/// Calls `UnicodeSegmentation::graphemes(s, true)` and counts what it yields.
/// The contract only names the result: it says that the count depends on the
/// text alone, and nothing of its value.
#[verifier::external_body]
pub fn count_graphemes(s: &str) -> (n: usize)
    ensures
        n as nat == extended_grapheme_clusters(s@),
{
    s.graphemes(true).count()
}

} // verus!
