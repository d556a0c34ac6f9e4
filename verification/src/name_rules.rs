//! The rules that a subscriber's name must follow.

use vstd::prelude::*;
use crate::unicode::{white_space, is_white_space, extended_grapheme_clusters};

verus! {

/// The characters that a subscriber name may not hold.
pub open spec fn forbidden_char(c: char) -> bool {
    ||| c == '('
    ||| c == ')'
    ||| c == '/'
    ||| c == '\\'
    ||| c == '"'
    ||| c == '<'
    ||| c == '>'
    ||| c == '{'
    ||| c == '}'
}

/// `s` is empty or made of white space only (what `trim` leaves empty).
pub open spec fn blank_text(s: Seq<char>) -> bool {
    forall|i: int| 0 <= i < s.len() ==> #[trigger] white_space(s[i])
}

/// `s` holds at least one forbidden character.
pub open spec fn holds_forbidden_char(s: Seq<char>) -> bool {
    exists|i: int| 0 <= i < s.len() && #[trigger] forbidden_char(s[i])
}

/// A name `s` that counts `graphemes` grapheme clusters is acceptable under a
/// limit of `max` clusters.
pub open spec fn acceptable_name(s: Seq<char>, graphemes: nat, max: nat) -> bool {
    &&& !blank_text(s)
    &&& graphemes <= max
    &&& !holds_forbidden_char(s)
}

/// A name is acceptable under a limit of `max` grapheme clusters.
pub open spec fn valid_name(s: Seq<char>, max: nat) -> bool {
    acceptable_name(s, extended_grapheme_clusters(s), max)
}

/// A name that is empty or made of white space only is never valid, whatever
/// the limit.
pub proof fn blank_names_are_rejected(s: Seq<char>, max: nat)
    requires
        blank_text(s),
    ensures
        !valid_name(s, max),
{
}

/// The empty name is never valid, whatever the limit.
pub proof fn empty_name_is_rejected(max: nat)
    ensures
        !valid_name(Seq::<char>::empty(), max),
{
    blank_names_are_rejected(Seq::<char>::empty(), max);
}

/// A name that holds one of the forbidden characters is never valid, whatever
/// the limit.
pub proof fn names_with_forbidden_chars_are_rejected(s: Seq<char>, max: nat)
    requires
        holds_forbidden_char(s),
    ensures
        !valid_name(s, max),
{
}

/// A name valid under some limit of grapheme clusters stays valid under any
/// larger limit.
pub proof fn valid_names_stay_valid_under_larger_limits(s: Seq<char>, max: nat, larger: nat)
    requires
        valid_name(s, max),
        max <= larger,
    ensures
        valid_name(s, larger),
{
}

/// A character is forbidden exactly when it is one of `( ) / \ " < > { }`.
pub proof fn forbidden_chars_are_the_nine_symbols(c: char)
    ensures
        forbidden_char(c) <==> (c == '(' || c == ')' || c == '/' || c == '\\' || c == '"' || c == '<' || c == '>'
            || c == '{' || c == '}'),
{
}

/// A name is valid under a limit of `max` grapheme clusters exactly when it
/// is not blank, counts at most `max` clusters and none of its characters is
/// one of `( ) / \ " < > { }`: every other character, accented letters
/// included, is allowed.
pub proof fn valid_names_are_exactly_those_without_the_nine_symbols(s: Seq<char>, max: nat)
    ensures
        valid_name(s, max) <==> {
            &&& !blank_text(s)
            &&& extended_grapheme_clusters(s) <= max
            &&& forall|i: int| 0 <= i < s.len() ==> !(s[i] == '(' || s[i] == ')' || s[i] == '/' || s[i] == '\\' || s[i] == '"' || s[i] == '<' || s[i] == '>'
            || s[i] == '{' || s[i] == '}')
        },
{
    if valid_name(s, max) {
        assert forall|i: int| 0 <= i < s.len() implies !(s[i] == '(' || s[i] == ')' || s[i] == '/' || s[i] == '\\' || s[i] == '"' || s[i] == '<' || s[i] == '>'
            || s[i] == '{' || s[i] == '}') by {
            if (s[i] == '(' || s[i] == ')' || s[i] == '/' || s[i] == '\\' || s[i] == '"' || s[i] == '<' || s[i] == '>'
            || s[i] == '{' || s[i] == '}') {
                assert(forbidden_char(s[i]));
            }
        }
    }
}

/// A name with one of `( ) / \ " < > { }` at any position, first word or
/// not, is never valid.
pub proof fn a_forbidden_symbol_anywhere_rejects_the_name(s: Seq<char>, i: int, max: nat)
    requires
        0 <= i < s.len(),
        (s[i] == '(' || s[i] == ')' || s[i] == '/' || s[i] == '\\' || s[i] == '"' || s[i] == '<' || s[i] == '>'
            || s[i] == '{' || s[i] == '}'),
    ensures
        !valid_name(s, max),
{
    assert(forbidden_char(s[i]));
}

/// Whether `c` is one of the forbidden characters.
pub fn is_forbidden_char(c: char) -> (r: bool)
    ensures
        r == forbidden_char(c),
{
    c == '(' || c == ')' || c == '/' || c == '\\' || c == '"' || c == '<' || c == '>'
        || c == '{' || c == '}'
}

/// Whether `s` is empty or holds only white space.
pub fn is_blank(s: &str) -> (r: bool)
    ensures
        r == blank_text(s@),
{
    for c in it: s.chars()
        invariant
            it.seq() == s@,
            forall|j: int| 0 <= j < it.index() ==> #[trigger] white_space(s@[j]),
    {
        if !is_white_space(c) {
            return false;
        }
    }
    true
}

/// Whether `s` holds one of the forbidden characters.
pub fn contains_forbidden_character(s: &str) -> (r: bool)
    ensures
        r == holds_forbidden_char(s@),
{
    for c in it: s.chars()
        invariant
            it.seq() == s@,
            forall|j: int| 0 <= j < it.index() ==> !#[trigger] forbidden_char(s@[j]),
    {
        if is_forbidden_char(c) {
            assert(forbidden_char(s@[it.index() as int]));
            return true;
        }
    }
    false
}

/// Judges a name whose grapheme clusters were counted beforehand: it is
/// accepted when it is not blank, counts at most `max` clusters and holds no
/// forbidden character.
pub fn judge_name(s: &str, graphemes: usize, max: usize) -> (r: bool)
    ensures
        r == acceptable_name(s@, graphemes as nat, max as nat),
{
    let is_empty_or_only_whitespace = is_blank(s);
    let is_too_long = graphemes > max;
    let contains_forbidden_characters = contains_forbidden_character(s);
    !(is_empty_or_only_whitespace || is_too_long || contains_forbidden_characters)
}

} // verus!
