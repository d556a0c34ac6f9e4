//! A subscriber's name that has passed validation (limit of 256 grapheme
//! clusters).

use vstd::prelude::*;
use crate::name_rules::{valid_name, judge_name};
use crate::unicode::count_graphemes;

verus! {

/// The largest number of grapheme clusters that a name may count.
pub const MAX_NAME_GRAPHEMES: usize = 256;

/// The text that follows the rejected name in the error message.
pub open spec fn rejection_suffix() -> Seq<char> {
    " is not a valid subscriber name."@
}

/// The error message given for a rejected name `s`.
pub open spec fn rejection_message(s: Seq<char>) -> Seq<char> {
    s + rejection_suffix()
}

/// A name that is not blank, counts at most 256 grapheme clusters and holds
/// none of the forbidden characters.
#[derive(Debug)]
pub struct SubscriberName(String);

impl View for SubscriberName {
    type V = Seq<char>;

    closed spec fn view(&self) -> Seq<char> {
        self.0@
    }
}

impl SubscriberName {
    #[verifier::type_invariant]
    closed spec fn well_formed(self) -> bool {
        valid_name(self.0@, MAX_NAME_GRAPHEMES as nat)
    }

    /// Validates `s`. On success the name holds `s` unchanged; on failure the
    /// error is the message "`s` is not a valid subscriber name.".
    pub fn parse(s: String) -> (r: Result<Self, String>)
        ensures
            r is Ok <==> valid_name(s@, MAX_NAME_GRAPHEMES as nat),
            r matches Ok(name) ==> name@ == s@,
            r matches Err(message) ==> message@ == rejection_message(s@),
    {
        let graphemes = count_graphemes(s.as_str());
        if !judge_name(s.as_str(), graphemes, MAX_NAME_GRAPHEMES) {
            let mut message = s.clone();
            message.append(" is not a valid subscriber name.");
            proof {
                reveal_strlit(" is not a valid subscriber name.");
            }
            return Err(message);
        }
        Ok(Self(s))
    }

    /// The name's text, which always follows the rules.
    pub fn as_ref(&self) -> (r: &str)
        ensures
            r@ == self@,
            valid_name(r@, MAX_NAME_GRAPHEMES as nat),
    {
        proof {
            use_type_invariant(self);
        }
        self.0.as_str()
    }
}

impl AsRef<str> for SubscriberName {
    fn as_ref(&self) -> &str {
        SubscriberName::as_ref(self)
    }
}

} // verus!
