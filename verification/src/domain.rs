//! Subscribers as the domain knows them.

pub mod subscriber_name;

use vstd::prelude::*;
use crate::name_rules::{valid_name, judge_name};
use crate::unicode::count_graphemes;

verus! {

/// The largest number of grapheme clusters that a name may count here.
pub const MAX_NAME_GRAPHEMES: usize = 255;

/// A new subscriber: an email address and a validated name.
pub struct NewSubscriber {
    pub email: String,
    pub name: SubscriberName,
}

/// A name that is not blank, counts at most 255 grapheme clusters and holds
/// none of the forbidden characters.
pub struct SubscriberName(String);

impl View for SubscriberName {
    type V = Seq<char>;

    closed spec fn view(&self) -> Seq<char> {
        self.0@
    }
}

impl SubscriberName {
    #[verifier::type_invariant]
    closed spec fn well_formed(self) -> bool {
        valid_name(self.0@, MAX_NAME_GRAPHEMES as nat)
    }

    /// Wraps a name that follows the rules; the caller must not hand it any
    /// other (the name would be rejected without an answer).
    pub fn parse(s: String) -> (r: SubscriberName)
        requires
            valid_name(s@, MAX_NAME_GRAPHEMES as nat),
        ensures
            r@ == s@,
    {
        SubscriberName(s)
    }

    /// Checks `s` against the rules, and wraps it when it follows them.
    pub fn try_parse(s: String) -> (r: Option<SubscriberName>)
        ensures
            r is Some <==> valid_name(s@, MAX_NAME_GRAPHEMES as nat),
            r matches Some(name) ==> name@ == s@,
    {
        let graphemes = count_graphemes(s.as_str());
        if judge_name(s.as_str(), graphemes, MAX_NAME_GRAPHEMES) {
            Some(Self::parse(s))
        } else {
            None
        }
    }

    /// The name's text, which always follows the rules.
    pub fn as_ref(&self) -> (r: &str)
        ensures
            r@ == self@,
            valid_name(r@, MAX_NAME_GRAPHEMES as nat),
    {
        proof {
            use_type_invariant(self);
        }
        self.0.as_str()
    }
}

impl AsRef<str> for SubscriberName {
    fn as_ref(&self) -> &str {
        SubscriberName::as_ref(self)
    }
}

} // verus!
