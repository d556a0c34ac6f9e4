//! Verified core of an email newsletter service: validation of subscriber
//! names, the decisions taken by the HTTP handlers, and the shape of the
//! requests sent to the email delivery service.

pub mod unicode;
pub mod name_rules;
pub mod domain;
pub mod routes;
pub mod email_client;

use vstd::prelude::*;

verus! {

/// The greeting that `GET /hello/{name}` answers with.
pub open spec fn greeting_text(name: Seq<char>) -> Seq<char> {
    "Hello "@ + name + "!"@
}

/// For every name, of any length, the greeting is "Hello ", then the whole
/// name, then "!".
pub proof fn greetings_hold_the_whole_name(name: Seq<char>)
    ensures
        ({
            let text = greeting_text(name);
            &&& text.len() == name.len() + 7
            &&& text.subrange(0, 6) == "Hello "@
            &&& text.subrange(6, 6 + name.len() as int) == name
            &&& text[text.len() - 1] == '!'
        }),
{
    reveal_strlit("Hello ");
    reveal_strlit("!");
    let text = greeting_text(name);
    assert(text.subrange(0, 6) =~= "Hello "@);
    assert(text.subrange(6, 6 + name.len() as int) =~= name);
}

/// Greets `name`: "Hello `name`!".
pub fn greeting(name: &str) -> (r: String)
    ensures
        r@ == greeting_text(name@),
{
    proof {
        reveal_strlit("Hello ");
        reveal_strlit("!");
    }
    let mut text = String::from_str("Hello ");
    text.append(name);
    text.append("!");
    text
}

} // verus!
