//! `POST /subscriptions`: a visitor asks to subscribe.

use vstd::prelude::*;
use crate::name_rules::{valid_name, judge_name, valid_names_stay_valid_under_larger_limits};
use crate::domain;
use crate::unicode::count_graphemes;
use crate::routes::HttpStatus;

verus! {

/// The largest number of grapheme clusters that a subscriber's name may count.
pub const MAX_NAME_GRAPHEMES: usize = 255;

/// The form that a visitor submits.
pub struct FormData {
    pub email: String,
    pub name: String,
}

/// The status that a new subscriber's row gets: it waits for the subscriber
/// to follow the confirmation link.
pub open spec fn pending_status_text() -> Seq<char> {
    "pending_confirmation"@
}

/// The status that a new subscriber's row gets.
pub fn pending_confirmation_status() -> (r: &'static str)
    ensures
        r@ == pending_status_text(),
{
    proof {
        reveal_strlit("pending_confirmation");
    }
    "pending_confirmation"
}

/// The path, below the service's base URL, that confirms a subscription.
pub open spec fn confirmation_path() -> Seq<char> {
    "/subscriptions/confirm?token="@
}

/// The link that confirms the subscription holding `token`.
pub open spec fn confirmation_link_text(base_url: Seq<char>, token: Seq<char>) -> Seq<char> {
    base_url + confirmation_path() + token
}

/// The subject of the confirmation email.
pub open spec fn confirmation_subject() -> Seq<char> {
    "Welcome!"@
}

/// The HTML content of the confirmation email that carries `link`.
pub open spec fn confirmation_html(link: Seq<char>) -> Seq<char> {
    "Welcome to our newsletter!<br />Click <a href=\""@ + link
        + "\">here</a> to confirm your subscription."@
}

/// The plain-text content of the confirmation email that carries `link`.
pub open spec fn confirmation_text(link: Seq<char>) -> Seq<char> {
    "Welcome to our newsletter!\nVisit "@ + link + " to confirm your subscription."@
}

/// An email to send to a new subscriber.
#[derive(Debug, PartialEq, Eq)]
pub struct ConfirmationEmail {
    pub recipient: String,
    pub subject: String,
    pub html_content: String,
    pub text_content: String,
}

/// What the handler does next.
#[derive(Debug, PartialEq, Eq)]
pub enum SubscribeAction {
    /// Answer the request with this status and stop.
    Respond(HttpStatus),
    /// Store the subscriber with the status `pending_confirmation_status()`,
    /// then report whether that worked.
    SaveSubscriber,
    /// Store a fresh token against the new subscriber, then report whether
    /// that worked.
    StoreToken,
    /// Send this email, then report whether that worked.
    SendConfirmation(ConfirmationEmail),
}

/// Whether `s` is a name that a subscriber may have.
pub fn is_name_valid(s: &str) -> (r: bool)
    ensures
        r == valid_name(s@, MAX_NAME_GRAPHEMES as nat),
{
    let graphemes = count_graphemes(s);
    judge_name(s, graphemes, MAX_NAME_GRAPHEMES)
}

/// The first decision on a submitted form: a form whose name breaks the rules
/// is answered with `400 Bad Request`; any other is stored.
pub fn subscribe(form: &FormData) -> (r: SubscribeAction)
    ensures
        r == (if valid_name(form.name@, MAX_NAME_GRAPHEMES as nat) {
            SubscribeAction::SaveSubscriber
        } else {
            SubscribeAction::Respond(HttpStatus::BadRequest)
        }),
{
    if !is_name_valid(form.name.as_str()) {
        return SubscribeAction::Respond(HttpStatus::BadRequest);
    }
    SubscribeAction::SaveSubscriber
}

/// The next step once the subscriber was stored (`saved`) or the store
/// failed: the token is stored next, a failure is answered `500`.
pub fn subscriber_saved(saved: bool) -> (r: SubscribeAction)
    ensures
        r == (if saved {
            SubscribeAction::StoreToken
        } else {
            SubscribeAction::Respond(HttpStatus::InternalServerError)
        }),
{
    if saved {
        SubscribeAction::StoreToken
    } else {
        SubscribeAction::Respond(HttpStatus::InternalServerError)
    }
}

/// The link, below `base_url`, that confirms the subscription holding `token`.
pub fn confirmation_link(base_url: &str, token: &str) -> (r: String)
    ensures
        r@ == confirmation_link_text(base_url@, token@),
{
    proof {
        reveal_strlit("/subscriptions/confirm?token=");
    }
    let mut link = String::from_str(base_url);
    link.append("/subscriptions/confirm?token=");
    link.append(token);
    link
}

/// The confirmation email that invites `recipient` to follow `link`.
pub fn confirmation_email(recipient: &str, link: &str) -> (r: ConfirmationEmail)
    ensures
        r.recipient@ == recipient@,
        r.subject@ == confirmation_subject(),
        r.html_content@ == confirmation_html(link@),
        r.text_content@ == confirmation_text(link@),
{
    proof {
        reveal_strlit("Welcome!");
        reveal_strlit("Welcome to our newsletter!<br />Click <a href=\"");
        reveal_strlit("\">here</a> to confirm your subscription.");
        reveal_strlit("Welcome to our newsletter!\nVisit ");
        reveal_strlit(" to confirm your subscription.");
    }
    let mut html_content = String::from_str("Welcome to our newsletter!<br />Click <a href=\"");
    html_content.append(link);
    html_content.append("\">here</a> to confirm your subscription.");
    let mut text_content = String::from_str("Welcome to our newsletter!\nVisit ");
    text_content.append(link);
    text_content.append(" to confirm your subscription.");
    ConfirmationEmail {
        recipient: String::from_str(recipient),
        subject: String::from_str("Welcome!"),
        html_content,
        text_content,
    }
}

/// The next step once the token was stored (`stored`) or the store failed:
/// the subscriber is sent the email whose link, below `base_url`, confirms
/// `token`; a failure is answered `500`.
pub fn token_stored(stored: bool, form: &FormData, base_url: &str, token: &str) -> (r: SubscribeAction)
    ensures
        !stored ==> r == SubscribeAction::Respond(HttpStatus::InternalServerError),
        stored ==> (r matches SubscribeAction::SendConfirmation(email) && {
            &&& email.recipient@ == form.email@
            &&& email.subject@ == confirmation_subject()
            &&& email.html_content@ == confirmation_html(confirmation_link_text(base_url@, token@))
            &&& email.text_content@ == confirmation_text(confirmation_link_text(base_url@, token@))
        }),
{
    if !stored {
        return SubscribeAction::Respond(HttpStatus::InternalServerError);
    }
    let link = confirmation_link(base_url, token);
    SubscribeAction::SendConfirmation(confirmation_email(form.email.as_str(), link.as_str()))
}

/// The answer once the confirmation email was sent (`sent`) or sending
/// failed.
pub fn confirmation_sent(sent: bool) -> (r: HttpStatus)
    ensures
        r == (if sent { HttpStatus::Success } else { HttpStatus::InternalServerError }),
{
    if sent {
        HttpStatus::Success
    } else {
        HttpStatus::InternalServerError
    }
}

/// For every base URL and token, of any length, the confirmation link is
/// the base URL, then `/subscriptions/confirm?token=`, then the whole token.
pub proof fn confirmation_links_end_with_the_whole_token(base_url: Seq<char>, token: Seq<char>)
    ensures
        ({
            let link = confirmation_link_text(base_url, token);
            &&& link.len() == base_url.len() + 29int + token.len()
            &&& link.subrange(0, base_url.len() as int) == base_url
            &&& link.subrange(base_url.len() as int, base_url.len() + 29int)
                == "/subscriptions/confirm?token="@
            &&& link.subrange(base_url.len() + 29int, link.len() as int) == token
        }),
{
    reveal_strlit("/subscriptions/confirm?token=");
    let link = confirmation_link_text(base_url, token);
    let path = "/subscriptions/confirm?token="@;
    assert(link.subrange(0, base_url.len() as int) =~= base_url);
    assert(link.subrange(base_url.len() as int, base_url.len() + 29int) =~= path);
    assert(link.subrange(base_url.len() + 29int, link.len() as int) =~= token);
}

/// For every link, of any length, the HTML content of the confirmation email
/// holds the whole link as the anchor's target, and the plain-text content
/// holds the whole link after "Visit ".
pub proof fn confirmation_emails_hold_the_whole_link(link: Seq<char>)
    ensures
        ({
            let html = confirmation_html(link);
            &&& html.len() == 47 + link.len() as int + 40
            &&& html.subrange(0, 47) == "Welcome to our newsletter!<br />Click <a href=\""@
            &&& html.subrange(47, 47 + link.len() as int) == link
            &&& html.subrange(47 + link.len() as int, html.len() as int)
                == "\">here</a> to confirm your subscription."@
        }),
        ({
            let text = confirmation_text(link);
            &&& text.len() == 33 + link.len() as int + 30
            &&& text.subrange(0, 33) == "Welcome to our newsletter!\nVisit "@
            &&& text.subrange(33, 33 + link.len() as int) == link
            &&& text.subrange(33 + link.len() as int, text.len() as int)
                == " to confirm your subscription."@
        }),
{
    reveal_strlit("Welcome to our newsletter!<br />Click <a href=\"");
    reveal_strlit("\">here</a> to confirm your subscription.");
    reveal_strlit("Welcome to our newsletter!\nVisit ");
    reveal_strlit(" to confirm your subscription.");
    let html = confirmation_html(link);
    let text = confirmation_text(link);
    assert(html.subrange(0, 47) =~= "Welcome to our newsletter!<br />Click <a href=\""@);
    assert(html.subrange(47, 47 + link.len() as int) =~= link);
    assert(html.subrange(47 + link.len() as int, html.len() as int)
        =~= "\">here</a> to confirm your subscription."@);
    assert(text.subrange(0, 33) =~= "Welcome to our newsletter!\nVisit "@);
    assert(text.subrange(33, 33 + link.len() as int) =~= link);
    assert(text.subrange(33 + link.len() as int, text.len() as int) =~= " to confirm your subscription."@);
}

/// Every name that the subscription form accepts also makes a subscriber name
/// of the domain, under either of its two limits.
pub proof fn accepted_names_are_subscriber_names(s: Seq<char>)
    requires
        valid_name(s, MAX_NAME_GRAPHEMES as nat),
    ensures
        valid_name(s, domain::MAX_NAME_GRAPHEMES as nat),
        valid_name(s, domain::subscriber_name::MAX_NAME_GRAPHEMES as nat),
{
    valid_names_stay_valid_under_larger_limits(
        s,
        MAX_NAME_GRAPHEMES as nat,
        domain::subscriber_name::MAX_NAME_GRAPHEMES as nat,
    );
}

} // verus!
