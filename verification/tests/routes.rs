use zero2prod_newsletter::greeting;
use zero2prod_newsletter::routes::subscriptions::{
    confirmation_email, confirmation_link, confirmation_sent, is_name_valid,
    pending_confirmation_status, subscribe, subscriber_saved, token_stored, FormData,
    SubscribeAction,
};
use zero2prod_newsletter::routes::subsriptions_confirm::{
    active_status, subscriber_confirmed, subscriber_found, ConfirmationError, Parameters,
};
use zero2prod_newsletter::routes::HttpStatus;

fn form(name: &str) -> FormData {
    FormData { email: "ursula_le_guin@gmail.com".to_string(), name: name.to_string() }
}

#[test]
fn status_codes() {
    assert_eq!(HttpStatus::Success.code(), 200);
    assert_eq!(HttpStatus::BadRequest.code(), 400);
    assert_eq!(HttpStatus::Unauthorized.code(), 401);
    assert_eq!(HttpStatus::InternalServerError.code(), 500);
}

#[test]
fn name_validity_limit_is_255_graphemes() {
    assert!(is_name_valid(&"a̐".repeat(255)));
    assert!(!is_name_valid(&"a̐".repeat(256)));
    assert!(!is_name_valid(""));
    assert!(!is_name_valid("   "));
    assert!(!is_name_valid("le}guin"));
    assert!(is_name_valid("le guin"));
}

#[test]
fn invalid_names_are_answered_bad_request() {
    assert_eq!(subscribe(&form("")), SubscribeAction::Respond(HttpStatus::BadRequest));
    assert_eq!(subscribe(&form("  ")), SubscribeAction::Respond(HttpStatus::BadRequest));
    assert_eq!(subscribe(&form("a/b")), SubscribeAction::Respond(HttpStatus::BadRequest));
}

#[test]
fn valid_names_are_saved() {
    assert_eq!(subscribe(&form("le guin")), SubscribeAction::SaveSubscriber);
    assert_eq!(subscriber_saved(true), SubscribeAction::StoreToken);
    assert_eq!(subscriber_saved(false), SubscribeAction::Respond(HttpStatus::InternalServerError));
}

#[test]
fn unknown_tokens_are_unauthorized() {
    let err = subscriber_found(Ok(None)).err().expect("an unknown token fails");
    assert!(matches!(err, ConfirmationError::UnknownToken));
    assert_eq!(err.status_code(), HttpStatus::Unauthorized);
    assert_eq!(err.to_string(), "There is no subscriber with the provided token");
}

#[test]
fn found_subscribers_are_confirmed() {
    assert_eq!(subscriber_found(Ok(Some(42))).ok(), Some(42));
    assert_eq!(subscriber_confirmed(Ok(())).ok(), Some(HttpStatus::Success));
}

#[test]
fn failed_lookups_are_unexpected_errors() {
    let err = subscriber_found(Err("connection reset".to_string())).err().unwrap();
    assert_eq!(err.status_code(), HttpStatus::InternalServerError);
    assert_eq!(err.to_string(), "Failed to retrive a subscriber with the provided token");
    match err {
        ConfirmationError::UnexpectedError { cause, .. } => assert_eq!(cause, "connection reset"),
        ConfirmationError::UnknownToken => panic!("expected an unexpected error"),
    }
}

#[test]
fn failed_updates_are_unexpected_errors() {
    let err = subscriber_confirmed(Err("timeout".to_string())).err().unwrap();
    assert_eq!(err.status_code(), HttpStatus::InternalServerError);
    assert_eq!(err.to_string(), "Failed to update subscriber to 'confirmed' status");
}

#[test]
fn parameters_hold_the_token() {
    let p = Parameters { subscription_token: "abc".to_string() };
    assert_eq!(p.subscription_token, "abc");
}

#[test]
fn greeting_names_the_visitor() {
    assert_eq!(greeting("Ursula"), "Hello Ursula!");
    assert_eq!(greeting(""), "Hello !");
}

#[test]
fn names_accepted_by_the_form_make_subscriber_names() {
    let name = "a̐".repeat(255);
    assert!(is_name_valid(&name));
    assert!(zero2prod_newsletter::domain::SubscriberName::try_parse(name.clone()).is_some());
    assert!(zero2prod_newsletter::domain::subscriber_name::SubscriberName::parse(name).is_ok());
}

#[test]
fn row_statuses() {
    assert_eq!(pending_confirmation_status(), "pending_confirmation");
    assert_eq!(active_status(), "active");
}

#[test]
fn confirmation_link_points_at_the_confirm_endpoint() {
    assert_eq!(
        confirmation_link("https://api.example.com", "abc123"),
        "https://api.example.com/subscriptions/confirm?token=abc123"
    );
}

#[test]
fn confirmation_email_carries_the_link() {
    let email = confirmation_email("ursula@example.com", "http://x/c?token=t");
    assert_eq!(email.recipient, "ursula@example.com");
    assert_eq!(email.subject, "Welcome!");
    assert_eq!(
        email.html_content,
        "Welcome to our newsletter!<br />Click <a href=\"http://x/c?token=t\">here</a> to confirm your subscription."
    );
    assert_eq!(
        email.text_content,
        "Welcome to our newsletter!\nVisit http://x/c?token=t to confirm your subscription."
    );
}

#[test]
fn stored_tokens_lead_to_a_confirmation_email() {
    let f = form("le guin");
    match token_stored(true, &f, "http://127.0.0.1", "tok") {
        SubscribeAction::SendConfirmation(email) => {
            assert_eq!(email.recipient, "ursula_le_guin@gmail.com");
            assert!(email.text_content.contains("http://127.0.0.1/subscriptions/confirm?token=tok"));
        }
        other => panic!("unexpected action {:?}", other),
    }
    assert_eq!(
        token_stored(false, &f, "http://127.0.0.1", "tok"),
        SubscribeAction::Respond(HttpStatus::InternalServerError)
    );
}

#[test]
fn sent_confirmations_are_answered() {
    assert_eq!(confirmation_sent(true), HttpStatus::Success);
    assert_eq!(confirmation_sent(false), HttpStatus::InternalServerError);
}
