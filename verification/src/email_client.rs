//! What is sent to the email delivery service.

use vstd::prelude::*;

verus! {

/// The body of a request that asks the delivery service to send one email.
pub struct SendEmailRequest {
    pub from: String,
    pub to: String,
    pub subject: String,
    pub html_body: String,
    pub text_body: String,
}

impl SendEmailRequest {
    /// The request that sends `subject` with the two renderings of its
    /// content from `sender` to `recipient`.
    pub fn new(
        sender: &str,
        recipient: &str,
        subject: &str,
        html_content: &str,
        text_content: &str,
    ) -> (r: SendEmailRequest)
        ensures
            r.from@ == sender@,
            r.to@ == recipient@,
            r.subject@ == subject@,
            r.html_body@ == html_content@,
            r.text_body@ == text_content@,
    {
        SendEmailRequest {
            from: String::from_str(sender),
            to: String::from_str(recipient),
            subject: String::from_str(subject),
            html_body: String::from_str(html_content),
            text_body: String::from_str(text_content),
        }
    }
}

} // verus!
