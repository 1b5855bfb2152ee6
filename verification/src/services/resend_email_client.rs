//! The computing parts of an email client over an HTTP mail service: the
//! body of the request and its authorization header. Sending the request is
//! left to the caller.

use crate::domain::email::Email;
use vstd::prelude::*;
use vstd::string::StringExecFns;

verus! {

/// Path of the endpoint that accepts a message, below the service's base
/// address.
pub const EMAILS_PATH: &'static str = "/emails";

/// Name of the header that carries the authorization token.
pub const AUTHORIZATION_HEADER: &'static str = "Authorization";

/// The body of a request to send one message. The content goes out both as
/// plain text and as HTML.
#[derive(Debug)]
pub struct SendEmailRequest {
    pub from: String,
    pub to: String,
    pub subject: String,
    pub text: String,
    pub html: String,
}

/// The request body for a message from `sender` to `recipient`.
pub fn send_email_request(sender: &Email, recipient: &Email, subject: &str, content: &str) -> (body:
    SendEmailRequest)
    ensures
        body.from@ == sender@,
        body.to@ == recipient@,
        body.subject@ == subject@,
        body.text@ == content@,
        body.html@ == content@,
{
    SendEmailRequest {
        from: sender.as_ref().to_owned(),
        to: recipient.as_ref().to_owned(),
        subject: subject.to_owned(),
        text: content.to_owned(),
        html: content.to_owned(),
    }
}

/// The value of the authorization header for `token`.
pub fn bearer_authorization(token: &str) -> (value: String)
    ensures
        value@ == "Bearer "@ + token@,
{
    "Bearer ".to_owned().concat(token)
}

} // verus!
