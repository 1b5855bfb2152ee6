//! The capability to deliver a message out of band.

use crate::domain::email::Email;
use vstd::prelude::*;

verus! {

/// Delivers a message to an email address.
///
/// A client type declares with `obeys_model` whether `delivers` tells which
/// messages it gets through. The default is that it does not: of a client
/// over a mail service, which can fail for reasons of its own, nothing is
/// concluded.
pub trait EmailClient {
    /// Whether this type keeps to the contract below.
    open spec fn obeys_model() -> bool {
        false
    }

    /// Whether the client gets this message through.
    open spec fn delivers(
        &self,
        recipient: Seq<char>,
        subject: Seq<char>,
        content: Seq<char>,
    ) -> bool {
        false
    }

    /// Sends `content` under `subject` to `recipient`. An error describes
    /// why the message did not go out.
    fn send_email(&self, recipient: &Email, subject: &str, content: &str) -> (r: Result<
        (),
        String,
    >)
        ensures
            Self::obeys_model() ==> (r is Ok <==> self.delivers(recipient@, subject@, content@)),
    ;
}

} // verus!
