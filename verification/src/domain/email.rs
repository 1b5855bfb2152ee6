//! An email address that the address parser accepts.

use vstd::prelude::*;
use vstd::string::StringExecFns;

verus! {

/// Whether `email_address::EmailAddress::parse_with_options`, asked to require
/// a top-level domain, accepts `text`.
pub uninterp spec fn email_address_accepts(text: Seq<char>) -> bool;

/// Calls `email_address::EmailAddress::parse_with_options` on `address` with
/// the default options and a required top-level domain.
///
/// Trusted: the answer is a function of the text alone; an accepted address
/// is kept exactly as given; and an address without `@` is never accepted
/// (the parser reports a missing separator).
#[verifier::external_body]
fn parse_with_required_tld(address: &str) -> (r: Option<String>)
    ensures
        r is Some <==> email_address_accepts(address@),
        r matches Some(text) ==> text@ == address@ && address@.contains('@'),
{
    let options = email_address::Options::default().with_required_tld();
    match email_address::EmailAddress::parse_with_options(address, options) {
        Ok(parsed) => Some(String::from(parsed.as_str())),
        Err(_) => None,
    }
}

/// What `Email::parse` says of a text it rejects.
pub open spec fn invalid_email_message(text: Seq<char>) -> Seq<char> {
    text + " is not a valid email."@
}

/// A validated email address; the natural key of users and challenges.
#[derive(Debug, Hash)]
pub struct Email(String);

impl View for Email {
    type V = Seq<char>;

    closed spec fn view(&self) -> Seq<char> {
        self.0@
    }
}

impl Email {
    #[verifier::type_invariant]
    spec fn accepted(self) -> bool {
        email_address_accepts(self.0@)
    }

    /// Accepts `email` exactly when the address parser does, and keeps the
    /// text unchanged; otherwise reports the text as invalid.
    pub fn parse(email: &str) -> (r: Result<Self, String>)
        ensures
            email_address_accepts(email@) ==> r is Ok && r->Ok_0@ == email@,
            !email_address_accepts(email@) ==> r is Err && r->Err_0@ == invalid_email_message(
                email@,
            ),
            !email@.contains('@') ==> r is Err,
    {
        match parse_with_required_tld(email) {
            Some(text) => Ok(Email(text)),
            None => Err(email.to_owned().concat(" is not a valid email.")),
        }
    }

    /// The address as text, which the address parser accepts.
    pub fn as_ref(&self) -> (s: &str)
        ensures
            s@ == self@,
            email_address_accepts(s@),
    {
        proof {
            use_type_invariant(self);
        }
        self.0.as_str()
    }
}

impl Clone for Email {
    fn clone(&self) -> (r: Self)
        ensures
            r@ == self@,
    {
        proof {
            use_type_invariant(self);
        }
        Email(self.0.clone())
    }
}

impl PartialEq for Email {
    fn eq(&self, other: &Self) -> (r: bool) {
        self.0 == other.0
    }
}

impl Eq for Email {}

impl vstd::std_specs::cmp::PartialEqSpecImpl for Email {
    open spec fn obeys_eq_spec() -> bool {
        true
    }

    open spec fn eq_spec(&self, other: &Self) -> bool {
        self@ == other@
    }
}

} // verus!
