//! The identifier that ties a login to its later two-factor verification.

use vstd::prelude::*;

verus! {

/// The lower-case hyphenated text of the UUID that `uuid::Uuid::parse_str`
/// reads from `text`, or `None` where it rejects `text`.
pub uninterp spec fn uuid_hyphenated(text: Seq<char>) -> Option<Seq<char>>;

/// Whether `text` is a UUID in the form that `uuid::Uuid` prints.
pub open spec fn is_login_attempt_id(text: Seq<char>) -> bool {
    uuid_hyphenated(text) == Some(text)
}

/// What `LoginAttemptId::parse` says of a text it rejects.
pub open spec fn invalid_login_attempt_id_message() -> Seq<char> {
    "Invalid login attempt id"@
}

/// Calls `uuid::Uuid::parse_str` on `id` and prints the UUID it read.
///
/// Trusted: the answer is a function of the text alone, and the printed form
/// of a UUID reads back as itself.
#[verifier::external_body]
fn parse_uuid(id: &str) -> (r: Option<String>)
    ensures
        r is Some <==> uuid_hyphenated(id@) is Some,
        r matches Some(text) ==> uuid_hyphenated(id@) == Some(text@) && is_login_attempt_id(
            text@,
        ),
{
    match uuid::Uuid::parse_str(id) {
        Ok(parsed) => Some(parsed.to_string()),
        Err(_) => None,
    }
}

/// Calls `uuid::Uuid::new_v4` and prints the UUID it made.
///
/// Trusted: the printed form of a UUID reads back as itself.
#[verifier::external_body]
fn new_uuid_v4() -> (r: String)
    ensures
        is_login_attempt_id(r@),
{
    uuid::Uuid::new_v4().to_string()
}

/// A UUID in lower-case hyphenated form.
#[derive(Debug)]
pub struct LoginAttemptId(String);

impl View for LoginAttemptId {
    type V = Seq<char>;

    closed spec fn view(&self) -> Seq<char> {
        self.0@
    }
}

impl LoginAttemptId {
    #[verifier::type_invariant]
    spec fn printed_uuid(self) -> bool {
        is_login_attempt_id(self.0@)
    }

    /// Accepts `id` exactly when it reads as a UUID, and keeps that UUID in
    /// lower-case hyphenated form.
    pub fn parse(id: String) -> (r: Result<Self, String>)
        ensures
            uuid_hyphenated(id@) is Some ==> r is Ok && Some(r->Ok_0@) == uuid_hyphenated(id@),
            uuid_hyphenated(id@) is None ==> r is Err && r->Err_0@
                == invalid_login_attempt_id_message(),
    {
        match parse_uuid(id.as_str()) {
            Some(text) => Ok(LoginAttemptId(text)),
            None => Err("Invalid login attempt id".to_owned()),
        }
    }

    /// The identifier's text: a UUID in lower-case hyphenated form.
    pub fn as_ref(&self) -> (s: &str)
        ensures
            s@ == self@,
            is_login_attempt_id(s@),
    {
        proof {
            use_type_invariant(self);
        }
        self.0.as_str()
    }
}

impl Default for LoginAttemptId {
    /// A fresh random identifier.
    fn default() -> (r: Self)
        ensures
            is_login_attempt_id(r@),
    {
        LoginAttemptId(new_uuid_v4())
    }
}

impl Clone for LoginAttemptId {
    fn clone(&self) -> (r: Self)
        ensures
            r@ == self@,
    {
        proof {
            use_type_invariant(self);
        }
        LoginAttemptId(self.0.clone())
    }
}

impl PartialEq for LoginAttemptId {
    fn eq(&self, other: &Self) -> (r: bool) {
        self.0 == other.0
    }
}

impl vstd::std_specs::cmp::PartialEqSpecImpl for LoginAttemptId {
    open spec fn obeys_eq_spec() -> bool {
        true
    }

    open spec fn eq_spec(&self, other: &Self) -> bool {
        self@ == other@
    }
}

} // verus!
