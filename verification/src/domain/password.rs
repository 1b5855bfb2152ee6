//! A user's password as submitted: any text of at least eight bytes.

use vstd::prelude::*;
use vstd::utf8::encode_utf8;

verus! {

/// Fewest bytes a password may have.
pub const MIN_PASSWORD_LENGTH: usize = 8;

/// Length of `text` in bytes of its UTF-8 encoding.
pub open spec fn password_length(text: Seq<char>) -> nat {
    encode_utf8(text).len()
}

/// Whether `text` is long enough to be a password.
pub open spec fn is_acceptable_password(text: Seq<char>) -> bool {
    password_length(text) >= MIN_PASSWORD_LENGTH
}

/// A password that has passed the length check.
#[derive(Debug)]
pub struct Password(String);

impl View for Password {
    type V = Seq<char>;

    closed spec fn view(&self) -> Seq<char> {
        self.0@
    }
}

impl Password {
    #[verifier::type_invariant]
    spec fn long_enough(self) -> bool {
        is_acceptable_password(self.0@)
    }

    /// Accepts `password` exactly when it has at least eight bytes, and keeps
    /// the text unchanged.
    pub fn parse(password: &str) -> (r: Result<Self, String>)
        ensures
            is_acceptable_password(password@) ==> r is Ok && r->Ok_0@ == password@,
            !is_acceptable_password(password@) ==> r is Err && r->Err_0@
                == "Failed to parse string to a Password type"@,
    {
        if password.as_bytes().len() >= MIN_PASSWORD_LENGTH {
            Ok(Self(password.to_owned()))
        } else {
            Err("Failed to parse string to a Password type".to_owned())
        }
    }

    /// The password's text, which has at least eight bytes.
    pub fn as_ref(&self) -> (s: &str)
        ensures
            s@ == self@,
            is_acceptable_password(s@),
    {
        proof {
            use_type_invariant(self);
        }
        self.0.as_str()
    }
}

impl Clone for Password {
    fn clone(&self) -> (r: Self)
        ensures
            r@ == self@,
    {
        proof {
            use_type_invariant(self);
        }
        Password(self.0.clone())
    }
}

impl PartialEq for Password {
    fn eq(&self, other: &Self) -> (r: bool) {
        self.0 == other.0
    }
}

impl Eq for Password {}

impl vstd::std_specs::cmp::PartialEqSpecImpl for Password {
    open spec fn obeys_eq_spec() -> bool {
        true
    }

    open spec fn eq_spec(&self, other: &Self) -> bool {
        self@ == other@
    }
}

} // verus!
