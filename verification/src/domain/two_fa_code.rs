//! The six-digit code of a two-factor challenge.

use vstd::prelude::*;
use vstd::string::StringExecFns;
use vstd::string::StringExecFnsIsAscii;

verus! {

/// Number of digits in a code.
pub const TWO_FA_CODE_LENGTH: usize = 6;

/// The byte of the digit `0` in ASCII.
const ASCII_ZERO: u8 = 0x30;

/// The byte of the digit `9` in ASCII.
const ASCII_NINE: u8 = 0x39;

/// Whether `c` is one of the ASCII digits `0` to `9`.
pub open spec fn is_ascii_digit(c: char) -> bool {
    '0' <= c <= '9'
}

/// Whether `text` is exactly six ASCII digits.
pub open spec fn is_two_fa_code(text: Seq<char>) -> bool {
    &&& text.len() == TWO_FA_CODE_LENGTH
    &&& forall|i: int| 0 <= i < text.len() ==> is_ascii_digit(#[trigger] text[i])
}

/// What `TwoFACode::parse` says of a text it rejects.
pub open spec fn invalid_two_fa_code_message() -> Seq<char> {
    "Invalid 2FA code"@
}

/// Calls `rand::Rng::gen_range` on the thread's generator with the range
/// `0..10`.
///
/// Trusted: the value lies in the range asked for.
#[verifier::external_body]
fn random_digit() -> (d: u8)
    ensures
        d < 10,
{
    rand::Rng::gen_range(&mut rand::thread_rng(), 0u8..10u8)
}

/// The one-character text of the digit `d`.
fn digit_text(d: u8) -> (s: &'static str)
    requires
        d < 10,
    ensures
        s@.len() == 1,
        s@[0] == ('0' as u8 + d) as char,
        is_ascii_digit(s@[0]),
{
    proof {
        reveal_strlit("0");
        reveal_strlit("1");
        reveal_strlit("2");
        reveal_strlit("3");
        reveal_strlit("4");
        reveal_strlit("5");
        reveal_strlit("6");
        reveal_strlit("7");
        reveal_strlit("8");
        reveal_strlit("9");
    }
    match d {
        0 => "0",
        1 => "1",
        2 => "2",
        3 => "3",
        4 => "4",
        5 => "5",
        6 => "6",
        7 => "7",
        8 => "8",
        _ => "9",
    }
}

/// A code of exactly six ASCII digits; leading zeros count.
#[derive(Debug)]
pub struct TwoFACode(String);

impl View for TwoFACode {
    type V = Seq<char>;

    closed spec fn view(&self) -> Seq<char> {
        self.0@
    }
}

impl TwoFACode {
    #[verifier::type_invariant]
    spec fn six_digits(self) -> bool {
        is_two_fa_code(self.0@)
    }

    /// Accepts `code` exactly when it is six ASCII digits, and keeps the text
    /// unchanged.
    pub fn parse(code: String) -> (r: Result<Self, String>)
        ensures
            is_two_fa_code(code@) ==> r is Ok && r->Ok_0@ == code@,
            !is_two_fa_code(code@) ==> r is Err && r->Err_0@ == invalid_two_fa_code_message(),
    {
        if !code.is_ascii() {
            return Err("Invalid 2FA code".to_owned());
        }
        let text: &str = code.as_str();
        let bytes: &[u8] = text.as_bytes();
        proof {
            vstd::utf8::is_ascii_chars_encode_utf8(code@);
        }
        if bytes.len() != TWO_FA_CODE_LENGTH {
            return Err("Invalid 2FA code".to_owned());
        }
        let mut i: usize = 0;
        while i < TWO_FA_CODE_LENGTH
            invariant
                i <= TWO_FA_CODE_LENGTH,
                bytes@.len() == TWO_FA_CODE_LENGTH,
                bytes@.len() == code@.len(),
                vstd::utf8::is_ascii_chars(code@),
                forall|j: int| 0 <= j < code@.len() ==> bytes@[j] == #[trigger] code@[j] as u8,
                forall|j: int| 0 <= j < i ==> is_ascii_digit(#[trigger] code@[j]),
            decreases TWO_FA_CODE_LENGTH - i,
        {
            let b: u8 = bytes[i];
            if b < ASCII_ZERO || b > ASCII_NINE {
                assert(!is_ascii_digit(code@[i as int]));
                return Err("Invalid 2FA code".to_owned());
            }
            i = i + 1;
        }
        Ok(TwoFACode(code))
    }

    /// The code's text: six ASCII digits.
    pub fn as_ref(&self) -> (s: &str)
        ensures
            s@ == self@,
            is_two_fa_code(s@),
    {
        proof {
            use_type_invariant(self);
        }
        self.0.as_str()
    }
}

impl Default for TwoFACode {
    /// A fresh code: six digits, each drawn from the thread's random
    /// generator.
    fn default() -> (r: Self)
        ensures
            is_two_fa_code(r@),
    {
        let mut code = String::new();
        let mut i: usize = 0;
        while i < TWO_FA_CODE_LENGTH
            invariant
                i <= TWO_FA_CODE_LENGTH,
                code@.len() == i,
                forall|j: int| 0 <= j < code@.len() ==> is_ascii_digit(#[trigger] code@[j]),
            decreases TWO_FA_CODE_LENGTH - i,
        {
            let d: u8 = random_digit();
            code.append(digit_text(d));
            i = i + 1;
        }
        TwoFACode(code)
    }
}

impl Clone for TwoFACode {
    fn clone(&self) -> (r: Self)
        ensures
            r@ == self@,
    {
        proof {
            use_type_invariant(self);
        }
        TwoFACode(self.0.clone())
    }
}

impl PartialEq for TwoFACode {
    fn eq(&self, other: &Self) -> (r: bool) {
        self.0 == other.0
    }
}

impl vstd::std_specs::cmp::PartialEqSpecImpl for TwoFACode {
    open spec fn obeys_eq_spec() -> bool {
        true
    }

    open spec fn eq_spec(&self, other: &Self) -> bool {
        self@ == other@
    }
}

} // verus!
