//! One-way hashing of passwords with Argon2id, and checking a candidate
//! password against a stored hash.

use crate::domain::password::{is_acceptable_password, password_length};
use crate::domain::two_fa_code::is_ascii_digit;
use vstd::prelude::*;
use vstd::string::StringExecFnsIsAscii;
use vstd::utf8::is_ascii_chars;

verus! {

/// Memory that one hash uses, in KiB.
pub const ARGON2_MEMORY_KIB: u32 = 15000;

/// Passes over the memory.
pub const ARGON2_ITERATIONS: u32 = 2;

/// Lanes computed in parallel.
pub const ARGON2_PARALLELISM: u32 = 1;

/// Most lanes that Argon2 takes.
pub const MAX_PARALLELISM: u32 = 0xFF_FFFF;

/// Most bytes of a password that Argon2 takes.
pub const MAX_HASHED_PASSWORD_LENGTH: u32 = 0xFFFF_FFFF;

/// Whether `password` is short enough for Argon2 to hash.
pub open spec fn can_be_hashed(password: Seq<char>) -> bool {
    password_length(password) <= MAX_HASHED_PASSWORD_LENGTH
}

/// The byte of the letter `p` in ASCII.
const ASCII_P: u8 = 0x70;

/// The byte of the sign `=` in ASCII.
const ASCII_EQUALS: u8 = 0x3d;

/// The byte of the digit `0` in ASCII.
const ASCII_ZERO: u8 = 0x30;

/// The byte of the digit `9` in ASCII.
const ASCII_NINE: u8 = 0x39;

/// The error type of `argon2::password_hash`.
#[verifier::external_type_specification]
#[verifier::external_body]
pub struct ExPasswordHashError(argon2::password_hash::Error);

/// Whether `argon2::Argon2::default().verify_password` accepts `candidate`
/// for the hash that `argon2::password_hash::PasswordHash::new` reads from
/// `expected_hash`; false where that text is no hash.
pub uninterp spec fn argon2_verifies(expected_hash: Seq<char>, candidate: Seq<char>) -> bool;

/// The PHC string that `argon2::Argon2::hash_password` makes of the password
/// with Argon2id, version 0x13, the salt (in B64) and the costs; `None` where
/// it refuses them.
pub uninterp spec fn argon2id_phc(
    password: Seq<char>,
    salt: Seq<char>,
    memory_kib: u32,
    iterations: u32,
    parallelism: u32,
) -> Option<Seq<char>>;

/// Calls `argon2::password_hash::SaltString::generate` on the thread's
/// random generator.
///
/// Trusted: the salt is the B64 text of 16 bytes, 22 characters long, which
/// `SaltString::from_b64` reads back and the hasher decodes to those 16
/// bytes; under such a salt and the fixed costs, which `argon2::Params::new`
/// accepts, `argon2::Argon2::hash_password` refuses a password only for
/// being longer than `MAX_HASHED_PASSWORD_LENGTH` bytes.
#[verifier::external_body]
fn fresh_salt() -> (salt: String)
    ensures
        forall|password: Seq<char>|
            can_be_hashed(password) ==> (#[trigger] argon2id_phc(
                password,
                salt@,
                ARGON2_MEMORY_KIB,
                ARGON2_ITERATIONS,
                ARGON2_PARALLELISM,
            )) is Some,
{
    argon2::password_hash::SaltString::generate(&mut rand::thread_rng()).as_str().to_owned()
}

/// Calls `argon2::Argon2::hash_password` with Argon2id, version 0x13, the
/// given costs and the salt read by `SaltString::from_b64`, and prints the
/// hash as a PHC string.
///
/// More lanes than Argon2 takes are left out: `argon2::Params::new` multiplies
/// the lanes by eight before it checks them.
///
/// Trusted: the outcome is a function of the arguments alone; verification
/// recomputes the hash from the algorithm, version, costs and salt that the
/// string carries, so a hash made of `password` verifies against `password`;
/// and the string is `$argon2id$v=19$m=..,t=..,p=..$`, the salt, `$` and the
/// hash in B64, all in ASCII, so it is at least eight bytes long and holds
/// `p=` once, before the lanes given.
#[verifier::external_body]
fn argon2id_hash(
    password: &str,
    salt: &str,
    memory_kib: u32,
    iterations: u32,
    parallelism: u32,
) -> (r: Result<String, argon2::password_hash::Error>)
    requires
        parallelism <= MAX_PARALLELISM,
    ensures
        r matches Ok(hash) ==> {
            &&& argon2id_phc(password@, salt@, memory_kib, iterations, parallelism) == Some(hash@)
            &&& argon2_verifies(hash@, password@)
            &&& parallelism_is_bounded(hash@)
            &&& is_acceptable_password(hash@)
        },
        r is Err ==> argon2id_phc(password@, salt@, memory_kib, iterations, parallelism) is None,
{
    let salt = argon2::password_hash::SaltString::from_b64(salt)?;
    let params = argon2::Params::new(memory_kib, iterations, parallelism, None)?;
    let hasher = argon2::Argon2::new(argon2::Algorithm::Argon2id, argon2::Version::V0x13, params);
    let hash = argon2::PasswordHasher::hash_password(&hasher, password.as_bytes(), &salt)?;
    Ok(hash.to_string())
}

/// Calls `argon2::password_hash::PasswordHash::new` on `expected_hash` and
/// `argon2::Argon2::default().verify_password` on the candidate's bytes.
///
/// A text that names more lanes than Argon2 takes is left out: the verifier
/// reads the lanes from the parameter `p` of the text, which is a run of
/// digits, and multiplies them by eight before it checks them.
///
/// Trusted: the outcome is a function of the two texts alone.
#[verifier::external_body]
fn argon2_verify(expected_hash: &str, candidate: &str) -> (r: Result<
    (),
    argon2::password_hash::Error,
>)
    requires
        parallelism_is_bounded(expected_hash@),
    ensures
        r is Ok <==> argon2_verifies(expected_hash@, candidate@),
{
    let parsed = argon2::password_hash::PasswordHash::new(expected_hash)?;
    argon2::PasswordVerifier::verify_password(
        &argon2::Argon2::default(),
        candidate.as_bytes(),
        &parsed,
    )
}

/// Why a password could not be hashed, or did not verify.
#[derive(Debug, Clone, Copy, PartialEq, Eq, Structural)]
pub enum PasswordHashError {
    /// The hash could not be computed, or names more lanes than Argon2
    /// takes.
    HashingFailed,
    /// The stored text is no hash or names more lanes than Argon2 takes, or
    /// the candidate does not match it.
    Mismatch,
}

/// The number that the run of decimal digits of `text` from the place `from`
/// on stands for, where the digits before it stood for `so_far`.
pub open spec fn digit_run_value(text: Seq<char>, from: int, so_far: nat) -> nat
    decreases text.len() - from,
{
    if 0 <= from < text.len() && is_ascii_digit(text[from]) {
        digit_run_value(text, from + 1, so_far * 10 + (text[from] as nat - '0' as nat) as nat)
    } else {
        so_far
    }
}

/// Whether `text` holds `p=` at the place `at`.
pub open spec fn names_parallelism(text: Seq<char>, at: int) -> bool {
    &&& 0 <= at
    &&& at + 1 < text.len()
    &&& text[at] == 'p'
    &&& text[at + 1] == '='
}

/// Whether `text` is in ASCII and names no more lanes than Argon2 takes:
/// wherever it holds `p=`, the run of digits that follows stands for a number
/// of at most `MAX_PARALLELISM`.
pub open spec fn parallelism_is_bounded(text: Seq<char>) -> bool {
    &&& is_ascii_chars(text)
    &&& forall|at: int| #[trigger]
        names_parallelism(text, at) ==> digit_run_value(text, at + 2, 0) <= MAX_PARALLELISM
}

/// Whether `hash` is the Argon2id hash of `password` with the fixed costs
/// under some salt.
pub open spec fn is_password_hash_of(hash: Seq<char>, password: Seq<char>) -> bool {
    exists|salt: Seq<char>| #[trigger]
        argon2id_phc(password, salt, ARGON2_MEMORY_KIB, ARGON2_ITERATIONS, ARGON2_PARALLELISM)
            == Some(hash)
}

/// Whether a stored hash accepts a candidate password: the text names no
/// more lanes than Argon2 takes, and the candidate verifies against it.
pub open spec fn hash_accepts(expected_hash: Seq<char>, candidate: Seq<char>) -> bool {
    parallelism_is_bounded(expected_hash) && argon2_verifies(expected_hash, candidate)
}

/// What hashing `password` under `salt` owes: the Argon2id hash with the
/// fixed costs, which accepts the password and is long enough to stand in a
/// password's place; or `HashingFailed` where the hasher refuses the salt or
/// the password, and nowhere else.
pub open spec fn hashed_post(
    password: Seq<char>,
    salt: Seq<char>,
    r: Result<String, PasswordHashError>,
) -> bool {
    match argon2id_phc(password, salt, ARGON2_MEMORY_KIB, ARGON2_ITERATIONS, ARGON2_PARALLELISM) {
        Some(hash) => {
            &&& r matches Ok(found)
            &&& found@ == hash
            &&& hash_accepts(hash, password)
            &&& is_acceptable_password(hash)
        },
        None => r matches Err(e) && e == PasswordHashError::HashingFailed,
    }
}

/// A run of digits stands for no less than the digits before it.
proof fn lemma_digit_run_value_grows(text: Seq<char>, from: int, so_far: nat)
    ensures
        digit_run_value(text, from, so_far) >= so_far,
    decreases text.len() - from,
{
    if 0 <= from < text.len() && is_ascii_digit(text[from]) {
        lemma_digit_run_value_grows(
            text,
            from + 1,
            so_far * 10 + (text[from] as nat - '0' as nat) as nat,
        );
    }
}

/// Whether the run of digits of `bytes` from the place `from` on stands for
/// a number of at most `MAX_PARALLELISM`.
fn digit_run_is_bounded(bytes: &[u8], from: usize, Ghost(text): Ghost<Seq<char>>) -> (bounded: bool)
    requires
        from <= bytes@.len(),
        is_ascii_chars(text),
        bytes@.len() == text.len(),
        forall|i: int| 0 <= i < text.len() ==> bytes@[i] == #[trigger] text[i] as u8,
    ensures
        bounded == (digit_run_value(text, from as int, 0) <= MAX_PARALLELISM),
{
    let mut at: usize = from;
    let mut so_far: u32 = 0;
    while at < bytes.len()
        invariant_except_break
            from <= at <= bytes@.len(),
            so_far <= MAX_PARALLELISM,
            digit_run_value(text, from as int, 0) == digit_run_value(text, at as int, so_far as nat),
        invariant
            is_ascii_chars(text),
            bytes@.len() == text.len(),
            forall|i: int| 0 <= i < text.len() ==> bytes@[i] == #[trigger] text[i] as u8,
        ensures
            so_far <= MAX_PARALLELISM,
            digit_run_value(text, from as int, 0) == so_far,
        decreases bytes@.len() - at,
    {
        let byte: u8 = bytes[at];
        if byte < ASCII_ZERO || byte > ASCII_NINE {
            assert(!is_ascii_digit(text[at as int]));
            break;
        }
        assert(is_ascii_digit(text[at as int]));
        let next: u32 = so_far * 10 + (byte - ASCII_ZERO) as u32;
        assert(next as nat == so_far as nat * 10 + (text[at as int] as nat - '0' as nat) as nat);
        if next > MAX_PARALLELISM {
            proof {
                lemma_digit_run_value_grows(text, at as int + 1, next as nat);
            }
            return false;
        }
        so_far = next;
        at = at + 1;
    }
    true
}

/// Whether `text` is in ASCII and names no more lanes than Argon2 takes.
pub fn has_bounded_parallelism(text: &str) -> (bounded: bool)
    ensures
        bounded == parallelism_is_bounded(text@),
{
    if !text.is_ascii() {
        return false;
    }
    let bytes: &[u8] = text.as_bytes();
    proof {
        vstd::utf8::is_ascii_chars_encode_utf8(text@);
    }
    let mut at: usize = 0;
    while at < bytes.len()
        invariant
            at <= bytes@.len(),
            is_ascii_chars(text@),
            bytes@.len() == text@.len(),
            forall|i: int| 0 <= i < text@.len() ==> bytes@[i] == #[trigger] text@[i] as u8,
            forall|i: int|
                0 <= i < at && #[trigger] names_parallelism(text@, i) ==> digit_run_value(
                    text@,
                    i + 2,
                    0,
                ) <= MAX_PARALLELISM,
        decreases bytes@.len() - at,
    {
        if bytes[at] == ASCII_P && at + 1 < bytes.len() && bytes[at + 1] == ASCII_EQUALS {
            assert(names_parallelism(text@, at as int));
            if !digit_run_is_bounded(bytes, at + 2, Ghost(text@)) {
                return false;
            }
        } else {
            assert(!names_parallelism(text@, at as int));
        }
        at = at + 1;
    }
    true
}

/// Keeps a computed hash that names no more lanes than Argon2 takes, and
/// reports any other hash and any failure of the hasher as `HashingFailed`.
pub fn hash_outcome(outcome: Result<String, argon2::password_hash::Error>) -> (r: Result<
    String,
    PasswordHashError,
>)
    ensures
        (outcome matches Ok(hash) && parallelism_is_bounded(hash@)) ==> r == Ok::<
            String,
            PasswordHashError,
        >(outcome->Ok_0),
        !(outcome matches Ok(hash) && parallelism_is_bounded(hash@)) ==> r == Err::<
            String,
            PasswordHashError,
        >(PasswordHashError::HashingFailed),
{
    match outcome {
        Ok(hash) => {
            if has_bounded_parallelism(hash.as_str()) {
                Ok(hash)
            } else {
                Err(PasswordHashError::HashingFailed)
            }
        },
        Err(_) => Err(PasswordHashError::HashingFailed),
    }
}

/// Hashes `password` under `salt`, a text in B64 without padding, with
/// Argon2id and the fixed costs.
pub fn compute_password_hash_with_salt(password: &str, salt: &str) -> (r: Result<
    String,
    PasswordHashError,
>)
    ensures
        hashed_post(password@, salt@, r),
{
    hash_outcome(
        argon2id_hash(password, salt, ARGON2_MEMORY_KIB, ARGON2_ITERATIONS, ARGON2_PARALLELISM),
    )
}

/// Hashes `password` under a fresh random salt. A password that is short
/// enough for Argon2 is hashed; any other is refused with `HashingFailed`.
/// The hash that comes back is the Argon2id hash of the password with the
/// fixed costs, accepts it, and is long enough to stand in a password's
/// place.
pub fn compute_password_hash(password: &str) -> (r: Result<String, PasswordHashError>)
    ensures
        exists|salt: Seq<char>| #[trigger] hashed_post(password@, salt, r),
        can_be_hashed(password@) ==> r is Ok,
        r matches Ok(hash) ==> {
            &&& is_password_hash_of(hash@, password@)
            &&& hash_accepts(hash@, password@)
            &&& is_acceptable_password(hash@)
        },
        r matches Err(e) ==> e == PasswordHashError::HashingFailed,
{
    let salt = fresh_salt();
    compute_password_hash_with_salt(password, salt.as_str())
}

/// Succeeds exactly when the stored hash accepts the candidate: the text
/// names no more lanes than Argon2 takes, and the candidate verifies against
/// it.
pub fn verify_password_hash(expected_password_hash: &str, password_candidate: &str) -> (r: Result<
    (),
    PasswordHashError,
>)
    ensures
        hash_accepts(expected_password_hash@, password_candidate@) ==> r == Ok::<
            (),
            PasswordHashError,
        >(()),
        !hash_accepts(expected_password_hash@, password_candidate@) ==> r == Err::<
            (),
            PasswordHashError,
        >(PasswordHashError::Mismatch),
{
    if !has_bounded_parallelism(expected_password_hash) {
        return Err(PasswordHashError::Mismatch);
    }
    verification_outcome(argon2_verify(expected_password_hash, password_candidate))
}

/// Reports any failure of the verifier as a mismatch.
pub fn verification_outcome(outcome: Result<(), argon2::password_hash::Error>) -> (r: Result<
    (),
    PasswordHashError,
>)
    ensures
        outcome is Ok ==> r == Ok::<(), PasswordHashError>(()),
        outcome is Err ==> r == Err::<(), PasswordHashError>(PasswordHashError::Mismatch),
{
    match outcome {
        Ok(()) => Ok(()),
        Err(_) => Err(PasswordHashError::Mismatch),
    }
}

} // verus!
