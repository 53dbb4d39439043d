use vstd::prelude::*;

use crate::http_body::digit_char;

verus! {

/// A number below 100 written with exactly two decimal digits, as the
/// format `{:02}` writes it.
pub open spec fn two_digit_text(n: u32) -> Seq<char>
    recommends
        n < 100,
{
    seq![digit_char((n / 10) as nat), digit_char((n % 10) as nat)]
}

/// The first seven characters of a bcrypt hash that `bcrypt::hash` writes at
/// a cost: the version `$2b$`, the cost in two digits, and `$`.
pub open spec fn bcrypt_hash_prefix(cost: u32) -> Seq<char> {
    "$2b$"@ + two_digit_text(cost) + "$"@
}

/// What `bcrypt::verify` gives for a password and a stored hash: whether the
/// password matches the hash, or the text of the error (a malformed hash).
pub uninterp spec fn bcrypt_verify_outcome(password: Seq<char>, hash: Seq<char>) -> Result<bool, Seq<char>>;

/// The text of bcrypt's randomness failure: it starts with "Rand error: ".
pub open spec fn is_randomness_failure(text: Seq<char>) -> bool {
    text.len() >= 12 && text.subrange(0, 12) == "Rand error: "@
}

/// A password matches a stored hash: `bcrypt::verify` says so.
pub open spec fn password_verifies(password: Seq<char>, hash: Seq<char>) -> bool {
    bcrypt_verify_outcome(password, hash) == Ok::<bool, Seq<char>>(true)
}

/// The model of a result whose error is a text.
pub open spec fn text_result<T>(r: Result<T, String>) -> Result<T, Seq<char>> {
    match r {
        Ok(v) => Ok(v),
        Err(m) => Err(m@),
    }
}

/// Checks a password against a stored bcrypt hash with `bcrypt::verify`;
/// an error comes back as its display text.
/// Trusted: the result, error text included, is `bcrypt_verify_outcome` of
/// the two arguments (the crate recomputes the hash with the salt and cost
/// read from the stored hash, so the answer depends on the arguments alone).
#[verifier::external_body]
pub(crate) fn bcrypt_verify(password: &str, hash: &str) -> (r: Result<bool, String>)
    ensures
        text_result(r) == bcrypt_verify_outcome(password@, hash@),
{
    match bcrypt::verify(password, hash) {
        Ok(matches) => Ok(matches),
        Err(e) => Err(e.to_string()),
    }
}

/// Hashes a password with `bcrypt::hash` at the given cost, under a fresh
/// random salt; an error comes back as its display text.
/// Trusted: a cost outside 4..=31 is refused; within that range the only
/// failure is that of the randomness source, whose text starts with
/// "Rand error: "; a hash that comes back is the
/// 60-character version-2b form, `$2b$`, the cost in two digits, `$`, then
/// salt and digest; and it verifies the same password (`bcrypt::verify`
/// recomputes it from the salt and cost written into it). Which salt and
/// digest come back is left unsaid: they rest on the random salt, and so
/// does whether the randomness source fails.
#[verifier::external_body]
pub(crate) fn bcrypt_hash(password: &str, cost: u32) -> (r: Result<String, String>)
    ensures
        r is Ok ==> 4 <= cost && cost <= 31,
        4 <= cost && cost <= 31 && r is Err ==> is_randomness_failure(r->Err_0@),
        r matches Ok(h) ==> h@.len() == 60 && h@.subrange(0, 7) == bcrypt_hash_prefix(cost),
        r matches Ok(h) ==> password_verifies(password@, h@),
{
    match bcrypt::hash(password, cost) {
        Ok(h) => Ok(h),
        Err(e) => Err(e.to_string()),
    }
}

} // verus!
