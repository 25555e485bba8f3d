//! Confirmation tokens: fixed-length strings of ASCII letters and digits
//! drawn from a random source.

use vstd::prelude::*;
use vstd::string::*;

verus! {

/// The length of every token, in characters.
pub const TOKEN_LEN: usize = 25;

/// An ASCII letter or digit.
pub open spec fn is_alphanumeric_char(c: char) -> bool {
    let u = c as u32;
    (0x30 <= u && u <= 0x39) || (0x41 <= u && u <= 0x5a) || (0x61 <= u && u <= 0x7a)
}

/// A well-formed token: `TOKEN_LEN` ASCII letters and digits.
pub open spec fn is_token(t: Seq<char>) -> bool {
    &&& t.len() == TOKEN_LEN
    &&& forall|i: int| 0 <= i < t.len() ==> is_alphanumeric_char(#[trigger] t[i])
}

/// Relies on rand's `Alphanumeric` distribution, sampled with `thread_rng`:
/// each sample is one byte of `A-Z`, `a-z` or `0-9`, taken as a `char`.
#[verifier::external_body]
fn sample_alphanumeric() -> (r: char)
    ensures
        is_alphanumeric_char(r),
{
    rand::Rng::sample(&mut rand::thread_rng(), rand::distributions::Alphanumeric) as char
}

/// Relies on `String::push`, which appends one character.
#[verifier::external_body]
fn push_char(s: &mut String, c: char)
    ensures
        final(s)@ == old(s)@.push(c),
{
    s.push(c)
}

/// A fresh random token.
pub fn generate_subscription_token() -> (r: String)
    ensures
        is_token(r@),
{
    let mut r = String::new();
    let mut i: usize = 0;
    while i < TOKEN_LEN
        invariant
            i <= TOKEN_LEN,
            r@.len() == i,
            forall|j: int| 0 <= j < i ==> is_alphanumeric_char(#[trigger] r@[j]),
        decreases TOKEN_LEN - i,
    {
        let c = sample_alphanumeric();
        push_char(&mut r, c);
        i = i + 1;
    }
    r
}

} // verus!
