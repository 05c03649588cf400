//! Short codes: what one looks like, and how a fresh one is drawn.

use rand::Rng;
use vstd::prelude::*;

verus! {

/// The number of characters in a generated short code.
pub const CODE_LEN: usize = 8;

/// An ASCII letter or digit.
pub open spec fn is_alphanumeric(c: char) -> bool {
    ||| 'a' <= c <= 'z'
    ||| 'A' <= c <= 'Z'
    ||| '0' <= c <= '9'
}

/// Every character of `s` is an ASCII letter or digit.
pub open spec fn all_alphanumeric(s: Seq<char>) -> bool {
    forall|i: int| 0 <= i < s.len() ==> is_alphanumeric(#[trigger] s[i])
}

/// The shape of a generated short code: eight ASCII letters or digits.
pub open spec fn is_generated_code(s: Seq<char>) -> bool {
    s.len() == CODE_LEN && all_alphanumeric(s)
}

/// The characters that a sequence of bytes stands for, each byte taken as
/// the code point of the same number.
pub open spec fn bytes_as_chars(bytes: Seq<u8>) -> Seq<char> {
    Seq::new(bytes.len(), |i: int| bytes[i] as char)
}

/// `String::push` of std: appends the character to the end of the string.
pub assume_specification[ String::push ](s: &mut String, ch: char)
    ensures
        final(s)@ == old(s)@.push(ch),
;

/// One draw from `rand::distributions::Alphanumeric` with the generator of
/// the current thread (`rand::thread_rng`). The distribution picks from the
/// 62 bytes `A-Z`, `a-z`, `0-9`; which of them comes back is left open, and
/// so is how likely each is. The generator panics if the system gives it
/// no seed, whatever the caller does.
#[verifier::external_body]
fn sample_alphanumeric() -> (b: u8)
    ensures
        is_alphanumeric(b as char),
{
    rand::thread_rng().sample(rand::distributions::Alphanumeric)
}

/// Spells out bytes as text, one character for each byte.
pub fn code_from_bytes(bytes: &Vec<u8>) -> (code: String)
    ensures
        code@ == bytes_as_chars(bytes@),
{
    let mut code = String::new();
    let mut i: usize = 0;
    while i < bytes.len()
        invariant
            i <= bytes.len(),
            code@ == bytes_as_chars(bytes@.take(i as int)),
        decreases bytes.len() - i,
    {
        code.push(bytes[i] as char);
        i = i + 1;
    }
    code
}

/// A fresh short code: eight random ASCII letters and digits. Nothing is
/// checked against the codes already in use.
pub fn rand_string() -> (code: String)
    ensures
        is_generated_code(code@),
{
    let mut bytes: Vec<u8> = Vec::new();
    while bytes.len() < CODE_LEN
        invariant
            bytes.len() <= CODE_LEN,
            all_alphanumeric(bytes_as_chars(bytes@)),
        decreases CODE_LEN - bytes.len(),
    {
        let b = sample_alphanumeric();
        let ghost before = bytes@;
        bytes.push(b);
        assert forall|i: int| 0 <= i < bytes@.len() implies is_alphanumeric(
            #[trigger] bytes_as_chars(bytes@)[i],
        ) by {
            if i < before.len() {
                assert(bytes_as_chars(bytes@)[i] == bytes_as_chars(before)[i]);
            }
        }
    }
    code_from_bytes(&bytes)
}

} // verus!
