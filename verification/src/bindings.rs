//! The calls that this crate makes into other crates and into parts of std
//! that carry no specification. Each item here is believed, not proved: its
//! doc comment says what it claims of the code it calls.
use vstd::prelude::*;
use vstd::utf8::*;

verus! {

#[verifier::external_type_specification]
#[verifier::external_body]
pub struct ExBcryptError(bcrypt::BcryptError);

/// A lower-case hexadecimal digit.
pub open spec fn is_lower_hex(c: char) -> bool {
    ('0' <= c <= '9') || ('a' <= c <= 'f')
}

/// The text of a random (version 4) UUID in its hyphenated form,
/// `xxxxxxxx-xxxx-4xxx-yxxx-xxxxxxxxxxxx`: lower-case hexadecimal digits,
/// hyphens after the 8th, 12th, 16th and 20th digit, the version digit `4`,
/// and a variant digit `y` of 8, 9, a or b.
pub open spec fn is_hyphenated_v4(s: Seq<char>) -> bool {
    &&& s.len() == 36
    &&& forall|i: int|
        0 <= i < 36 ==> if i == 8 || i == 13 || i == 18 || i == 23 {
            s[i] == '-'
        } else {
            is_lower_hex(#[trigger] s[i])
        }
    &&& s[14] == '4'
    &&& (s[19] == '8' || s[19] == '9' || s[19] == 'a' || s[19] == 'b')
}

/// A fresh identifier from `uuid::Uuid::new_v4`, rendered by `to_string`.
/// Claimed: the text is a version 4 UUID in the hyphenated, lower-case form
/// that the crate's `Display` writes. Which UUID rests on chance and is left
/// free.
#[verifier::external_body]
pub(crate) fn fresh_id() -> (r: String)
    ensures
        is_hyphenated_v4(r@),
{
    uuid::Uuid::new_v4().to_string()
}

/// What `bcrypt::verify` answers for a password and a stored hash: `None`
/// where it returns an error (a malformed hash), else whether they match.
/// It depends on its two arguments alone.
pub uninterp spec fn bcrypt_verdict(password: Seq<char>, hash: Seq<char>) -> Option<bool>;

/// `bcrypt::verify(password, hash)`. Claimed: its result is the one that
/// `bcrypt_verdict` names for the two arguments.
#[verifier::external_body]
pub(crate) fn bcrypt_verify(password: String, hash: &String) -> (r: Result<bool, bcrypt::BcryptError>)
    ensures
        r is Ok <==> bcrypt_verdict(password@, hash@) is Some,
        r matches Ok(b) ==> bcrypt_verdict(password@, hash@) == Some(b),
{
    bcrypt::verify(password, hash.as_str())
}

/// The character of a decimal digit.
pub open spec fn decimal_digit(d: int) -> char {
    (0x30 + d) as char
}

/// How a bcrypt hash made with `cost` begins: `$2b$`, the cost in two
/// digits, `$`.
pub open spec fn bcrypt_prefix(cost: u32) -> Seq<char> {
    seq!['$', '2', 'b', '$', decimal_digit((cost / 10) as int), decimal_digit((cost % 10) as int), '$']
}

/// `bcrypt::hash(password, cost)`. The salt is drawn at random, so which hash
/// comes back is left free. Claimed: a cost outside 4..=31 is an error; a
/// hash it returns has the crate's 60-character `$2b$` form with the cost in
/// two digits, and verifies against the same password.
#[verifier::external_body]
pub(crate) fn bcrypt_hash(password: String, cost: u32) -> (r: Result<String, bcrypt::BcryptError>)
    ensures
        r is Ok ==> 4 <= cost <= 31,
        r matches Ok(h) ==> h@.len() == 60 && h@.take(7) == bcrypt_prefix(cost),
        r matches Ok(h) ==> bcrypt_verdict(password@, h@) == Some(true),
{
    bcrypt::hash(password, cost)
}

/// The value of a hexadecimal digit of either case, if the byte is one.
pub open spec fn hex_digit_value(b: u8) -> Option<int> {
    if 0x30 <= b <= 0x39 {
        Some(b - 0x30)
    } else if 0x41 <= b <= 0x46 {
        Some(b - 0x41 + 10)
    } else if 0x61 <= b <= 0x66 {
        Some(b - 0x61 + 10)
    } else {
        None
    }
}

/// Percent-decoding of a byte string: each `%` followed by two hexadecimal
/// digits becomes the byte that they denote; every other byte, a `%` without
/// two digits after it included, is kept as it is. `+` is kept too.
pub open spec fn url_decoded(data: Seq<u8>) -> Seq<u8>
    decreases data.len(),
{
    if data.len() == 0 {
        Seq::empty()
    } else if data[0] == 0x25u8 && data.len() >= 3 && hex_digit_value(data[1]) is Some && hex_digit_value(
        data[2],
    ) is Some {
        seq![(hex_digit_value(data[1])->0 * 16 + hex_digit_value(data[2])->0) as u8] + url_decoded(
            data.subrange(3, data.len() as int),
        )
    } else {
        seq![data[0]] + url_decoded(data.subrange(1, data.len() as int))
    }
}

/// `urlencoding::decode_binary(data)`, copied into a vector. Claimed: the
/// result is the percent-decoding `url_decoded` of `data`, as the crate's
/// source computes it.
#[verifier::external_body]
pub(crate) fn url_decode_binary(data: &[u8]) -> (r: Vec<u8>)
    ensures
        r@ == url_decoded(data@),
{
    urlencoding::decode_binary(data).into_owned()
}

/// What `String::from_utf8_lossy` gives for a byte string.
pub uninterp spec fn utf8_lossy(bytes: Seq<u8>) -> Seq<char>;

/// `String::from_utf8_lossy(bytes)`, made owned. Claimed: the result is
/// `utf8_lossy(bytes)`, and valid UTF-8 decodes to the characters it encodes.
#[verifier::external_body]
pub(crate) fn from_utf8_lossy(bytes: &[u8]) -> (r: String)
    ensures
        r@ == utf8_lossy(bytes@),
        valid_utf8(bytes@) ==> r@ == decode_utf8(bytes@),
{
    String::from_utf8_lossy(bytes).into_owned()
}

} // verus!
