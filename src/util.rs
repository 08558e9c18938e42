//! Conversions of the engine's raw byte strings and identifiers.

use vstd::prelude::*;
use crate::error::{BtResult, Error};

verus! {

/// The text that a sequence of bytes decodes to as UTF-8, or `None` when the
/// bytes are not valid UTF-8.
pub uninterp spec fn utf8_decoded(b: Seq<u8>) -> Option<Seq<char>>;

/// Relies on `std::str::from_utf8`: it accepts exactly the valid UTF-8 byte
/// sequences, and the text it gives depends on the bytes alone.
#[verifier::external_body]
fn decode_utf8(b: &[u8]) -> (r: Option<String>)
    ensures
        r.is_some() == utf8_decoded(b@).is_some(),
        r.is_some() ==> r.unwrap()@ == utf8_decoded(b@).unwrap(),
{
    match std::str::from_utf8(b) {
        Ok(s) => Some(s.to_string()),
        Err(_) => None,
    }
}

/// An optional engine string as text: absent or empty is no text, invalid
/// UTF-8 is an error.
pub open spec fn spec_opt_text(b: Option<Seq<u8>>) -> Result<Option<Seq<char>>, Error> {
    match b {
        None => Ok(None),
        Some(s) => {
            if s.len() == 0 {
                Ok(None)
            } else {
                match utf8_decoded(s) {
                    None => Err(Error::Utf8Error),
                    Some(t) => Ok(Some(t)),
                }
            }
        },
    }
}

/// The bytes of an optional engine string.
pub open spec fn opt_bytes(b: Option<Vec<u8>>) -> Option<Seq<u8>> {
    match b {
        None => None,
        Some(v) => Some(v@),
    }
}

/// The text of an optional string.
pub open spec fn opt_text(s: Option<String>) -> Option<Seq<char>> {
    match s {
        None => None,
        Some(t) => Some(t@),
    }
}

/// Owns an optional engine string: absent or empty gives `None`, invalid
/// UTF-8 gives `Error::Utf8Error`.
pub fn opt_owned_cstr(b: &Option<Vec<u8>>) -> (r: BtResult<Option<String>>)
    ensures
        match spec_opt_text(opt_bytes(*b)) {
            Ok(t) => r.is_ok() && opt_text(r.unwrap()) == t,
            Err(e) => r == Err::<Option<String>, Error>(e),
        },
{
    match b {
        None => Ok(None),
        Some(v) => {
            if v.len() == 0 {
                Ok(None)
            } else {
                match decode_utf8(v.as_slice()) {
                    None => Err(Error::Utf8Error),
                    Some(s) => Ok(Some(s)),
                }
            }
        },
    }
}

/// Equality of two optional strings, by their text.
pub fn opt_text_eq(a: &Option<String>, b: &Option<String>) -> (r: bool)
    ensures
        r == (opt_text(*a) == opt_text(*b)),
{
    match (a, b) {
        (None, None) => true,
        (Some(x), Some(y)) => x.eq(y),
        _ => false,
    }
}

/// The number that a byte sequence spells in base 256, most significant
/// byte first.
pub open spec fn be_value(s: Seq<u8>) -> nat
    decreases s.len(),
{
    if s.len() == 0 {
        0
    } else {
        be_value(s.drop_last()) * 256 + s.last() as nat
    }
}

proof fn lemma_be_value_bound(s: Seq<u8>)
    ensures
        be_value(s) < pow256(s.len()),
    decreases s.len(),
{
    if s.len() > 0 {
        lemma_be_value_bound(s.drop_last());
        let p = pow256((s.len() - 1) as nat);
        let v = be_value(s.drop_last());
        let b = s.last() as nat;
        assert(v * 256 + b < p * 256) by (nonlinear_arith)
            requires
                v < p,
                b < 256,
        ;
    }
}

/// 256 to the power `n`.
pub open spec fn pow256(n: nat) -> nat
    decreases n,
{
    if n == 0 {
        1
    } else {
        pow256((n - 1) as nat) * 256
    }
}

/// A UUID as the 128-bit number of its sixteen bytes, most significant
/// first; any other length is `Error::Uuid`.
pub fn uuid_from_bytes(b: &[u8]) -> (r: BtResult<u128>)
    ensures
        b@.len() == 16 ==> r == Ok::<u128, Error>(be_value(b@) as u128),
        b@.len() != 16 ==> r == Err::<u128, Error>(Error::Uuid),
{
    if b.len() != 16 {
        return Err(Error::Uuid);
    }
    let mut acc: u128 = 0;
    let mut i: usize = 0;
    while i < 16
        invariant
            b@.len() == 16,
            i <= 16,
            acc as nat == be_value(b@.take(i as int)),
        decreases 16 - i,
    {
        proof {
            lemma_be_value_bound(b@.take(i as int));
            assert(b@.take(i as int + 1).drop_last() =~= b@.take(i as int));
            assert(pow256(i as nat) <= pow256(15)) by {
                lemma_pow256_mono(i as nat, 15);
            }
            reveal_with_fuel(pow256, 17);
            assert(pow256(15) * 256 == 0x1_0000_0000_0000_0000_0000_0000_0000_0000);
        }
        acc = acc * 256 + b[i] as u128;
        i = i + 1;
    }
    assert(b@.take(16) =~= b@);
    Ok(acc)
}

proof fn lemma_pow256_mono(a: nat, b: nat)
    requires
        a <= b,
    ensures
        pow256(a) <= pow256(b),
    decreases b,
{
    if a < b {
        lemma_pow256_mono(a, (b - 1) as nat);
    }
}

/// An optional engine UUID: absent stays absent, sixteen bytes give their
/// number, any other length is `Error::Uuid`.
pub open spec fn spec_opt_uuid(b: Option<Seq<u8>>) -> Result<Option<u128>, Error> {
    match b {
        None => Ok(None),
        Some(s) => {
            if s.len() == 16 {
                Ok(Some(be_value(s) as u128))
            } else {
                Err(Error::Uuid)
            }
        },
    }
}

/// Reads an optional engine UUID.
pub fn opt_uuid(b: &Option<Vec<u8>>) -> (r: BtResult<Option<u128>>)
    ensures
        r == spec_opt_uuid(opt_bytes(*b)),
{
    match b {
        None => Ok(None),
        Some(v) => match uuid_from_bytes(v.as_slice()) {
            Ok(u) => Ok(Some(u)),
            Err(e) => Err(e),
        },
    }
}

/// The lower-case form of a text.
pub uninterp spec fn lower_of(s: Seq<char>) -> Seq<char>;

/// Relies on `str::to_lowercase`: the lower-case text depends on the
/// characters alone.
#[verifier::external_body]
pub(crate) fn lowercase(s: &str) -> (r: String)
    ensures
        r@ == lower_of(s@),
{
    s.to_lowercase()
}

/// A text without its leading and trailing white space.
pub uninterp spec fn trimmed_of(s: Seq<char>) -> Seq<char>;

/// Relies on `str::trim`: what remains depends on the characters alone.
#[verifier::external_body]
pub(crate) fn trim(s: &str) -> (r: &str)
    ensures
        r@ == trimmed_of(s@),
{
    s.trim()
}

/// Relies on `format!`: the message is `prefix`, then `s`, then `suffix`.
#[verifier::external_body]
pub(crate) fn rejection_message(prefix: &str, s: &str, suffix: &str) -> (r: String)
    ensures
        r@ == prefix@ + s@ + suffix@,
{
    format!("{}{}{}", prefix, s, suffix)
}

/// Whether a text is exactly a given word.
pub fn is_word(s: &str, word: &str) -> (r: bool)
    ensures
        r == (s@ == word@),
{
    s.to_owned().eq(&word.to_owned())
}

} // verus!
