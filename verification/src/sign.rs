//! The signer: HMAC-SHA256 over the canonical query string, in lower-case hex.

use crate::encode::digit;
use hmac::digest::InvalidLength;
use hmac::{Hmac, Mac};
use sha2::Sha256;
use vstd::prelude::*;

verus! {

#[verifier::external_type_specification]
#[verifier::external_body]
pub struct ExInvalidLength(InvalidLength);

/// The HMAC-SHA256 authentication code of `message` under `key`.
pub uninterp spec fn hmac_sha256(key: Seq<u8>, message: Seq<u8>) -> Seq<u8>;

/// Computes the authentication code with `hmac::Hmac<sha2::Sha256>`:
/// `new_from_slice`, one `update` with the whole message, `finalize`.
/// The contract names the 32-byte code and relies on HMAC accepting a key of
/// any length, so that the key is never refused.
#[verifier::external_body]
fn authentication_code(key: &[u8], message: &[u8]) -> (r: Result<Vec<u8>, InvalidLength>)
    ensures
        r is Ok,
        r matches Ok(code) ==> code@ == hmac_sha256(key@, message@) && code@.len() == 32,
{
    let mut state = Hmac::<Sha256>::new_from_slice(key)?;
    state.update(message);
    Ok(state.finalize().into_bytes().to_vec())
}

/// The lower-case hexadecimal digit for `n` in `0..16`.
pub open spec fn hex_lower(n: int) -> char {
    if n < 10 {
        digit(n)
    } else {
        (0x57 + n) as char
    }
}

/// Two lower-case hexadecimal digits per byte, high nibble first.
pub open spec fn hex_text(bytes: Seq<u8>) -> Seq<char>
    decreases bytes.len(),
{
    if bytes.len() == 0 {
        Seq::empty()
    } else {
        hex_text(bytes.drop_last()) + seq![
            hex_lower(bytes.last() as int / 16),
            hex_lower(bytes.last() as int % 16),
        ]
    }
}

/// The signature of `message` under `secret_key`.
pub open spec fn signature(secret_key: Seq<u8>, message: Seq<u8>) -> Seq<char> {
    hex_text(hmac_sha256(secret_key, message))
}

/// True for `0`-`9` and `a`-`f`.
pub open spec fn is_hex_lower(c: char) -> bool {
    ('0' <= c <= '9') || ('a' <= c <= 'f')
}

fn hex_lower_char(n: u8) -> (c: char)
    requires
        n < 16,
    ensures
        c == hex_lower(n as int),
{
    if n < 10 {
        (0x30 + n) as char
    } else {
        (0x57 + n) as char
    }
}

/// Writes `bytes` in lower-case hexadecimal.
pub fn to_hex(bytes: &[u8]) -> (s: String)
    ensures
        s@ == hex_text(bytes@),
{
    let mut s = String::new();
    let mut i: usize = 0;
    assert(bytes@.take(0) =~= Seq::<u8>::empty());
    while i < bytes.len()
        invariant
            i <= bytes.len(),
            s@ == hex_text(bytes@.take(i as int)),
        decreases bytes.len() - i,
    {
        let b = bytes[i];
        s.push(hex_lower_char(b / 16));
        s.push(hex_lower_char(b % 16));
        proof {
            let next = bytes@.take(i + 1);
            assert(next.drop_last() =~= bytes@.take(i as int));
            assert(next.last() == b);
            assert(s@ =~= hex_text(next));
        }
        i += 1;
    }
    assert(bytes@.take(bytes.len() as int) =~= bytes@);
    s
}

/// Signs `message` with `secret_key`: the HMAC-SHA256 code in lower-case
/// hexadecimal. The result depends on the two arguments alone.
pub fn sign(secret_key: &[u8], message: &[u8]) -> (sig: String)
    ensures
        sig@ == signature(secret_key@, message@),
        sig@.len() == 64,
{
    proof {
        law_hex_text_shape(hmac_sha256(secret_key@, message@));
    }
    match authentication_code(secret_key, message) {
        Ok(code) => to_hex(code.as_slice()),
        Err(_) => String::new(),
    }
}

/// A hexadecimal text has two digits per byte, each of them in `0`-`9`, `a`-`f`.
pub proof fn law_hex_text_shape(bytes: Seq<u8>)
    ensures
        hex_text(bytes).len() == 2 * bytes.len(),
        forall|i: int| 0 <= i < hex_text(bytes).len() ==> is_hex_lower(#[trigger] hex_text(bytes)[i]),
    decreases bytes.len(),
{
    if bytes.len() > 0 {
        law_hex_text_shape(bytes.drop_last());
        let b = bytes.last() as int;
        assert(0 <= b / 16 < 16 && 0 <= b % 16 < 16);
    }
}

/// Distinct byte strings have distinct hexadecimal texts.
pub proof fn law_hex_text_injective(a: Seq<u8>, b: Seq<u8>)
    requires
        hex_text(a) == hex_text(b),
    ensures
        a == b,
    decreases a.len(),
{
    law_hex_text_shape(a);
    law_hex_text_shape(b);
    if a.len() > 0 {
        let ta = hex_text(a.drop_last());
        let tb = hex_text(b.drop_last());
        law_hex_text_shape(a.drop_last());
        law_hex_text_shape(b.drop_last());
        let x = a.last() as int;
        let y = b.last() as int;
        let n = hex_text(a).len() as int;
        assert(hex_text(a)[n - 2] == hex_lower(x / 16));
        assert(hex_text(a)[n - 1] == hex_lower(x % 16));
        assert(hex_text(b)[n - 2] == hex_lower(y / 16));
        assert(hex_text(b)[n - 1] == hex_lower(y % 16));
        assert(0 <= x / 16 < 16 && 0 <= x % 16 < 16);
        assert(0 <= y / 16 < 16 && 0 <= y % 16 < 16);
        assert(x / 16 == y / 16 && x % 16 == y % 16);
        assert(x == y);
        assert(ta =~= hex_text(a).take(n - 2));
        assert(tb =~= hex_text(b).take(n - 2));
        law_hex_text_injective(a.drop_last(), b.drop_last());
        assert(a =~= a.drop_last().push(a.last()));
        assert(b =~= b.drop_last().push(b.last()));
    } else {
        assert(a =~= b);
    }
}

/// Signing is deterministic: equal keys and equal messages give equal
/// signatures.
pub proof fn law_sign_deterministic(k1: Seq<u8>, m1: Seq<u8>, k2: Seq<u8>, m2: Seq<u8>)
    requires
        k1 == k2,
        m1 == m2,
    ensures
        signature(k1, m1) == signature(k2, m2),
{
}

/// Two signatures differ exactly when the authentication codes differ: the
/// hexadecimal form loses nothing.
pub proof fn law_signature_faithful(k1: Seq<u8>, m1: Seq<u8>, k2: Seq<u8>, m2: Seq<u8>)
    ensures
        signature(k1, m1) == signature(k2, m2) <==> hmac_sha256(k1, m1) == hmac_sha256(k2, m2),
{
    if signature(k1, m1) == signature(k2, m2) {
        law_hex_text_injective(hmac_sha256(k1, m1), hmac_sha256(k2, m2));
    }
}

} // verus!
