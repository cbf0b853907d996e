use vstd::prelude::*;
use vstd::string::StrSliceExecFns;
use vstd::string::StringExecFns;
use crate::cipher::KeyMaterial;
use crate::codec::bytes_of;
use crate::cipher::KEY_LEN;
use crate::cipher::NONCE_LEN;
use crate::error::Error;

verus! {

/// The character that separates the key from the nonce in a credential.
pub const DELIMITER: char = '#';

/// The lower-case hex digit for a value below 16.
pub open spec fn hex_digit(n: int) -> char {
    if n == 0 { '0' } else if n == 1 { '1' } else if n == 2 { '2' } else if n == 3 { '3' }
    else if n == 4 { '4' } else if n == 5 { '5' } else if n == 6 { '6' } else if n == 7 { '7' }
    else if n == 8 { '8' } else if n == 9 { '9' } else if n == 10 { 'a' } else if n == 11 { 'b' }
    else if n == 12 { 'c' } else if n == 13 { 'd' } else if n == 14 { 'e' } else { 'f' }
}

/// Whether `c` is a hex digit, in either case.
pub open spec fn is_hex_char(c: char) -> bool {
    ('0' <= c && c <= '9') || ('a' <= c && c <= 'f') || ('A' <= c && c <= 'F')
}

/// The value of a hex digit.
pub open spec fn hex_value(c: char) -> int {
    if '0' <= c && c <= '9' {
        c as int - '0' as int
    } else if 'a' <= c && c <= 'f' {
        c as int - 'a' as int + 10
    } else {
        c as int - 'A' as int + 10
    }
}

/// Lower-case hex text of `b`: two digits per byte, high half first.
pub open spec fn hex_text(b: Seq<u8>) -> Seq<char> {
    Seq::new(2 * b.len(), |i: int| if i % 2 == 0 {
        hex_digit(b[i / 2] as int / 16)
    } else {
        hex_digit(b[i / 2] as int % 16)
    })
}

/// The bytes that hex text `s` spells, or `None` where its length is odd or a
/// character is not a hex digit.
pub open spec fn hex_bytes(s: Seq<char>) -> Option<Seq<u8>> {
    if s.len() % 2 == 0 && forall|i: int| 0 <= i < s.len() ==> is_hex_char(#[trigger] s[i]) {
        Some(Seq::new(s.len() / 2, |i: int| (16 * hex_value(s[2 * i]) + hex_value(s[2 * i + 1])) as u8))
    } else {
        None
    }
}

/// Relies on hex's `encode`: two lower-case digits per byte, high half first.
#[verifier::external_body]
fn hex_encode(b: &[u8]) -> (r: String)
    ensures
        r@ == hex_text(b@),
{
    hex::encode(b)
}

/// Relies on hex's `decode`: it accepts digits of either case in pairs, and
/// refuses odd lengths and any other character.
#[verifier::external_body]
fn hex_decode(s: &str) -> (r: Option<Vec<u8>>)
    ensures
        bytes_of(r) == hex_bytes(s@),
{
    hex::decode(s).ok()
}

/// The number of characters before the first delimiter (all of them if there is none).
pub open spec fn field_len(s: Seq<char>) -> nat
    decreases s.len(),
{
    if s.len() == 0 {
        0
    } else if s[0] == DELIMITER {
        0
    } else {
        1 + field_len(s.drop_first())
    }
}

/// The credential string for a key and a nonce: `<hex key>#<hex nonce>`.
pub open spec fn credential_text(key: Seq<u8>, nonce: Seq<u8>) -> Seq<char> {
    hex_text(key) + seq![DELIMITER] + hex_text(nonce)
}

/// The key and nonce that a credential spells. The key is the text before the
/// first delimiter, the nonce the text after it up to the next delimiter, if any.
/// `None` where the delimiter is missing, a half is not hex, or the decoded key
/// is not 16 bytes or the nonce not 12.
pub open spec fn parse_credential(s: Seq<char>) -> Option<(Seq<u8>, Seq<u8>)> {
    let i = field_len(s);
    if i >= s.len() {
        None
    } else {
        let rest = s.subrange(i as int + 1, s.len() as int);
        let key_text = s.subrange(0, i as int);
        let nonce_text = rest.subrange(0, field_len(rest) as int);
        match (hex_bytes(key_text), hex_bytes(nonce_text)) {
            (Some(k), Some(n)) => if k.len() == KEY_LEN && n.len() == NONCE_LEN {
                Some((k, n))
            } else {
                None
            },
            _ => None,
        }
    }
}

/// Encodes key material as the credential string handed to the user.
pub fn encode_credential(km: &KeyMaterial) -> (r: String)
    ensures
        r@ == credential_text(km.key@, km.nonce@),
{
    let mut r = hex_encode(km.key.as_slice());
    let sep = "#";
    proof {
        reveal_strlit("#");
    }
    r.append(sep);
    let tail = hex_encode(km.nonce.as_slice());
    r.append(tail.as_str());
    r
}

/// Splitting off the first character of a text that does not start with the
/// delimiter shortens its first field by one.
proof fn lemma_field_len_step(s: Seq<char>, i: int)
    requires
        0 <= i < s.len(),
        s[i] != DELIMITER,
    ensures
        field_len(s.subrange(i, s.len() as int)) == 1 + field_len(s.subrange(i + 1, s.len() as int)),
{
    assert(s.subrange(i, s.len() as int).drop_first() =~= s.subrange(i + 1, s.len() as int));
}

/// The first field of `a + b` is `a` when `a` holds no delimiter and `b` is empty
/// or starts with one.
proof fn lemma_field_len_concat(a: Seq<char>, b: Seq<char>)
    requires
        forall|i: int| 0 <= i < a.len() ==> a[i] != DELIMITER,
        b.len() == 0 || b[0] == DELIMITER,
    ensures
        field_len(a + b) == a.len(),
    decreases a.len(),
{
    if a.len() > 0 {
        assert((a + b).drop_first() =~= a.drop_first() + b);
        lemma_field_len_concat(a.drop_first(), b);
    } else {
        assert(a + b =~= b);
    }
}

/// The index of the first delimiter in `s` at or after `from`, or the length of `s`.
fn find_delimiter(s: &str, from: usize, len: usize) -> (r: usize)
    requires
        len == s@.len(),
        from <= len,
    ensures
        r == from + field_len(s@.subrange(from as int, len as int)),
        r <= len,
{
    let mut i: usize = from;
    while i < len && s.get_char(i) != '#'
        invariant
            len == s@.len(),
            from <= i <= len,
            field_len(s@.subrange(from as int, len as int))
                == (i - from) + field_len(s@.subrange(i as int, len as int)),
        decreases len - i,
    {
        proof {
            lemma_field_len_step(s@, i as int);
        }
        i = i + 1;
    }
    proof {
        if i < len {
            assert(s@.subrange(i as int, len as int)[0] == DELIMITER);
        }
    }
    i
}

/// Decodes a credential string into key material; a malformed credential is a
/// `CredentialFormat` error.
pub fn decode_credential(s: &str) -> (r: Result<KeyMaterial, Error>)
    ensures
        match parse_credential(s@) {
            Some((k, n)) => r matches Ok(km) && km.key@ == k && km.nonce@ == n,
            None => r == Err::<KeyMaterial, Error>(Error::CredentialFormat),
        },
        r matches Ok(km) ==> km.wf(),
{
    let len = s.unicode_len();
    let i = find_delimiter(s, 0, len);
    proof {
        assert(s@.subrange(0, len as int) =~= s@);
    }
    if i >= len {
        return Err(Error::CredentialFormat);
    }
    let j = find_delimiter(s, i + 1, len);
    let key_text = s.substring_char(0, i);
    let nonce_text = s.substring_char(i + 1, j);
    proof {
        let rest = s@.subrange(i as int + 1, len as int);
        assert(rest.subrange(0, field_len(rest) as int) =~= nonce_text@);
    }
    match (hex_decode(key_text), hex_decode(nonce_text)) {
        (Some(k), Some(n)) => {
            if k.len() == KEY_LEN && n.len() == NONCE_LEN {
                Ok(KeyMaterial { key: k, nonce: n })
            } else {
                Err(Error::CredentialFormat)
            }
        },
        _ => Err(Error::CredentialFormat),
    }
}

/// Hex text decodes back to the bytes it was made from.
pub proof fn lemma_hex_round_trip(b: Seq<u8>)
    ensures
        hex_bytes(hex_text(b)) == Some(b),
{
    let t = hex_text(b);
    assert forall|i: int| 0 <= i < t.len() implies is_hex_char(#[trigger] t[i]) by {
        let v = b[i / 2] as int;
        assert(0 <= v / 16 < 16 && 0 <= v % 16 < 16);
    }
    let d = hex_bytes(t).unwrap();
    assert forall|k: int| 0 <= k < b.len() implies #[trigger] d[k] == b[k] by {
        let v = b[k] as int;
        assert((2 * k) / 2 == k && (2 * k + 1) / 2 == k);
        assert((2 * k) % 2 == 0 && (2 * k + 1) % 2 == 1);
        assert(0 <= v / 16 < 16 && 0 <= v % 16 < 16);
        assert(hex_value(hex_digit(v / 16)) == v / 16);
        assert(hex_value(hex_digit(v % 16)) == v % 16);
        assert(16 * (v / 16) + v % 16 == v);
    }
    assert(d =~= b);
}

/// Hex text never holds the delimiter.
proof fn lemma_hex_text_has_no_delimiter(b: Seq<u8>)
    ensures
        forall|i: int| 0 <= i < hex_text(b).len() ==> hex_text(b)[i] != DELIMITER,
{
    assert forall|i: int| 0 <= i < hex_text(b).len() implies hex_text(b)[i] != DELIMITER by {
        let v = b[i / 2] as int;
        assert(0 <= v / 16 < 16 && 0 <= v % 16 < 16);
    }
}

/// Decoding the credential of well-formed key material gives back that key and nonce.
pub proof fn lemma_credential_round_trip(key: Seq<u8>, nonce: Seq<u8>)
    requires
        key.len() == KEY_LEN,
        nonce.len() == NONCE_LEN,
    ensures
        parse_credential(credential_text(key, nonce)) == Some((key, nonce)),
{
    let hk = hex_text(key);
    let hn = hex_text(nonce);
    let s = credential_text(key, nonce);
    lemma_hex_text_has_no_delimiter(key);
    lemma_hex_text_has_no_delimiter(nonce);
    assert(s =~= hk + (seq![DELIMITER] + hn));
    lemma_field_len_concat(hk, seq![DELIMITER] + hn);
    let rest = s.subrange(hk.len() as int + 1, s.len() as int);
    assert(rest =~= hn + Seq::<char>::empty());
    lemma_field_len_concat(hn, Seq::<char>::empty());
    assert(rest.subrange(0, hn.len() as int) =~= hn);
    assert(s.subrange(0, hk.len() as int) =~= hk);
    lemma_hex_round_trip(key);
    lemma_hex_round_trip(nonce);
}

} // verus!
