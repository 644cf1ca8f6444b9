//! Base64 encodings (RFC 4648): the URL-safe alphabet without padding used on the
//! wire by JWS and ACME, and the standard padded alphabet used for secret values.
use vstd::prelude::*;

use crate::error::AcmeError;

verus! {

#[verifier::external_type_specification]
#[verifier::external_body]
pub struct ExDecodeError(base64::DecodeError);

/// The character that stands for the six-bit value `v` (which is below 64).
/// The two alphabets differ only in the symbols for 62 and 63.
pub open spec fn symbol(v: u8, url_safe: bool) -> char {
    if v < 26 {
        (v + 65) as char
    } else if v < 52 {
        (v + 71) as char
    } else if v < 62 {
        (v - 4) as char
    } else if v == 62 {
        if url_safe { '-' } else { '+' }
    } else {
        if url_safe { '_' } else { '/' }
    }
}

/// Base64 text of `b`: each group of three bytes becomes four symbols; a final
/// group of one or two bytes becomes two or three symbols, followed by `=` up to
/// four when `pad` is set.
pub open spec fn b64_text(b: Seq<u8>, url_safe: bool, pad: bool) -> Seq<char>
    decreases b.len(),
{
    if b.len() == 0 {
        seq![]
    } else if b.len() == 1 {
        seq![symbol(b[0] >> 2u8, url_safe), symbol((b[0] & 3u8) << 4u8, url_safe)] + if pad {
            seq!['=', '=']
        } else {
            seq![]
        }
    } else if b.len() == 2 {
        seq![
            symbol(b[0] >> 2u8, url_safe),
            symbol(((b[0] & 3u8) << 4u8) | (b[1] >> 4u8), url_safe),
            symbol((b[1] & 15u8) << 2u8, url_safe),
        ] + if pad {
            seq!['=']
        } else {
            seq![]
        }
    } else {
        seq![
            symbol(b[0] >> 2u8, url_safe),
            symbol(((b[0] & 3u8) << 4u8) | (b[1] >> 4u8), url_safe),
            symbol(((b[1] & 15u8) << 2u8) | (b[2] >> 6u8), url_safe),
            symbol(b[2] & 63u8, url_safe),
        ] + b64_text(b.subrange(3, b.len() as int), url_safe, pad)
    }
}

/// URL-safe base64 without padding, as JWS and ACME use it.
pub open spec fn b64url(b: Seq<u8>) -> Seq<char> {
    b64_text(b, true, false)
}

/// Standard base64 with padding.
pub open spec fn b64std(b: Seq<u8>) -> Seq<char> {
    b64_text(b, false, true)
}

/// Relies on base64::encode_config with URL_SAFE_NO_PAD: RFC 4648 section 5 text
/// of the bytes, without padding.
#[verifier::external_body]
fn encode_url_safe(data: &[u8]) -> (r: String)
    ensures
        r@ == b64url(data@),
{
    base64::encode_config(data, base64::URL_SAFE_NO_PAD)
}

/// Relies on base64::decode_config with URL_SAFE_NO_PAD: on text without `=` it
/// accepts exactly the canonical encodings (it rejects symbols outside the
/// alphabet, a lone trailing symbol and non-zero trailing bits).
#[verifier::external_body]
fn decode_url_safe(text: &str) -> (r: Result<Vec<u8>, base64::DecodeError>)
    requires
        !text@.contains('='),
    ensures
        r is Ok <==> exists|b: Seq<u8>| #[trigger] b64url(b) == text@,
        r is Ok ==> b64url(r->Ok_0@) == text@,
{
    base64::decode_config(text.as_bytes(), base64::URL_SAFE_NO_PAD)
}

/// Relies on base64::encode: RFC 4648 section 4 text of the bytes, with padding.
#[verifier::external_body]
pub(crate) fn encode_standard(data: &[u8]) -> (r: String)
    ensures
        r@ == b64std(data@),
{
    base64::encode(data)
}

/// Relies on base64::decode: a canonical padded encoding decodes to its bytes.
#[verifier::external_body]
pub(crate) fn decode_standard(text: &str) -> (r: Result<Vec<u8>, base64::DecodeError>)
    ensures
        (exists|b: Seq<u8>| #[trigger] b64std(b) == text@) ==> (r is Ok && b64std(r->Ok_0@)
            == text@),
{
    base64::decode(text.as_bytes())
}

/// URL-safe base64 of `data` without padding.
pub fn b64(data: &[u8]) -> (r: String)
    ensures
        r@ == b64url(data@),
{
    encode_url_safe(data)
}

/// Decodes URL-safe unpadded base64. Text holding `=` is rejected, as is anything
/// that is not the encoding of some byte string.
pub fn b64_decode(text: &str) -> (r: Result<Vec<u8>, AcmeError>)
    ensures
        r is Ok <==> exists|b: Seq<u8>| #[trigger] b64url(b) == text@,
        r is Ok ==> b64url(r->Ok_0@) == text@,
        r is Err ==> r == Err::<Vec<u8>, AcmeError>(AcmeError::Decode),
        text@.contains('=') ==> r is Err,
{
    let n = text.unicode_len();
    let mut i: usize = 0;
    while i < n
        invariant
            n == text@.len(),
            i <= n,
            forall|k: int| 0 <= k < i ==> text@[k] != '=',
        decreases n - i,
    {
        if text.get_char(i) == '=' {
            proof {
                if exists|b: Seq<u8>| #[trigger] b64url(b) == text@ {
                    let b = choose|b: Seq<u8>| #[trigger] b64url(b) == text@;
                    lemma_b64url_avoids(b, '=');
                    assert(b64url(b)[i as int] == '=');
                }
            }
            return Err(AcmeError::Decode);
        }
        i = i + 1;
    }
    assert(!text@.contains('='));
    match decode_url_safe(text) {
        Ok(v) => Ok(v),
        Err(_) => Err(AcmeError::Decode),
    }
}

proof fn lemma_symbol_injective(x: u8, y: u8, url_safe: bool)
    requires
        x < 64,
        y < 64,
        symbol(x, url_safe) == symbol(y, url_safe),
    ensures
        x == y,
{
}

proof fn lemma_sextets(a: u8, b: u8, c: u8)
    ensures
        a >> 2u8 < 64,
        (a & 3u8) << 4u8 < 64,
        ((a & 3u8) << 4u8) | (b >> 4u8) < 64,
        (b & 15u8) << 2u8 < 64,
        ((b & 15u8) << 2u8) | (c >> 6u8) < 64,
        c & 63u8 < 64,
{
    assert(a >> 2u8 < 64) by (bit_vector);
    assert((a & 3u8) << 4u8 < 64) by (bit_vector);
    assert(((a & 3u8) << 4u8) | (b >> 4u8) < 64) by (bit_vector);
    assert((b & 15u8) << 2u8 < 64) by (bit_vector);
    assert(((b & 15u8) << 2u8) | (c >> 6u8) < 64) by (bit_vector);
    assert(c & 63u8 < 64) by (bit_vector);
}

/// Unpadded text holds only symbols of the alphabet, so never a character that no
/// six-bit value stands for.
pub proof fn lemma_b64url_avoids(b: Seq<u8>, ch: char)
    requires
        forall|v: u8| v < 64 ==> #[trigger] symbol(v, true) != ch,
    ensures
        !b64url(b).contains(ch),
    decreases b.len(),
{
    let t = b64url(b);
    if b.len() == 0 {
    } else if b.len() == 1 {
        lemma_sextets(b[0], 0, 0);
        assert(forall|k: int| 0 <= k < t.len() ==> t[k] != ch);
    } else if b.len() == 2 {
        lemma_sextets(b[0], b[1], 0);
        assert(forall|k: int| 0 <= k < t.len() ==> t[k] != ch);
    } else {
        let rest = b.subrange(3, b.len() as int);
        lemma_b64url_avoids(rest, ch);
        lemma_sextets(b[0], b[1], b[2]);
        assert(forall|k: int| 4 <= k < t.len() ==> t[k] == b64url(rest)[k - 4]);
        assert(forall|k: int| 0 <= k < t.len() ==> t[k] != ch);
    }
}

proof fn lemma_symbol_not_pad(v: u8, url_safe: bool)
    requires
        v < 64,
    ensures
        symbol(v, url_safe) != '=',
{
}

/// Length and padding of the text, which tell a final group of one byte, of two
/// bytes, and a full group apart.
proof fn lemma_text_shape(b: Seq<u8>, url_safe: bool, pad: bool)
    ensures
        b.len() == 0 ==> b64_text(b, url_safe, pad).len() == 0,
        b.len() == 1 ==> b64_text(b, url_safe, pad).len() == (if pad { 4int } else { 2int })
            && (pad ==> b64_text(b, url_safe, pad)[2] == '='),
        b.len() == 2 ==> b64_text(b, url_safe, pad).len() == (if pad { 4int } else { 3int })
            && b64_text(b, url_safe, pad)[2] != '=' && (pad ==> b64_text(b, url_safe, pad)[3]
            == '='),
        b.len() >= 3 ==> b64_text(b, url_safe, pad).len() >= 4 && b64_text(b, url_safe, pad)[2]
            != '=' && b64_text(b, url_safe, pad)[3] != '=',
{
    if b.len() == 2 {
        lemma_sextets(b[0], b[1], 0);
        lemma_symbol_not_pad((b[1] & 15u8) << 2u8, url_safe);
    } else if b.len() >= 3 {
        lemma_sextets(b[0], b[1], b[2]);
        lemma_symbol_not_pad(((b[1] & 15u8) << 2u8) | (b[2] >> 6u8), url_safe);
        lemma_symbol_not_pad(b[2] & 63u8, url_safe);
    }
}

/// Base64 encoding, with either alphabet and with or without padding, is injective.
pub(crate) proof fn lemma_injective(a: Seq<u8>, b: Seq<u8>, url_safe: bool, pad: bool)
    requires
        b64_text(a, url_safe, pad) == b64_text(b, url_safe, pad),
    ensures
        a == b,
    decreases a.len(),
{
    let t = b64_text(a, url_safe, pad);
    lemma_text_shape(a, url_safe, pad);
    lemma_text_shape(b, url_safe, pad);
    if a.len() == 0 {
        assert(b.len() == 0);
        assert(a =~= b);
    } else if a.len() == 1 {
        assert(b.len() == 1);
        lemma_sextets(a[0], 0, 0);
        lemma_sextets(b[0], 0, 0);
        assert(t[0] == symbol(a[0] >> 2u8, url_safe) && t[0] == symbol(b[0] >> 2u8, url_safe));
        assert(t[1] == symbol((a[0] & 3u8) << 4u8, url_safe) && t[1] == symbol(
            (b[0] & 3u8) << 4u8,
            url_safe,
        ));
        lemma_symbol_injective(a[0] >> 2u8, b[0] >> 2u8, url_safe);
        lemma_symbol_injective((a[0] & 3u8) << 4u8, (b[0] & 3u8) << 4u8, url_safe);
        let (x0, y0) = (a[0], b[0]);
        assert(x0 == y0) by (bit_vector)
            requires
                x0 >> 2u8 == y0 >> 2u8,
                (x0 & 3u8) << 4u8 == (y0 & 3u8) << 4u8,
        ;
        assert(a =~= b);
    } else if a.len() == 2 {
        assert(b.len() == 2);
        lemma_sextets(a[0], a[1], 0);
        lemma_sextets(b[0], b[1], 0);
        assert(t[0] == symbol(a[0] >> 2u8, url_safe) && t[0] == symbol(b[0] >> 2u8, url_safe));
        assert(t[1] == symbol(((a[0] & 3u8) << 4u8) | (a[1] >> 4u8), url_safe) && t[1] == symbol(
            ((b[0] & 3u8) << 4u8) | (b[1] >> 4u8),
            url_safe,
        ));
        assert(t[2] == symbol((a[1] & 15u8) << 2u8, url_safe) && t[2] == symbol(
            (b[1] & 15u8) << 2u8,
            url_safe,
        ));
        lemma_symbol_injective(a[0] >> 2u8, b[0] >> 2u8, url_safe);
        lemma_symbol_injective(
            ((a[0] & 3u8) << 4u8) | (a[1] >> 4u8),
            ((b[0] & 3u8) << 4u8) | (b[1] >> 4u8),
            url_safe,
        );
        lemma_symbol_injective((a[1] & 15u8) << 2u8, (b[1] & 15u8) << 2u8, url_safe);
        let (x0, x1, y0, y1) = (a[0], a[1], b[0], b[1]);
        assert(x0 == y0 && x1 == y1) by (bit_vector)
            requires
                x0 >> 2u8 == y0 >> 2u8,
                ((x0 & 3u8) << 4u8) | (x1 >> 4u8) == ((y0 & 3u8) << 4u8) | (y1 >> 4u8),
                (x1 & 15u8) << 2u8 == (y1 & 15u8) << 2u8,
        ;
        assert(a =~= b);
    } else {
        assert(b.len() >= 3);
        let ra = a.subrange(3, a.len() as int);
        let rb = b.subrange(3, b.len() as int);
        let ga = seq![
            symbol(a[0] >> 2u8, url_safe),
            symbol(((a[0] & 3u8) << 4u8) | (a[1] >> 4u8), url_safe),
            symbol(((a[1] & 15u8) << 2u8) | (a[2] >> 6u8), url_safe),
            symbol(a[2] & 63u8, url_safe),
        ];
        let gb = seq![
            symbol(b[0] >> 2u8, url_safe),
            symbol(((b[0] & 3u8) << 4u8) | (b[1] >> 4u8), url_safe),
            symbol(((b[1] & 15u8) << 2u8) | (b[2] >> 6u8), url_safe),
            symbol(b[2] & 63u8, url_safe),
        ];
        assert(t == ga + b64_text(ra, url_safe, pad));
        assert(t == gb + b64_text(rb, url_safe, pad));
        assert(ga =~= t.subrange(0, 4));
        assert(gb =~= t.subrange(0, 4));
        assert(b64_text(ra, url_safe, pad) =~= t.subrange(4, t.len() as int));
        assert(b64_text(rb, url_safe, pad) =~= t.subrange(4, t.len() as int));
        lemma_injective(ra, rb, url_safe, pad);
        lemma_sextets(a[0], a[1], a[2]);
        lemma_sextets(b[0], b[1], b[2]);
        lemma_symbol_injective(a[0] >> 2u8, b[0] >> 2u8, url_safe);
        lemma_symbol_injective(
            ((a[0] & 3u8) << 4u8) | (a[1] >> 4u8),
            ((b[0] & 3u8) << 4u8) | (b[1] >> 4u8),
            url_safe,
        );
        lemma_symbol_injective(
            ((a[1] & 15u8) << 2u8) | (a[2] >> 6u8),
            ((b[1] & 15u8) << 2u8) | (b[2] >> 6u8),
            url_safe,
        );
        lemma_symbol_injective(a[2] & 63u8, b[2] & 63u8, url_safe);
        let (x0, x1, x2, y0, y1, y2) = (a[0], a[1], a[2], b[0], b[1], b[2]);
        assert(x0 == y0 && x1 == y1 && x2 == y2) by (bit_vector)
            requires
                x0 >> 2u8 == y0 >> 2u8,
                ((x0 & 3u8) << 4u8) | (x1 >> 4u8) == ((y0 & 3u8) << 4u8) | (y1 >> 4u8),
                ((x1 & 15u8) << 2u8) | (x2 >> 6u8) == ((y1 & 15u8) << 2u8) | (y2 >> 6u8),
                x2 & 63u8 == y2 & 63u8,
        ;
        assert(a =~= a.subrange(0, 3) + ra);
        assert(b =~= b.subrange(0, 3) + rb);
        assert(a.subrange(0, 3) =~= b.subrange(0, 3));
    }
}

/// Base64url round trip: the encoding of any byte string holds no `=`, and the
/// only byte string with that encoding is the string itself, so decoding what
/// `b64` produced gives back the same bytes.
pub proof fn b64_round_trip(b: Seq<u8>, decoded: Seq<u8>)
    requires
        b64url(decoded) == b64url(b),
    ensures
        decoded == b,
        !b64url(b).contains('='),
{
    lemma_injective(decoded, b, true, false);
    lemma_b64url_avoids(b, '=');
}

} // verus!
