//! JSON Web Keys and flattened JSON Web Signatures (RFC 7515, 7517) for ECDSA P-256
//! keys, in the profile that ACME requires: `ES256`, base64url without padding, and
//! exactly one of `jwk` or `kid` in the protected header.
use vstd::prelude::*;

use crate::base64url::{b64, b64_round_trip, b64url, lemma_b64url_avoids, symbol};
use crate::crypto::{p256_signature_valid, KeyPair};
use crate::error::AcmeError;
use crate::json::{json_quoted, json_string};
use crate::text::{copy_range, find_quote, starts_with, str_equal};
use vstd::utf8::{decode_utf8, encode_utf8, valid_utf8};

verus! {

/// An uncompressed SEC1 P-256 point: the prefix 0x04, then X and Y of 32 bytes each.
pub open spec fn is_uncompressed_point(public_key: Seq<u8>) -> bool {
    public_key.len() == 65 && public_key[0] == 4
}

/// The JWK of an EC P-256 key with base64url coordinates `x` and `y`, its members in
/// lexicographic order and without whitespace.
pub open spec fn jwk_text(x: Seq<char>, y: Seq<char>) -> Seq<char> {
    "{\"crv\":\"P-256\",\"kty\":\"EC\",\"x\":\""@ + x + "\",\"y\":\""@ + y + "\"}"@
}

/// The canonical JWK of an uncompressed public key.
pub open spec fn canonical_jwk(public_key: Seq<u8>) -> Seq<char> {
    jwk_text(b64url(public_key.subrange(1, 33)), b64url(public_key.subrange(33, 65)))
}

/// The protected header: `alg`, then `kid` when a key identifier is given and `jwk`
/// otherwise, then `nonce` and `url`.
pub open spec fn protected_header(
    public_key: Seq<u8>,
    kid: Option<Seq<char>>,
    nonce: Seq<char>,
    url: Seq<char>,
) -> Seq<char> {
    "{\"alg\":\"ES256\","@ + match kid {
        Some(k) => "\"kid\":"@ + json_quoted(k),
        None => "\"jwk\":"@ + canonical_jwk(public_key),
    } + ",\"nonce\":"@ + json_quoted(nonce) + ",\"url\":"@ + json_quoted(url) + "}"@
}

/// The flattened JSON serialization of a JWS from its three base64url parts.
pub open spec fn flattened_jws(
    protected: Seq<char>,
    payload: Seq<char>,
    signature: Seq<char>,
) -> Seq<char> {
    "{\"protected\":\""@ + protected + "\",\"payload\":\""@ + payload + "\",\"signature\":\""@
        + signature + "\"}"@
}

/// The bytes that are signed: the two encoded parts joined by a dot.
pub open spec fn signing_input(protected: Seq<char>, payload: Seq<char>) -> Seq<u8> {
    encode_utf8(protected + "."@ + payload)
}

/// The encoded protected header of a request.
pub open spec fn encoded_header(
    public_key: Seq<u8>,
    kid: Option<Seq<char>>,
    nonce: Seq<char>,
    url: Seq<char>,
) -> Seq<char> {
    b64url(encode_utf8(protected_header(public_key, kid, nonce, url)))
}

/// The encoded payload of a request; an empty payload stays empty.
pub open spec fn encoded_payload(payload: Seq<char>) -> Seq<char> {
    b64url(encode_utf8(payload))
}

/// `text` is the flattened JWS of the request, with some valid 64-byte signature.
pub open spec fn is_signed_request(
    text: Seq<char>,
    public_key: Seq<u8>,
    kid: Option<Seq<char>>,
    nonce: Seq<char>,
    url: Seq<char>,
    payload: Seq<char>,
) -> bool {
    let p = encoded_header(public_key, kid, nonce, url);
    let pl = encoded_payload(payload);
    exists|sig: Seq<u8>|
        sig.len() == 64 && #[trigger] p256_signature_valid(public_key, signing_input(p, pl), sig)
            && text == flattened_jws(p, pl, b64url(sig))
}

/// The protected header of a signed request decodes to the header itself: whatever
/// bytes base64url-encode to the `protected` member are the UTF-8 text of
/// `protected_header`, which holds `alg` set to `ES256`, then exactly one of `kid`
/// (when a key identifier was given) or `jwk` (when none was), then the request's
/// `nonce` and `url`.
pub proof fn signed_header_decodes(
    public_key: Seq<u8>,
    kid: Option<Seq<char>>,
    nonce: Seq<char>,
    url: Seq<char>,
    decoded: Seq<u8>,
)
    requires
        b64url(decoded) == encoded_header(public_key, kid, nonce, url),
    ensures
        valid_utf8(decoded),
        decode_utf8(decoded) == protected_header(public_key, kid, nonce, url),
{
    let header = protected_header(public_key, kid, nonce, url);
    b64_round_trip(encode_utf8(header), decoded);
    vstd::utf8::encode_utf8_valid_utf8(header);
    vstd::utf8::encode_utf8_decode_utf8(header);
}

pub open spec fn opt_view(o: Option<&str>) -> Option<Seq<char>> {
    match o {
        Some(s) => Some(s@),
        None => None,
    }
}

/// Whether `s` holds no double quote.
pub open spec fn quote_free(s: Seq<char>) -> bool {
    forall|i: int| 0 <= i < s.len() ==> s[i] != '"'
}

/// The text of a canonical JWK before its `x` coordinate.
pub open spec fn jwk_head() -> Seq<char> {
    "{\"crv\":\"P-256\",\"kty\":\"EC\",\"x\":\""@
}

/// The text of a canonical JWK between its coordinates.
pub open spec fn jwk_mid() -> Seq<char> {
    "\",\"y\":\""@
}

/// The text of a canonical JWK after its `y` coordinate.
pub open spec fn jwk_tail() -> Seq<char> {
    "\"}"@
}

/// Where the parts of a canonical JWK text lie, for coordinates without quotes: the
/// first quote after the head closes `x`, and the first quote after the middle part
/// closes `y`.
proof fn lemma_jwk_layout(x: Seq<char>, y: Seq<char>)
    requires
        quote_free(x),
        quote_free(y),
    ensures
        ({
            let t = jwk_text(x, y);
            let h = jwk_head().len() as int;
            let q = h + x.len();
            let y_start = q + jwk_mid().len();
            let y_end = y_start + y.len();
            &&& h == 31 && jwk_mid().len() == 7 && jwk_tail().len() == 2
            &&& t.len() == y_end + 2
            &&& t.subrange(0, h) == jwk_head()
            &&& t.subrange(h, q) == x
            &&& t[q] == '"'
            &&& forall|k: int| h <= k < q ==> t[k] != '"'
            &&& t.subrange(q, y_start) == jwk_mid()
            &&& t.subrange(y_start, y_end) == y
            &&& t[y_end] == '"'
            &&& forall|k: int| y_start <= k < y_end ==> t[k] != '"'
            &&& t.subrange(y_end, t.len() as int) == jwk_tail()
        }),
{
    reveal_strlit("{\"crv\":\"P-256\",\"kty\":\"EC\",\"x\":\"");
    reveal_strlit("\",\"y\":\"");
    reveal_strlit("\"}");
    let t = jwk_text(x, y);
    let h = jwk_head().len() as int;
    let q = h + x.len();
    let y_start = q + jwk_mid().len();
    let y_end = y_start + y.len();
    assert(t == jwk_head() + x + jwk_mid() + y + jwk_tail());
    assert(t.subrange(0, h) =~= jwk_head());
    assert(t.subrange(h, q) =~= x);
    assert(t.subrange(q, y_start) =~= jwk_mid());
    assert(t.subrange(y_start, y_end) =~= y);
    assert(t.subrange(y_end, t.len() as int) =~= jwk_tail());
    assert forall|k: int| h <= k < q implies t[k] != '"' by {
        assert(t[k] == x[k - h]);
    }
    assert forall|k: int| y_start <= k < y_end implies t[k] != '"' by {
        assert(t[k] == y[k - y_start]);
    }
}

/// Base64url text never holds a double quote.
proof fn lemma_b64url_quote_free(b: Seq<u8>)
    ensures
        quote_free(b64url(b)),
{
    assert forall|v: u8| v < 64 implies #[trigger] symbol(v, true) != '"' by {
    }
    lemma_b64url_avoids(b, '"');
    let t = b64url(b);
    assert forall|i: int| 0 <= i < t.len() implies t[i] != '"' by {
        if t[i] == '"' {
            assert(t.contains('"'));
        }
    }
}

/// JWK round trip: the coordinates of the canonical JWK of an uncompressed P-256 key
/// hold no quote, and they are the only quote-free coordinates whose JWK text is that
/// text, so reading it back (`Jwk::parse`) gives exactly the key's JWK. The members
/// stand in the order `crv`, `kty`, `x`, `y` (see `jwk_text`).
pub proof fn jwk_round_trip(public_key: Seq<u8>, x: Seq<char>, y: Seq<char>)
    requires
        is_uncompressed_point(public_key),
    ensures
        quote_free(b64url(public_key.subrange(1, 33))),
        quote_free(b64url(public_key.subrange(33, 65))),
        quote_free(x) && quote_free(y) && jwk_text(x, y) == canonical_jwk(public_key) ==> x
            == b64url(public_key.subrange(1, 33)) && y == b64url(public_key.subrange(33, 65)),
{
    let bx = b64url(public_key.subrange(1, 33));
    let by = b64url(public_key.subrange(33, 65));
    lemma_b64url_quote_free(public_key.subrange(1, 33));
    lemma_b64url_quote_free(public_key.subrange(33, 65));
    if quote_free(x) && quote_free(y) && jwk_text(x, y) == canonical_jwk(public_key) {
        lemma_jwk_text_injective(x, y, bx, by);
    }
}

/// Canonical JWK texts of quote-free coordinates differ when the coordinates do.
proof fn lemma_jwk_text_injective(x: Seq<char>, y: Seq<char>, x2: Seq<char>, y2: Seq<char>)
    requires
        quote_free(x),
        quote_free(y),
        quote_free(x2),
        quote_free(y2),
        jwk_text(x, y) == jwk_text(x2, y2),
    ensures
        x == x2,
        y == y2,
{
    lemma_jwk_layout(x, y);
    lemma_jwk_layout(x2, y2);
    let t = jwk_text(x, y);
    let h = 31int;
    if x.len() < x2.len() {
        assert(t[h + x.len()] == '"');
    } else if x.len() > x2.len() {
        assert(t[h + x2.len()] == '"');
    }
    assert(x.len() == x2.len());
    let y_start = h + x.len() + 7;
    if y.len() < y2.len() {
        assert(t[y_start + y.len()] == '"');
    } else if y.len() > y2.len() {
        assert(t[y_start + y2.len()] == '"');
    }
}

/// A JSON Web Key of an EC P-256 public key; `x` and `y` hold the base64url
/// coordinates (`crv` is always `P-256` and `kty` always `EC`).
#[derive(Debug, Clone, PartialEq, Eq)]
pub struct Jwk {
    pub x: String,
    pub y: String,
}

impl Jwk {
    /// The canonical serialization: members `crv`, `kty`, `x`, `y` in that order.
    pub fn to_json(&self) -> (r: String)
        ensures
            r@ == jwk_text(self.x@, self.y@),
    {
        let mut s = String::from_str("{\"crv\":\"P-256\",\"kty\":\"EC\",\"x\":\"");
        s.append(self.x.as_str());
        s.append("\",\"y\":\"");
        s.append(self.y.as_str());
        s.append("\"}");
        s
    }

    /// Reads a JWK in the canonical form that `to_json` writes; the coordinates may
    /// not hold a double quote.
    pub fn parse(text: &str) -> (r: Option<Jwk>)
        ensures
            r matches Some(j) ==> quote_free(j.x@) && quote_free(j.y@) && text@ == jwk_text(
                j.x@,
                j.y@,
            ),
            (exists|x: Seq<char>, y: Seq<char>|
                quote_free(x) && quote_free(y) && #[trigger] jwk_text(x, y) == text@) ==> r is Some,
    {
        let head = "{\"crv\":\"P-256\",\"kty\":\"EC\",\"x\":\"";
        let mid = "\",\"y\":\"";
        let tail = "\"}";
        proof {
            reveal_strlit("{\"crv\":\"P-256\",\"kty\":\"EC\",\"x\":\"");
            reveal_strlit("\",\"y\":\"");
            reveal_strlit("\"}");
        }
        let ghost t = text@;
        let ghost witness = exists|x: Seq<char>, y: Seq<char>|
            quote_free(x) && quote_free(y) && #[trigger] jwk_text(x, y) == text@;
        let ghost (wx, wy) = if witness {
            choose|x: Seq<char>, y: Seq<char>|
                quote_free(x) && quote_free(y) && #[trigger] jwk_text(x, y) == text@
        } else {
            (Seq::<char>::empty(), Seq::<char>::empty())
        };
        proof {
            if witness {
                lemma_jwk_layout(wx, wy);
            }
        }
        let n = text.unicode_len();
        let h = head.unicode_len();
        if !starts_with(text, head) {
            return None;
        }
        let q = match find_quote(text, h) {
            Some(q) => q,
            None => {
                proof {
                    if witness {
                        assert(t[h + wx.len()] == '"');
                    }
                }
                return None;
            },
        };
        proof {
            if witness {
                if q < h + wx.len() {
                    assert(t[q as int] != '"');
                } else if q > h + wx.len() {
                    assert(t[h + wx.len()] == '"');
                }
                assert(q == h + wx.len());
            }
        }
        let rest = text.substring_char(q, n);
        if !starts_with(rest, mid) {
            proof {
                if witness {
                    assert(rest@.subrange(0, 7) =~= t.subrange(q as int, q + 7));
                }
            }
            return None;
        }
        let y_start = q + mid.unicode_len();
        let y_end = match find_quote(text, y_start) {
            Some(y_end) => y_end,
            None => {
                proof {
                    if witness {
                        assert(t[y_start + wy.len()] == '"');
                    }
                }
                return None;
            },
        };
        proof {
            if witness {
                if y_end < y_start + wy.len() {
                    assert(t[y_end as int] != '"');
                } else if y_end > y_start + wy.len() {
                    assert(t[y_start + wy.len()] == '"');
                }
                assert(y_end == y_start + wy.len());
            }
        }
        if !str_equal(text.substring_char(y_end, n), tail) {
            return None;
        }
        let x = String::from_str(text.substring_char(h, q));
        let y = String::from_str(text.substring_char(y_start, y_end));
        proof {
            assert(rest@.subrange(0, 7) =~= t.subrange(q as int, q + 7));
            assert(t =~= t.subrange(0, h as int) + x@ + t.subrange(q as int, y_start as int) + y@
                + t.subrange(y_end as int, n as int));
            assert(t == jwk_text(x@, y@));
            assert forall|i: int| 0 <= i < x@.len() implies x@[i] != '"' by {
                assert(x@[i] == t[h + i]);
            }
            assert forall|i: int| 0 <= i < y@.len() implies y@[i] != '"' by {
                assert(y@[i] == t[y_start + i]);
            }
        }
        Some(Jwk { x, y })
    }
}

/// The JWK of a raw public key, which must be an uncompressed P-256 point.
pub fn jwk(public_key: &[u8]) -> (r: Result<Jwk, AcmeError>)
    ensures
        match r {
            Ok(j) => is_uncompressed_point(public_key@) && jwk_text(j.x@, j.y@) == canonical_jwk(
                public_key@,
            ) && j.x@ == b64url(public_key@.subrange(1, 33)) && j.y@ == b64url(
                public_key@.subrange(33, 65),
            ),
            Err(e) => !is_uncompressed_point(public_key@) && e == AcmeError::BadPublicKey,
        },
{
    if public_key.len() != 65 || public_key[0] != 4 {
        return Err(AcmeError::BadPublicKey);
    }
    let x = copy_range(public_key, 1, 33);
    let y = copy_range(public_key, 33, 65);
    Ok(Jwk { x: b64(x.as_slice()), y: b64(y.as_slice()) })
}

/// The canonical JWK text of a key pair's public key.
pub fn jwk_json(key_pair: &KeyPair) -> (r: String)
    requires
        key_pair.wf(),
    ensures
        r@ == canonical_jwk(key_pair.public_key_bytes()),
{
    match jwk(key_pair.public_key().as_slice()) {
        Ok(j) => j.to_json(),
        Err(_) => {
            proof {
                assert(false);
            }
            String::new()
        },
    }
}

fn header_text(key_pair: &KeyPair, nonce: &str, url: &str, kid: Option<&str>) -> (r: String)
    requires
        key_pair.wf(),
    ensures
        r@ == protected_header(key_pair.public_key_bytes(), opt_view(kid), nonce@, url@),
{
    let mut s = String::from_str("{\"alg\":\"ES256\",");
    match kid {
        Some(k) => {
            s.append("\"kid\":");
            s.append(json_string(k).as_str());
        },
        None => {
            s.append("\"jwk\":");
            s.append(jwk_json(key_pair).as_str());
        },
    }
    s.append(",\"nonce\":");
    s.append(json_string(nonce).as_str());
    s.append(",\"url\":");
    s.append(json_string(url).as_str());
    s.append("}");
    s
}

/// Signs an ACME request: builds the protected header for `nonce` and `url` (with
/// `kid` when one is given, the key's JWK otherwise), encodes it and the payload, and
/// signs the two encoded parts joined by a dot. The result is the flattened JSON
/// serialization with members `protected`, `payload` and `signature`.
pub fn sign(key_pair: &KeyPair, nonce: &str, url: &str, payload: &str, kid: Option<&str>) -> (r:
    Result<String, AcmeError>)
    requires
        key_pair.wf(),
    ensures
        r matches Ok(text) ==> is_signed_request(
            text@,
            key_pair.public_key_bytes(),
            opt_view(kid),
            nonce@,
            url@,
            payload@,
        ),
        r matches Err(e) ==> e == AcmeError::SigningFailed,
{
    let header = header_text(key_pair, nonce, url, kid);
    let protected = b64(header.as_str().as_bytes());
    let encoded = b64(payload.as_bytes());
    let mut input = protected.clone();
    input.append(".");
    input.append(encoded.as_str());
    match key_pair.sign_bytes(input.as_str().as_bytes()) {
        Ok(sig) => {
            let signature = b64(sig.as_slice());
            let mut text = String::from_str("{\"protected\":\"");
            text.append(protected.as_str());
            text.append("\",\"payload\":\"");
            text.append(encoded.as_str());
            text.append("\",\"signature\":\"");
            text.append(signature.as_str());
            text.append("\"}");
            proof {
                let p = encoded_header(
                    key_pair.public_key_bytes(),
                    opt_view(kid),
                    nonce@,
                    url@,
                );
                let pl = encoded_payload(payload@);
                assert(input@ == p + "."@ + pl);
                assert(p256_signature_valid(key_pair.public_key_bytes(), signing_input(p, pl), sig@));
                assert(text@ == flattened_jws(p, pl, b64url(sig@)));
            }
            Ok(text)
        },
        Err(_) => Err(AcmeError::SigningFailed),
    }
}

} // verus!
