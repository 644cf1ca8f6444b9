//! An ACME (RFC 8555) client core: base64url and JWS signing with ECDSA P-256 keys,
//! the account session with its nonce and key identifier, the order flow for
//! `dns-01` challenges, and the addressing of the stores that keep account material.
//! Network and storage I/O are left to the caller, which hands the library plain
//! values.
use vstd::prelude::*;

pub mod account;
pub mod base64url;
pub mod config;
pub mod crypto;
pub mod directory;
pub mod error;
pub mod json;
pub mod jws;
pub mod order;
pub mod storage;
pub mod text;

verus! {

/// The client's name, as the user agent and the log show it.
pub const APP_NAME: &'static str = "certifika";

/// The client's version.
pub const APP_VERSION: &'static str = "0.1.0";

/// The HTTP library, as the user agent names it.
pub const HTTP_CLIENT_LIB: &'static str = "ureq 2.12.1";

/// The Let's Encrypt staging directory.
pub const LETSENCRYPT_DIRECTORY_URL: &'static str =
    "https://acme-staging-v02.api.letsencrypt.org/directory";

/// A status in the success class, 200 to 299.
pub open spec fn status_ok(status: u16) -> bool {
    200 <= status < 300
}

/// Whether an HTTP status code is in the success class.
pub fn http_status_ok(status: u16) -> (r: bool)
    ensures
        r == status_ok(status),
{
    200 <= status && status < 300
}

/// The user agent of every request: `<app> <version>/<http library>`.
pub open spec fn user_agent() -> Seq<char> {
    APP_NAME@ + " "@ + APP_VERSION@ + "/"@ + HTTP_CLIENT_LIB@
}

/// The user agent that every request carries, as RFC 8555 asks of ACME clients.
pub fn http_user_agent() -> (r: String)
    ensures
        r@ == user_agent(),
{
    let mut s = String::from_str(APP_NAME);
    s.append(" ");
    s.append(APP_VERSION);
    s.append("/");
    s.append(HTTP_CLIENT_LIB);
    s
}

} // verus!
