//! The failures that the library's operations report.
use vstd::prelude::*;

verus! {

/// A failure of the object store that holds account material.
#[derive(Debug, Clone, PartialEq, Eq)]
pub enum StoreError {
    /// The store could not be set up (missing settings).
    Init,
    /// The secret-store API failed; carries its message.
    Vault(String),
    /// A response of the secret store could not be read as JSON; carries its message.
    JsonEncode(String),
    /// A stored value was not valid base64.
    Base64Decode,
    /// File access failed; carries its message.
    File(String),
    /// No object is stored under the requested key.
    NotFound,
}

/// A failure of the ACME client.
#[derive(Debug, Clone, PartialEq, Eq)]
pub enum AcmeError {
    /// Network failure, or a response body that could not be read; carries the message.
    Transport(String),
    /// The directory could not be fetched or parsed; carries the message.
    BadDirectory(String),
    /// The response to `newNonce` or to a signed request has no `Replay-Nonce`.
    MissingNonce,
    /// The response to `newAccount` has no `Location`.
    MissingLocation,
    /// The session has no key identifier where one is required.
    NotRegistered,
    /// Key generation failed.
    KeyGen,
    /// A PKCS#8 blob was rejected.
    KeyDecode,
    /// A public key is not an uncompressed P-256 point.
    BadPublicKey,
    /// The signer returned an error.
    SigningFailed,
    /// The object store failed.
    Store(StoreError),
    /// Base64, UTF-8 or JSON decoding failed.
    Decode,
    /// The stored account could not be parsed.
    CorruptStore,
    /// The server rejected `newAccount`; carries its body.
    RegistrationFailed(String),
    /// The server rejected `newOrder`; carries its body.
    OrderFailed(String),
    /// The server rejected an authorization fetch; carries its body.
    AuthorizationFailed(String),
    /// A response to an order-flow request could not be decoded; carries its body.
    BadResponse(String),
}

/// The one-line text of a store failure: its kind, then its detail where it has one.
pub open spec fn store_error_text(e: StoreError) -> Seq<char> {
    match e {
        StoreError::Init => "store setup: address and token are required"@,
        StoreError::Vault(m) => "secret store: "@ + m@,
        StoreError::JsonEncode(m) => "secret store response: "@ + m@,
        StoreError::Base64Decode => "stored value is not base64"@,
        StoreError::File(m) => "file: "@ + m@,
        StoreError::NotFound => "not found"@,
    }
}

impl StoreError {
    /// The failure as one line of text.
    pub fn message(&self) -> (r: String)
        ensures
            r@ == store_error_text(*self),
    {
        match self {
            StoreError::Init => String::from_str("store setup: address and token are required"),
            StoreError::Vault(m) => String::from_str("secret store: ").concat(m.as_str()),
            StoreError::JsonEncode(m) => String::from_str("secret store response: ").concat(m.as_str()),
            StoreError::Base64Decode => String::from_str("stored value is not base64"),
            StoreError::File(m) => String::from_str("file: ").concat(m.as_str()),
            StoreError::NotFound => String::from_str("not found"),
        }
    }
}

/// The one-line text of a client failure: its kind, then the server's body or the
/// detail where it has one.
pub open spec fn acme_error_text(e: AcmeError) -> Seq<char> {
    match e {
        AcmeError::Transport(m) => "transport: "@ + m@,
        AcmeError::BadDirectory(b) => "bad directory: "@ + b@,
        AcmeError::MissingNonce => "missing header: Replay-Nonce"@,
        AcmeError::MissingLocation => "missing header: Location"@,
        AcmeError::NotRegistered => "account not registered"@,
        AcmeError::KeyGen => "key generation failed"@,
        AcmeError::KeyDecode => "key rejected"@,
        AcmeError::BadPublicKey => "bad public key"@,
        AcmeError::SigningFailed => "signing failed"@,
        AcmeError::Store(s) => "store: "@ + store_error_text(s),
        AcmeError::Decode => "decode failed"@,
        AcmeError::CorruptStore => "corrupt store"@,
        AcmeError::RegistrationFailed(b) => "registration failed: "@ + b@,
        AcmeError::OrderFailed(b) => "order failed: "@ + b@,
        AcmeError::AuthorizationFailed(b) => "authorization failed: "@ + b@,
        AcmeError::BadResponse(b) => "bad response: "@ + b@,
    }
}

impl AcmeError {
    /// The failure as one line of text.
    pub fn message(&self) -> (r: String)
        ensures
            r@ == acme_error_text(*self),
    {
        match self {
            AcmeError::Transport(m) => String::from_str("transport: ").concat(m.as_str()),
            AcmeError::BadDirectory(b) => String::from_str("bad directory: ").concat(b.as_str()),
            AcmeError::MissingNonce => String::from_str("missing header: Replay-Nonce"),
            AcmeError::MissingLocation => String::from_str("missing header: Location"),
            AcmeError::NotRegistered => String::from_str("account not registered"),
            AcmeError::KeyGen => String::from_str("key generation failed"),
            AcmeError::KeyDecode => String::from_str("key rejected"),
            AcmeError::BadPublicKey => String::from_str("bad public key"),
            AcmeError::SigningFailed => String::from_str("signing failed"),
            AcmeError::Store(s) => String::from_str("store: ").concat(s.message().as_str()),
            AcmeError::Decode => String::from_str("decode failed"),
            AcmeError::CorruptStore => String::from_str("corrupt store"),
            AcmeError::RegistrationFailed(b) => String::from_str("registration failed: ").concat(
                b.as_str(),
            ),
            AcmeError::OrderFailed(b) => String::from_str("order failed: ").concat(b.as_str()),
            AcmeError::AuthorizationFailed(b) => String::from_str("authorization failed: ").concat(
                b.as_str(),
            ),
            AcmeError::BadResponse(b) => String::from_str("bad response: ").concat(b.as_str()),
        }
    }
}

} // verus!
