//! Where the account material lives: the key space of the object store and the two
//! backends' addressing and value encodings.
use vstd::prelude::*;

use crate::base64url::{b64std, decode_standard, encode_standard, lemma_injective};
use crate::error::StoreError;
use crate::json::{json_member_text, json_string_member, member_text, string_member};

verus! {

/// What kind of account object a stored value is.
#[derive(Debug, Clone, Copy, PartialEq, Eq, Hash, Structural)]
pub enum ObjectKind {
    /// The JSON-serialized directory.
    Directory,
    /// The PKCS#8 blob of the account key.
    KeyPair,
    /// The account URL, as UTF-8.
    Account,
}

/// The file extension (and secret-name suffix) of a kind.
pub open spec fn extension(kind: ObjectKind) -> Seq<char> {
    match kind {
        ObjectKind::Directory => "dir"@,
        ObjectKind::KeyPair => "key"@,
        ObjectKind::Account => "acc"@,
    }
}

/// `<base>/accounts/<name>.<ext>`
pub open spec fn object_path(base: Seq<char>, kind: ObjectKind, name: Seq<char>) -> Seq<char> {
    base + "/accounts/"@ + name + "."@ + extension(kind)
}

fn object_path_of(base: &str, kind: ObjectKind, name: &str) -> (r: String)
    ensures
        r@ == object_path(base@, kind, name@),
{
    let mut s = String::from_str(base);
    s.append("/accounts/");
    s.append(name);
    s.append(".");
    match kind {
        ObjectKind::Directory => s.append("dir"),
        ObjectKind::KeyPair => s.append("key"),
        ObjectKind::Account => s.append("acc"),
    }
    s
}

/// A store that keeps each object in a file under `<base>/accounts/`. The base
/// directory must exist.
#[derive(Debug, Clone)]
pub struct FileStore {
    base_dir: String,
}

impl FileStore {
    pub closed spec fn base_view(&self) -> Seq<char> {
        self.base_dir@
    }

    /// A file store rooted at `base_dir`.
    pub fn init(base_dir: &str) -> (r: Result<FileStore, StoreError>)
        ensures
            r matches Ok(s) && s.base_view() == base_dir@,
    {
        Ok(FileStore { base_dir: String::from_str(base_dir) })
    }

    /// The file that holds the object of `kind` for the account `account_name`.
    pub fn path_for(&self, kind: ObjectKind, account_name: &str) -> (r: String)
        ensures
            r@ == object_path(self.base_view(), kind, account_name@),
    {
        object_path_of(self.base_dir.as_str(), kind, account_name)
    }
}

/// `<addr>/v1/secret/data/<path>`
pub open spec fn secret_url(addr: Seq<char>, path: Seq<char>) -> Seq<char> {
    addr + "/v1/secret/data/"@ + path
}

/// The body that stores `payload` as a secret: `{"data":{"value":"<base64>"}}`.
pub open spec fn secret_body(payload: Seq<u8>) -> Seq<char> {
    "{\"data\":{\"value\":\""@ + b64std(payload) + "\"}}"@
}

/// The stored value in the body of a secret read: the string `data.data.value`.
pub open spec fn secret_value(body: Seq<char>) -> Option<Seq<char>> {
    match json_member_text(body, "data"@) {
        Some(outer) => match json_member_text(outer, "data"@) {
            Some(inner) => json_string_member(inner, "value"@),
            None => None,
        },
        None => None,
    }
}

/// A store that keeps each object as a secret of a key/value secret engine, under
/// `<prefix>/accounts/<name>.<ext>`. Values are stored base64-encoded, because the
/// engine holds strings.
#[derive(Debug, Clone)]
pub struct VaultStore {
    addr: String,
    token: String,
    prefix: String,
}

impl VaultStore {
    pub closed spec fn addr_view(&self) -> Seq<char> {
        self.addr@
    }

    pub closed spec fn token_view(&self) -> Seq<char> {
        self.token@
    }

    pub closed spec fn prefix_view(&self) -> Seq<char> {
        self.prefix@
    }

    /// A secret store at `addr` with access `token`, both required, keeping its
    /// objects under `prefix`.
    pub fn init(addr: Option<String>, token: Option<String>, prefix: &str) -> (r: Result<
        VaultStore,
        StoreError,
    >)
        ensures
            match r {
                Ok(s) => addr matches Some(a) && token matches Some(t) && s.addr_view() == a@
                    && s.token_view() == t@ && s.prefix_view() == prefix@,
                Err(e) => (addr is None || token is None) && e == StoreError::Init,
            },
    {
        match (addr, token) {
            (Some(addr), Some(token)) => Ok(VaultStore { addr, token, prefix: String::from_str(prefix) }),
            _ => Err(StoreError::Init),
        }
    }

    /// The access token sent with every call.
    pub fn token(&self) -> (r: &String)
        ensures
            r@ == self.token_view(),
    {
        &self.token
    }

    /// The secret path of an object.
    pub fn path_for(&self, kind: ObjectKind, account_name: &str) -> (r: String)
        ensures
            r@ == object_path(self.prefix_view(), kind, account_name@),
    {
        object_path_of(self.prefix.as_str(), kind, account_name)
    }

    /// The URL of the secret at `path`.
    pub fn url_for(&self, path: &str) -> (r: String)
        ensures
            r@ == secret_url(self.addr_view(), path@),
    {
        let mut s = self.addr.clone();
        s.append("/v1/secret/data/");
        s.append(path);
        s
    }

    /// The request body that writes `payload`.
    pub fn put_body(payload: &[u8]) -> (r: String)
        ensures
            r@ == secret_body(payload@),
    {
        let mut s = String::from_str("{\"data\":{\"value\":\"");
        s.append(encode_standard(payload).as_str());
        s.append("\"}}");
        s
    }

    /// The object held in the body of a secret read: the base64 string at
    /// `data.data.value`, decoded.
    pub fn value_from_response(body: &str) -> (r: Result<Vec<u8>, StoreError>)
        ensures
            secret_value(body@) is None ==> r == Err::<Vec<u8>, StoreError>(StoreError::NotFound),
            (secret_value(body@) matches Some(v) && (exists|b: Seq<u8>| #[trigger] b64std(b) == v))
                ==> (r matches Ok(bytes) && b64std(bytes@) == secret_value(body@)->Some_0),
            r matches Err(e) ==> e == StoreError::NotFound || e == StoreError::Base64Decode,
            forall|b: Seq<u8>|
                secret_value(body@) == Some(#[trigger] b64std(b)) ==> (r matches Ok(v) && v@ == b),
    {
        let outer = match member_text(body, "data") {
            Some(o) => o,
            None => return Err(StoreError::NotFound),
        };
        let inner = match member_text(outer.as_str(), "data") {
            Some(i) => i,
            None => return Err(StoreError::NotFound),
        };
        let value = match string_member(inner.as_str(), "value") {
            Some(v) => v,
            None => return Err(StoreError::NotFound),
        };
        let decoded = decode_standard(value.as_str());
        proof {
            assert forall|b: Seq<u8>| secret_value(body@) == Some(#[trigger] b64std(b)) implies (
            decoded matches Ok(v) && v@ == b) by {
                assert(b64std(b) == value@);
                let v = decoded->Ok_0;
                lemma_injective(v@, b, false, true);
            }
        }
        match decoded {
            Ok(bytes) => Ok(bytes),
            Err(_) => Err(StoreError::Base64Decode),
        }
    }
}

} // verus!
