//! The ACME account session: its key pair, directory, current nonce and key
//! identifier, and the signed requests it makes. Sending a request is left to the
//! caller, which hands each response back to the session.
use vstd::prelude::*;

use crate::base64url::{b64, b64url};
use crate::crypto::{pkcs8_public_key, sha256, sha256_digest, KeyPair};
use crate::directory::{directory_record, Directory};
use crate::error::AcmeError;
use crate::json::{json_member_text, json_quoted, json_string, json_string_member};
use crate::jws::{canonical_jwk, is_signed_request, jwk_json, sign};
use crate::order::{order_payload, order_payload_text, step_post, Step};
use crate::status_ok;
use crate::storage::ObjectKind;
use crate::text::{str_equal, utf8_string};
use vstd::utf8::{decode_utf8, encode_utf8, valid_utf8};

verus! {

broadcast use vstd::utf8::group_utf8_lib;

/// What an account session holds, as plain values.
pub struct AccountView {
    pub email: Seq<char>,
    pub directory_url: Seq<char>,
    pub directory_document: Seq<char>,
    pub pkcs8: Seq<u8>,
    pub public_key: Seq<u8>,
    pub nonce: Seq<char>,
    pub kid: Option<Seq<char>>,
}

/// A request ready to be POSTed: its target URL and its JWS body.
#[derive(Debug, Clone)]
pub struct SignedRequest {
    pub url: String,
    pub body: String,
}

/// The resource name whose successful response carries the new account's URL.
pub open spec fn new_account_resource() -> Seq<char> {
    "newAccount"@
}

/// The `newAccount` payload: `{"contact":["mailto:<email>"],"termsOfServiceAgreed":true}`.
pub open spec fn registration_payload(email: Seq<char>) -> Seq<char> {
    "{\"contact\":["@ + json_quoted("mailto:"@ + email) + "],\"termsOfServiceAgreed\":true}"@
}

/// The key authorization of a challenge token: the token, a dot, and the base64url
/// SHA-256 digest of the canonical JWK of the account key.
pub open spec fn key_authorization_of(token: Seq<char>, public_key: Seq<u8>) -> Seq<char> {
    token + "."@ + b64url(sha256(encode_utf8(canonical_jwk(public_key))))
}

/// The objects that persist an account, in the order they are written.
pub open spec fn saved_objects(a: AccountView) -> Seq<(ObjectKind, Seq<u8>)> {
    seq![
        (ObjectKind::KeyPair, a.pkcs8),
        (ObjectKind::Account, encode_utf8(a.kid->Some_0)),
        (ObjectKind::Directory, encode_utf8(directory_record(a.directory_url, a.directory_document))),
    ]
}

/// The session `a` with the nonce `nonce`.
pub open spec fn with_nonce(a: AccountView, nonce: Seq<char>) -> AccountView {
    AccountView { nonce, ..a }
}

/// The session `a` after the server accepted its registration under the account URL
/// `kid` and sent the nonce `nonce`.
pub open spec fn registered_as(a: AccountView, nonce: Seq<char>, kid: Seq<char>) -> AccountView {
    AccountView { nonce, kid: Some(kid), ..a }
}

/// `objects` holds exactly the objects that persist `a`, in order.
pub open spec fn persists(objects: Seq<(ObjectKind, Vec<u8>)>, a: AccountView) -> bool {
    &&& objects.len() == 3
    &&& forall|i: int|
        0 <= i < 3 ==> (#[trigger] objects[i]).0 == saved_objects(a)[i].0 && objects[i].1@
            == saved_objects(a)[i].1
}

/// The session that loading makes from the three stored objects and a fresh nonce.
pub open spec fn loaded_view(
    email: Seq<char>,
    key: Seq<u8>,
    directory: Seq<u8>,
    account: Seq<u8>,
    nonce: Seq<char>,
) -> AccountView {
    AccountView {
        email,
        directory_url: json_string_member(decode_utf8(directory), "url"@)->Some_0,
        directory_document: json_member_text(decode_utf8(directory), "directory"@)->Some_0,
        pkcs8: key,
        public_key: pkcs8_public_key(key),
        nonce,
        kid: Some(decode_utf8(account)),
    }
}

/// Whether stored objects can be read back into a session (beyond the key, which
/// the crypto library judges).
pub open spec fn loadable(directory: Seq<u8>, account: Seq<u8>) -> bool {
    &&& valid_utf8(directory)
    &&& valid_utf8(account)
    &&& json_string_member(decode_utf8(directory), "url"@) is Some
    &&& json_member_text(decode_utf8(directory), "directory"@) is Some
}

/// A store as its contract describes it: each (kind, account name) holds the bytes
/// last written there.
pub open spec fn store_after_writes(
    store: Map<(ObjectKind, Seq<char>), Seq<u8>>,
    name: Seq<char>,
    objects: Seq<(ObjectKind, Seq<u8>)>,
) -> Map<(ObjectKind, Seq<char>), Seq<u8>>
    decreases objects.len(),
{
    if objects.len() == 0 {
        store
    } else {
        store_after_writes(store, name, objects.drop_last()).insert(
            (objects.last().0, name),
            objects.last().1,
        )
    }
}

/// The session that loading the account `email` from `store` makes with `nonce`.
pub open spec fn load_from_store(
    store: Map<(ObjectKind, Seq<char>), Seq<u8>>,
    email: Seq<char>,
    nonce: Seq<char>,
) -> AccountView {
    loaded_view(
        email,
        store[(ObjectKind::KeyPair, email)],
        store[(ObjectKind::Directory, email)],
        store[(ObjectKind::Account, email)],
        nonce,
    )
}

/// The session that loading the account back gives, after `a` was saved into `store`.
pub open spec fn reloaded(
    store: Map<(ObjectKind, Seq<char>), Seq<u8>>,
    a: AccountView,
    nonce: Seq<char>,
) -> AccountView {
    load_from_store(store_after_writes(store, a.email, saved_objects(a)), a.email, nonce)
}

/// Persistence round trip: saving a registered session into any two stores that keep
/// what is written, then loading it back under its e-mail address, gives the same
/// session from both, whatever the stores held before. The key, its public key, the
/// key identifier and the e-mail address are those of the saved session, and the
/// nonce is the fresh one.
pub proof fn persistence_round_trip(
    a: AccountView,
    first: Map<(ObjectKind, Seq<char>), Seq<u8>>,
    second: Map<(ObjectKind, Seq<char>), Seq<u8>>,
    nonce: Seq<char>,
)
    requires
        a.kid is Some,
        a.public_key == pkcs8_public_key(a.pkcs8),
    ensures
        reloaded(first, a, nonce) == reloaded(second, a, nonce),
        reloaded(first, a, nonce).pkcs8 == a.pkcs8,
        reloaded(first, a, nonce).public_key == a.public_key,
        reloaded(first, a, nonce).kid == a.kid,
        reloaded(first, a, nonce).email == a.email,
        reloaded(first, a, nonce).nonce == nonce,
{
    lemma_saved_lookup(first, a);
    lemma_saved_lookup(second, a);
    assert(decode_utf8(encode_utf8(a.kid->Some_0)) == a.kid->Some_0);
}

proof fn lemma_saved_lookup(store: Map<(ObjectKind, Seq<char>), Seq<u8>>, a: AccountView)
    ensures
        store_after_writes(store, a.email, saved_objects(a))[(ObjectKind::KeyPair, a.email)]
            == a.pkcs8,
        store_after_writes(store, a.email, saved_objects(a))[(ObjectKind::Account, a.email)]
            == saved_objects(a)[1].1,
        store_after_writes(store, a.email, saved_objects(a))[(ObjectKind::Directory, a.email)]
            == saved_objects(a)[2].1,
{
    let objs = saved_objects(a);
    let e = a.email;
    let o2 = objs.drop_last();
    let o1 = o2.drop_last();
    let o0 = o1.drop_last();
    assert(o0 =~= Seq::<(ObjectKind, Seq<u8>)>::empty());
    assert(o1.last() == objs[0]);
    assert(o2.last() == objs[1]);
    assert(objs.last() == objs[2]);
    let m0 = store_after_writes(store, e, o0);
    assert(m0 == store);
    let m1 = store_after_writes(store, e, o1);
    assert(m1 == m0.insert((ObjectKind::KeyPair, e), a.pkcs8));
    let m2 = store_after_writes(store, e, o2);
    assert(m2 == m1.insert((ObjectKind::Account, e), objs[1].1));
    let m3 = store_after_writes(store, e, objs);
    assert(m3 == m2.insert((ObjectKind::Directory, e), objs[2].1));
}

/// Whether a registration response was a success.
pub fn registration_outcome(status: u16, body: String) -> (r: Result<(), AcmeError>)
    ensures
        status_ok(status) ==> r is Ok,
        !status_ok(status) ==> r == Err::<(), AcmeError>(AcmeError::RegistrationFailed(body)),
{
    if crate::http_status_ok(status) {
        Ok(())
    } else {
        Err(AcmeError::RegistrationFailed(body))
    }
}

/// An ACME account session.
pub struct Account {
    email: String,
    directory: Directory,
    key_pair: KeyPair,
    nonce: String,
    kid: Option<String>,
}

impl View for Account {
    type V = AccountView;

    closed spec fn view(&self) -> AccountView {
        AccountView {
            email: self.email@,
            directory_url: self.directory.url_view(),
            directory_document: self.directory.document_view(),
            pkcs8: self.key_pair.pkcs8_bytes(),
            public_key: self.key_pair.public_key_bytes(),
            nonce: self.nonce@,
            kid: match self.kid {
                Some(k) => Some(k@),
                None => None,
            },
        }
    }
}

impl Account {
    /// The key pair agrees with its PKCS#8 blob and is an uncompressed P-256 key.
    pub open spec fn wf(&self) -> bool {
        &&& self@.public_key == pkcs8_public_key(self@.pkcs8)
        &&& self@.public_key.len() == 65
        &&& self@.public_key[0] == 4
    }

    /// The URL that a request for `resource` goes to: the directory's URL for that
    /// name, or `resource` itself taken as a URL.
    pub open spec fn target(&self, resource: Seq<char>) -> Seq<char> {
        match json_string_member(self@.directory_document, resource) {
            Some(u) => u,
            None => resource,
        }
    }

    proof fn lemma_key_pair_wf(&self)
        requires
            self.wf(),
        ensures
            self.key_pair.wf(),
            self.key_pair.public_key_bytes() == self@.public_key,
            self.key_pair.pkcs8_bytes() == self@.pkcs8,
    {
    }

    /// A session for a new account, before registration: it has a fresh key pair, the
    /// directory, and the first nonce, but no key identifier.
    pub fn new(email: String, directory: Directory, key_pair: KeyPair, nonce: String) -> (r:
        Account)
        requires
            key_pair.wf(),
        ensures
            r.wf(),
            r@.email == email@,
            r@.directory_url == directory.url_view(),
            r@.directory_document == directory.document_view(),
            r@.pkcs8 == key_pair.pkcs8_bytes(),
            r@.nonce == nonce@,
            r@.kid is None,
    {
        Account { email, directory, key_pair, nonce, kid: None }
    }

    /// Reopens a stored account from its three objects (the PKCS#8 key, the directory
    /// record, the account URL) and a fresh nonce. Anything that does not parse is
    /// `CorruptStore`.
    pub fn load(email: String, key: Vec<u8>, directory: Vec<u8>, account: Vec<u8>, nonce: String) -> (r:
        Result<Account, AcmeError>)
        ensures
            match r {
                Ok(a) => a.wf() && loadable(directory@, account@) && a@ == loaded_view(
                    email@,
                    key@,
                    directory@,
                    account@,
                    nonce@,
                ),
                Err(e) => e == AcmeError::CorruptStore,
            },
            !loadable(directory@, account@) ==> r is Err,
    {
        let key_pair = match KeyPair::from_pkcs8(key) {
            Ok(kp) => kp,
            Err(_) => return Err(AcmeError::CorruptStore),
        };
        Account::from_parts(email, key_pair, directory, account, nonce)
    }

    /// A session from a parsed key pair, the stored directory record and account URL,
    /// and a fresh nonce: it is made exactly when both objects parse (UTF-8, and a
    /// record with a string `url` and a member `directory`), else `CorruptStore`.
    pub fn from_parts(
        email: String,
        key_pair: KeyPair,
        directory: Vec<u8>,
        account: Vec<u8>,
        nonce: String,
    ) -> (r: Result<Account, AcmeError>)
        requires
            key_pair.wf(),
        ensures
            r is Ok <==> loadable(directory@, account@),
            r matches Ok(a) ==> a.wf() && a@ == loaded_view(
                email@,
                key_pair.pkcs8_bytes(),
                directory@,
                account@,
                nonce@,
            ),
            r matches Err(e) ==> e == AcmeError::CorruptStore,
    {
        let ghost (key_v, dir_v, acc_v) = (key_pair.pkcs8_bytes(), directory@, account@);
        let record = match utf8_string(directory) {
            Some(s) => s,
            None => return Err(AcmeError::CorruptStore),
        };
        let directory = match Directory::from_json(record.as_str()) {
            Ok(d) => d,
            Err(_) => return Err(AcmeError::CorruptStore),
        };
        let kid = match utf8_string(account) {
            Some(s) => s,
            None => return Err(AcmeError::CorruptStore),
        };
        let a = Account { email, directory, key_pair, nonce, kid: Some(kid) };
        assert(a@ == loaded_view(a@.email, key_v, dir_v, acc_v, a@.nonce));
        Ok(a)
    }

    /// The objects that persist the session, in the order they are written: the
    /// PKCS#8 key, the account URL as UTF-8, and the directory record as UTF-8. The
    /// nonce is never persisted. A session that is not registered has nothing to save.
    pub fn save(&self) -> (r: Result<Vec<(ObjectKind, Vec<u8>)>, AcmeError>)
        ensures
            match r {
                Ok(objects) => self@.kid is Some && persists(objects@, self@),
                Err(e) => self@.kid is None && e == AcmeError::NotRegistered,
            },
    {
        let kid = match &self.kid {
            Some(k) => k,
            None => return Err(AcmeError::NotRegistered),
        };
        let key = self.key_pair.pkcs8();
        let key_bytes = crate::text::copy_range(key.as_slice(), 0, key.len());
        let record = self.directory.to_json();
        let mut objects: Vec<(ObjectKind, Vec<u8>)> = Vec::new();
        objects.push((ObjectKind::KeyPair, key_bytes));
        objects.push((ObjectKind::Account, kid.as_str().as_bytes_vec()));
        objects.push((ObjectKind::Directory, record.as_str().as_bytes_vec()));
        assert(key@.subrange(0, key@.len() as int) =~= key@);
        Ok(objects)
    }

    /// The account's e-mail address.
    pub fn email(&self) -> (r: &String)
        ensures
            r@ == self@.email,
    {
        &self.email
    }

    /// The key identifier (the account URL), once registered or loaded.
    pub fn kid(&self) -> (r: Option<&String>)
        ensures
            match r {
                Some(k) => self@.kid == Some(k@),
                None => self@.kid is None,
            },
    {
        match &self.kid {
            Some(k) => Some(k),
            None => None,
        }
    }

    /// The nonce that the next request will use.
    pub fn nonce(&self) -> (r: &String)
        ensures
            r@ == self@.nonce,
    {
        &self.nonce
    }

    /// The directory of the session.
    pub fn directory(&self) -> (r: &Directory)
        ensures
            r.url_view() == self@.directory_url,
            r.document_view() == self@.directory_document,
    {
        &self.directory
    }

    /// The key pair of the session.
    pub fn key_pair(&self) -> (r: &KeyPair)
        ensures
            r.pkcs8_bytes() == self@.pkcs8,
            r.public_key_bytes() == self@.public_key,
    {
        &self.key_pair
    }

    /// Signs `payload` for `resource` (a directory name, or else a URL) with the
    /// session's key, current nonce and, once registered, its key identifier. An empty
    /// payload makes a POST-as-GET.
    pub fn prepare(&self, resource: &str, payload: &str) -> (r: Result<SignedRequest, AcmeError>)
        requires
            self.wf(),
        ensures
            r matches Ok(req) ==> req.url@ == self.target(resource@) && is_signed_request(
                req.body@,
                self@.public_key,
                self@.kid,
                self@.nonce,
                self.target(resource@),
                payload@,
            ),
            r matches Err(e) ==> e == AcmeError::SigningFailed,
    {
        proof {
            self.lemma_key_pair_wf();
        }
        let url = match self.directory.url_for(resource) {
            Some(u) => u,
            None => String::from_str(resource),
        };
        let kid = match &self.kid {
            Some(k) => Some(k.as_str()),
            None => None,
        };
        let body = sign(&self.key_pair, self.nonce.as_str(), url.as_str(), payload, kid)?;
        Ok(SignedRequest { url, body })
    }

    /// Takes in the response to a request for `resource`: the session's nonce becomes
    /// the response's `Replay-Nonce`, and a successful `newAccount` response sets the
    /// key identifier from `Location`. Returns the status and body, whatever the status.
    /// A response without `Replay-Nonce` is `MissingNonce` and changes nothing; a
    /// successful `newAccount` response without `Location` is `MissingLocation`.
    pub fn handle_response(
        &mut self,
        resource: &str,
        status: u16,
        replay_nonce: Option<String>,
        location: Option<String>,
        body: String,
    ) -> (r: Result<(u16, String), AcmeError>)
        ensures
            final(self).wf() == old(self).wf(),
            final(self)@.email == old(self)@.email,
            final(self)@.directory_url == old(self)@.directory_url,
            final(self)@.directory_document == old(self)@.directory_document,
            final(self)@.pkcs8 == old(self)@.pkcs8,
            final(self)@.public_key == old(self)@.public_key,
            match replay_nonce {
                None => r == Err::<(u16, String), AcmeError>(AcmeError::MissingNonce)
                    && final(self)@ == old(self)@,
                Some(n) => final(self)@.nonce == n@ && if status_ok(status) && resource@
                    == new_account_resource() {
                    match location {
                        Some(l) => final(self)@.kid == Some(l@) && r == Ok::<
                            (u16, String),
                            AcmeError,
                        >((status, body)),
                        None => final(self)@.kid == old(self)@.kid && r == Err::<
                            (u16, String),
                            AcmeError,
                        >(AcmeError::MissingLocation),
                    }
                } else {
                    final(self)@.kid == old(self)@.kid && r == Ok::<(u16, String), AcmeError>(
                        (status, body),
                    )
                },
            },
    {
        let nonce = match replay_nonce {
            Some(n) => n,
            None => return Err(AcmeError::MissingNonce),
        };
        self.nonce = nonce;
        if crate::http_status_ok(status) && str_equal(resource, "newAccount") {
            match location {
                Some(l) => {
                    self.kid = Some(l);
                },
                None => return Err(AcmeError::MissingLocation),
            }
        }
        Ok((status, body))
    }

    /// The `newAccount` request: agrees to the terms of service with the contact
    /// `mailto:<email>`. Before registration it carries the account key's JWK.
    pub fn register(&self) -> (r: Result<SignedRequest, AcmeError>)
        requires
            self.wf(),
        ensures
            r matches Ok(req) ==> req.url@ == self.target(new_account_resource())
                && is_signed_request(
                req.body@,
                self@.public_key,
                self@.kid,
                self@.nonce,
                self.target(new_account_resource()),
                registration_payload(self@.email),
            ),
            r matches Err(e) ==> e == AcmeError::SigningFailed,
    {
        let mut contact = String::from_str("mailto:");
        contact.append(self.email.as_str());
        let mut payload = String::from_str("{\"contact\":[");
        payload.append(json_string(contact.as_str()).as_str());
        payload.append("],\"termsOfServiceAgreed\":true}");
        self.prepare("newAccount", payload.as_str())
    }

    /// The `newOrder` request for DNS identifiers of `domains`, in order.
    pub fn order(&self, domains: &Vec<String>) -> (r: Result<SignedRequest, AcmeError>)
        requires
            self.wf(),
        ensures
            r matches Ok(req) ==> req.url@ == self.target("newOrder"@) && is_signed_request(
                req.body@,
                self@.public_key,
                self@.kid,
                self@.nonce,
                self.target("newOrder"@),
                order_payload_text(domains@.map_values(|d: String| d@)),
            ),
            r matches Err(e) ==> e == AcmeError::SigningFailed,
    {
        let payload = order_payload(domains);
        self.prepare("newOrder", payload.as_str())
    }

    /// Takes in the response to the `newAccount` request and, when the server accepted
    /// the registration, gives the objects that persist the registered session: the
    /// key, the account URL from `Location`, and the directory record.
    pub fn finish_registration(
        &mut self,
        status: u16,
        replay_nonce: Option<String>,
        location: Option<String>,
        body: String,
    ) -> (r: Result<Vec<(ObjectKind, Vec<u8>)>, AcmeError>)
        requires
            old(self).wf(),
        ensures
            final(self).wf(),
            match replay_nonce {
                None => r is Err && r->Err_0 == AcmeError::MissingNonce && final(self)@
                    == old(self)@,
                Some(n) => if !status_ok(status) {
                    r is Err && r->Err_0 == AcmeError::RegistrationFailed(body) && final(self)@
                        == with_nonce(old(self)@, n@)
                } else {
                    match location {
                        None => r is Err && r->Err_0 == AcmeError::MissingLocation
                            && final(self)@ == with_nonce(old(self)@, n@),
                        Some(l) => r is Ok && persists(r->Ok_0@, final(self)@) && final(self)@
                            == registered_as(old(self)@, n@, l@),
                    }
                },
            },
    {
        let (status, body) = self.handle_response("newAccount", status, replay_nonce, location, body)?;
        registration_outcome(status, body)?;
        self.save()
    }

    /// A POST-as-GET of the account object, which needs the key identifier.
    pub fn info(&self) -> (r: Result<SignedRequest, AcmeError>)
        requires
            self.wf(),
        ensures
            match r {
                Ok(req) => self@.kid matches Some(k) && req.url@ == self.target(k)
                    && is_signed_request(
                    req.body@,
                    self@.public_key,
                    self@.kid,
                    self@.nonce,
                    self.target(k),
                    Seq::empty(),
                ),
                Err(e) => e == AcmeError::SigningFailed || (self@.kid is None && e
                    == AcmeError::NotRegistered),
            },
            self@.kid is None ==> r == Err::<SignedRequest, AcmeError>(AcmeError::NotRegistered),
    {
        match &self.kid {
            Some(k) => {
                proof {
                    reveal_strlit("");
                    assert(""@ =~= Seq::<char>::empty());
                }
                self.prepare(k.as_str(), "")
            },
            None => Err(AcmeError::NotRegistered),
        }
    }

    /// The signed request that a step of the order flow sends (see `step_post`): a
    /// POST-as-GET to fetch an authorization or poll a challenge, `{}` to trigger a
    /// challenge; none for a wait or the end.
    pub fn step_request(&self, step: &Step) -> (r: Option<Result<SignedRequest, AcmeError>>)
        requires
            self.wf(),
        ensures
            step_post(step@) is None ==> r is None,
            step_post(step@) matches Some((url, payload)) ==> (r matches Some(res) && (res matches Ok(
                req,
            ) ==> req.url@ == self.target(url) && is_signed_request(
                req.body@,
                self@.public_key,
                self@.kid,
                self@.nonce,
                self.target(url),
                payload,
            )) && (res matches Err(e) ==> e == AcmeError::SigningFailed)),
    {
        match step.post() {
            Some((url, payload)) => Some(self.prepare(url.as_str(), payload)),
            None => None,
        }
    }

    /// The key authorization of a challenge token (RFC 8555 section 8.1).
    pub fn key_authorization(&self, token: &str) -> (r: String)
        requires
            self.wf(),
        ensures
            r@ == key_authorization_of(token@, self@.public_key),
    {
        proof {
            self.lemma_key_pair_wf();
        }
        let jwk = jwk_json(&self.key_pair);
        let digest = sha256_digest(jwk.as_str().as_bytes());
        let mut s = String::from_str(token);
        s.append(".");
        s.append(b64(digest.as_slice()).as_str());
        s
    }
}

} // verus!
