use certifika::account::{registration_outcome, Account, SignedRequest};
use certifika::base64url::{b64, b64_decode};
use certifika::crypto::KeyPair;
use certifika::directory::Directory;
use certifika::error::AcmeError;
use certifika::jws::{jwk, sign};
use certifika::order::{
    authorization_outcome, order_outcome, order_payload, plan_challenges, Authorization,
    Challenge, Identifier, Order, OrderFlow, Step, CHALLENGE_WAIT_SECS,
};
use certifika::storage::ObjectKind;

const DIRECTORY_URL: &str = "https://ca.test/directory";
const DOCUMENT: &str = "{\"newNonce\":\"https://ca.test/nonce\",\"newAccount\":\"https://ca.test/new-acct\",\"newOrder\":\"https://ca.test/new-order\",\"meta\":{\"termsOfService\":\"https://ca.test/tos\"}}";
const ACCOUNT_URL: &str = "https://ca.test/acct/7";

fn directory() -> Directory {
    Directory::new(DIRECTORY_URL.to_string(), DOCUMENT.to_string())
}

fn fresh_account() -> Account {
    let key_pair = KeyPair::generate().unwrap();
    Account::new("alice@example.test".to_string(), directory(), key_pair, "nonce-1".to_string())
}

struct Decoded {
    protected: serde_json::Value,
    payload: String,
    signing_input: String,
    signature: Vec<u8>,
}

fn decode(body: &str) -> Decoded {
    let envelope: serde_json::Value = serde_json::from_str(body).unwrap();
    let object = envelope.as_object().unwrap();
    assert_eq!(object.len(), 3);
    let protected64 = object["protected"].as_str().unwrap();
    let payload64 = object["payload"].as_str().unwrap();
    let signature64 = object["signature"].as_str().unwrap();
    let protected = String::from_utf8(b64_decode(protected64).unwrap()).unwrap();
    let payload = String::from_utf8(b64_decode(payload64).unwrap()).unwrap();
    Decoded {
        protected: serde_json::from_str(&protected).unwrap(),
        payload,
        signing_input: format!("{}.{}", protected64, payload64),
        signature: b64_decode(signature64).unwrap(),
    }
}

fn verifies(public_key: &[u8], message: &[u8], signature: &[u8]) -> bool {
    ring::signature::UnparsedPublicKey::new(&ring::signature::ECDSA_P256_SHA256_FIXED, public_key)
        .verify(message, signature)
        .is_ok()
}

fn registered_account() -> Account {
    let mut account = fresh_account();
    let req = account.register().unwrap();
    assert_eq!(req.url, "https://ca.test/new-acct");
    let (status, body) = account
        .handle_response(
            "newAccount",
            201,
            Some("nonce-2".to_string()),
            Some(ACCOUNT_URL.to_string()),
            "{}".to_string(),
        )
        .unwrap();
    assert_eq!(status, 201);
    assert_eq!(body, "{}");
    account
}

#[test]
fn sign_without_kid_uses_jwk() {
    let key_pair = KeyPair::generate().unwrap();
    let body = sign(&key_pair, "n-1", "https://ca.test/x", "{\"a\":1}", None).unwrap();
    let d = decode(&body);
    let header = d.protected.as_object().unwrap();
    assert_eq!(header["alg"], "ES256");
    assert_eq!(header["nonce"], "n-1");
    assert_eq!(header["url"], "https://ca.test/x");
    assert!(header.contains_key("jwk"));
    assert!(!header.contains_key("kid"));
    assert_eq!(header.len(), 4);
    let expected: serde_json::Value =
        serde_json::from_str(&jwk(key_pair.public_key()).unwrap().to_json()).unwrap();
    assert_eq!(header["jwk"], expected);
    assert_eq!(d.payload, "{\"a\":1}");
}

#[test]
fn sign_with_kid_omits_jwk() {
    let key_pair = KeyPair::generate().unwrap();
    let body = sign(&key_pair, "n-2", "https://ca.test/y", "", Some(ACCOUNT_URL)).unwrap();
    let d = decode(&body);
    let header = d.protected.as_object().unwrap();
    assert_eq!(header["kid"], ACCOUNT_URL);
    assert!(!header.contains_key("jwk"));
    assert_eq!(header["alg"], "ES256");
    assert_eq!(header["nonce"], "n-2");
    assert_eq!(header["url"], "https://ca.test/y");
}

#[test]
fn signature_verifies_over_signing_input() {
    let key_pair = KeyPair::generate().unwrap();
    for payload in ["", "{}", "{\"identifiers\":[]}"] {
        let body = sign(&key_pair, "n-3", "https://ca.test/z", payload, None).unwrap();
        let d = decode(&body);
        assert_eq!(d.signature.len(), 64);
        assert!(verifies(key_pair.public_key(), d.signing_input.as_bytes(), &d.signature));
        assert!(!verifies(key_pair.public_key(), b"something else", &d.signature));
    }
}

#[test]
fn post_as_get_payload_is_empty() {
    let key_pair = KeyPair::generate().unwrap();
    let body = sign(&key_pair, "n-4", "https://ca.test/z", "", None).unwrap();
    let envelope: serde_json::Value = serde_json::from_str(&body).unwrap();
    assert_eq!(envelope["payload"], "");
    let quoted = sign(&key_pair, "n-4", "https://ca.test/z", "\"\"", None).unwrap();
    let envelope: serde_json::Value = serde_json::from_str(&quoted).unwrap();
    assert_eq!(envelope["payload"], "IiI");
}

#[test]
fn registration_sets_kid_and_uses_jwk() {
    let mut account = fresh_account();
    let req = account.register().unwrap();
    let d = decode(&req.body);
    let header = d.protected.as_object().unwrap();
    assert!(header.contains_key("jwk"));
    assert!(!header.contains_key("kid"));
    assert_eq!(header["nonce"], "nonce-1");
    assert_eq!(header["url"], "https://ca.test/new-acct");
    assert_eq!(
        d.payload,
        "{\"contact\":[\"mailto:alice@example.test\"],\"termsOfServiceAgreed\":true}"
    );
    account
        .handle_response(
            "newAccount",
            201,
            Some("nonce-2".to_string()),
            Some(ACCOUNT_URL.to_string()),
            "{}".to_string(),
        )
        .unwrap();
    assert_eq!(account.kid().unwrap(), ACCOUNT_URL);
    assert_eq!(account.nonce(), "nonce-2");
    let objects = account.save().unwrap();
    assert_eq!(objects.len(), 3);
    assert_eq!(objects[0].0, ObjectKind::KeyPair);
    assert_eq!(&objects[0].1, account.key_pair().pkcs8());
    assert_eq!(objects[1].0, ObjectKind::Account);
    assert_eq!(objects[1].1, ACCOUNT_URL.as_bytes());
    assert_eq!(objects[2].0, ObjectKind::Directory);
    let record: serde_json::Value = serde_json::from_slice(&objects[2].1).unwrap();
    assert_eq!(record["url"], DIRECTORY_URL);
    assert_eq!(record["directory"]["newOrder"], "https://ca.test/new-order");
}

#[test]
fn registration_rejected_carries_body() {
    assert_eq!(registration_outcome(201, "{}".to_string()), Ok(()));
    assert_eq!(
        registration_outcome(400, "bad".to_string()),
        Err(AcmeError::RegistrationFailed("bad".to_string()))
    );
}

#[test]
fn registration_without_location_fails() {
    let mut account = fresh_account();
    let r = account.handle_response("newAccount", 201, Some("n".to_string()), None, String::new());
    assert_eq!(r, Err(AcmeError::MissingLocation));
    assert!(account.kid().is_none());
    assert_eq!(account.nonce(), "n");
}

#[test]
fn reload_reconstructs_session() {
    let account = registered_account();
    let objects = account.save().unwrap();
    let loaded = Account::load(
        "alice@example.test".to_string(),
        objects[0].1.clone(),
        objects[2].1.clone(),
        objects[1].1.clone(),
        "nonce-9".to_string(),
    )
    .unwrap();
    assert_eq!(loaded.kid().unwrap(), ACCOUNT_URL);
    assert_eq!(loaded.nonce(), "nonce-9");
    assert_eq!(loaded.email(), "alice@example.test");
    assert_eq!(loaded.key_pair().pkcs8(), account.key_pair().pkcs8());
    let reparsed = KeyPair::from_pkcs8(objects[0].1.clone()).unwrap();
    assert_eq!(loaded.key_pair().public_key(), reparsed.public_key());
    assert_eq!(loaded.key_pair().public_key(), account.key_pair().public_key());
    assert_eq!(loaded.directory().url(), DIRECTORY_URL);
    assert_eq!(
        loaded.directory().url_for("newOrder"),
        Some("https://ca.test/new-order".to_string())
    );
}

#[test]
fn reload_from_two_stores_agrees() {
    let account = registered_account();
    let objects = account.save().unwrap();
    let mut first: std::collections::HashMap<ObjectKind, Vec<u8>> = std::collections::HashMap::new();
    let mut second: Vec<(ObjectKind, Vec<u8>)> = vec![(ObjectKind::Account, b"stale".to_vec())];
    for (kind, bytes) in &objects {
        first.insert(*kind, bytes.clone());
        second.retain(|(k, _)| k != kind);
        second.push((*kind, bytes.clone()));
    }
    let read = |kind: ObjectKind| second.iter().find(|(k, _)| *k == kind).unwrap().1.clone();
    let a = Account::load(
        "alice@example.test".to_string(),
        first[&ObjectKind::KeyPair].clone(),
        first[&ObjectKind::Directory].clone(),
        first[&ObjectKind::Account].clone(),
        "n".to_string(),
    )
    .unwrap();
    let b = Account::load(
        "alice@example.test".to_string(),
        read(ObjectKind::KeyPair),
        read(ObjectKind::Directory),
        read(ObjectKind::Account),
        "n".to_string(),
    )
    .unwrap();
    assert_eq!(a.kid(), b.kid());
    assert_eq!(a.key_pair().pkcs8(), b.key_pair().pkcs8());
    assert_eq!(a.directory().document(), b.directory().document());
    assert_eq!(a.directory().url(), b.directory().url());
}

#[test]
fn reload_rejects_corrupt_store() {
    let account = registered_account();
    let objects = account.save().unwrap();
    let bad_key = Account::load(
        "a".to_string(),
        vec![1, 2, 3],
        objects[2].1.clone(),
        objects[1].1.clone(),
        "n".to_string(),
    );
    assert!(matches!(bad_key, Err(AcmeError::CorruptStore)));
    let bad_url = Account::load(
        "a".to_string(),
        objects[0].1.clone(),
        objects[2].1.clone(),
        vec![0xff, 0xfe],
        "n".to_string(),
    );
    assert!(matches!(bad_url, Err(AcmeError::CorruptStore)));
    let bad_dir = Account::load(
        "a".to_string(),
        objects[0].1.clone(),
        b"{\"url\":1}".to_vec(),
        objects[1].1.clone(),
        "n".to_string(),
    );
    assert!(matches!(bad_dir, Err(AcmeError::CorruptStore)));
}

#[test]
fn post_registration_requests_use_kid() {
    let account = registered_account();
    let req = account.info().unwrap();
    assert_eq!(req.url, ACCOUNT_URL);
    let d = decode(&req.body);
    let header = d.protected.as_object().unwrap();
    assert_eq!(header["kid"], ACCOUNT_URL);
    assert!(!header.contains_key("jwk"));
    assert_eq!(header["nonce"], "nonce-2");
    assert_eq!(d.payload, "");
}

#[test]
fn info_needs_registration() {
    let account = fresh_account();
    assert!(matches!(account.info(), Err(AcmeError::NotRegistered)));
    assert!(matches!(account.save(), Err(AcmeError::NotRegistered)));
}

#[test]
fn nonce_replaced_after_every_response() {
    let mut account = registered_account();
    for (i, status) in [200u16, 400, 500, 201].iter().enumerate() {
        let nonce = format!("nonce-{}", 10 + i);
        let r = account.handle_response(
            "https://ca.test/authz/1",
            *status,
            Some(nonce.clone()),
            None,
            "body".to_string(),
        );
        assert_eq!(r, Ok((*status, "body".to_string())));
        assert_eq!(account.nonce(), &nonce);
        let req = account.prepare("https://ca.test/authz/1", "").unwrap();
        assert_eq!(decode(&req.body).protected["nonce"], nonce.as_str());
    }
    assert_eq!(account.kid().unwrap(), ACCOUNT_URL);
}

#[test]
fn missing_replay_nonce_is_an_error() {
    let mut account = registered_account();
    let r = account.handle_response("newOrder", 201, None, None, "{}".to_string());
    assert_eq!(r, Err(AcmeError::MissingNonce));
    assert_eq!(account.nonce(), "nonce-2");
}

#[test]
fn order_request_body() {
    let domains = vec!["a.test".to_string(), "b.test".to_string()];
    assert_eq!(
        order_payload(&domains),
        "{\"identifiers\":[{\"type\":\"dns\",\"value\":\"a.test\"},{\"type\":\"dns\",\"value\":\"b.test\"}]}"
    );
    assert_eq!(order_payload(&vec![]), "{\"identifiers\":[]}");
    let account = registered_account();
    let req = account.order(&domains).unwrap();
    assert_eq!(req.url, "https://ca.test/new-order");
    let d = decode(&req.body);
    assert_eq!(d.payload, order_payload(&domains));
    assert_eq!(d.protected["kid"], ACCOUNT_URL);
}

fn challenge(kind: &str, n: u32) -> Challenge {
    Challenge {
        kind: kind.to_string(),
        status: "pending".to_string(),
        url: format!("https://ca.test/chall/{}", n),
        token: format!("tok{}", n),
    }
}

fn authorization(challenges: Vec<Challenge>) -> Authorization {
    Authorization {
        identifier: Identifier { kind: "dns".to_string(), value: "a.test".to_string() },
        status: "pending".to_string(),
        expires: "2030-01-01T00:00:00Z".to_string(),
        challenges,
    }
}

fn two_authorization_order() -> Order {
    Order {
        status: "pending".to_string(),
        expires: "2030-01-01T00:00:00Z".to_string(),
        identifiers: vec![
            Identifier { kind: "dns".to_string(), value: "a.test".to_string() },
            Identifier { kind: "dns".to_string(), value: "b.test".to_string() },
        ],
        authorizations: vec![
            "https://ca.test/authz/1".to_string(),
            "https://ca.test/authz/2".to_string(),
        ],
        finalize: "https://ca.test/finalize".to_string(),
    }
}

#[test]
fn order_flow_fetches_each_authorization() {
    let mut account = registered_account();
    let mut flow = OrderFlow::new(&two_authorization_order());
    let mut fetched: Vec<SignedRequest> = Vec::new();
    loop {
        match flow.next() {
            Step::FetchAuthorization(url) => {
                let req = account.prepare(&url, "").unwrap();
                account
                    .handle_response(&url, 200, Some(format!("n-{}", fetched.len())), None, String::new())
                    .unwrap();
                fetched.push(req);
                flow.authorization_fetched(&authorization(vec![]));
            }
            Step::Done => break,
            other => panic!("unexpected step {:?}", other),
        }
    }
    assert!(flow.is_done());
    assert_eq!(fetched.len(), 2);
    assert_eq!(fetched[0].url, "https://ca.test/authz/1");
    assert_eq!(fetched[1].url, "https://ca.test/authz/2");
    for req in &fetched {
        let d = decode(&req.body);
        assert_eq!(d.payload, "");
        let envelope: serde_json::Value = serde_json::from_str(&req.body).unwrap();
        assert_eq!(envelope["payload"], "");
        assert_eq!(d.protected["kid"], ACCOUNT_URL);
    }
}

#[test]
fn only_dns_challenge_is_triggered() {
    let auth = authorization(vec![challenge("http-01", 1), challenge("dns-01", 2), challenge("tls-alpn-01", 3)]);
    let steps = plan_challenges(&auth);
    assert_eq!(
        steps,
        vec![
            Step::TriggerChallenge {
                url: "https://ca.test/chall/2".to_string(),
                token: "tok2".to_string()
            },
            Step::Wait(CHALLENGE_WAIT_SECS),
            Step::PollChallenge("https://ca.test/chall/2".to_string()),
        ]
    );
    let mut order = two_authorization_order();
    order.authorizations.truncate(1);
    let mut flow = OrderFlow::new(&order);
    assert_eq!(flow.next(), Step::FetchAuthorization("https://ca.test/authz/1".to_string()));
    flow.authorization_fetched(&auth);
    let mut triggered: Vec<String> = Vec::new();
    loop {
        match flow.next() {
            Step::TriggerChallenge { url, .. } => {
                triggered.push(url);
                flow.step_done();
            }
            Step::Wait(secs) => {
                assert!(secs >= 2);
                flow.step_done();
            }
            Step::PollChallenge(_) => flow.step_done(),
            Step::Done => break,
            Step::FetchAuthorization(url) => panic!("unexpected fetch of {}", url),
        }
    }
    assert_eq!(triggered, vec!["https://ca.test/chall/2".to_string()]);
}

#[test]
fn order_and_authorization_failures_carry_body() {
    assert_eq!(order_outcome(201, "o".to_string()), Ok("o".to_string()));
    assert_eq!(order_outcome(403, "no".to_string()), Err(AcmeError::OrderFailed("no".to_string())));
    assert_eq!(authorization_outcome(200, "a".to_string()), Ok("a".to_string()));
    assert_eq!(
        authorization_outcome(404, "gone".to_string()),
        Err(AcmeError::AuthorizationFailed("gone".to_string()))
    );
}

#[test]
fn key_authorization_value() {
    let account = registered_account();
    let jwk_text = jwk(account.key_pair().public_key()).unwrap().to_json();
    let digest = ring::digest::digest(&ring::digest::SHA256, jwk_text.as_bytes());
    let expected = format!("tok.{}", b64(digest.as_ref()));
    assert_eq!(account.key_authorization("tok"), expected);
    assert_eq!(account.key_authorization("tok").len(), 4 + 43);
}

#[test]
fn unknown_resource_is_taken_as_url() {
    let account = registered_account();
    let req = account.prepare("https://ca.test/chall/5", "{}").unwrap();
    assert_eq!(req.url, "https://ca.test/chall/5");
    let d = decode(&req.body);
    assert_eq!(d.payload, "{}");
    assert_eq!(d.protected["url"], "https://ca.test/chall/5");
}

#[test]
fn payloads_escape_json_strings() {
    let domains = vec!["a\"b\\c".to_string(), "t\tn\nu\u{1}".to_string()];
    let text = order_payload(&domains);
    assert_eq!(
        text,
        "{\"identifiers\":[{\"type\":\"dns\",\"value\":\"a\\\"b\\\\c\"},{\"type\":\"dns\",\"value\":\"t\\tn\\nu\\u0001\"}]}"
    );
    let value: serde_json::Value = serde_json::from_str(&text).unwrap();
    assert_eq!(value["identifiers"][0]["value"], "a\"b\\c");
    assert_eq!(value["identifiers"][1]["value"], "t\tn\nu\u{1}");
    let key_pair = KeyPair::generate().unwrap();
    let account = Account::new("o\"q@example.test".to_string(), directory(), key_pair, "n".to_string());
    let d = decode(&account.register().unwrap().body);
    assert_eq!(
        d.payload,
        "{\"contact\":[\"mailto:o\\\"q@example.test\"],\"termsOfServiceAgreed\":true}"
    );
}

#[test]
fn key_pair_rejects_bad_pkcs8() {
    assert!(matches!(KeyPair::from_pkcs8(vec![0x30, 0x03, 0x02, 0x01, 0x00]), Err(AcmeError::KeyDecode)));
    let key_pair = KeyPair::generate().unwrap();
    let again = KeyPair::from_pkcs8(key_pair.pkcs8().clone()).unwrap();
    assert_eq!(again.public_key(), key_pair.public_key());
    assert_eq!(key_pair.public_key().len(), 65);
    assert_eq!(key_pair.public_key()[0], 4);
}

#[test]
fn finish_registration_gives_objects_to_store() {
    let mut account = fresh_account();
    let objects = account
        .finish_registration(201, Some("nonce-2".to_string()), Some(ACCOUNT_URL.to_string()), "{}".to_string())
        .unwrap();
    assert_eq!(account.kid().unwrap(), ACCOUNT_URL);
    assert_eq!(account.nonce(), "nonce-2");
    assert_eq!(objects.len(), 3);
    assert_eq!(objects[0], (ObjectKind::KeyPair, account.key_pair().pkcs8().clone()));
    assert_eq!(objects[1], (ObjectKind::Account, ACCOUNT_URL.as_bytes().to_vec()));
    assert_eq!(objects[2].0, ObjectKind::Directory);
    let mut rejected = fresh_account();
    assert_eq!(
        rejected.finish_registration(400, Some("n".to_string()), None, "denied".to_string()),
        Err(AcmeError::RegistrationFailed("denied".to_string()))
    );
    assert!(rejected.kid().is_none());
    assert_eq!(rejected.nonce(), "n");
}

#[test]
fn step_requests_carry_their_payloads() {
    let account = registered_account();
    let fetch = account
        .step_request(&Step::FetchAuthorization("https://ca.test/authz/1".to_string()))
        .unwrap()
        .unwrap();
    assert_eq!(fetch.url, "https://ca.test/authz/1");
    let envelope: serde_json::Value = serde_json::from_str(&fetch.body).unwrap();
    assert_eq!(envelope["payload"], "");
    assert_eq!(decode(&fetch.body).protected["kid"], ACCOUNT_URL);
    let trigger = account
        .step_request(&Step::TriggerChallenge {
            url: "https://ca.test/chall/2".to_string(),
            token: "tok2".to_string(),
        })
        .unwrap()
        .unwrap();
    assert_eq!(decode(&trigger.body).payload, "{}");
    let poll = account
        .step_request(&Step::PollChallenge("https://ca.test/chall/2".to_string()))
        .unwrap()
        .unwrap();
    assert_eq!(decode(&poll.body).payload, "");
    assert!(account.step_request(&Step::Wait(2)).is_none());
    assert!(account.step_request(&Step::Done).is_none());
    assert_eq!(Step::Done.post(), None);
}
