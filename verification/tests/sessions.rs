use base64::Engine;
use rsa::pkcs1::{EncodeRsaPrivateKey, EncodeRsaPublicKey, LineEnding};
use rsa::traits::PrivateKeyParts;
use session_auth::context::{AuthContext, JwtContext};
use session_auth::controllers::auth::{login, login_with, logout, logout_at};
use session_auth::jwt::VerifyError;
use session_auth::middlewares::auth::{AuthLayer, GateOutcome, GateStep};
use session_auth::middlewares::refresh::{RefreshLayer, RefreshOutcome, RefreshStep};
use session_auth::middlewares::{AuthError, RequestHeaders};
use session_auth::models::token::TokenDetails;
use session_auth::models::users::{password_hash, LoginUser, User};
use session_auth::store::{StoreCommand, StoreReply};
use session_auth::Error;

const USER: u128 = 0x550e8400_e29b_41d4_a716_446655440000;
const USER_TEXT: &str = "550e8400-e29b-41d4-a716-446655440000";
const TOKEN_ID: u128 = 0x0123_4567_89ab_cdef_0123_4567_89ab_cdef;
const TOKEN_ID_TEXT: &str = "01234567-89ab-cdef-0123-456789abcdef";
const SEED: u128 = 0x5eed_0000_0000_0000_0000_0000_0000_0001;

/// A key pair whose first factor is the product of two primes. The
/// numbers pass for an RSA key, but they do not undo each other for every
/// message.
fn composite_key() -> rsa::RsaPrivateKey {
    loop {
        let small = rsa::RsaPrivateKey::new(&mut rsa::rand_core::OsRng, 256).unwrap();
        let other = rsa::RsaPrivateKey::new(&mut rsa::rand_core::OsRng, 512).unwrap();
        let p = &small.primes()[0] * &small.primes()[1];
        let q = other.primes()[0].clone();
        if let Ok(key) = rsa::RsaPrivateKey::from_p_q(p, q, rsa::BigUint::from(65537u32)) {
            return key;
        }
    }
}

/// The two codecs of a deployment, under key pairs made for this run. The
/// keys are short to keep each run quick; a deployment uses 2048 bits or
/// more.
struct Keys {
    access: JwtContext,
    refresh: JwtContext,
}

/// A new key pair of the given size, private and public, in PEM form.
fn key_pair(bits: usize) -> (Vec<u8>, Vec<u8>) {
    let private = rsa::RsaPrivateKey::new(&mut rsa::rand_core::OsRng, bits).unwrap();
    let public = private.to_public_key();
    (
        private.to_pkcs1_pem(LineEnding::LF).unwrap().as_bytes().to_vec(),
        public.to_pkcs1_pem(LineEnding::LF).unwrap().into_bytes(),
    )
}

fn codec(exp: i64) -> JwtContext {
    let (private, public) = key_pair(768);
    JwtContext::new(private, public, exp).unwrap()
}

/// A codec as it stands, built past the test of its signing key.
fn unchecked(encoding_key: Vec<u8>, decoding_key: Vec<u8>, exp: i64) -> JwtContext {
    JwtContext { encoding_key, decoding_key, exp }
}

fn keys() -> Keys {
    Keys { access: codec(900), refresh: codec(86400) }
}

impl Keys {
    fn auth(&self) -> AuthContext {
        AuthContext { access: self.access.clone(), refresh: self.refresh.clone() }
    }
}

fn request(authorization: &[&str], cookie: &[&str]) -> RequestHeaders {
    RequestHeaders {
        authorization: authorization.iter().map(|v| v.as_bytes().to_vec()).collect(),
        cookie: cookie.iter().map(|v| v.as_bytes().to_vec()).collect(),
    }
}

fn now() -> i64 {
    chrono::Utc::now().timestamp()
}

/// Signs a claims object of any shape under a key, past the library.
fn sign(private_pem: &[u8], claims: serde_json::Value) -> String {
    let key = jsonwebtoken::EncodingKey::from_rsa_pem(private_pem).unwrap();
    let header = jsonwebtoken::Header::new(jsonwebtoken::Algorithm::RS256);
    jsonwebtoken::encode(&header, &claims, &key).unwrap()
}

fn object(members: &[(&str, serde_json::Value)]) -> serde_json::Value {
    let mut map = serde_json::Map::new();
    for (name, value) in members {
        map.insert(name.to_string(), value.clone());
    }
    serde_json::Value::Object(map)
}

fn flipped(token: &str, at: usize) -> String {
    let mut bytes = token.as_bytes().to_vec();
    bytes[at] = if bytes[at] == b'A' { b'B' } else { b'A' };
    String::from_utf8(bytes).unwrap()
}

#[test]
fn generated_token_verifies_to_the_same_ids() {
    let keys = keys();
    let issued = keys.access.generate_token(USER).unwrap();
    assert_eq!(issued.user_pid, USER);
    let token = issued.token.clone().unwrap();
    let verified = keys.access.verify_token(&token).unwrap();
    assert_eq!(verified.user_pid, USER);
    assert_eq!(verified.token_id, issued.token_id);
    assert!(verified.token.is_none());
    assert!(verified.expires_in.is_none());
}

#[test]
fn refresh_class_round_trip() {
    let keys = keys();
    let issued = keys.refresh.generate_token_with(USER, TOKEN_ID, 1_000, SEED).unwrap();
    let token = issued.token.clone().unwrap();
    let verified = keys.refresh.verify_token_at(&token, 50_000).unwrap();
    assert_eq!(verified.user_pid, USER);
    assert_eq!(verified.token_id, TOKEN_ID);
}

#[test]
fn fresh_ids_differ_between_issuances() {
    let keys = keys();
    let first = keys.access.generate_token(USER).unwrap();
    let second = keys.access.generate_token(USER).unwrap();
    assert_ne!(first.token_id, second.token_id);
    assert_ne!(first.token, second.token);
}

#[test]
fn issued_details_carry_the_given_id_and_expiry() {
    let keys = keys();
    let issued = keys.access.generate_token_with(USER, TOKEN_ID, 1_000, SEED).unwrap();
    assert_eq!(issued.token_id, TOKEN_ID);
    assert_eq!(issued.user_pid, USER);
    assert_eq!(issued.expires_in, Some(1_900));
    assert_eq!(issued.token.unwrap().split('.').count(), 3);
}

#[test]
fn issued_claims_are_sub_id_exp_iat_nbf() {
    let keys = keys();
    let issued = keys.access.generate_token_with(USER, TOKEN_ID, 1_000, SEED).unwrap();
    let key = jsonwebtoken::DecodingKey::from_rsa_pem(&keys.access.decoding_key).unwrap();
    let mut validation = jsonwebtoken::Validation::new(jsonwebtoken::Algorithm::RS256);
    validation.validate_exp = false;
    let data =
        jsonwebtoken::decode::<serde_json::Value>(issued.token.unwrap(), &key, &validation).unwrap();
    assert_eq!(data.header.alg, jsonwebtoken::Algorithm::RS256);
    let expected = object(&[
        ("sub", serde_json::Value::from(USER_TEXT)),
        ("id", serde_json::Value::from(TOKEN_ID_TEXT)),
        ("exp", serde_json::Value::from(1_900)),
        ("iat", serde_json::Value::from(1_000)),
        ("nbf", serde_json::Value::from(1_000)),
    ]);
    assert_eq!(data.claims, expected);
}

#[test]
fn signing_is_a_function_of_key_and_claims() {
    let keys = keys();
    let first = keys.access.generate_token_with(USER, TOKEN_ID, 1_000, SEED).unwrap();
    let second = keys.access.generate_token_with(USER, TOKEN_ID, 1_000, SEED).unwrap();
    assert_eq!(first.token, second.token);
    let other_seed = keys.access.generate_token_with(USER, TOKEN_ID, 1_000, 0).unwrap();
    assert_eq!(first.token, other_seed.token);
    let other_id = keys.access.generate_token_with(USER, TOKEN_ID + 1, 1_000, SEED).unwrap();
    assert_ne!(first.token, other_id.token);
}

#[test]
fn token_is_the_one_that_the_jwt_crate_encodes() {
    let keys = keys();
    let issued = keys.access.generate_token_with(USER, TOKEN_ID, 1_000, SEED).unwrap();
    let expected = sign(
        &keys.access.encoding_key,
        object(&[
            ("sub", serde_json::Value::from(USER_TEXT)),
            ("id", serde_json::Value::from(TOKEN_ID_TEXT)),
            ("exp", serde_json::Value::from(1_900)),
            ("iat", serde_json::Value::from(1_000)),
            ("nbf", serde_json::Value::from(1_000)),
        ]),
    );
    assert_eq!(issued.token.unwrap(), expected);
}

#[test]
fn token_has_header_claims_and_signature_in_base64() {
    let keys = keys();
    let token = keys.access.generate_token_with(USER, TOKEN_ID, 1_000, SEED).unwrap().token.unwrap();
    let parts: Vec<&str> = token.split('.').collect();
    assert_eq!(parts.len(), 3);
    let header = base64::engine::general_purpose::URL_SAFE_NO_PAD
        .decode(parts[0])
        .unwrap();
    assert_eq!(header, br#"{"typ":"JWT","alg":"RS256"}"#);
    assert_eq!(parts[2].len(), 128);
    for part in parts {
        assert!(part.bytes().all(|b| b.is_ascii_alphanumeric() || b == b'-' || b == b'_'));
    }
}

#[test]
fn key_with_a_composite_factor_never_panics() {
    let key = composite_key();
    let public = key.to_public_key().to_pkcs1_pem(LineEnding::LF).unwrap().into_bytes();
    let private = key.to_pkcs1_pem(LineEnding::LF).unwrap().as_bytes().to_vec();
    let codec = unchecked(private, public, 900);
    for id in 0..20 {
        match codec.generate_token_with(USER, id, 1_000, SEED + id) {
            Ok(issued) => {
                assert_eq!(codec.verify_token_at(&issued.token.unwrap(), 1_500).unwrap().token_id, id)
            }
            Err(err) => assert_eq!(err, Error::JsonWebToken),
        }
    }
}

#[test]
fn token_is_valid_from_issue_to_expiry() {
    let keys = keys();
    let token = keys.access.generate_token_with(USER, TOKEN_ID, 1_000, SEED).unwrap().token.unwrap();
    assert!(keys.access.verify_token_at(&token, 1_000).is_ok());
    assert!(keys.access.verify_token_at(&token, 1_450).is_ok());
    assert!(keys.access.verify_token_at(&token, 1_900).is_ok());
}

#[test]
fn token_past_its_expiry_is_expired() {
    let keys = keys();
    let token = keys.access.generate_token_with(USER, TOKEN_ID, 1_000, SEED).unwrap().token.unwrap();
    assert_eq!(keys.access.verify_token_at(&token, 1_901).unwrap_err(), VerifyError::Expired);
    assert_eq!(keys.access.verify_token_at(&token, i64::MAX).unwrap_err(), VerifyError::Expired);
    assert_eq!(keys.access.verify_token(&token).unwrap_err(), VerifyError::Expired);
}

#[test]
fn token_before_its_start_is_not_yet_valid() {
    let keys = keys();
    let token = keys.access.generate_token_with(USER, TOKEN_ID, 1_000, SEED).unwrap().token.unwrap();
    assert_eq!(keys.access.verify_token_at(&token, 999).unwrap_err(), VerifyError::NotYetValid);
}

#[test]
fn flipped_signature_byte_is_signature_invalid() {
    let keys = keys();
    let token = keys.access.generate_token(USER).unwrap().token.unwrap();
    let signature_starts = token.rfind('.').unwrap() + 1;
    for at in [signature_starts, signature_starts + 100, token.len() - 2] {
        let forged = flipped(&token, at);
        assert_eq!(keys.access.verify_token(&forged).unwrap_err(), VerifyError::SignatureInvalid);
    }
}

#[test]
fn expired_token_with_a_bad_signature_is_signature_invalid() {
    let keys = keys();
    let token = keys.access.generate_token_with(USER, TOKEN_ID, 1_000, SEED).unwrap().token.unwrap();
    let forged = flipped(&token, token.rfind('.').unwrap() + 5);
    assert_eq!(keys.access.verify_token_at(&forged, 5_000).unwrap_err(), VerifyError::SignatureInvalid);
}

#[test]
fn flipped_payload_byte_never_verifies() {
    let keys = keys();
    let token = keys.access.generate_token(USER).unwrap().token.unwrap();
    let payload_starts = token.find('.').unwrap() + 1;
    let forged = flipped(&token, payload_starts + 10);
    assert!(keys.access.verify_token(&forged).is_err());
}

#[test]
fn refresh_token_fails_under_the_access_key() {
    let keys = keys();
    let token = keys.refresh.generate_token(USER).unwrap().token.unwrap();
    assert_eq!(keys.access.verify_token(&token).unwrap_err(), VerifyError::SignatureInvalid);
    let token = keys.access.generate_token(USER).unwrap().token.unwrap();
    assert_eq!(keys.refresh.verify_token(&token).unwrap_err(), VerifyError::SignatureInvalid);
}

#[test]
fn text_that_is_no_token_is_malformed() {
    let keys = keys();
    for text in ["", "abc", "a.b", "a.b.c", "a.b.c.d", "Bearer x"] {
        assert_eq!(keys.access.verify_token(text).unwrap_err(), VerifyError::Malformed);
    }
}

#[test]
fn token_of_another_algorithm_is_malformed() {
    let keys = keys();
    let key = jsonwebtoken::EncodingKey::from_secret(b"hmac");
    let claims = object(&[("exp", serde_json::Value::from(i64::MAX))]);
    let token = jsonwebtoken::encode(&jsonwebtoken::Header::default(), &claims, &key).unwrap();
    assert_eq!(keys.access.verify_token(&token).unwrap_err(), VerifyError::Malformed);
}

#[test]
fn signed_claims_without_a_member_are_malformed() {
    let keys = keys();
    let full = [
        ("sub", serde_json::Value::from(USER_TEXT)),
        ("id", serde_json::Value::from(TOKEN_ID_TEXT)),
        ("exp", serde_json::Value::from(2_000)),
        ("iat", serde_json::Value::from(1_000)),
        ("nbf", serde_json::Value::from(1_000)),
    ];
    let token = sign(&keys.access.encoding_key, object(&full));
    assert_eq!(keys.access.verify_token_at(&token, 1_500).unwrap().token_id, TOKEN_ID);
    for missing in 0..full.len() {
        let mut members = full.to_vec();
        members.remove(missing);
        let token = sign(&keys.access.encoding_key, object(&members));
        assert_eq!(keys.access.verify_token_at(&token, 1_500).unwrap_err(), VerifyError::Malformed);
    }
}

#[test]
fn signed_claims_of_the_wrong_type_are_malformed() {
    let keys = keys();
    let token = sign(
        &keys.access.encoding_key,
        object(&[
            ("sub", serde_json::Value::from(7)),
            ("id", serde_json::Value::from(TOKEN_ID_TEXT)),
            ("exp", serde_json::Value::from(2_000)),
            ("iat", serde_json::Value::from(1_000)),
            ("nbf", serde_json::Value::from(1_000)),
        ]),
    );
    assert_eq!(keys.access.verify_token_at(&token, 1_500).unwrap_err(), VerifyError::Malformed);
    let token = sign(
        &keys.access.encoding_key,
        object(&[
            ("sub", serde_json::Value::from(USER_TEXT)),
            ("id", serde_json::Value::from(TOKEN_ID_TEXT)),
            ("exp", serde_json::Value::from(2_000)),
            ("iat", serde_json::Value::from("1000")),
            ("nbf", serde_json::Value::from(1_000)),
        ]),
    );
    assert_eq!(keys.access.verify_token_at(&token, 1_500).unwrap_err(), VerifyError::Malformed);
}

#[test]
fn signed_claims_with_more_members_verify() {
    let keys = keys();
    let token = sign(
        &keys.access.encoding_key,
        object(&[
            ("sub", serde_json::Value::from(USER_TEXT)),
            ("id", serde_json::Value::from(TOKEN_ID_TEXT)),
            ("exp", serde_json::Value::from(2_000)),
            ("iat", serde_json::Value::from(1_000)),
            ("nbf", serde_json::Value::from(1_000)),
            ("role", serde_json::Value::from("admin")),
            ("nested", object(&[("sub", serde_json::Value::from("other"))])),
        ]),
    );
    let verified = keys.access.verify_token_at(&token, 1_500).unwrap();
    assert_eq!((verified.user_pid, verified.token_id), (USER, TOKEN_ID));
}

#[test]
fn signed_claims_with_ids_that_are_no_uuid_are_malformed() {
    let keys = keys();
    let token = sign(
        &keys.access.encoding_key,
        object(&[
            ("sub", serde_json::Value::from("alice")),
            ("id", serde_json::Value::from(TOKEN_ID_TEXT)),
            ("exp", serde_json::Value::from(2_000)),
            ("iat", serde_json::Value::from(1_000)),
            ("nbf", serde_json::Value::from(1_000)),
        ]),
    );
    assert_eq!(keys.access.verify_token_at(&token, 1_500).unwrap_err(), VerifyError::Malformed);
    assert_eq!(keys.access.verify_token_at(&token, 2_500).unwrap_err(), VerifyError::Expired);
}

#[test]
fn ids_are_read_in_every_form_of_uuid_text() {
    let keys = keys();
    for sub in [
        "550E8400-E29B-41D4-A716-446655440000",
        "550e8400e29b41d4a716446655440000",
        "{550e8400-e29b-41d4-a716-446655440000}",
        "urn:uuid:550e8400-e29b-41d4-a716-446655440000",
    ] {
        let token = sign(
            &keys.access.encoding_key,
            object(&[
                ("sub", serde_json::Value::from(sub)),
                ("id", serde_json::Value::from(TOKEN_ID_TEXT)),
                ("exp", serde_json::Value::from(2_000)),
                ("iat", serde_json::Value::from(1_000)),
                ("nbf", serde_json::Value::from(1_000)),
            ]),
        );
        assert_eq!(keys.access.verify_token_at(&token, 1_500).unwrap().user_pid, USER);
    }
}

#[test]
fn expiry_that_does_not_fit_is_a_token_error() {
    let keys = keys();
    let err = keys.access.generate_token_with(USER, TOKEN_ID, i64::MAX - 10, SEED).unwrap_err();
    assert_eq!(err, Error::TokenError);
    let negative = JwtContext::new(keys.access.encoding_key.clone(), Vec::new(), -900).unwrap();
    assert_eq!(negative.generate_token_with(USER, TOKEN_ID, i64::MIN + 10, SEED).unwrap_err(), Error::TokenError);
    assert_eq!(negative.generate_token_with(USER, TOKEN_ID, 1_000, SEED).unwrap().expires_in, Some(100));
}

#[test]
fn unusable_signing_key_is_a_signing_failure() {
    let keys = keys();
    let broken = unchecked(b"no key".to_vec(), keys.access.decoding_key.clone(), 900);
    assert_eq!(broken.generate_token(USER).unwrap_err(), Error::JsonWebToken);
    let public_only =
        unchecked(keys.access.decoding_key.clone(), keys.access.decoding_key.clone(), 900);
    assert_eq!(public_only.generate_token(USER).unwrap_err(), Error::JsonWebToken);
}

#[test]
fn codec_is_not_built_on_an_unusable_signing_key() {
    let (_, public) = key_pair(768);
    for private in [Vec::new(), b"no key".to_vec(), public.clone()] {
        assert_eq!(JwtContext::new(private, public.clone(), 900).unwrap_err(), Error::JsonWebToken);
    }
}

#[test]
fn codec_is_not_built_on_a_signing_key_too_short_for_rs256() {
    for bits in [384, 488] {
        let (private, public) = key_pair(bits);
        assert_eq!(JwtContext::new(private, public, 900).unwrap_err(), Error::JsonWebToken);
    }
}

#[test]
fn codec_is_built_on_the_shortest_key_that_signs() {
    let (private, public) = key_pair(496);
    let codec = JwtContext::new(private, public, 900).unwrap();
    let token = codec.generate_token_with(USER, TOKEN_ID, 1_000, SEED).unwrap().token.unwrap();
    assert_eq!(codec.verify_token_at(&token, 1_500).unwrap().token_id, TOKEN_ID);
}

#[test]
fn signing_key_too_short_for_rs256_is_a_signing_failure() {
    let (private, public) = key_pair(384);
    let short = unchecked(private, public, 900);
    assert_eq!(short.generate_token(USER).unwrap_err(), Error::JsonWebToken);
    assert_eq!(short.generate_token_with(USER, TOKEN_ID, 1_000, SEED).unwrap_err(), Error::JsonWebToken);
    let context = AuthContext { access: short.clone(), refresh: short };
    let details = TokenDetails { token: None, token_id: 1, user_pid: USER, expires_in: None };
    assert!(matches!(
        RefreshLayer::new(context.clone()).resume(
            &session_auth::middlewares::refresh::PendingStamp { refresh: details.clone(), access: None },
            StoreReply::Found(details.clone()),
        ),
        RefreshOutcome::Reject(AuthError::TokenCreation)
    ));
    assert!(matches!(
        AuthLayer::new(context).resume(
            &session_auth::middlewares::auth::PendingRefresh { refresh: details.clone() },
            StoreReply::Found(details),
        ),
        GateOutcome::Reject(AuthError::TokenCreation)
    ));
}

#[test]
fn unusable_verification_key_is_signature_invalid() {
    let keys = keys();
    let token = keys.access.generate_token(USER).unwrap().token.unwrap();
    let broken = unchecked(keys.access.encoding_key.clone(), b"no key".to_vec(), 900);
    assert_eq!(broken.verify_token(&token).unwrap_err(), VerifyError::SignatureInvalid);
}

#[test]
fn guard_forwards_a_valid_access_token_from_the_header() {
    let keys = keys();
    let issued = keys.access.generate_token(USER).unwrap();
    let header = format!("Bearer {}", issued.token.clone().unwrap());
    let step = AuthLayer::new(keys.auth()).begin(&request(&[&header], &[]));
    match step {
        GateStep::Forward(identity) => {
            assert_eq!(identity.user_pid, USER);
            assert_eq!(identity.token_id, issued.token_id);
        }
        other => panic!("{:?}", other),
    }
}

#[test]
fn guard_forwards_a_valid_access_token_from_the_cookie() {
    let keys = keys();
    let issued = keys.access.generate_token(USER).unwrap();
    let cookie = format!("theme=dark; access_token={}", issued.token.clone().unwrap());
    let step = AuthLayer::new(keys.auth()).begin(&request(&[], &[&cookie]));
    assert!(matches!(step, GateStep::Forward(identity) if identity.user_pid == USER));
}

#[test]
fn guard_without_any_credential_is_missing_credentials() {
    let keys = keys();
    let step = AuthLayer::new(keys.auth()).begin(&request(&[], &[]));
    match step {
        GateStep::Reject(err) => {
            assert_eq!(err, AuthError::MissingCredentials);
            assert_eq!(err.response().status, 400);
            assert_eq!(err.response().message, "Credentials missing from request");
        }
        other => panic!("{:?}", other),
    }
    let step = AuthLayer::new(keys.auth()).begin(&request(&[], &["theme=dark"]));
    assert!(matches!(step, GateStep::Reject(AuthError::MissingCredentials)));
}

#[test]
fn guard_refuses_a_malformed_header_without_looking_at_cookies() {
    let keys = keys();
    let issued = keys.access.generate_token(USER).unwrap();
    let cookie = format!("access_token={}", issued.token.unwrap());
    for header in ["Basic dXNlcjpwYXNz", "Bearer", "token"] {
        let step = AuthLayer::new(keys.auth()).begin(&request(&[header], &[&cookie]));
        match step {
            GateStep::Reject(err) => {
                assert_eq!(err, AuthError::InvalidToken);
                assert_eq!(err.response().status, 401);
            }
            other => panic!("{:?}", other),
        }
    }
}

#[test]
fn guard_with_a_bad_access_token_and_no_refresh_cookie_is_missing_credentials() {
    let keys = keys();
    let step = AuthLayer::new(keys.auth()).begin(&request(&["Bearer a.b.c"], &[]));
    assert!(matches!(step, GateStep::Reject(AuthError::MissingCredentials)));
}

#[test]
fn guard_refreshes_an_expired_access_token() {
    let keys = keys();
    let expired = keys.access.generate_token_with(USER, 1, 1_000, SEED).unwrap().token.unwrap();
    let session = keys.refresh.generate_token(USER).unwrap();
    let cookie = format!(
        "access_token={}; refresh_token={}",
        expired,
        session.token.clone().unwrap()
    );
    let guard = AuthLayer::new(keys.auth());
    let pending = match guard.begin(&request(&[], &[&cookie])) {
        GateStep::Lookup(pending) => pending,
        other => panic!("{:?}", other),
    };
    assert_eq!(pending.refresh.token_id, session.token_id);
    match pending.command() {
        StoreCommand::Get { key } => {
            assert_eq!(key, format!("refresh_token:{}", uuid::Uuid::from_u128(session.token_id)))
        }
        other => panic!("{:?}", other),
    }
    let record = TokenDetails { token: session.token.clone(), ..session.clone() };
    match guard.resume(&pending, StoreReply::Found(record)) {
        GateOutcome::Forward { identity, stamp } => {
            assert_eq!(identity.user_pid, USER);
            let token = stamp.authorization.strip_prefix("Bearer ").unwrap();
            let verified = keys.access.verify_token(token).unwrap();
            assert_eq!(verified.user_pid, USER);
            assert_eq!(verified.token_id, identity.token_id);
            assert_eq!(
                stamp.set_cookie,
                format!("access_token={}; HttpOnly; SameSite=Lax; Path=/; Max-Age=900", token)
            );
        }
        other => panic!("{:?}", other),
    }
}

#[test]
fn guard_rejects_a_revoked_session() {
    let keys = keys();
    let session = keys.refresh.generate_token(USER).unwrap();
    let cookie = format!("refresh_token={}", session.token.clone().unwrap());
    let guard = AuthLayer::new(keys.auth());
    let pending = match guard.begin(&request(&["Bearer a.b.c"], &[&cookie])) {
        GateStep::Lookup(pending) => pending,
        other => panic!("{:?}", other),
    };
    match guard.resume(&pending, StoreReply::Missing) {
        GateOutcome::Reject(err) => {
            assert_eq!(err, AuthError::InvalidToken);
            assert_eq!(err.response().status, 401);
        }
        other => panic!("{:?}", other),
    }
}

#[test]
fn guard_turns_store_trouble_into_a_store_error() {
    let keys = keys();
    let session = keys.refresh.generate_token(USER).unwrap();
    let cookie = format!("refresh_token={}", session.token.clone().unwrap());
    let guard = AuthLayer::new(keys.auth());
    let pending = match guard.begin(&request(&["Bearer a.b.c"], &[&cookie])) {
        GateStep::Lookup(pending) => pending,
        other => panic!("{:?}", other),
    };
    for reply in [StoreReply::Failed, StoreReply::Unreadable] {
        match guard.resume(&pending, reply) {
            GateOutcome::Reject(err) => {
                assert_eq!(err, AuthError::StoreError);
                assert_eq!(err.response().status, 500);
            }
            other => panic!("{:?}", other),
        }
    }
}

#[test]
fn guard_rejects_a_record_of_another_user() {
    let keys = keys();
    let session = keys.refresh.generate_token(USER).unwrap();
    let cookie = format!("refresh_token={}", session.token.clone().unwrap());
    let guard = AuthLayer::new(keys.auth());
    let pending = match guard.begin(&request(&["Bearer a.b.c"], &[&cookie])) {
        GateStep::Lookup(pending) => pending,
        other => panic!("{:?}", other),
    };
    let record = TokenDetails { user_pid: USER + 1, ..session };
    assert!(matches!(
        guard.resume(&pending, StoreReply::Found(record)),
        GateOutcome::Reject(AuthError::InvalidToken)
    ));
}

#[test]
fn guard_rejects_an_expired_refresh_token_as_expired() {
    let keys = keys();
    let old = keys.refresh.generate_token_with(USER, TOKEN_ID, 1_000, SEED).unwrap().token.unwrap();
    let cookie = format!("refresh_token={}", old);
    let step = AuthLayer::new(keys.auth()).begin(&request(&["Bearer a.b.c"], &[&cookie]));
    match step {
        GateStep::Reject(err) => {
            assert_eq!(err, AuthError::Expired);
            assert_eq!(err.response().status, 401);
        }
        other => panic!("{:?}", other),
    }
}

#[test]
fn guard_rejects_a_forged_refresh_token_as_invalid() {
    let keys = keys();
    let forged = keys.access.generate_token(USER).unwrap().token.unwrap();
    let cookie = format!("refresh_token={}", forged);
    let step = AuthLayer::new(keys.auth()).begin(&request(&["Bearer a.b.c"], &[&cookie]));
    assert!(matches!(step, GateStep::Reject(AuthError::InvalidToken)));
}

#[test]
fn guard_mints_under_the_given_id_and_time() {
    let keys = keys();
    let guard = AuthLayer::new(keys.auth());
    let session = keys.refresh.generate_token_with(USER, 9, 1_000, SEED).unwrap();
    let cookie = format!("refresh_token={}", session.token.clone().unwrap());
    let pending = match guard.begin_at(&request(&["Bearer a.b.c"], &[&cookie]), 2_000) {
        GateStep::Lookup(pending) => pending,
        other => panic!("{:?}", other),
    };
    let expected = keys.access.generate_token_with(USER, TOKEN_ID, 2_000, SEED).unwrap().token.unwrap();
    match guard.resume_with(&pending, StoreReply::Found(session), TOKEN_ID, 2_000, SEED) {
        GateOutcome::Forward { identity, stamp } => {
            assert_eq!(identity.token_id, TOKEN_ID);
            assert_eq!(identity.user_pid, USER);
            assert!(identity.token.is_none());
            assert_eq!(stamp.authorization, format!("Bearer {}", expected));
        }
        other => panic!("{:?}", other),
    }
}

#[test]
fn refresh_stage_without_refresh_cookie_is_missing_credentials() {
    let keys = keys();
    let stage = RefreshLayer::new(keys.auth());
    let token = keys.access.generate_token(USER).unwrap().token.unwrap();
    let header = format!("Bearer {}", token);
    for request in [request(&[], &[]), request(&[&header], &[]), request(&[], &["access_token=x"])] {
        match stage.begin(&request) {
            RefreshStep::Reject(err) => assert_eq!(err, AuthError::MissingCredentials),
            other => panic!("{:?}", other),
        }
    }
}

#[test]
fn refresh_stage_refuses_a_malformed_header() {
    let keys = keys();
    let session = keys.refresh.generate_token(USER).unwrap();
    let cookie = format!("refresh_token={}", session.token.unwrap());
    let step = RefreshLayer::new(keys.auth()).begin(&request(&["Basic abc"], &[&cookie]));
    assert!(matches!(step, RefreshStep::Reject(AuthError::InvalidToken)));
}

#[test]
fn refresh_stage_refuses_a_bad_refresh_token() {
    let keys = keys();
    let stage = RefreshLayer::new(keys.auth());
    let step = stage.begin(&request(&[], &["refresh_token=a.b.c"]));
    assert!(matches!(step, RefreshStep::Reject(AuthError::InvalidToken)));
    let old = keys.refresh.generate_token_with(USER, TOKEN_ID, 1_000, SEED).unwrap().token.unwrap();
    let step = stage.begin(&request(&[], &[&format!("refresh_token={}", old)]));
    assert!(matches!(step, RefreshStep::Reject(AuthError::Expired)));
}

#[test]
fn refresh_stage_keeps_a_valid_access_token() {
    let keys = keys();
    let stage = RefreshLayer::new(keys.auth());
    let session = keys.refresh.generate_token(USER).unwrap();
    let token = keys.access.generate_token(USER).unwrap().token.unwrap();
    let cookie = format!("refresh_token={}", session.token.clone().unwrap());
    let header = format!("Bearer {}", token);
    let pending = match stage.begin(&request(&[&header], &[&cookie])) {
        RefreshStep::Lookup(pending) => pending,
        other => panic!("{:?}", other),
    };
    assert_eq!(pending.access.as_deref(), Some(token.as_str()));
    match stage.resume(&pending, StoreReply::Found(session)) {
        RefreshOutcome::Proceed(stamp) => {
            assert_eq!(stamp.authorization, header);
            assert_eq!(
                stamp.set_cookie,
                format!("access_token={}; HttpOnly; SameSite=Lax; Path=/; Max-Age=900", token)
            );
        }
        other => panic!("{:?}", other),
    }
}

#[test]
fn refresh_stage_replaces_an_invalid_access_token() {
    let keys = keys();
    let stage = RefreshLayer::new(keys.auth());
    let session = keys.refresh.generate_token(USER).unwrap();
    let cookie = format!("refresh_token={}; access_token=a.b.c", session.token.clone().unwrap());
    let pending = match stage.begin(&request(&[], &[&cookie])) {
        RefreshStep::Lookup(pending) => pending,
        other => panic!("{:?}", other),
    };
    match stage.resume(&pending, StoreReply::Found(session)) {
        RefreshOutcome::Proceed(stamp) => {
            let token = stamp.authorization.strip_prefix("Bearer ").unwrap();
            assert_ne!(token, "a.b.c");
            assert_eq!(keys.access.verify_token(token).unwrap().user_pid, USER);
        }
        other => panic!("{:?}", other),
    }
}

#[test]
fn refresh_stage_mints_for_the_user_of_the_record() {
    let keys = keys();
    let stage = RefreshLayer::new(keys.auth());
    let session = keys.refresh.generate_token(USER).unwrap();
    let cookie = format!("refresh_token={}", session.token.clone().unwrap());
    let pending = match stage.begin(&request(&[], &[&cookie])) {
        RefreshStep::Lookup(pending) => pending,
        other => panic!("{:?}", other),
    };
    let record = TokenDetails { user_pid: 42, ..session };
    let expected = keys.access.generate_token_with(42, TOKEN_ID, 7_000, SEED).unwrap().token.unwrap();
    match stage.resume_with(&pending, StoreReply::Found(record), TOKEN_ID, 7_000, SEED) {
        RefreshOutcome::Proceed(stamp) => {
            assert_eq!(stamp.authorization, format!("Bearer {}", expected))
        }
        other => panic!("{:?}", other),
    }
}

#[test]
fn refresh_stage_rejects_on_the_store_reply() {
    let keys = keys();
    let stage = RefreshLayer::new(keys.auth());
    let session = keys.refresh.generate_token(USER).unwrap();
    let cookie = format!("refresh_token={}", session.token.clone().unwrap());
    let pending = match stage.begin(&request(&[], &[&cookie])) {
        RefreshStep::Lookup(pending) => pending,
        other => panic!("{:?}", other),
    };
    assert!(matches!(
        stage.resume(&pending, StoreReply::Missing),
        RefreshOutcome::Reject(AuthError::InvalidToken)
    ));
    assert!(matches!(
        stage.resume(&pending, StoreReply::Failed),
        RefreshOutcome::Reject(AuthError::StoreError)
    ));
    assert!(matches!(
        stage.resume(&pending, StoreReply::Unreadable),
        RefreshOutcome::Reject(AuthError::StoreError)
    ));
}

#[test]
fn refresh_stage_reports_a_signing_failure() {
    let keys = keys();
    let broken = AuthContext {
        access: unchecked(b"no key".to_vec(), keys.access.decoding_key.clone(), 900),
        refresh: keys.refresh.clone(),
    };
    let stage = RefreshLayer::new(broken.clone());
    let session = keys.refresh.generate_token(USER).unwrap();
    let cookie = format!("refresh_token={}", session.token.clone().unwrap());
    let pending = match stage.begin(&request(&[], &[&cookie])) {
        RefreshStep::Lookup(pending) => pending,
        other => panic!("{:?}", other),
    };
    match stage.resume(&pending, StoreReply::Found(session.clone())) {
        RefreshOutcome::Reject(err) => {
            assert_eq!(err, AuthError::TokenCreation);
            assert_eq!(err.response().status, 500);
        }
        other => panic!("{:?}", other),
    }
    let guard = AuthLayer::new(broken);
    let pending = match guard.begin(&request(&["Bearer a.b.c"], &[&cookie])) {
        GateStep::Lookup(pending) => pending,
        other => panic!("{:?}", other),
    };
    assert!(matches!(
        guard.resume(&pending, StoreReply::Found(session)),
        GateOutcome::Reject(AuthError::TokenCreation)
    ));
}

fn user(password: &str) -> User {
    User {
        id: 1,
        pid: USER,
        email: "ada@example.com".to_string(),
        name: "Ada".to_string(),
        password: password_hash(password).unwrap(),
    }
}

fn credentials(password: &str) -> LoginUser {
    LoginUser { email: "ada@example.com".to_string(), password: password.to_string() }
}

#[test]
fn login_issues_both_tokens_and_the_store_command() {
    let keys = keys();
    let session = login_with(&keys.auth(), Some(user("s3cret")), &credentials("s3cret"), 1, 2, 1_000, SEED, SEED + 1)
            .unwrap();
    assert_eq!((session.access.user_pid, session.access.token_id), (USER, 1));
    assert_eq!((session.refresh.user_pid, session.refresh.token_id), (USER, 2));
    assert_eq!(session.access.expires_in, Some(1_900));
    assert_eq!(session.refresh.expires_in, Some(87_400));
    let access_token = session.access.token.clone().unwrap();
    let refresh_token = session.refresh.token.clone().unwrap();
    assert_eq!(session.authorization, access_token);
    assert_eq!(
        session.access_cookie,
        format!("access_token={}; SameSite=Lax; Path=/; Max-Age=900", access_token)
    );
    assert_eq!(
        session.refresh_cookie,
        format!("refresh_token={}; HttpOnly; SameSite=Lax; Path=/; Max-Age=86400", refresh_token)
    );
    match session.store {
        StoreCommand::Put { key, record, ttl } => {
            assert_eq!(key, "refresh_token:00000000-0000-0000-0000-000000000002");
            assert_eq!(record.token, Some(refresh_token));
            assert_eq!(record.token_id, 2);
            assert_eq!(record.user_pid, USER);
            assert_eq!(record.expires_in, Some(87_400));
            assert_eq!(ttl, Some(86_400));
        }
        other => panic!("{:?}", other),
    }
}

#[test]
fn login_without_a_user_is_wrong_credentials() {
    let keys = keys();
    let err = login(&keys.auth(), None, &credentials("s3cret")).unwrap_err();
    assert_eq!(err, Error::Auth(AuthError::WrongCredentials));
    assert_eq!(err.response().status, 401);
    assert_eq!(err.response().message, "Wrong credentials");
}

#[test]
fn login_with_another_password_is_invalid_credentials() {
    let keys = keys();
    let err = login(&keys.auth(), Some(user("s3cret")), &credentials("guess")).unwrap_err();
    assert_eq!(err, Error::InvalidCredentials);
    assert_eq!(err.response().status, 401);
    assert_eq!(err.response().message, "Invalid email or password");
}

#[test]
fn login_against_an_unusable_hash_is_a_password_hash_error() {
    let keys = keys();
    let mut stored = user("s3cret");
    stored.password = "plain".to_string();
    let err = login(&keys.auth(), Some(stored), &credentials("plain")).unwrap_err();
    assert_eq!(err, Error::PasswordHash);
    assert_eq!(err.response().status, 500);
}

#[test]
fn login_then_refresh_cookie_alone_reaches_the_handler() {
    let keys = keys();
    let context = keys.auth();
    let session = login(&context, Some(user("s3cret")), &credentials("s3cret")).unwrap();
    let record = match &session.store {
        StoreCommand::Put { record, .. } => record.clone(),
        other => panic!("{:?}", other),
    };
    let cookie = format!("refresh_token={}", session.refresh.token.clone().unwrap());
    let incoming = request(&[], &[&cookie]);

    let stage = RefreshLayer::new(context.clone());
    let pending = match stage.begin(&incoming) {
        RefreshStep::Lookup(pending) => pending,
        other => panic!("{:?}", other),
    };
    assert!(pending.access.is_none());
    let stamp = match stage.resume(&pending, StoreReply::Found(record)) {
        RefreshOutcome::Proceed(stamp) => stamp,
        other => panic!("{:?}", other),
    };
    let minted = stamp.authorization.strip_prefix("Bearer ").unwrap().to_string();
    assert_ne!(Some(&minted), session.access.token.as_ref());
    assert_eq!(keys.access.verify_token(&minted).unwrap().user_pid, USER);

    let inner = incoming.restamped(&stamp);
    assert_eq!(inner.authorization, vec![stamp.authorization.as_bytes().to_vec()]);
    assert_eq!(inner.cookie, incoming.cookie);
    match AuthLayer::new(context).begin(&inner) {
        GateStep::Forward(identity) => assert_eq!(identity.user_pid, USER),
        other => panic!("{:?}", other),
    }
}

#[test]
fn restamping_replaces_a_stale_header() {
    let keys = keys();
    let context = keys.auth();
    let session = keys.refresh.generate_token(USER).unwrap();
    let cookie = format!("refresh_token={}", session.token.clone().unwrap());
    let incoming = request(&["Bearer a.b.c", "Bearer d.e.f"], &[&cookie]);
    let stage = RefreshLayer::new(context.clone());
    let pending = match stage.begin(&incoming) {
        RefreshStep::Lookup(pending) => pending,
        other => panic!("{:?}", other),
    };
    let stamp = match stage.resume(&pending, StoreReply::Found(session)) {
        RefreshOutcome::Proceed(stamp) => stamp,
        other => panic!("{:?}", other),
    };
    let inner = incoming.restamped(&stamp);
    assert_eq!(inner.authorization.len(), 1);
    assert!(matches!(AuthLayer::new(context).begin(&inner), GateStep::Forward(_)));
}

#[test]
fn logout_deletes_the_record_of_the_refresh_token() {
    let keys = keys();
    let access = keys.access.generate_token(USER).unwrap();
    let refresh = keys.refresh.generate_token(USER).unwrap();
    assert_ne!(access.token_id, refresh.token_id);
    let header = format!("Bearer {}", access.token.clone().unwrap());
    let cookie = format!(
        "access_token={}; refresh_token={}",
        access.token.unwrap(),
        refresh.token.unwrap()
    );
    let out = logout(&keys.auth(), &request(&[&header], &[&cookie])).unwrap();
    match out.store {
        StoreCommand::Delete { key } => {
            assert_eq!(key, format!("refresh_token:{}", uuid::Uuid::from_u128(refresh.token_id)))
        }
        other => panic!("{:?}", other),
    }
    assert_eq!(out.access_cookie, "access_token=; SameSite=Lax; Path=/; Max-Age=900");
    assert_eq!(out.refresh_cookie, "refresh_token=; HttpOnly; SameSite=Lax; Path=/; Max-Age=86400");
}

#[test]
fn logout_names_the_id_of_the_refresh_cookie_at_a_time() {
    let keys = keys();
    let refresh = keys.refresh.generate_token_with(USER, TOKEN_ID, 1_000, SEED).unwrap();
    let cookie = format!("refresh_token={}", refresh.token.unwrap());
    let out = logout_at(&keys.auth(), &request(&[], &[&cookie]), 2_000).unwrap();
    match out.store {
        StoreCommand::Delete { key } => assert_eq!(key, format!("refresh_token:{}", TOKEN_ID_TEXT)),
        other => panic!("{:?}", other),
    }
}

#[test]
fn logout_then_the_session_is_rejected() {
    let keys = keys();
    let session = keys.refresh.generate_token(USER).unwrap();
    let cookie = format!("refresh_token={}", session.token.clone().unwrap());
    let incoming = request(&["Bearer a.b.c"], &[&cookie]);
    let out = logout(&keys.auth(), &incoming).unwrap();
    let deleted = match out.store {
        StoreCommand::Delete { key } => key,
        other => panic!("{:?}", other),
    };
    let guard = AuthLayer::new(keys.auth());
    let pending = match guard.begin(&incoming) {
        GateStep::Lookup(pending) => pending,
        other => panic!("{:?}", other),
    };
    match pending.command() {
        StoreCommand::Get { key } => assert_eq!(key, deleted),
        other => panic!("{:?}", other),
    }
    match guard.resume(&pending, StoreReply::Missing) {
        GateOutcome::Reject(err) => assert_eq!(err.response().status, 401),
        other => panic!("{:?}", other),
    }
}

#[test]
fn logout_without_refresh_cookie_is_missing_credentials() {
    let keys = keys();
    let access = keys.access.generate_token(USER).unwrap().token.unwrap();
    let header = format!("Bearer {}", access);
    for incoming in [request(&[], &[]), request(&[&header], &["access_token=x"])] {
        assert_eq!(logout(&keys.auth(), &incoming).unwrap_err(), AuthError::MissingCredentials);
    }
}

#[test]
fn logout_with_a_bad_refresh_token_is_refused() {
    let keys = keys();
    let forged = keys.access.generate_token(USER).unwrap().token.unwrap();
    let cookie = format!("refresh_token={}", forged);
    assert_eq!(
        logout(&keys.auth(), &request(&[], &[&cookie])).unwrap_err(),
        AuthError::InvalidToken
    );
    let old = keys.refresh.generate_token_with(USER, TOKEN_ID, 1_000, SEED).unwrap().token.unwrap();
    let cookie = format!("refresh_token={}", old);
    assert_eq!(logout(&keys.auth(), &request(&[], &[&cookie])).unwrap_err(), AuthError::Expired);
}

#[test]
fn negative_lifetime_is_written_with_its_sign() {
    let keys = keys();
    let refresh = keys.refresh.generate_token(USER).unwrap();
    let cookie = format!("refresh_token={}", refresh.token.unwrap());
    let context = AuthContext {
        access: JwtContext { exp: -5, ..keys.access.clone() },
        refresh: JwtContext { exp: i64::MIN, ..keys.refresh.clone() },
    };
    let out = logout(&context, &request(&[], &[&cookie])).unwrap();
    assert_eq!(out.access_cookie, "access_token=; SameSite=Lax; Path=/; Max-Age=-5");
    assert_eq!(
        out.refresh_cookie,
        "refresh_token=; HttpOnly; SameSite=Lax; Path=/; Max-Age=-9223372036854775808"
    );
}

#[test]
fn login_is_refused_where_the_refresh_token_has_no_time_left() {
    let keys = keys();
    for exp in [0, -1, -86_400] {
        let context = AuthContext {
            access: keys.access.clone(),
            refresh: JwtContext { exp, ..keys.refresh.clone() },
        };
        let err = login_with(&context, Some(user("s3cret")), &credentials("s3cret"), 1, 2, 1_000, SEED, SEED)
            .unwrap_err();
        assert_eq!(err, Error::TokenError);
    }
}

#[test]
fn clock_of_the_library_is_the_wall_clock() {
    let keys = keys();
    let before = now();
    let issued = keys.access.generate_token(USER).unwrap();
    let after = now();
    let expiry = issued.expires_in.unwrap();
    assert!(before + 900 <= expiry && expiry <= after + 900);
}
