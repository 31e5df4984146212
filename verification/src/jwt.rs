//! The signed form of a token: its claims as a list of named members, the
//! RS256 signing and decoding of that list, and the rules that turn decoded
//! members into a verification result.

use base64::engine::general_purpose::URL_SAFE_NO_PAD;
use base64::Engine;
use jsonwebtoken::errors::ErrorKind;
use jsonwebtoken::{Algorithm, DecodingKey, EncodingKey, Validation};
use rand_chacha::rand_core::SeedableRng;
use rand_chacha::ChaCha20Rng;
use rsa::pkcs1::DecodeRsaPrivateKey;
use rsa::pkcs1v15::SigningKey;
use rsa::sha2::Sha256;
use rsa::signature::{RandomizedSigner, SignatureEncoding};
use rsa::traits::PublicKeyParts;
use serde_json::Value;
use vstd::prelude::*;
use vstd::utf8::encode_utf8;

use crate::ids::{parse_uuid, uuid_parsed};
use crate::models::token::{
    details_view, text_view, TokenClaims, TokenClaimsView, TokenDetails, TokenDetailsView,
};

verus! {

/// The value of one member of a token's claims object: a JSON string, a
/// JSON number that fits `i64`, or any other JSON value.
#[derive(Debug, Clone)]
pub enum ClaimValue {
    Text(String),
    Number(i64),
    Other,
}

/// What a `ClaimValue` holds.
pub enum ClaimValueView {
    Text(Seq<char>),
    Number(i64),
    Other,
}

impl View for ClaimValue {
    type V = ClaimValueView;

    open spec fn view(&self) -> ClaimValueView {
        match self {
            ClaimValue::Text(text) => ClaimValueView::Text(text@),
            ClaimValue::Number(number) => ClaimValueView::Number(*number),
            ClaimValue::Other => ClaimValueView::Other,
        }
    }
}

/// One member of a token's claims object.
#[derive(Debug, Clone)]
pub struct Claim {
    pub name: String,
    pub value: ClaimValue,
}

/// What a `Claim` holds.
pub struct ClaimView {
    pub name: Seq<char>,
    pub value: ClaimValueView,
}

impl View for Claim {
    type V = ClaimView;

    open spec fn view(&self) -> ClaimView {
        ClaimView { name: self.name@, value: self.value@ }
    }
}

/// What a list of claims holds.
pub open spec fn claim_views(claims: Seq<Claim>) -> Seq<ClaimView> {
    claims.map_values(|c: Claim| c@)
}

/// Why a token could not be decoded.
#[derive(Debug, Clone, Copy, PartialEq, Eq, Structural)]
pub enum DecodeFault {
    /// The signature does not match the token under the key.
    Signature,
    /// The key is in no form that can be read.
    Key,
    /// Any other failure: the token's shape, its header, its payload.
    Token,
}

/// Why a token was not accepted.
#[derive(Debug, Clone, Copy, PartialEq, Eq, Structural)]
pub enum VerifyError {
    Malformed,
    SignatureInvalid,
    Expired,
    NotYetValid,
}

/// What a decoding result holds.
pub open spec fn decoded_view(decoded: Result<Vec<Claim>, DecodeFault>) -> Result<
    Seq<ClaimView>,
    DecodeFault,
> {
    match decoded {
        Ok(claims) => Ok(claim_views(claims@)),
        Err(fault) => Err(fault),
    }
}

/// The least modulus, in bytes, under which an RS256 signature can be
/// padded: 19 bytes for the digest's prefix, 32 for the SHA-256 digest and
/// 11 for the padding around them.
pub const MIN_MODULUS_BYTES: usize = 62;

/// The size in bytes of the modulus of the RSA private key that a PEM
/// holds, none where it holds no such key.
pub uninterp spec fn rsa_modulus_len(private_pem: Seq<u8>) -> Option<usize>;

/// `true` for a PEM that holds an RSA private key long enough to sign
/// with RS256.
pub open spec fn fits_rs256(private_pem: Seq<u8>) -> bool {
    rsa_modulus_len(private_pem) matches Some(len) && len >= MIN_MODULUS_BYTES
}

/// Measures the modulus of an RSA private key in PEM form.
///
/// Reads the key as the signing does, with `EncodingKey::from_rsa_pem` and
/// then `rsa::RsaPrivateKey::from_pkcs1_der` on what that holds, and hands
/// back `size()`, the number that the signing holds against the length of
/// the padded digest.
#[verifier::external_body]
pub(crate) fn modulus_len(private_pem: &Vec<u8>) -> (r: Option<usize>)
    ensures
        r == rsa_modulus_len(private_pem@),
{
    let key = EncodingKey::from_rsa_pem(private_pem).ok()?;
    let key = rsa::RsaPrivateKey::from_pkcs1_der(key.inner()).ok()?;
    Some(key.size())
}

/// Tells whether a PEM holds an RSA private key long enough to sign with
/// RS256.
pub fn key_fits(private_pem: &Vec<u8>) -> (r: bool)
    ensures
        r == fits_rs256(private_pem@),
{
    match modulus_len(private_pem) {
        Some(len) => len >= MIN_MODULUS_BYTES,
        None => false,
    }
}

/// The header of every token, as JSON: a JWT signed with RS256.
pub const TOKEN_HEADER: &'static str = "{\"typ\":\"JWT\",\"alg\":\"RS256\"}";

/// The JSON text that `serde_json::to_string` writes for a claims object,
/// none where it fails.
pub uninterp spec fn claims_json_text(claims: Seq<ClaimView>) -> Option<Seq<char>>;

/// The text of bytes in base64 with the URL-safe alphabet and no padding.
pub uninterp spec fn base64url_text(bytes: Seq<u8>) -> Seq<char>;

/// The RS256 signature (PKCS#1 v1.5 over SHA-256) of a message under an
/// RSA private key in PEM form, with the blinding drawn from a seed; none
/// where the key cannot be read or the signing fails.
pub uninterp spec fn rs256_signed(private_pem: Seq<u8>, message: Seq<u8>, seed: u128) -> Option<
    Seq<u8>,
>;

/// What optional bytes hold.
pub open spec fn bytes_view(bytes: Option<Vec<u8>>) -> Option<Seq<u8>> {
    match bytes {
        Some(b) => Some(b@),
        None => None,
    }
}

/// What is signed of a claims object: the header and the claims, each as
/// JSON in base64, with a dot between them.
pub open spec fn signing_input(claims: Seq<ClaimView>) -> Option<Seq<char>> {
    match claims_json_text(claims) {
        Some(json) => Some(
            base64url_text(encode_utf8(TOKEN_HEADER@)) + seq!['.'] + base64url_text(
                encode_utf8(json),
            ),
        ),
        None => None,
    }
}

/// The token of a claims object under an RSA private key in PEM form: what
/// is signed, a dot, and the signature in base64. There is none where the
/// claims cannot be written or the signing fails.
pub open spec fn jwt_signed(private_pem: Seq<u8>, claims: Seq<ClaimView>, seed: u128) -> Option<
    Seq<char>,
> {
    match signing_input(claims) {
        Some(input) => match rs256_signed(private_pem, encode_utf8(input), seed) {
            Some(signature) => Some(input + seq!['.'] + base64url_text(signature)),
            None => None,
        },
        None => None,
    }
}

/// What `jsonwebtoken::decode` makes of a token under an RSA public key in
/// PEM form, for RS256 and with the expiry check switched off.
pub uninterp spec fn jwt_decoded(token: Seq<char>, public_pem: Seq<u8>) -> Result<
    Seq<ClaimView>,
    DecodeFault,
>;

/// Writes a claims object as JSON.
///
/// Calls `serde_json::to_string` on a `serde_json::Map` that each claim in
/// order is inserted into: a text as a string, a number as a number, any
/// other value as null. Of claims with one name the object keeps the last.
#[verifier::external_body]
pub(crate) fn claims_json(claims: &Vec<Claim>) -> (r: Option<String>)
    ensures
        text_view(r) == claims_json_text(claim_views(claims@)),
{
    let mut payload = serde_json::Map::new();
    for claim in claims {
        let value = match &claim.value {
            ClaimValue::Text(text) => Value::from(text.as_str()),
            ClaimValue::Number(number) => Value::from(*number),
            ClaimValue::Other => Value::Null,
        };
        payload.insert(claim.name.clone(), value);
    }
    serde_json::to_string(&payload).ok()
}

/// Writes bytes in base64.
///
/// Calls `encode` of the engine `URL_SAFE_NO_PAD` of the `base64` crate.
#[verifier::external_body]
pub(crate) fn base64url(bytes: &[u8]) -> (r: String)
    ensures
        r@ == base64url_text(bytes@),
{
    URL_SAFE_NO_PAD.encode(bytes)
}

/// Signs a message with RS256.
///
/// Reads the key with `EncodingKey::from_rsa_pem` and then
/// `rsa::RsaPrivateKey::from_pkcs1_der`, and calls `try_sign_with_rng` of
/// `rsa::pkcs1v15::SigningKey<Sha256>`, which hands every failure back as
/// an error: a modulus too short for the padded digest, and a key whose
/// numbers do not undo each other. The generator only blinds the private
/// operation. It is a `ChaCha20Rng` made from the seed, so that the result
/// is a function of the key, the message and the seed.
#[verifier::external_body]
pub(crate) fn rs256_signature(private_pem: &Vec<u8>, message: &[u8], seed: u128) -> (r: Option<
    Vec<u8>,
>)
    ensures
        bytes_view(r) == rs256_signed(private_pem@, message@, seed),
{
    let key = EncodingKey::from_rsa_pem(private_pem).ok()?;
    let key = rsa::RsaPrivateKey::from_pkcs1_der(key.inner()).ok()?;
    let mut bytes = [0u8; 32];
    bytes[..16].copy_from_slice(&seed.to_le_bytes());
    let mut rng = ChaCha20Rng::from_seed(bytes);
    let signature = SigningKey::<Sha256>::new(key).try_sign_with_rng(&mut rng, message).ok()?;
    Some(signature.to_vec())
}

/// Signs a claims object: the token is what is signed, a dot and the
/// signature. `seed` must be secret and new for each token; it blinds the
/// private operation and has no part in the token of a sound key.
pub fn sign_claims(private_pem: &Vec<u8>, claims: &Vec<Claim>, seed: u128) -> (r: Option<String>)
    ensures
        text_view(r) == jwt_signed(private_pem@, claim_views(claims@), seed),
{
    let json = match claims_json(claims) {
        Some(json) => json,
        None => {
            return None;
        },
    };
    let mut token = base64url(TOKEN_HEADER.as_bytes());
    proof {
        reveal_strlit(".");
        assert("."@ =~= seq!['.']);
    }
    token.append(".");
    let payload = base64url(json.as_str().as_bytes());
    token.append(payload.as_str());
    assert(Some(token@) == signing_input(claim_views(claims@)));
    let ghost input = token@;
    let signature = match rs256_signature(private_pem, token.as_str().as_bytes(), seed) {
        Some(signature) => signature,
        None => {
            return None;
        },
    };
    token.append(".");
    let tail = base64url(signature.as_slice());
    token.append(tail.as_str());
    assert(token@ == input + seq!['.'] + base64url_text(signature@));
    Some(token)
}

/// Checks a token's signature and reads its claims.
///
/// Calls `jsonwebtoken::decode` with the key that
/// `DecodingKey::from_rsa_pem` reads and the default RS256 validation with
/// `validate_exp` off, so that the crate consults no clock. The claims come
/// back as the members of the payload's JSON object: what `as_str` reads
/// as a text, what `as_i64` reads as a number, anything else as other. Of
/// the crate's errors, `InvalidSignature` is a signature fault,
/// `InvalidKeyFormat` a key fault, and every other a token fault.
#[verifier::external_body]
pub(crate) fn rs256_decode(token: &str, public_pem: &Vec<u8>) -> (r: Result<Vec<Claim>, DecodeFault>)
    ensures
        decoded_view(r) == jwt_decoded(token@, public_pem@),
{
    let mut validation = Validation::new(Algorithm::RS256);
    validation.validate_exp = false;
    let decoded = DecodingKey::from_rsa_pem(public_pem).and_then(|key| {
        jsonwebtoken::decode::<serde_json::Map<String, Value>>(token, &key, &validation)
    });
    match decoded.map_err(|err| err.into_kind()) {
        Ok(data) => Ok(data.claims.into_iter().map(|(name, value)| {
            let number = value.as_i64().map_or(ClaimValue::Other, ClaimValue::Number);
            Claim { name, value: value.as_str().map_or(number, |text| ClaimValue::Text(text.into())) }
        }).collect()),
        Err(ErrorKind::InvalidSignature) => Err(DecodeFault::Signature),
        Err(ErrorKind::InvalidKeyFormat) => Err(DecodeFault::Key),
        Err(_) => Err(DecodeFault::Token),
    }
}

/// The first claim at or after index `from` that has the given name.
pub open spec fn find_claim(claims: Seq<ClaimView>, name: Seq<char>, from: int) -> Option<ClaimView>
    decreases claims.len() - from,
{
    if from < 0 || from >= claims.len() {
        None
    } else if claims[from].name == name {
        Some(claims[from])
    } else {
        find_claim(claims, name, from + 1)
    }
}

/// The text of the first claim with the given name, if it is a text.
pub open spec fn claim_text(claims: Seq<ClaimView>, name: Seq<char>) -> Option<Seq<char>> {
    match find_claim(claims, name, 0) {
        Some(ClaimView { value: ClaimValueView::Text(text), .. }) => Some(text),
        _ => None,
    }
}

/// The number of the first claim with the given name, if it is a number.
pub open spec fn claim_number(claims: Seq<ClaimView>, name: Seq<char>) -> Option<i64> {
    match find_claim(claims, name, 0) {
        Some(ClaimView { value: ClaimValueView::Number(number), .. }) => Some(number),
        _ => None,
    }
}

/// The members that stand for a token's claims, in the order `sub`, `id`,
/// `exp`, `iat`, `nbf`.
pub open spec fn claim_fields(claims: TokenClaimsView) -> Seq<ClaimView> {
    seq![
        ClaimView { name: "sub"@, value: ClaimValueView::Text(claims.sub) },
        ClaimView { name: "id"@, value: ClaimValueView::Text(claims.id) },
        ClaimView { name: "exp"@, value: ClaimValueView::Number(claims.exp) },
        ClaimView { name: "iat"@, value: ClaimValueView::Number(claims.iat) },
        ClaimView { name: "nbf"@, value: ClaimValueView::Number(claims.nbf) },
    ]
}

/// The token claims that a list of members holds: `sub` and `id` must be
/// texts and `exp`, `iat` and `nbf` numbers. Other members are ignored.
pub open spec fn claims_of(fields: Seq<ClaimView>) -> Option<TokenClaimsView> {
    match (
        claim_text(fields, "sub"@),
        claim_text(fields, "id"@),
        claim_number(fields, "exp"@),
        claim_number(fields, "iat"@),
        claim_number(fields, "nbf"@),
    ) {
        (Some(sub), Some(id), Some(exp), Some(iat), Some(nbf)) => Some(
            TokenClaimsView { sub, id, exp, iat, nbf },
        ),
        _ => None,
    }
}

/// What an optional `TokenClaims` holds.
pub open spec fn claims_view(claims: Option<TokenClaims>) -> Option<TokenClaimsView> {
    match claims {
        Some(c) => Some(c@),
        None => None,
    }
}

fn find(claims: &Vec<Claim>, name: &str) -> (r: Option<usize>)
    ensures
        match r {
            Some(i) => i < claims.len() && find_claim(claim_views(claims@), name@, 0) == Some(
                claims[i as int]@,
            ),
            None => find_claim(claim_views(claims@), name@, 0) is None,
        },
{
    let wanted = String::from_str(name);
    let mut i: usize = 0;
    while i < claims.len()
        invariant
            i <= claims.len(),
            wanted@ == name@,
            find_claim(claim_views(claims@), name@, 0) == find_claim(
                claim_views(claims@),
                name@,
                i as int,
            ),
        decreases claims.len() - i,
    {
        if claims[i].name == wanted {
            return Some(i);
        }
        i += 1;
    }
    None
}

fn text_of(claims: &Vec<Claim>, name: &str) -> (r: Option<String>)
    ensures
        text_view(r) == claim_text(claim_views(claims@), name@),
{
    match find(claims, name) {
        Some(i) => match &claims[i].value {
            ClaimValue::Text(text) => Some(text.clone()),
            _ => None,
        },
        None => None,
    }
}

fn number_of(claims: &Vec<Claim>, name: &str) -> (r: Option<i64>)
    ensures
        r == claim_number(claim_views(claims@), name@),
{
    match find(claims, name) {
        Some(i) => match &claims[i].value {
            ClaimValue::Number(number) => Some(*number),
            _ => None,
        },
        None => None,
    }
}

/// Writes token claims as the members of a claims object.
pub fn write_claims(claims: &TokenClaims) -> (r: Vec<Claim>)
    ensures
        claim_views(r@) == claim_fields(claims@),
{
    let mut fields: Vec<Claim> = Vec::new();
    fields.push(Claim { name: String::from_str("sub"), value: ClaimValue::Text(claims.sub.clone()) });
    fields.push(Claim { name: String::from_str("id"), value: ClaimValue::Text(claims.id.clone()) });
    fields.push(Claim { name: String::from_str("exp"), value: ClaimValue::Number(claims.exp) });
    fields.push(Claim { name: String::from_str("iat"), value: ClaimValue::Number(claims.iat) });
    fields.push(Claim { name: String::from_str("nbf"), value: ClaimValue::Number(claims.nbf) });
    assert(claim_views(fields@) =~= claim_fields(claims@));
    fields
}

/// Reads token claims from the members of a claims object.
pub fn read_claims(fields: &Vec<Claim>) -> (r: Option<TokenClaims>)
    ensures
        claims_view(r) == claims_of(claim_views(fields@)),
{
    let sub = text_of(fields, "sub");
    let id = text_of(fields, "id");
    let exp = number_of(fields, "exp");
    let iat = number_of(fields, "iat");
    let nbf = number_of(fields, "nbf");
    match (sub, id, exp, iat, nbf) {
        (Some(sub), Some(id), Some(exp), Some(iat), Some(nbf)) => Some(
            TokenClaims { sub, id, exp, iat, nbf },
        ),
        _ => None,
    }
}

/// What readable claims are worth at the time `now`: expired when `exp` lies
/// in the past, not yet valid when `nbf` lies in the future, and otherwise
/// the identity that the UUID texts `sub` and `id` name.
pub open spec fn claims_verdict(claims: TokenClaimsView, now: i64) -> Result<
    TokenDetailsView,
    VerifyError,
> {
    if claims.exp < now {
        Err(VerifyError::Expired)
    } else if claims.nbf > now {
        Err(VerifyError::NotYetValid)
    } else {
        match (uuid_parsed(claims.sub), uuid_parsed(claims.id)) {
            (Some(user_pid), Some(token_id)) => Ok(TokenDetails::identity(token_id, user_pid)),
            _ => Err(VerifyError::Malformed),
        }
    }
}

/// What a decoding result is worth at the time `now`. The signature is
/// judged first, then the shape of the claims, then the time, then the ids.
/// Under a key that cannot be read no signature holds.
pub open spec fn verdict(decoded: Result<Seq<ClaimView>, DecodeFault>, now: i64) -> Result<
    TokenDetailsView,
    VerifyError,
> {
    match decoded {
        Err(DecodeFault::Token) => Err(VerifyError::Malformed),
        Err(_) => Err(VerifyError::SignatureInvalid),
        Ok(fields) => match claims_of(fields) {
            None => Err(VerifyError::Malformed),
            Some(claims) => claims_verdict(claims, now),
        },
    }
}

/// Judges readable claims at the time `now`.
pub fn judge_claims(claims: &TokenClaims, now: i64) -> (r: Result<TokenDetails, VerifyError>)
    ensures
        details_view(r) == claims_verdict(claims@, now),
{
    if claims.exp < now {
        return Err(VerifyError::Expired);
    }
    if claims.nbf > now {
        return Err(VerifyError::NotYetValid);
    }
    let user_pid = parse_uuid(claims.sub.as_str());
    let token_id = parse_uuid(claims.id.as_str());
    match (user_pid, token_id) {
        (Some(user_pid), Some(token_id)) => Ok(
            TokenDetails { token: None, token_id, user_pid, expires_in: None },
        ),
        _ => Err(VerifyError::Malformed),
    }
}

/// Judges a decoding result at the time `now`.
pub fn judge(decoded: Result<Vec<Claim>, DecodeFault>, now: i64) -> (r: Result<
    TokenDetails,
    VerifyError,
>)
    ensures
        details_view(r) == verdict(decoded_view(decoded), now),
{
    match decoded {
        Err(DecodeFault::Token) => Err(VerifyError::Malformed),
        Err(_) => Err(VerifyError::SignatureInvalid),
        Ok(fields) => match read_claims(&fields) {
            None => Err(VerifyError::Malformed),
            Some(claims) => judge_claims(&claims, now),
        },
    }
}

/// Reading back the members written for some claims gives those claims.
pub proof fn lemma_claims_round_trip(claims: TokenClaimsView)
    ensures
        claims_of(claim_fields(claims)) == Some(claims),
{
    reveal_strlit("sub");
    reveal_strlit("id");
    reveal_strlit("exp");
    reveal_strlit("iat");
    reveal_strlit("nbf");
    let fields = claim_fields(claims);
    reveal_with_fuel(find_claim, 6);
    assert("sub"@.len() == 3);
    assert("id"@.len() == 2);
    assert("exp"@[0] == 'e');
    assert("iat"@[0] == 'i');
    assert("nbf"@[0] == 'n');
    assert("sub"@[0] == 's');
    assert(find_claim(fields, "sub"@, 0) == Some(fields[0]));
    assert(find_claim(fields, "id"@, 0) == Some(fields[1]));
    assert(find_claim(fields, "exp"@, 0) == Some(fields[2]));
    assert(find_claim(fields, "iat"@, 0) == Some(fields[3]));
    assert(find_claim(fields, "nbf"@, 0) == Some(fields[4]));
}

} // verus!
