//! Signed tokens, as `jsonwebtoken` makes and checks them.

use crate::clock::is_reading;
use crate::json::{is_scalar, json_str, json_u64, members_of, reparsed};
use jsonwebtoken::errors::Error as TokenError;
use jsonwebtoken::{
    Algorithm, AlgorithmFamily, DecodingKey, EncodingKey, Header, Validation,
};
use serde_json::{Error as JsonError, Value};
use vstd::prelude::*;

verus! {

/// The algorithm that a token is signed with.
#[verifier::external_type_specification]
pub struct ExAlgorithm(jsonwebtoken::Algorithm);

/// The family that an algorithm and its keys belong to.
#[verifier::external_type_specification]
pub struct ExAlgorithmFamily(jsonwebtoken::AlgorithmFamily);

/// The key that tokens are signed with.
#[verifier::external_type_specification]
#[verifier::external_body]
pub struct ExEncodingKey(jsonwebtoken::EncodingKey);

/// The key that tokens are checked with.
#[verifier::external_type_specification]
#[verifier::external_body]
pub struct ExDecodingKey(jsonwebtoken::DecodingKey);

/// The rules by which the claims of a token are checked.
#[verifier::external_type_specification]
#[verifier::external_body]
pub struct ExValidation(jsonwebtoken::Validation);

/// Why a token could not be signed or was not accepted.
#[verifier::external_type_specification]
#[verifier::external_body]
pub struct ExTokenError(TokenError);

/// The algorithms that sign with a shared secret.
pub open spec fn is_hmac(algorithm: Algorithm) -> bool {
    algorithm is HS256 || algorithm is HS384 || algorithm is HS512
}

/// The algorithms that sign with an RSA key, which draw random numbers to do so.
pub open spec fn is_rsa(algorithm: Algorithm) -> bool {
    ||| algorithm is RS256
    ||| algorithm is RS384
    ||| algorithm is RS512
    ||| algorithm is PS256
    ||| algorithm is PS384
    ||| algorithm is PS512
}

/// The algorithms that sign on an elliptic curve.
pub open spec fn is_ecdsa(algorithm: Algorithm) -> bool {
    algorithm is ES256 || algorithm is ES384
}

/// The shared secret of a signing key; `None` for the key of another family.
pub uninterp spec fn signing_secret(key: EncodingKey) -> Option<Seq<u8>>;

/// The shared secret of a checking key; `None` for the key of another family.
pub uninterp spec fn checking_secret(key: DecodingKey) -> Option<Seq<u8>>;

/// What `EncodingKey::family` returns.
pub uninterp spec fn signing_family_of(key: EncodingKey) -> AlgorithmFamily;

/// What `DecodingKey::family` returns.
pub uninterp spec fn checking_family_of(key: DecodingKey) -> AlgorithmFamily;

/// Whether a key can sign with an algorithm: it is of the algorithm's family and,
/// where the family has private keys, holds one.
pub uninterp spec fn can_sign(algorithm: Algorithm, key: EncodingKey) -> bool;

/// Whether signing with a key and an algorithm does not panic: the key is no RSA key
/// that the algorithm's signatures do not fit into, or whose factors are not prime.
pub uninterp spec fn is_sound(algorithm: Algorithm, key: EncodingKey) -> bool;

/// Whether a checking key is whole: an Ed25519 key has its 32 bytes.
pub uninterp spec fn is_whole(key: DecodingKey) -> bool;

/// Whether a checking key is the counterpart of a signing key: `jsonwebtoken::decode`
/// finds every signature to be right that `jsonwebtoken::encode` makes with the
/// signing key and the algorithm.
pub uninterp spec fn is_pair(
    algorithm: Algorithm,
    signer: EncodingKey,
    checker: DecodingKey,
) -> bool;

/// The seconds for which a token is still accepted after it expired: the field
/// `leeway`.
pub uninterp spec fn leeway_of(validation: Validation) -> u64;

/// The seconds for which a token has to be valid still: the field
/// `reject_tokens_expiring_in_less_than`.
pub uninterp spec fn margin_of(validation: Validation) -> u64;

/// Whether the rules are those of `Validation::new` for an algorithm, whatever the
/// leeway and the margin: a token has to be signed with that algorithm, its `exp`
/// claim has to be there and not to be past, and it may name no audience.
pub uninterp spec fn checks_expiry_only(validation: Validation, algorithm: Algorithm) -> bool;

/// Whether `jsonwebtoken::encode` can return a token for a header that names
/// nothing but the algorithm, for these claims and for this key.
pub uninterp spec fn is_token(
    token: Seq<char>,
    algorithm: Algorithm,
    claims: Value,
    key: EncodingKey,
) -> bool;

/// Whether `jsonwebtoken::encode` returns a token for these claims and for this key.
pub uninterp spec fn signs(algorithm: Algorithm, claims: Value, key: EncodingKey) -> bool;

/// The token that `jsonwebtoken::encode` returns for these claims and for this key,
/// where no random numbers go into it.
pub uninterp spec fn signed_token(
    algorithm: Algorithm,
    claims: Value,
    key: EncodingKey,
) -> Seq<char>;

/// The error that `jsonwebtoken::encode` returns where it returns no token for these
/// claims and for this key.
pub uninterp spec fn signing_error(
    algorithm: Algorithm,
    claims: Value,
    key: EncodingKey,
) -> TokenError;

/// The claims that `jsonwebtoken::decode` hands out for a token when the clock
/// shows `at`; `None` when it hands out none: the token is malformed, its
/// signature is not by the key, or its claims break a rule.
pub uninterp spec fn checked_claims(
    token: Seq<char>,
    key: DecodingKey,
    validation: Validation,
    at: u64,
) -> Option<Value>;

/// What `jsonwebtoken::errors::Error::from` makes of the error of a value that has no
/// JSON form.
pub uninterp spec fn json_token_error(error: JsonError) -> TokenError;

/// The code that `jsonwebtoken::crypto::sign` makes of a message with an HMAC algorithm
/// and a secret, in URL-safe base64 without padding.
pub uninterp spec fn mac_text(
    algorithm: Algorithm,
    secret: Seq<u8>,
    message: Seq<char>,
) -> Seq<char>;

/// Whether `jsonwebtoken::crypto::verify` finds a signature to be that of a message.
pub uninterp spec fn verifies(
    algorithm: Algorithm,
    key: DecodingKey,
    message: Seq<char>,
    signature: Seq<char>,
) -> bool;

/// How many characters the codes of an HMAC algorithm have.
pub open spec fn mac_length(algorithm: Algorithm) -> nat {
    match algorithm {
        Algorithm::HS256 => 43,
        Algorithm::HS384 => 64,
        _ => 86,
    }
}

/// Whether a text has no dot.
pub open spec fn is_dotless(text: Seq<char>) -> bool {
    forall|i: int| 0 <= i < text.len() ==> #[trigger] text[i] != '.'
}

/// The part of a token that is signed: its header and its payload.
pub open spec fn signed_part(header: Seq<char>, payload: Seq<char>) -> Seq<char> {
    header + seq!['.'] + payload
}

/// Whether a token has these three parts.
pub open spec fn are_parts(
    token: Seq<char>,
    header: Seq<char>,
    payload: Seq<char>,
    code: Seq<char>,
) -> bool {
    &&& token == signed_part(header, payload) + seq!['.'] + code
    &&& is_dotless(header)
    &&& is_dotless(payload)
    &&& is_dotless(code)
}

/// Whether a token has three parts.
#[verifier::opaque]
pub open spec fn has_three_parts(token: Seq<char>) -> bool {
    exists|header: Seq<char>, payload: Seq<char>, code: Seq<char>| #[trigger]
        are_parts(token, header, payload, code)
}

/// Whether the last part of a token is the code of the others.
#[verifier::opaque]
pub open spec fn is_sealed(token: Seq<char>, algorithm: Algorithm, secret: Seq<u8>) -> bool {
    exists|header: Seq<char>, payload: Seq<char>, code: Seq<char>| #[trigger]
        are_parts(token, header, payload, code) && code == mac_text(
            algorithm,
            secret,
            signed_part(header, payload),
        ) && code.len() == mac_length(algorithm)
}

/// Whether the last part of a token verifies as the signature of the others.
#[verifier::opaque]
pub open spec fn is_verified(token: Seq<char>, algorithm: Algorithm, key: DecodingKey) -> bool {
    exists|header: Seq<char>, payload: Seq<char>, code: Seq<char>| #[trigger]
        are_parts(token, header, payload, code) && verifies(
            algorithm,
            key,
            signed_part(header, payload),
            code,
        )
}

/// The characters of a token: those of URL-safe base64, and the dots between its
/// parts.
pub open spec fn is_token_char(c: char) -> bool {
    'A' <= c <= 'Z' || 'a' <= c <= 'z' || '0' <= c <= '9' || c == '-' || c == '_' || c == '.'
}

/// Whether a text has no other characters than those of a token.
pub open spec fn is_compact(text: Seq<char>) -> bool {
    forall|i: int| 0 <= i < text.len() ==> is_token_char(#[trigger] text[i])
}

/// The longest leeway: `jsonwebtoken::decode` takes the leeway from the current
/// Unix timestamp, which was past this number in November 2023.
pub const LEEWAY_LIMIT: u64 = 1_700_000_000;

/// Whether claims that expire at `exp` are past by the given rules when the clock
/// shows `at`.
pub open spec fn is_past(exp: u64, validation: Validation, at: u64) -> bool {
    exp < margin_of(validation) || exp + leeway_of(validation) < at + margin_of(validation)
}

/// The `exp` claim, as a number of seconds.
pub open spec fn expiry(claims: Value) -> Option<u64> {
    if members_of(claims).dom().contains("exp"@) {
        json_u64(members_of(claims)["exp"@])
    } else {
        None
    }
}

/// Claims to which the rules of `checks_expiry_only` apply as they say: the
/// expiry is a number of seconds, the subject, if there is one, is a scalar,
/// and there is no audience, issuer or start of validity.
pub open spec fn is_plain(claims: Value) -> bool {
    let members = members_of(claims);
    &&& expiry(claims) is Some
    &&& members.dom().contains("sub"@) ==> is_scalar(members["sub"@])
    &&& !members.dom().contains("aud"@)
    &&& !members.dom().contains("iss"@)
    &&& !members.dom().contains("nbf"@)
}

/// Whether `read` is the object that is read back from the JSON text of
/// `written`: it has the same members, each read back, and of the scalars among
/// them numbers of seconds and texts are the same.
pub open spec fn is_read_back(written: Value, read: Value) -> bool {
    &&& reparsed(written) == Some(read)
    &&& members_of(read).dom() == members_of(written).dom()
    &&& forall|name: Seq<char>| #[trigger]
        members_of(written).dom().contains(name) ==> {
            let before = members_of(written)[name];
            let after = members_of(read)[name];
            &&& reparsed(before) == Some(after)
            &&& is_scalar(before) ==> json_u64(after) == json_u64(before) && json_str(after)
                == json_str(before)
        }
}

/// `EncodingKey::from_secret` makes a key with that shared secret, which signs
/// with the HMAC algorithms and no others.
#[verifier::external_body]
pub(crate) fn secret_signing_key(secret: &[u8]) -> (key: EncodingKey)
    ensures
        signing_secret(key) == Some(secret@),
        forall|a: Algorithm| #[trigger] can_sign(a, key) == is_hmac(a),
        forall|a: Algorithm| #[trigger] is_sound(a, key),
{
    EncodingKey::from_secret(secret)
}

/// `DecodingKey::from_secret` makes a key with that shared secret, which is the
/// counterpart of every signing key with the same secret.
#[verifier::external_body]
pub(crate) fn secret_checking_key(secret: &[u8]) -> (key: DecodingKey)
    ensures
        checking_secret(key) == Some(secret@),
        is_whole(key),
        forall|a: Algorithm, signer: EncodingKey| is_hmac(a) && signing_secret(signer) == Some(secret@) ==> #[trigger] is_pair(a, signer, key),
{
    DecodingKey::from_secret(secret)
}

/// `EncodingKey::clone` makes an equal key.
pub assume_specification[ <EncodingKey as Clone>::clone ](key: &EncodingKey) -> (copy: EncodingKey)
    ensures
        copy == *key,
;

/// `DecodingKey::clone` makes an equal key.
pub assume_specification[ <DecodingKey as Clone>::clone ](key: &DecodingKey) -> (copy: DecodingKey)
    ensures
        copy == *key,
;

/// `Validation::clone` makes equal rules.
pub assume_specification[ <Validation as Clone>::clone ](validation: &Validation) -> (copy:
    Validation)
    ensures
        copy == *validation,
;

/// `Validation::new` makes the default rules for an algorithm, whose leeway and margin
/// are then set.
#[verifier::external_body]
pub(crate) fn expiry_rules(algorithm: Algorithm, leeway: u64, margin: u64) -> (validation: Validation)
    ensures
        checks_expiry_only(validation, algorithm),
        leeway_of(validation) == leeway,
        margin_of(validation) == margin,
{
    let mut validation = Validation::new(algorithm);
    validation.leeway = leeway;
    validation.reject_tokens_expiring_in_less_than = margin;
    validation
}

/// The field `leeway` of a `Validation`.
#[verifier::external_body]
pub(crate) fn leeway(validation: &Validation) -> (seconds: u64)
    ensures
        seconds == leeway_of(*validation),
{
    validation.leeway
}

/// `EncodingKey::family`: the family of a signing key. Signing can panic with an RSA
/// key only.
#[verifier::external_body]
pub(crate) fn signing_family(key: &EncodingKey) -> (family: AlgorithmFamily)
    ensures
        family == signing_family_of(*key),
        family is Rsa || (forall|a: Algorithm| #[trigger] is_sound(a, *key)),
{
    key.family()
}

/// `DecodingKey::family`: the family of a checking key. Only an Ed25519 key can be
/// cut short.
#[verifier::external_body]
pub(crate) fn checking_family(key: &DecodingKey) -> (family: AlgorithmFamily)
    ensures
        family == checking_family_of(*key),
        family is Ed || is_whole(*key),
{
    key.family()
}

/// `DecodingKey::as_bytes`, for an Ed25519 key: how many bytes it has. The call
/// panics for an RSA key that was made of its components.
#[verifier::external_body]
pub(crate) fn ed_key_length(key: &DecodingKey) -> (length: usize)
    requires
        checking_family_of(*key) is Ed,
    ensures
        is_whole(*key) == (length >= 32),
{
    key.as_bytes().len()
}

/// `jsonwebtoken::errors::Error::from`, for the error of a value that has no JSON
/// form.
#[verifier::external_body]
pub(crate) fn token_error(error: serde_json::Error) -> (made: jsonwebtoken::errors::Error)
    ensures
        made == json_token_error(error),
{
    jsonwebtoken::errors::Error::from(error)
}

/// `jsonwebtoken::encode`, with `Header::new` for the algorithm: signs the
/// claims. A token is three parts in URL-safe base64 without padding, with dots
/// between them. It succeeds only with a key that can sign, and with such a key
/// always, but for the elliptic curves: their signatures are refused where one of
/// their two numbers comes out as zero, which depends on the claims too. Whether it
/// succeeds, and with which error it does not, is determined by the algorithm, the
/// claims and the key, and so is the token, but for the RSA algorithms: which token it
/// is there, where random numbers are drawn, is left open. The last
/// part of an HMAC token is the code of the other two under the key's secret. An RSA
/// key that is too short for the algorithm, or whose factors are not prime, makes the
/// call panic. This is so of the cryptography that comes with the crate; a process may
/// install another.
#[verifier::external_body]
pub(crate) fn sign(algorithm: Algorithm, claims: &Value, key: &EncodingKey) -> (token: Result<
    String,
    jsonwebtoken::errors::Error,
>)
    requires
        is_sound(algorithm, *key),
    ensures
        token matches Ok(t) ==> is_token(t@, algorithm, *claims, *key),
        token matches Ok(t) ==> is_compact(t@),
        token is Ok ==> can_sign(algorithm, *key),
        can_sign(algorithm, *key) && !is_ecdsa(algorithm) ==> token is Ok,
        token is Ok == signs(algorithm, *claims, *key),
        token matches Ok(t) ==> !is_rsa(algorithm) ==> t@ == signed_token(algorithm, *claims, *key),
        token matches Err(e) ==> e == signing_error(algorithm, *claims, *key),
        token matches Ok(t) ==> is_hmac(algorithm) && signing_secret(*key) is Some ==> is_sealed(t@, algorithm, signing_secret(*key)->0),
        token matches Ok(t) ==> forall|secret: Seq<u8>, header: Seq<char>, payload: Seq<char>, code: Seq<char>| is_hmac(algorithm) && signing_secret(*key) == Some(secret) && #[trigger] are_parts(t@, header, payload, code) ==> code == #[trigger] mac_text(algorithm, secret, signed_part(header, payload)),
{
    jsonwebtoken::encode(&Header::new(algorithm), claims, key)
}

/// `jsonwebtoken::decode`: checks a token and hands out its claims. The result
/// depends on the clock, which the call reads: `at` is what it shows. Claims that
/// are past are not handed out by rules that check the expiry. A token that was
/// signed for some claims gives no others than those, as JSON text carries them;
/// and when it was signed with the counterpart of the key, it is refused only if it
/// is past, or if the claims cannot be read back from their text at all. The call
/// panics for an Ed25519 key that is cut short, for a leeway that is longer than the
/// time since the epoch, and when the clock shows a time before it.
///
/// A text is accepted only if it is three parts with dots between them, and no other
/// characters than those of a token; if its last part verifies as the signature of the
/// others under the algorithm that the rules name; and, for a shared secret, if it is
/// the very code of the others. A token that was signed with another algorithm is
/// refused. That nobody without the key can make a signature that verifies is not
/// said: it rests on the strength of the signatures. This is so of the cryptography
/// that comes with the crate; a process may install another.
#[verifier::external_body]
pub(crate) fn check(token: &str, key: &DecodingKey, validation: &Validation) -> (claims: Option<
    Value,
>)
    requires
        is_whole(*key),
        leeway_of(*validation) <= LEEWAY_LIMIT,
    ensures
        exists|at: u64| claims == checked_claims(token@, *key, *validation, at) && #[trigger] is_checked(token@, *key, *validation, at, claims),
        claims matches Some(read) ==> forall|algorithm: Algorithm, written: Value, signer: EncodingKey| #[trigger] is_token(token@, algorithm, written, signer) ==> reparsed(written) == Some(read),
        claims is Some ==> forall|algorithm: Algorithm, header: Seq<char>, payload: Seq<char>, code: Seq<char>| checks_expiry_only(*validation, algorithm) && #[trigger] are_parts(token@, header, payload, code) ==> #[trigger] verifies(algorithm, *key, signed_part(header, payload), code),
{
    jsonwebtoken::decode::<Value>(token, key, validation).map(|data| data.claims).ok()
}

/// What holds of every outcome of checking a token when the clock shows `at`:
/// `outcome` is the claims that were handed out, or `None` for a refusal.
pub open spec fn is_checked(
    token: Seq<char>,
    key: DecodingKey,
    validation: Validation,
    at: u64,
    outcome: Option<Value>,
) -> bool {
    &&& is_reading(at)
    &&& outcome == checked_claims(token, key, validation, at)
    &&& forall|algorithm: Algorithm|
        outcome is Some && #[trigger] checks_expiry_only(validation, algorithm) && expiry(
            outcome->0,
        ) is Some ==> !is_past(expiry(outcome->0)->0, validation, at)
    &&& outcome is Some ==> has_three_parts(token)
    &&& forall|algorithm: Algorithm|
        outcome is Some && #[trigger] checks_expiry_only(validation, algorithm) ==> {
            &&& is_compact(token)
            &&& is_verified(token, algorithm, key)
            &&& is_hmac(algorithm) && checking_secret(key) is Some ==> is_sealed(
                token,
                algorithm,
                checking_secret(key)->0,
            )
        }
    &&& forall|algorithm: Algorithm, other: Algorithm, written: Value, signer: EncodingKey|
        #[trigger] is_token(token, algorithm, written, signer) && #[trigger] checks_expiry_only(
            validation,
            other,
        ) && other != algorithm ==> outcome is None
    &&& forall|algorithm: Algorithm, written: Value, signer: EncodingKey| #[trigger]
        is_token(token, algorithm, written, signer) ==> {
            &&& outcome matches Some(read) ==> is_read_back(written, read)
            &&& outcome is None && is_pair(algorithm, signer, key) && checks_expiry_only(
                validation,
                algorithm,
            ) && is_plain(written) && reparsed(written) is Some ==> is_past(
                expiry(written)->0,
                validation,
                at,
            )
        }
}

} // verus!
