//! The calls into other crates, each behind a contract.

use crate::algorithm::Algorithm;
use crate::text::{optional_str, optional_text, optional_texts, viewed, with_error_text};
use jsonwebtoken::{Algorithm as JwtAlgorithm, DecodingKey, Validation};
use serde_json::Value;
use vstd::prelude::*;
use vstd::string::StringSliceAdditionalSpecFns;

verus! {

/// A public key that token signatures are verified with. Nothing is known of
/// what it holds; it is built from published components and handed on.
#[verifier::external_type_specification]
#[verifier::external_body]
pub struct ExDecodingKey(DecodingKey);

/// A JSON value: the claims of a token.
#[verifier::external_type_specification]
#[verifier::external_body]
pub struct ExValue(Value);

/// The failure of a background task.
#[verifier::external_type_specification]
#[verifier::external_body]
pub struct ExJoinError(tokio::task::JoinError);

/// Why bytes are not UTF-8 text.
#[verifier::external_type_specification]
#[verifier::external_body]
pub struct ExUtf8Error(core::str::Utf8Error);

/// `core::str::from_utf8` accepts exactly the byte sequences that are valid
/// UTF-8, and the text that it gives has those bytes.
pub assume_specification<'a>[ core::str::from_utf8 ](bytes: &'a [u8]) -> (text: Result<
    &'a str,
    core::str::Utf8Error,
>)
    ensures
        (text is Ok) == vstd::utf8::valid_utf8(bytes@),
        text matches Ok(inner) ==> inner.spec_bytes() == bytes@,
;

/// `DecodingKey::clone` gives the same key.
pub assume_specification[ <DecodingKey as Clone>::clone ](key: &DecodingKey) -> (copy: DecodingKey)
    ensures
        copy == *key,
;

/// `serde_json::Value::clone` gives the same value.
pub assume_specification[ <Value as Clone>::clone ](value: &Value) -> (copy: Value)
    ensures
        copy == *value,
;

/// What `url::Url::parse` makes of a text: the serialization of the URL, or
/// the message of the parse error.
pub uninterp spec fn parsed_url(input: Seq<char>) -> Result<Seq<char>, Seq<char>>;

/// Calls `url::Url::parse`. The outcome depends on the text alone.
#[verifier::external_body]
pub(crate) fn parse_url(input: &str) -> (parsed: Result<String, String>)
    ensures
        viewed(parsed) == parsed_url(input@),
{
    match url::Url::parse(input) {
        Ok(url) => Ok(String::from(url)),
        Err(err) => Err(err.to_string()),
    }
}

/// What `DecodingKey::from_rsa_components` makes of a modulus and an exponent:
/// a key, or the message of the error.
pub uninterp spec fn rsa_key(n: Seq<char>, e: Seq<char>) -> Result<DecodingKey, Seq<char>>;

/// Calls `DecodingKey::from_rsa_components`. The outcome depends on the two
/// texts alone.
#[verifier::external_body]
pub(crate) fn from_rsa_components(n: &str, e: &str) -> (built: Result<DecodingKey, String>)
    ensures
        with_error_text(built) == rsa_key(n@, e@),
{
    match DecodingKey::from_rsa_components(n, e) {
        Ok(key) => Ok(key),
        Err(err) => Err(err.to_string()),
    }
}

/// What `DecodingKey::from_ec_components` makes of the two coordinates of a
/// point: a key, or the message of the error.
pub uninterp spec fn ec_key(x: Seq<char>, y: Seq<char>) -> Result<DecodingKey, Seq<char>>;

/// Calls `DecodingKey::from_ec_components`. The outcome depends on the two
/// texts alone.
#[verifier::external_body]
pub(crate) fn from_ec_components(x: &str, y: &str) -> (built: Result<DecodingKey, String>)
    ensures
        with_error_text(built) == ec_key(x@, y@),
{
    match DecodingKey::from_ec_components(x, y) {
        Ok(key) => Ok(key),
        Err(err) => Err(err.to_string()),
    }
}

/// The part of a token's header that decides how the token is verified.
pub struct TokenHeader {
    /// The algorithm that the token says it is signed with.
    pub alg: Algorithm,
    /// The identifier of the key that the token says it is signed with.
    pub kid: Option<String>,
}

impl View for TokenHeader {
    type V = (Algorithm, Option<Seq<char>>);

    open spec fn view(&self) -> (Algorithm, Option<Seq<char>>) {
        (self.alg, optional_text(self.kid))
    }
}

/// What `jsonwebtoken::decode_header` reads from a token: the algorithm and
/// the key identifier, or the message of the error.
pub uninterp spec fn token_header(token: Seq<char>) -> Result<
    (Algorithm, Option<Seq<char>>),
    Seq<char>,
>;

/// Calls `jsonwebtoken::decode_header`. The outcome depends on the token
/// alone; the signature is not looked at.
#[verifier::external_body]
pub(crate) fn decode_header(token: &str) -> (decoded: Result<TokenHeader, String>)
    ensures
        viewed(decoded) == token_header(token@),
{
    let header = jsonwebtoken::decode_header(token).map_err(|err| err.to_string())?;
    let alg = match header.alg {
        JwtAlgorithm::HS256 => Algorithm::HS256, JwtAlgorithm::HS384 => Algorithm::HS384,
        JwtAlgorithm::HS512 => Algorithm::HS512, JwtAlgorithm::ES256 => Algorithm::ES256,
        JwtAlgorithm::ES384 => Algorithm::ES384, JwtAlgorithm::RS256 => Algorithm::RS256,
        JwtAlgorithm::RS384 => Algorithm::RS384, JwtAlgorithm::RS512 => Algorithm::RS512,
        JwtAlgorithm::PS256 => Algorithm::PS256, JwtAlgorithm::PS384 => Algorithm::PS384,
        JwtAlgorithm::PS512 => Algorithm::PS512, JwtAlgorithm::EdDSA => Algorithm::EdDSA,
    };
    Ok(TokenHeader { alg, kid: header.kid })
}

/// A claim of a token, as far as the checks on tokens read it.
pub enum ClaimValue {
    /// A string.
    Text(Seq<char>),
    /// An array that holds only strings.
    Texts(Set<Seq<char>>),
    /// A number written in digits alone that fits in 64 bits.
    Whole(nat),
    /// Anything else.
    Other,
}

/// The claims that the payload of a token spells: the members of its JSON object
/// by name, the last of two under one name. A text that is no token, or whose
/// payload is not an object, has none. A member that is itself an object is
/// [`ClaimValue::Other`], whatever it holds.
pub uninterp spec fn token_claims(token: Seq<char>) -> Map<Seq<char>, ClaimValue>;

/// The members of a JSON object by name. A value that is not an object has none.
pub uninterp spec fn claim_members(claims: Value) -> Map<Seq<char>, ClaimValue>;

/// Whether `members` hold each claim that is spelled as a string, as an array of
/// strings or as a whole number.
pub open spec fn carries(
    members: Map<Seq<char>, ClaimValue>,
    claims: Map<Seq<char>, ClaimValue>,
) -> bool {
    forall|name: Seq<char>| #[trigger]
        claims.contains_key(name) && !(claims[name] is Other) ==> members.contains_key(name)
            && members[name] == claims[name]
}

/// Whether claims that name an issuer name `issuer`.
pub open spec fn issued_by(claims: Map<Seq<char>, ClaimValue>, issuer: Seq<char>) -> bool {
    claims.contains_key("iss"@) ==> match claims["iss"@] {
        ClaimValue::Text(name) => name == issuer,
        ClaimValue::Texts(names) => names.contains(issuer),
        _ => true,
    }
}

/// Whether claims that name an audience name one of `audiences`.
pub open spec fn meant_for(claims: Map<Seq<char>, ClaimValue>, audiences: Seq<Seq<char>>) -> bool {
    claims.contains_key("aud"@) ==> match claims["aud"@] {
        ClaimValue::Text(name) => audiences.contains(name),
        ClaimValue::Texts(names) => exists|name: Seq<char>| #[trigger]
            audiences.contains(name) && names.contains(name),
        _ => true,
    }
}

/// Whether claims that have members at all state an expiry, which lies no more
/// than a minute before `now`.
pub open spec fn unexpired_at(claims: Map<Seq<char>, ClaimValue>, now: u64) -> bool {
    claims.dom() != Set::<Seq<char>>::empty() ==> claims.contains_key("exp"@)
        && match claims["exp"@] {
        ClaimValue::Text(_) => false,
        ClaimValue::Texts(_) => false,
        ClaimValue::Whole(exp) => exp + 60 >= now,
        ClaimValue::Other => true,
    }
}

/// What `jsonwebtoken::decode` makes of a token at a moment, the wall clock
/// showing `now` in seconds since 1970: the claims, or the message of the error.
pub uninterp spec fn decoded_at(
    token: Seq<char>,
    key: DecodingKey,
    alg: Algorithm,
    issuer: Option<Seq<char>>,
    audiences: Option<Seq<Seq<char>>>,
    validate_aud: bool,
    now: u64,
) -> Result<Value, Seq<char>>;

/// Whether claims name the issuer and one of the audiences that are asked for,
/// as far as they name any. Where audiences count and none are given, claims
/// that name an audience do not fit.
pub open spec fn fits(
    claims: Map<Seq<char>, ClaimValue>,
    issuer: Option<Seq<char>>,
    audiences: Option<Seq<Seq<char>>>,
    validate_aud: bool,
) -> bool {
    &&& issuer matches Some(name) ==> issued_by(claims, name)
    &&& validate_aud ==> meant_for(
        claims,
        match audiences {
            Some(names) => names,
            None => Seq::empty(),
        },
    )
}

/// Whether `outcome` is checked against the clock, the issuer and the audiences
/// at one reading `now` of the clock. A token whose claims are given is
/// unexpired and fits, and has the same claims where the issuer, the audiences
/// or both are not asked for. What is refused where neither is asked for is
/// refused with the same message. What is accepted there is accepted, with the
/// same claims, if the token spells claims and these fit.
pub open spec fn checked_at(
    token: Seq<char>,
    key: DecodingKey,
    alg: Algorithm,
    issuer: Option<Seq<char>>,
    audiences: Option<Seq<Seq<char>>>,
    validate_aud: bool,
    outcome: Result<Value, Seq<char>>,
    now: u64,
) -> bool {
    let claims = token_claims(token);
    let unasked = decoded_at(token, key, alg, None, None, false, now);
    &&& outcome is Ok ==> {
        &&& unexpired_at(claims, now)
        &&& fits(claims, issuer, audiences, validate_aud)
        &&& decoded_at(token, key, alg, None, audiences, validate_aud, now) == outcome
        &&& decoded_at(token, key, alg, issuer, None, false, now) == outcome
        &&& unasked == outcome
    }
    &&& unasked is Err ==> outcome == unasked
    &&& unasked is Ok && claims.dom() != Set::<Seq<char>>::empty() && fits(
        claims,
        issuer,
        audiences,
        validate_aud,
    ) ==> outcome == unasked
}

/// Calls `jsonwebtoken::decode` with a `Validation::new` for one algorithm, on
/// which the issuer, the audiences and whether audiences count are set.
///
/// Besides its arguments the outcome rests on the wall clock, which the call
/// reads once, in seconds: some reading fixes it. The call reads the payload
/// twice, once for its own checks and once for the claims that it gives back.
/// The checks go by what the payload spells: a token that is accepted states an
/// expiry that the reading has passed by a minute at most, names the given
/// issuer if it names issuers, and names one of the given audiences if it names
/// audiences and audiences count. An issuer or an audience spelled as anything
/// but a string or an array of strings counts as none named. The claims given
/// back hold what the payload spells as a string, as an array of strings or as a
/// whole number; what they hold of other members is left unsaid.
///
/// The issuer and the audiences are checked last, and only where they are given
/// and count: at the same reading they turn the claims of a token that does not
/// fit them into a refusal, and change nothing else. Of a payload that is an
/// array it is left unsaid which of them fit. What makes a signature valid is
/// left unsaid, and so is every message. A clock that shows the first minute of
/// 1970, or an earlier time, can make the call panic.
#[verifier::external_body]
pub(crate) fn decode(
    token: &str,
    key: &DecodingKey,
    alg: Algorithm,
    issuer: Option<&str>,
    audiences: Option<&Vec<String>>,
    validate_aud: bool,
) -> (decoded: Result<Value, String>)
    ensures
        exists|now: u64|
            #[trigger] decoded_at(
                token@,
                *key,
                alg,
                optional_str(issuer),
                optional_texts(audiences),
                validate_aud,
                now,
            ) == with_error_text(decoded) && checked_at(
                token@,
                *key,
                alg,
                optional_str(issuer),
                optional_texts(audiences),
                validate_aud,
                with_error_text(decoded),
                now,
            ),
        decoded matches Ok(claims) ==> carries(claim_members(claims), token_claims(token@)),
{
    let mut validation = Validation::new(match alg {
        Algorithm::HS256 => JwtAlgorithm::HS256, Algorithm::HS384 => JwtAlgorithm::HS384,
        Algorithm::HS512 => JwtAlgorithm::HS512, Algorithm::ES256 => JwtAlgorithm::ES256,
        Algorithm::ES384 => JwtAlgorithm::ES384, Algorithm::RS256 => JwtAlgorithm::RS256,
        Algorithm::RS384 => JwtAlgorithm::RS384, Algorithm::RS512 => JwtAlgorithm::RS512,
        Algorithm::PS256 => JwtAlgorithm::PS256, Algorithm::PS384 => JwtAlgorithm::PS384,
        Algorithm::PS512 => JwtAlgorithm::PS512, Algorithm::EdDSA => JwtAlgorithm::EdDSA,
    });
    if let Some(name) = issuer { validation.set_issuer(&[name]); }
    if let Some(names) = audiences { validation.set_audience(names); }
    validation.validate_aud = validate_aud;
    jsonwebtoken::decode(token, key, &validation).map(|data| data.claims).map_err(|e| e.to_string())
}

} // verus!
