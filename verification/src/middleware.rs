//! Deciding a request: from the `Authorization` header to verified claims.
//!
//! A request is decided in steps, so that fetching keys can stand between
//! them: [`JwtConfig::begin`] reads the token and looks its key up; where the
//! keys have to be fetched, [`JwtConfig::refresh`] takes them in and
//! [`JwtConfig::resume`] looks the key up again; [`JwtConfig::verify_token`]
//! decides.

use crate::algorithm::Algorithm;
use crate::api_error::{answers, ApiError, ApiErrorView};
use crate::auth::{
    fetched_keys, known_key, law_every_usable_key_of_a_key_set_is_known,
    law_fetch_replaces_all_keys, JwksCache, JwksCacheView, JwksFetch, JwtConfig, JwtConfigView,
    KeyLookup, TokenChecks, TokenChecksView,
};
use crate::bearer::{bearer_token, extract_bearer_token, optional_bytes};
use crate::jwk::{
    law_known_keys_were_published, law_ready_keys_are_asymmetric, ready_key, serves, serves_last,
    CachedKey, Jwk, JwksDocument,
};
use crate::outside::{
    carries, checked_at, claim_members, decode, decode_header, decoded_at, issued_by, meant_for,
    token_claims, token_header, unexpired_at, ClaimValue, TokenHeader,
};
use crate::text::{join, optional_str, optional_texts, viewed, with_error_text};
use jsonwebtoken::DecodingKey;
use serde_json::Value;
use vstd::prelude::*;

verus! {

/// Verified JWT claims attached to a request via extensions.
#[derive(Debug)]
pub struct Claims(pub Value);

impl Clone for Claims {
    fn clone(&self) -> (copy: Claims)
        ensures
            copy == *self,
    {
        Claims(self.0.clone())
    }
}

/// A token that a request carries, with what its header says of it.
pub struct PresentedToken {
    /// The token.
    pub token: String,
    /// The algorithm that the token says it is signed with.
    pub algorithm: Algorithm,
    /// The identifier of the key that the token says it is signed with.
    pub kid: String,
}

/// A [`PresentedToken`] with its texts as sequences of characters.
pub struct PresentedTokenView {
    pub token: Seq<char>,
    pub algorithm: Algorithm,
    pub kid: Seq<char>,
}

impl View for PresentedToken {
    type V = PresentedTokenView;

    open spec fn view(&self) -> PresentedTokenView {
        PresentedTokenView { token: self.token@, algorithm: self.algorithm, kid: self.kid@ }
    }
}

/// A token together with the key that it has to be signed with.
pub struct ReadyToken {
    /// The token.
    pub presented: PresentedToken,
    /// The key.
    pub key: DecodingKey,
    /// The algorithm that the key is for.
    pub key_algorithm: Algorithm,
}

/// A [`ReadyToken`] with its texts as sequences of characters.
pub struct ReadyTokenView {
    pub presented: PresentedTokenView,
    pub key: DecodingKey,
    pub key_algorithm: Algorithm,
}

impl View for ReadyToken {
    type V = ReadyTokenView;

    open spec fn view(&self) -> ReadyTokenView {
        ReadyTokenView {
            presented: self.presented@,
            key: self.key,
            key_algorithm: self.key_algorithm,
        }
    }
}

/// What a request needs next.
pub enum AuthStep {
    /// The published keys have to be fetched before the token can be verified.
    Refresh(PresentedToken),
    /// The token can be verified.
    Verify(ReadyToken),
}

/// An [`AuthStep`] with its texts as sequences of characters.
pub enum AuthStepView {
    Refresh(PresentedTokenView),
    Verify(ReadyTokenView),
}

impl View for AuthStep {
    type V = AuthStepView;

    open spec fn view(&self) -> AuthStepView {
        match self {
            AuthStep::Refresh(presented) => AuthStepView::Refresh(presented@),
            AuthStep::Verify(ready) => AuthStepView::Verify(ready@),
        }
    }
}

/// A token of whose header `header` was read.
pub open spec fn identified(
    token: Seq<char>,
    header: Result<(Algorithm, Option<Seq<char>>), Seq<char>>,
) -> Result<PresentedTokenView, Seq<char>> {
    match header {
        Err(message) => Err("malformed token header: "@ + message),
        Ok((_, None)) => Err("token header missing 'kid'"@),
        Ok((algorithm, Some(kid))) => Ok(PresentedTokenView { token, algorithm, kid }),
    }
}

/// The token that a request with this `Authorization` header carries.
pub open spec fn presented(header: Option<Seq<u8>>) -> Result<PresentedTokenView, Seq<char>> {
    match bearer_token(header) {
        Err(message) => Err(message),
        Ok(token) => identified(token, token_header(token)),
    }
}

/// The step that a request with this `Authorization` header needs first.
pub open spec fn begun(
    config: JwtConfigView,
    cache: JwksCacheView,
    header: Option<Seq<u8>>,
    now: nat,
) -> Result<AuthStepView, Seq<char>> {
    match presented(header) {
        Err(message) => Err(message),
        Ok(presented) => Ok(
            match cache.fresh_key(presented.kid, config.cache_ttl, now) {
                Some((key, key_algorithm)) => AuthStepView::Verify(
                    ReadyTokenView { presented, key, key_algorithm },
                ),
                None => AuthStepView::Refresh(presented),
            },
        ),
    }
}

/// A token with its key, once the keys were fetched.
pub open spec fn resumed(cache: JwksCacheView, presented: PresentedTokenView) -> Result<
    ReadyTokenView,
    Seq<char>,
> {
    match known_key(cache, presented.kid) {
        Err(message) => Err(message),
        Ok((key, key_algorithm)) => Ok(ReadyTokenView { presented, key, key_algorithm }),
    }
}

/// The algorithm that a token is verified with, if it may be verified at all.
pub open spec fn agreed_algorithm(token_alg: Algorithm, key_alg: Algorithm) -> Result<
    Algorithm,
    Seq<char>,
> {
    if token_alg == Algorithm::HS256 {
        Err("symmetric algorithms are not accepted"@)
    } else if token_alg != key_alg {
        Err(
            "token alg "@ + token_alg.text() + " does not match key alg "@ + key_alg.text(),
        )
    } else {
        Ok(token_alg)
    }
}

/// What decoding a token under `checks` gives when the clock shows `now`.
pub open spec fn decoded_under(
    token: Seq<char>,
    key: DecodingKey,
    checks: TokenChecksView,
    now: u64,
) -> Result<Value, Seq<char>> {
    decoded_at(
        token,
        key,
        checks.algorithm,
        checks.issuer,
        checks.audiences,
        checks.validate_aud,
        now,
    )
}

/// The claims of a token of which `decoded` was made.
pub open spec fn accepted(decoded: Result<Value, Seq<char>>) -> Result<Claims, Seq<char>> {
    match decoded {
        Ok(claims) => Ok(Claims(claims)),
        Err(message) => Err("invalid token: "@ + message),
    }
}

/// Whether `result` is what verifying `ready` may give when the clock shows `now`.
pub open spec fn verified_at(
    config: JwtConfigView,
    ready: ReadyTokenView,
    algorithm: Algorithm,
    result: Result<Claims, ApiError>,
    now: u64,
) -> bool {
    let checks = config.checks(algorithm);
    let decoded = decoded_under(ready.presented.token, ready.key, checks, now);
    &&& match result {
        Ok(claims) => accepted(decoded) == Ok::<Claims, Seq<char>>(claims) && carries(
            claim_members(claims.0),
            token_claims(ready.presented.token),
        ),
        Err(err) => err.refuses(accepted(decoded)),
    }
    &&& checked_at(
        ready.presented.token,
        ready.key,
        algorithm,
        checks.issuer,
        checks.audiences,
        checks.validate_aud,
        decoded,
        now,
    )
}

/// Whether `result` is the verdict on a token of which `decoded` was made: its
/// claims, or a refusal that gives the reason.
pub open spec fn decided(
    result: Result<Claims, ApiError>,
    decoded: Result<Value, Seq<char>>,
) -> bool {
    match decoded {
        Ok(value) => result matches Ok(claims) && claims.0 == value,
        Err(message) => result matches Err(err) && err@ == ApiErrorView::Unauthorized(
            "invalid token: "@ + message,
        ),
    }
}

/// Takes in what was read of a token's header.
pub fn identify_token(token: &str, header: Result<TokenHeader, String>) -> (identity: Result<
    PresentedToken,
    ApiError,
>)
    ensures
        answers(identity, identified(token@, viewed(header))),
        header matches Ok(read) ==> (read.kid matches Some(kid) ==> (identity matches Ok(made)
            && made.token@ == token@ && made.algorithm == read.alg && made.kid@ == kid@)),
{
    match header {
        Err(message) => Err(
            ApiError::Unauthorized(join("malformed token header: ", message.as_str())),
        ),
        Ok(header) => match header.kid {
            None => Err(ApiError::Unauthorized("token header missing 'kid'".to_owned())),
            Some(kid) => Ok(
                PresentedToken { token: token.to_owned(), algorithm: header.alg, kid },
            ),
        },
    }
}

/// Reads the token that a request with this `Authorization` header carries.
pub fn present_token(header: Option<&[u8]>) -> (read: Result<PresentedToken, ApiError>)
    ensures
        answers(read, presented(optional_bytes(header))),
{
    match extract_bearer_token(header) {
        Err(err) => Err(err),
        Ok(token) => identify_token(token, decode_header(token)),
    }
}

/// Decides which algorithm a token is verified with. A token signed with a
/// shared secret is refused, and so is one whose algorithm is not the key's.
pub fn check_algorithm(token_alg: Algorithm, key_alg: Algorithm) -> (agreed: Result<
    Algorithm,
    ApiError,
>)
    ensures
        match agreed {
            Ok(algorithm) => agreed_algorithm(token_alg, key_alg) == Ok::<Algorithm, Seq<char>>(
                algorithm,
            ),
            Err(err) => err.refuses(agreed_algorithm(token_alg, key_alg)),
        },
        (agreed is Ok) == (token_alg == key_alg && !(token_alg is HS256)),
{
    if token_alg == Algorithm::HS256 {
        return Err(ApiError::Unauthorized("symmetric algorithms are not accepted".to_owned()));
    }
    if token_alg != key_alg {
        let mut message: String = join("token alg ", token_alg.name());
        message.append(" does not match key alg ");
        message.append(key_alg.name());
        return Err(ApiError::Unauthorized(message));
    }
    Ok(token_alg)
}

/// Takes in what was made of a token: its claims, or a refusal.
pub fn accept_claims(decoded: Result<Value, String>) -> (claims: Result<Claims, ApiError>)
    ensures
        match claims {
            Ok(inner) => accepted(with_error_text(decoded)) == Ok::<Claims, Seq<char>>(inner),
            Err(err) => err.refuses(accepted(with_error_text(decoded))),
        },
        (claims is Ok) == (decoded is Ok),
        decoded matches Ok(value) ==> (claims matches Ok(inner) && inner.0 == value),
{
    match decoded {
        Ok(claims) => Ok(Claims(claims)),
        Err(message) => Err(ApiError::Unauthorized(join("invalid token: ", message.as_str()))),
    }
}

impl JwtConfig {
    /// Starts deciding a request at the time `now`: reads its token and looks
    /// the key of the token up.
    pub fn begin(&self, cache: &JwksCache, header: Option<&[u8]>, now: u128) -> (step: Result<
        AuthStep,
        ApiError,
    >)
        ensures
            answers(step, begun(self@, cache@, optional_bytes(header), now as nat)),
    {
        let presented: PresentedToken = match present_token(header) {
            Ok(presented) => presented,
            Err(err) => {
                return Err(err);
            },
        };
        match self.key_for(cache, presented.kid.as_str(), now) {
            KeyLookup::Found(key, key_algorithm) => Ok(
                AuthStep::Verify(ReadyToken { presented, key, key_algorithm }),
            ),
            KeyLookup::Refresh => Ok(AuthStep::Refresh(presented)),
        }
    }

    /// Goes on with a request once the cache was refreshed for it.
    pub fn resume(&self, cache: &JwksCache, presented: PresentedToken) -> (ready: Result<
        ReadyToken,
        ApiError,
    >)
        ensures
            answers(ready, resumed(cache@, presented@)),
    {
        match self.key_after_refresh(cache, presented.kid.as_str()) {
            Ok((key, key_algorithm)) => Ok(ReadyToken { presented, key, key_algorithm }),
            Err(err) => Err(err),
        }
    }

    /// Verifies a token with its key: the signature, the expiry, and the
    /// issuer and the audiences where they are set.
    pub fn verify_token(&self, ready: &ReadyToken) -> (verified: Result<Claims, ApiError>)
        ensures
            match agreed_algorithm(ready.presented.algorithm, ready.key_algorithm) {
                Err(message) => verified matches Err(err) && err@ == ApiErrorView::Unauthorized(
                    message,
                ),
                Ok(algorithm) => exists|now: u64| #[trigger]
                    verified_at(self@, ready@, algorithm, verified, now),
            },
            ready.presented.algorithm == ready.key_algorithm && !(ready.key_algorithm is HS256)
                && self@.audiences.len() > 0 ==> exists|now: u64|
                decided(
                    verified,
                    #[trigger] decoded_at(
                        ready.presented.token@,
                        ready.key,
                        ready.key_algorithm,
                        self@.issuer,
                        Some(self@.audiences),
                        true,
                        now,
                    ),
                ),
            ready.presented.algorithm == ready.key_algorithm && !(ready.key_algorithm is HS256)
                && self@.audiences.len() == 0 ==> exists|now: u64|
                decided(
                    verified,
                    #[trigger] decoded_at(
                        ready.presented.token@,
                        ready.key,
                        ready.key_algorithm,
                        self@.issuer,
                        None,
                        false,
                        now,
                    ),
                ),
            verified is Ok ==> (self@.issuer matches Some(issuer) ==> issued_by(
                token_claims(ready.presented.token@),
                issuer,
            )),
            verified is Ok ==> (self@.audiences.len() > 0 ==> meant_for(
                token_claims(ready.presented.token@),
                self@.audiences,
            )),
            verified matches Ok(claims) ==> carries(
                claim_members(claims.0),
                token_claims(ready.presented.token@),
            ),
    {
        let algorithm: Algorithm = match check_algorithm(
            ready.presented.algorithm,
            ready.key_algorithm,
        ) {
            Ok(algorithm) => algorithm,
            Err(err) => {
                return Err(err);
            },
        };
        let checks: TokenChecks<'_> = self.checks(algorithm);
        let decoded: Result<Value, String> = decode(
            ready.presented.token.as_str(),
            &ready.key,
            checks.algorithm,
            checks.issuer,
            checks.audiences,
            checks.validate_aud,
        );
        let ghost now: u64 = choose|now: u64|
            #[trigger] decoded_at(
                ready.presented.token@,
                ready.key,
                checks.algorithm,
                optional_str(checks.issuer),
                optional_texts(checks.audiences),
                checks.validate_aud,
                now,
            ) == with_error_text(decoded) && checked_at(
                ready.presented.token@,
                ready.key,
                checks.algorithm,
                optional_str(checks.issuer),
                optional_texts(checks.audiences),
                checks.validate_aud,
                with_error_text(decoded),
                now,
            );
        let verified: Result<Claims, ApiError> = accept_claims(decoded);
        assert(verified_at(self@, ready@, algorithm, verified, now));
        assert(decided(
            verified,
            decoded_under(ready.presented.token@, ready.key, self@.checks(algorithm), now),
        ));
        verified
    }
}

/// Verifying accepts a token exactly when decoding it under the configured
/// settings succeeds, and the claims accepted are the ones decoded.
pub proof fn law_verdict_is_that_of_decoding(
    config: JwtConfigView,
    ready: ReadyTokenView,
    algorithm: Algorithm,
    result: Result<Claims, ApiError>,
    now: u64,
)
    requires
        verified_at(config, ready, algorithm, result, now),
    ensures
        ({
            let decoded = decoded_under(
                ready.presented.token,
                ready.key,
                config.checks(algorithm),
                now,
            );
            &&& (result is Ok) == (decoded is Ok)
            &&& result matches Ok(claims) ==> decoded == Ok::<Value, Seq<char>>(claims.0)
        }),
{
}

/// Up to the verification of its token, a request is decided without regard to
/// the issuer and the audiences: configurations that differ in nothing else
/// come to the same step.
pub proof fn law_issuer_and_audiences_do_not_decide_the_key(
    config: JwtConfigView,
    other: JwtConfigView,
    cache: JwksCacheView,
    header: Option<Seq<u8>>,
    now: nat,
)
    requires
        config.cache_ttl == other.cache_ttl,
    ensures
        begun(config, cache, header, now) == begun(other, cache, header, now),
{
}

/// The issuer and the audiences can cause a refusal only where they are set: a
/// token that is accepted is accepted with the same claims, at the same reading
/// of the clock, by a configuration that leaves the issuer, the audiences or
/// both unset and keeps the rest.
pub proof fn law_unsetting_checks_keeps_tokens_accepted(
    config: JwtConfigView,
    looser: JwtConfigView,
    ready: ReadyTokenView,
    algorithm: Algorithm,
    result: Result<Claims, ApiError>,
    looser_result: Result<Claims, ApiError>,
    now: u64,
)
    requires
        looser.issuer is None || looser.issuer == config.issuer,
        looser.audiences.len() == 0 || looser.audiences == config.audiences,
        verified_at(config, ready, algorithm, result, now),
        verified_at(looser, ready, algorithm, looser_result, now),
    ensures
        result matches Ok(claims) ==> (looser_result matches Ok(same) && same == claims),
{
}

/// What is refused where neither an issuer nor audiences are set is refused,
/// with the same message, whatever issuer and audiences are set.
pub proof fn law_refusals_without_checks_are_refusals_with_any(
    config: JwtConfigView,
    open: JwtConfigView,
    ready: ReadyTokenView,
    algorithm: Algorithm,
    result: Result<Claims, ApiError>,
    open_result: Result<Claims, ApiError>,
    now: u64,
)
    requires
        open.issuer is None,
        open.audiences.len() == 0,
        verified_at(config, ready, algorithm, result, now),
        verified_at(open, ready, algorithm, open_result, now),
    ensures
        open_result matches Err(err) ==> (result matches Err(same) && same@ == err@),
{
}

/// A token that is accepted where neither an issuer nor audiences are set is
/// accepted, with the same claims, at the same reading of the clock, by any
/// configuration whose issuer and audiences it fits.
pub proof fn law_fitting_tokens_are_accepted(
    config: JwtConfigView,
    open: JwtConfigView,
    ready: ReadyTokenView,
    algorithm: Algorithm,
    result: Result<Claims, ApiError>,
    open_result: Result<Claims, ApiError>,
    now: u64,
)
    requires
        open.issuer is None,
        open.audiences.len() == 0,
        verified_at(config, ready, algorithm, result, now),
        verified_at(open, ready, algorithm, open_result, now),
        token_claims(ready.presented.token).dom() != Set::<Seq<char>>::empty(),
        config.issuer matches Some(issuer) ==> issued_by(
            token_claims(ready.presented.token),
            issuer,
        ),
        config.audiences.len() > 0 ==> meant_for(
            token_claims(ready.presented.token),
            config.audiences,
        ),
    ensures
        open_result matches Ok(claims) ==> (result matches Ok(same) && same == claims),
{
}

/// A token that has expired more than a minute ago or states no expiry, that
/// names other issuers than the one that is set, or that names none of the
/// audiences that are set, is refused.
pub proof fn law_misfits_are_refused(
    config: JwtConfigView,
    ready: ReadyTokenView,
    algorithm: Algorithm,
    result: Result<Claims, ApiError>,
    now: u64,
)
    requires
        verified_at(config, ready, algorithm, result, now),
        ({
            let claims = token_claims(ready.presented.token);
            ||| !unexpired_at(claims, now)
            ||| config.issuer matches Some(issuer) && !issued_by(claims, issuer)
            ||| config.audiences.len() > 0 && !meant_for(claims, config.audiences)
        }),
    ensures
        result matches Err(err) && err@ is Unauthorized,
{
}

/// Whoever is refused is answered with status 401 and a challenge.
pub proof fn law_refusals_are_challenged<T>(err: ApiError, outcome: Result<T, Seq<char>>)
    requires
        err.refuses(outcome),
    ensures
        err@.status() == 401,
        err@.challenge() is Some,
{
}

/// A request without an `Authorization` header is refused, whatever the
/// configuration and the cache.
pub proof fn law_missing_header_is_refused(config: JwtConfigView, cache: JwksCacheView, now: nat)
    ensures
        begun(config, cache, None, now) == Err::<AuthStepView, Seq<char>>(
            "missing Authorization header"@,
        ),
{
}

/// A token is verified from the cache exactly while the cache is fresh and
/// holds its key; otherwise, and only then, the keys are fetched.
pub proof fn law_keys_are_fetched_only_when_needed(
    config: JwtConfigView,
    cache: JwksCacheView,
    header: Option<Seq<u8>>,
    now: nat,
)
    requires
        presented(header) is Ok,
    ensures
        ({
            let token = presented(header)->Ok_0;
            &&& (begun(config, cache, header, now) == Ok::<AuthStepView, Seq<char>>(
                AuthStepView::Refresh(token),
            )) == !(cache.is_fresh(config.cache_ttl, now) && cache.keys.contains_key(token.kid))
            &&& (begun(config, cache, header, now) is Ok)
        }),
{
}

/// A token signed with a key that the cache does not hold makes the keys be
/// fetched, however fresh the cache is; if one of the keys fetched serves the
/// token's identifier, the last such key is the one the token is verified with.
pub proof fn law_unknown_key_is_fetched_and_used(
    config: JwtConfigView,
    cache: JwksCacheView,
    header: Option<Seq<u8>>,
    jwks: Seq<Jwk>,
    i: int,
    now: nat,
    fetched_at: nat,
)
    requires
        presented(header) is Ok,
        !cache.keys.contains_key(presented(header)->Ok_0.kid),
        serves_last(jwks, i, presented(header)->Ok_0.kid),
    ensures
        begun(config, cache, header, now) == Ok::<AuthStepView, Seq<char>>(
            AuthStepView::Refresh(presented(header)->Ok_0),
        ),
        ready_key(jwks[i]) matches Ok(key) && resumed(
            JwksCacheView::fetched(jwks, fetched_at),
            presented(header)->Ok_0,
        ) == Ok::<ReadyTokenView, Seq<char>>(
            ReadyTokenView {
                presented: presented(header)->Ok_0,
                key: key.decoding_key,
                key_algorithm: key.algorithm,
            },
        ),
{
    law_fetch_replaces_all_keys(jwks, presented(header)->Ok_0.kid, fetched_at);
}

/// A token is only ever verified with a key that was published under the
/// token's identifier in the keys fetched last, and for the algorithm that key
/// is for; from the cache, only while the cache is fresh.
pub proof fn law_tokens_are_verified_with_published_keys(
    config: JwtConfigView,
    header: Option<Seq<u8>>,
    jwks: Seq<Jwk>,
    ready: ReadyTokenView,
    now: nat,
    fetched_at: nat,
)
    requires
        ({
            let cache = JwksCacheView::fetched(jwks, fetched_at);
            ||| begun(config, cache, header, now) == Ok::<AuthStepView, Seq<char>>(
                AuthStepView::Verify(ready),
            )
            ||| resumed(cache, ready.presented) == Ok::<ReadyTokenView, Seq<char>>(ready)
        }),
    ensures
        exists|i: int|
            0 <= i < jwks.len() && serves(#[trigger] jwks[i], ready.presented.kid) && ready_key(
                jwks[i],
            ) == Ok::<CachedKey, Seq<char>>(
                CachedKey { decoding_key: ready.key, algorithm: ready.key_algorithm },
            ),
        begun(config, JwksCacheView::fetched(jwks, fetched_at), header, now) == Ok::<
            AuthStepView,
            Seq<char>,
        >(AuthStepView::Verify(ready)) ==> presented(header) == Ok::<PresentedTokenView, Seq<char>>(
            ready.presented,
        ) && now <= fetched_at + config.cache_ttl,
{
    law_known_keys_were_published(jwks, ready.presented.kid);
}

/// A token whose key is not among the keys fetched is refused.
pub proof fn law_unpublished_key_is_refused(
    presented: PresentedTokenView,
    jwks: Seq<Jwk>,
    fetched_at: nat,
)
    requires
        forall|i: int| 0 <= i < jwks.len() ==> !serves(#[trigger] jwks[i], presented.kid),
    ensures
        resumed(JwksCacheView::fetched(jwks, fetched_at), presented) == Err::<
            ReadyTokenView,
            Seq<char>,
        >("signing key not found for kid "@ + presented.kid),
{
    law_fetch_replaces_all_keys(jwks, presented.kid, fetched_at);
}

/// A token is only ever verified with the algorithm that both it and its key
/// name. With a key out of a cache in a good state that is never a symmetric
/// algorithm, so a token signed with a shared secret is refused.
pub proof fn law_symmetric_tokens_are_refused(
    cache: JwksCacheView,
    kid: Seq<char>,
    key: DecodingKey,
    key_alg: Algorithm,
    token_alg: Algorithm,
)
    requires
        cache.well_formed(),
        cache.key(kid) == Some((key, key_alg)),
    ensures
        token_alg.is_symmetric() ==> agreed_algorithm(token_alg, key_alg) is Err,
        agreed_algorithm(token_alg, key_alg) matches Ok(algorithm) ==> algorithm
            == token_alg && algorithm == key_alg && algorithm.is_published(),
{
    assert(cache.keys.contains_key(kid));
}

/// A request presents a token exactly when its header carries the token and the
/// token's own header names a key; what it presents is that token, with the
/// algorithm and the key identifier that the token's header names.
pub proof fn law_presented_token_is_the_one_carried(
    header: Option<Seq<u8>>,
    token: PresentedTokenView,
)
    ensures
        presented(header) == Ok::<PresentedTokenView, Seq<char>>(token) <==> bearer_token(header)
            == Ok::<Seq<char>, Seq<char>>(token.token) && token_header(token.token) == Ok::<
            (Algorithm, Option<Seq<char>>),
            Seq<char>,
        >((token.algorithm, Some(token.kid))),
{
}

/// A request without a readable token, or with a token whose header cannot be
/// read or names no key, is refused with the reason.
pub proof fn law_unpresentable_tokens_are_refused(header: Option<Seq<u8>>, token: Seq<char>)
    ensures
        bearer_token(header) matches Err(message) ==> presented(header) == Err::<
            PresentedTokenView,
            Seq<char>,
        >(message),
        bearer_token(header) == Ok::<Seq<char>, Seq<char>>(token) ==> (token_header(
            token,
        ) matches Err(message) ==> presented(header) == Err::<PresentedTokenView, Seq<char>>(
            "malformed token header: "@ + message,
        )),
        bearer_token(header) == Ok::<Seq<char>, Seq<char>>(token) ==> (token_header(
            token,
        ) matches Ok((_, None)) ==> presented(header) == Err::<PresentedTokenView, Seq<char>>(
            "token header missing 'kid'"@,
        )),
{
}

/// What is made of a token's header keeps the token, the algorithm and the key
/// identifier as they are.
pub proof fn law_identifying_keeps_what_was_read(
    token: Seq<char>,
    header: Result<(Algorithm, Option<Seq<char>>), Seq<char>>,
    made: PresentedTokenView,
)
    ensures
        identified(token, header) == Ok::<PresentedTokenView, Seq<char>>(made) <==> made.token
            == token && header == Ok::<(Algorithm, Option<Seq<char>>), Seq<char>>(
            (made.algorithm, Some(made.kid)),
        ),
        header matches Err(message) ==> identified(token, header) == Err::<
            PresentedTokenView,
            Seq<char>,
        >("malformed token header: "@ + message),
        header matches Ok((_, None)) ==> identified(token, header) == Err::<
            PresentedTokenView,
            Seq<char>,
        >("token header missing 'kid'"@),
{
}

/// Tokens and steps are known by all of their parts.
pub proof fn law_steps_keep_their_parts(
    read: TokenHeader,
    presented: PresentedToken,
    ready: ReadyToken,
    step: AuthStep,
)
    ensures
        read@.0 == read.alg,
        read.kid matches Some(kid) ==> read@.1 == Some(kid@),
        read.kid is None ==> read@.1 is None,
        presented@.token == presented.token@,
        presented@.algorithm == presented.algorithm,
        presented@.kid == presented.kid@,
        ready@.presented == ready.presented@,
        ready@.key == ready.key,
        ready@.key_algorithm == ready.key_algorithm,
        step matches AuthStep::Refresh(inner) ==> step@ == AuthStepView::Refresh(inner@),
        step matches AuthStep::Verify(inner) ==> step@ == AuthStepView::Verify(inner@),
{
}

/// A request goes straight on to verification exactly when the cache holds the
/// key that its token names and was fetched no longer ago than the time to live;
/// the token is then verified with the key held. Otherwise the keys are fetched
/// for the same token, and a request that presents no token is refused.
pub proof fn law_requests_begin_with_the_key_named(
    config: JwtConfigView,
    cache: JwksCacheView,
    header: Option<Seq<u8>>,
    now: nat,
    ready: ReadyTokenView,
    waiting: PresentedTokenView,
)
    ensures
        begun(config, cache, header, now) == Ok::<AuthStepView, Seq<char>>(
            AuthStepView::Verify(ready),
        ) <==> {
            &&& presented(header) == Ok::<PresentedTokenView, Seq<char>>(ready.presented)
            &&& cache.fetched_at matches Some(at) && now <= at + config.cache_ttl
            &&& cache.keys.contains_key(ready.presented.kid)
            &&& cache.keys[ready.presented.kid] == (CachedKey {
                decoding_key: ready.key,
                algorithm: ready.key_algorithm,
            })
        },
        begun(config, cache, header, now) == Ok::<AuthStepView, Seq<char>>(
            AuthStepView::Refresh(waiting),
        ) <==> presented(header) == Ok::<PresentedTokenView, Seq<char>>(waiting) && !{
            &&& cache.fetched_at matches Some(at) && now <= at + config.cache_ttl
            &&& cache.keys.contains_key(waiting.kid)
        },
        presented(header) matches Err(message) ==> begun(config, cache, header, now) == Err::<
            AuthStepView,
            Seq<char>,
        >(message),
{
}

/// Once keys were fetched, a token goes on to verification exactly when the
/// cache holds the key that it names, and is verified with that key, however old
/// the cache is; otherwise it is refused.
pub proof fn law_requests_resume_with_the_key_named(
    cache: JwksCacheView,
    waiting: PresentedTokenView,
    ready: ReadyTokenView,
)
    ensures
        resumed(cache, waiting) == Ok::<ReadyTokenView, Seq<char>>(ready) <==> {
            &&& ready.presented == waiting
            &&& cache.keys.contains_key(waiting.kid)
            &&& cache.keys[waiting.kid] == (CachedKey {
                decoding_key: ready.key,
                algorithm: ready.key_algorithm,
            })
        },
        !cache.keys.contains_key(waiting.kid) ==> resumed(cache, waiting) == Err::<
            ReadyTokenView,
            Seq<char>,
        >("signing key not found for kid "@ + waiting.kid),
{
}

/// A token is verified exactly when its algorithm is its key's own and is not
/// HS256, and then with that algorithm. HS256 is refused whatever the key is
/// for; any other algorithm only where it is not the key's.
pub proof fn law_the_key_s_own_algorithm_is_accepted(
    token_alg: Algorithm,
    key_alg: Algorithm,
    agreed: Algorithm,
)
    ensures
        agreed_algorithm(token_alg, key_alg) == Ok::<Algorithm, Seq<char>>(agreed) <==> token_alg
            == key_alg && agreed == token_alg && !(token_alg is HS256),
        token_alg is HS256 ==> agreed_algorithm(token_alg, key_alg) == Err::<Algorithm, Seq<char>>(
            "symmetric algorithms are not accepted"@,
        ),
        !(token_alg is HS256) && token_alg != key_alg ==> agreed_algorithm(token_alg, key_alg)
            == Err::<Algorithm, Seq<char>>(
            "token alg "@ + token_alg.text() + " does not match key alg "@ + key_alg.text(),
        ),
{
}

/// A token whose algorithm is the one its published key is for is never refused
/// for its algorithm.
pub proof fn law_published_algorithms_agree_with_themselves(jwk: Jwk, key: CachedKey)
    requires
        ready_key(jwk) == Ok::<CachedKey, Seq<char>>(key),
    ensures
        agreed_algorithm(key.algorithm, key.algorithm) == Ok::<Algorithm, Seq<char>>(key.algorithm),
{
    law_ready_keys_are_asymmetric(jwk);
}

/// The claims accepted are the ones decoded, and a refusal gives the reason why
/// decoding failed.
pub proof fn law_decoded_claims_are_accepted(decoded: Result<Value, Seq<char>>, claims: Claims)
    ensures
        accepted(decoded) == Ok::<Claims, Seq<char>>(claims) <==> decoded == Ok::<
            Value,
            Seq<char>,
        >(claims.0),
        decoded matches Err(message) ==> accepted(decoded) == Err::<Claims, Seq<char>>(
            "invalid token: "@ + message,
        ),
{
}

/// A verdict is what decoding the whole token gives with its key, with the issuer
/// configured and, where any are configured, with all the audiences.
pub proof fn law_tokens_are_decoded_as_configured(
    config: JwtConfigView,
    ready: ReadyTokenView,
    algorithm: Algorithm,
    result: Result<Claims, ApiError>,
    now: u64,
    decoded: Result<Value, Seq<char>>,
)
    requires
        verified_at(config, ready, algorithm, result, now),
        config.audiences.len() > 0 ==> decoded == decoded_at(
            ready.presented.token,
            ready.key,
            algorithm,
            config.issuer,
            Some(config.audiences),
            true,
            now,
        ),
        config.audiences.len() == 0 ==> decoded == decoded_at(
            ready.presented.token,
            ready.key,
            algorithm,
            config.issuer,
            None,
            false,
            now,
        ),
    ensures
        decoded matches Ok(value) ==> (result matches Ok(claims) && claims.0 == value),
        decoded matches Err(message) ==> (result matches Err(err) && err@
            == ApiErrorView::Unauthorized("invalid token: "@ + message)),
{
}

/// A token that names the issuer configured and any one of the audiences
/// configured is accepted wherever a configuration without either accepts it.
pub proof fn law_any_configured_audience_is_accepted(
    config: JwtConfigView,
    open: JwtConfigView,
    ready: ReadyTokenView,
    algorithm: Algorithm,
    result: Result<Claims, ApiError>,
    open_result: Result<Claims, ApiError>,
    now: u64,
    i: int,
)
    requires
        open.issuer is None,
        open.audiences.len() == 0,
        verified_at(config, ready, algorithm, result, now),
        verified_at(open, ready, algorithm, open_result, now),
        0 <= i < config.audiences.len(),
        token_claims(ready.presented.token).contains_key("aud"@),
        token_claims(ready.presented.token)["aud"@] == ClaimValue::Text(config.audiences[i]),
        config.issuer matches Some(issuer) ==> token_claims(
            ready.presented.token,
        ).contains_key("iss"@) && token_claims(ready.presented.token)["iss"@] == ClaimValue::Text(
            issuer,
        ),
    ensures
        open_result matches Ok(claims) ==> (result matches Ok(same) && same == claims),
{
    assert(token_claims(ready.presented.token).dom().contains("aud"@));
    assert(config.audiences.contains(config.audiences[i]));
    law_fitting_tokens_are_accepted(config, open, ready, algorithm, result, open_result, now);
}

/// A token that names another issuer than the one configured is refused, and so
/// is one that names an audience that is not among those configured, or that has
/// expired more than a minute ago.
pub proof fn law_other_issuers_audiences_and_times_are_refused(
    config: JwtConfigView,
    ready: ReadyTokenView,
    algorithm: Algorithm,
    result: Result<Claims, ApiError>,
    now: u64,
    name: Seq<char>,
    exp: nat,
)
    requires
        verified_at(config, ready, algorithm, result, now),
        ({
            let claims = token_claims(ready.presented.token);
            ||| config.issuer is Some && config.issuer != Some(name) && claims.contains_key("iss"@)
                && claims["iss"@] == ClaimValue::Text(name)
            ||| config.audiences.len() > 0 && !config.audiences.contains(name)
                && claims.contains_key("aud"@) && claims["aud"@] == ClaimValue::Text(name)
            ||| exp + 60 < now && claims.contains_key("exp"@) && claims["exp"@]
                == ClaimValue::Whole(exp)
        }),
    ensures
        result matches Err(err) && err@ is Unauthorized,
{
    let claims = token_claims(ready.presented.token);
    if claims.contains_key("exp"@) {
        assert(claims.dom().contains("exp"@));
    }
    law_misfits_are_refused(config, ready, algorithm, result, now);
}

/// A token that names a usable key of a key set is verified with that very key
/// once the key set was fetched, unless a later key of the set takes its place;
/// and it is refused for its algorithm only if the key is for another.
pub proof fn law_keys_of_a_key_set_verify_their_tokens(
    config: JwtConfigView,
    header: Option<Seq<u8>>,
    document: JwksDocument,
    i: int,
    token: Seq<char>,
    algorithm: Algorithm,
    kid: Seq<char>,
    key: CachedKey,
    jwks: Seq<Jwk>,
    at: nat,
    now: nat,
)
    requires
        bearer_token(header) == Ok::<Seq<char>, Seq<char>>(token),
        token_header(token) == Ok::<(Algorithm, Option<Seq<char>>), Seq<char>>(
            (algorithm, Some(kid)),
        ),
        fetched_keys(JwksFetch::Document(document)) == Ok::<Seq<Jwk>, Seq<char>>(jwks),
        0 <= i < document.keys@.len(),
        document.keys@[i].kid matches Some(own) && own@ == kid,
        ready_key(document.keys@[i]) == Ok::<CachedKey, Seq<char>>(key),
        forall|j: int|
            i < j < document.keys@.len() ==> !(((#[trigger] document.keys@[j]).kid matches Some(
                own,
            ) && own@ == kid) && ready_key(document.keys@[j]) is Ok),
    ensures
        ({
            let cache = JwksCacheView::fetched(jwks, at);
            let waiting = PresentedTokenView { token, algorithm, kid };
            let ready = ReadyTokenView {
                presented: waiting,
                key: key.decoding_key,
                key_algorithm: key.algorithm,
            };
            &&& resumed(cache, waiting) == Ok::<ReadyTokenView, Seq<char>>(ready)
            &&& now <= at + config.cache_ttl ==> begun(config, cache, header, now) == Ok::<
                AuthStepView,
                Seq<char>,
            >(AuthStepView::Verify(ready))
            &&& now > at + config.cache_ttl ==> begun(config, cache, header, now) == Ok::<
                AuthStepView,
                Seq<char>,
            >(AuthStepView::Refresh(waiting))
            &&& agreed_algorithm(algorithm, key.algorithm) == Ok::<Algorithm, Seq<char>>(algorithm)
                <==> algorithm == key.algorithm
        }),
{
    law_every_usable_key_of_a_key_set_is_known(document, jwks, i, kid, at);
    law_ready_keys_are_asymmetric(document.keys@[i]);
}

} // verus!
