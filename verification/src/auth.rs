//! Token validation settings, and the cache of published signing keys.

use crate::algorithm::Algorithm;
use crate::api_error::ApiError;
use crate::jwk::{
    build_keys, law_keys_serve_their_identifier, law_last_serving_key_counts,
    law_published_keys_are_asymmetric, published_keys, ready_key, serves, serves_last,
    unusable_keys, CachedKey, Jwk, JwksDocument, SkippedJwk,
};
use crate::outside::{parse_url, parsed_url};
use crate::text::{as_str, join, optional_str, optional_text, optional_texts, texts, viewed};
use jsonwebtoken::DecodingKey;
use vstd::hash_map::StringHashMap;
use vstd::prelude::*;

verus! {

/// Runtime configuration for JWT validation.
pub struct JwtConfig {
    jwks_url: String,
    issuer: Option<String>,
    audiences: Vec<String>,
    cache_ttl: u128,
}

/// A [`JwtConfig`] with its texts as sequences of characters.
pub struct JwtConfigView {
    /// Where the signing keys are published.
    pub jwks_url: Seq<char>,
    /// The issuer that tokens must come from, where one is set.
    pub issuer: Option<Seq<char>>,
    /// The audiences of which a token must be meant for one, where any are set.
    pub audiences: Seq<Seq<char>>,
    /// For how many nanoseconds fetched keys stay fresh.
    pub cache_ttl: nat,
}

impl View for JwtConfig {
    type V = JwtConfigView;

    closed spec fn view(&self) -> JwtConfigView {
        JwtConfigView {
            jwks_url: self.jwks_url@,
            issuer: optional_text(self.issuer),
            audiences: texts(self.audiences@),
            cache_ttl: self.cache_ttl as nat,
        }
    }
}

/// The configuration for settings of whose key URL `parsed` was made.
pub open spec fn configured(
    parsed: Result<Seq<char>, Seq<char>>,
    issuer: Option<Seq<char>>,
    audiences: Seq<Seq<char>>,
    cache_ttl: nat,
) -> Result<JwtConfigView, Seq<char>> {
    match parsed {
        Ok(jwks_url) => Ok(JwtConfigView { jwks_url, issuer, audiences, cache_ttl }),
        Err(message) => Err("invalid --jwt-jwks-url: "@ + message),
    }
}

/// The signing keys fetched last, and when that was.
pub struct JwksCache {
    keys: StringHashMap<CachedKey>,
    fetched_at: Option<u128>,
}

/// A [`JwksCache`] as a map.
pub struct JwksCacheView {
    /// The keys by identifier.
    pub keys: Map<Seq<char>, CachedKey>,
    /// When the keys were fetched, in nanoseconds of a clock that never goes
    /// back, where they were fetched at all.
    pub fetched_at: Option<nat>,
}

impl View for JwksCache {
    type V = JwksCacheView;

    closed spec fn view(&self) -> JwksCacheView {
        JwksCacheView {
            keys: self.keys@,
            fetched_at: match self.fetched_at {
                Some(at) => Some(at as nat),
                None => None,
            },
        }
    }
}

impl JwksCacheView {
    /// The state of a cache: keys are there only once they were fetched, and
    /// each is for an RSA or an elliptic-curve signature.
    pub open spec fn well_formed(self) -> bool {
        &&& self.fetched_at is None ==> self.keys == Map::<Seq<char>, CachedKey>::empty()
        &&& forall|kid: Seq<char>| #[trigger]
            self.keys.contains_key(kid) ==> self.keys[kid].algorithm.is_published()
    }

    /// The cache before anything was fetched.
    pub open spec fn unfetched() -> JwksCacheView {
        JwksCacheView { keys: Map::empty(), fetched_at: None }
    }

    /// The cache once a list of keys was fetched at the time `now`.
    pub open spec fn fetched(jwks: Seq<Jwk>, now: nat) -> JwksCacheView {
        JwksCacheView { keys: published_keys(jwks), fetched_at: Some(now) }
    }

    /// Whether at the time `now` the keys are no older than `cache_ttl`.
    pub open spec fn is_fresh(self, cache_ttl: nat, now: nat) -> bool {
        self.fetched_at matches Some(at) && now - at <= cache_ttl
    }

    /// The key with the identifier `kid`, and the algorithm it is for.
    pub open spec fn key(self, kid: Seq<char>) -> Option<(DecodingKey, Algorithm)> {
        if self.keys.contains_key(kid) {
            Some((self.keys[kid].decoding_key, self.keys[kid].algorithm))
        } else {
            None
        }
    }

    /// The key with the identifier `kid`, while the keys are fresh.
    pub open spec fn fresh_key(self, kid: Seq<char>, cache_ttl: nat, now: nat) -> Option<
        (DecodingKey, Algorithm),
    > {
        if self.is_fresh(cache_ttl, now) {
            self.key(kid)
        } else {
            None
        }
    }
}

impl Default for JwksCache {
    /// A cache that holds no keys yet.
    fn default() -> (cache: JwksCache)
        ensures
            cache@ == JwksCacheView::unfetched(),
            cache@.fetched_at is None,
            cache@.keys == Map::<Seq<char>, CachedKey>::empty(),
            cache@.well_formed(),
    {
        JwksCache { keys: StringHashMap::new(), fetched_at: None }
    }
}

/// What came of fetching the published keys.
pub enum JwksFetch {
    /// The request failed, as the text says.
    Failed(String),
    /// The endpoint answered with an error status, as the text says.
    ErrorStatus(String),
    /// The body of the answer is not a key set, as the text says.
    InvalidBody(String),
    /// The endpoint answered with a key set.
    Document(JwksDocument),
}

/// The published keys that a fetch brought, or why it brought none.
pub open spec fn fetched_keys(fetch: JwksFetch) -> Result<Seq<Jwk>, Seq<char>> {
    match fetch {
        JwksFetch::Failed(text) => Err("failed to fetch JWKS: "@ + text@),
        JwksFetch::ErrorStatus(text) => Err("JWKS endpoint returned error: "@ + text@),
        JwksFetch::InvalidBody(text) => Err("invalid JWKS body: "@ + text@),
        JwksFetch::Document(document) => Ok(document.keys@),
    }
}

/// How a key is come by.
pub enum KeyLookup {
    /// The cache holds the key, with the algorithm it is for.
    Found(DecodingKey, Algorithm),
    /// The published keys have to be fetched first.
    Refresh,
}

/// The key that the cache holds for an identifier after the keys were fetched.
pub open spec fn known_key(cache: JwksCacheView, kid: Seq<char>) -> Result<
    (DecodingKey, Algorithm),
    Seq<char>,
> {
    match cache.key(kid) {
        Some(key) => Ok(key),
        None => Err("signing key not found for kid "@ + kid),
    }
}

/// The settings that a token is decoded with.
pub struct TokenChecks<'a> {
    /// The only algorithm that is accepted.
    pub algorithm: Algorithm,
    /// The issuer that the token must come from, where one is set.
    pub issuer: Option<&'a str>,
    /// The audiences of which the token must be meant for one, where any are set.
    pub audiences: Option<&'a Vec<String>>,
    /// Whether audiences count at all.
    pub validate_aud: bool,
}

/// [`TokenChecks`] with their texts as sequences of characters.
pub struct TokenChecksView {
    pub algorithm: Algorithm,
    pub issuer: Option<Seq<char>>,
    pub audiences: Option<Seq<Seq<char>>>,
    pub validate_aud: bool,
}

impl<'a> View for TokenChecks<'a> {
    type V = TokenChecksView;

    open spec fn view(&self) -> TokenChecksView {
        TokenChecksView {
            algorithm: self.algorithm,
            issuer: optional_str(self.issuer),
            audiences: optional_texts(self.audiences),
            validate_aud: self.validate_aud,
        }
    }
}

impl JwtConfigView {
    /// The settings that a token signed with `algorithm` is decoded with.
    /// Audiences count exactly when some are set.
    pub open spec fn checks(self, algorithm: Algorithm) -> TokenChecksView {
        TokenChecksView {
            algorithm,
            issuer: self.issuer,
            audiences: if self.audiences.len() > 0 {
                Some(self.audiences)
            } else {
                None
            },
            validate_aud: self.audiences.len() > 0,
        }
    }
}

impl JwtConfig {
    /// Whether this configuration is made of exactly these settings.
    pub open spec fn holds(
        self,
        jwks_url: Seq<char>,
        issuer: Option<String>,
        audiences: Seq<String>,
        cache_ttl: u128,
    ) -> bool {
        &&& self@.jwks_url == jwks_url
        &&& issuer matches Some(name) ==> self@.issuer == Some(name@)
        &&& issuer is None ==> self@.issuer is None
        &&& self@.audiences.len() == audiences.len()
        &&& forall|i: int|
            0 <= i < audiences.len() ==> #[trigger] self@.audiences[i] == audiences[i]@
        &&& self@.cache_ttl == cache_ttl
    }

    /// Construct a new config from settings. Validates that `jwks_url` is
    /// parseable. `cache_ttl` is in nanoseconds.
    pub fn new(
        jwks_url: &str,
        issuer: Option<String>,
        audiences: Vec<String>,
        cache_ttl: u128,
    ) -> (config: Result<JwtConfig, String>)
        ensures
            viewed(config) == configured(
                parsed_url(jwks_url@),
                optional_text(issuer),
                texts(audiences@),
                cache_ttl as nat,
            ),
            (config is Ok) == (parsed_url(jwks_url@) is Ok),
            config matches Ok(made) ==> made.holds(
                parsed_url(jwks_url@)->Ok_0,
                issuer,
                audiences@,
                cache_ttl,
            ),
    {
        JwtConfig::with_parsed_url(parse_url(jwks_url), issuer, audiences, cache_ttl)
    }

    /// Construct a new config from settings of whose key URL `parsed` was made.
    pub fn with_parsed_url(
        parsed: Result<String, String>,
        issuer: Option<String>,
        audiences: Vec<String>,
        cache_ttl: u128,
    ) -> (config: Result<JwtConfig, String>)
        ensures
            viewed(config) == configured(
                viewed(parsed),
                optional_text(issuer),
                texts(audiences@),
                cache_ttl as nat,
            ),
            (config is Ok) == (parsed is Ok),
            config matches Ok(made) ==> made.holds(parsed->Ok_0@, issuer, audiences@, cache_ttl),
    {
        match parsed {
            Ok(jwks_url) => Ok(JwtConfig { jwks_url, issuer, audiences, cache_ttl }),
            Err(message) => Err(join("invalid --jwt-jwks-url: ", message.as_str())),
        }
    }

    /// Return the configured JWKS URL (used for diagnostic logging).
    pub fn jwks_url(&self) -> (url: &str)
        ensures
            url@ == self@.jwks_url,
    {
        self.jwks_url.as_str()
    }

    /// Look up a decoding key by `kid`. Asks for the cache to be refreshed if
    /// it's stale or the key is missing.
    pub fn key_for(&self, cache: &JwksCache, kid: &str, now: u128) -> (lookup: KeyLookup)
        ensures
            lookup == (match cache@.fresh_key(kid@, self@.cache_ttl, now as nat) {
                Some((key, algorithm)) => KeyLookup::Found(key, algorithm),
                None => KeyLookup::Refresh,
            }),
    {
        match self.lookup_fresh(cache, kid, now) {
            Some((key, algorithm)) => KeyLookup::Found(key, algorithm),
            None => KeyLookup::Refresh,
        }
    }

    /// Look up a decoding key by `kid` in a cache that was just refreshed.
    pub fn key_after_refresh(&self, cache: &JwksCache, kid: &str) -> (found: Result<
        (DecodingKey, Algorithm),
        ApiError,
    >)
        ensures
            match found {
                Ok(key) => known_key(cache@, kid@) == Ok::<(DecodingKey, Algorithm), Seq<char>>(
                    key,
                ),
                Err(err) => err.refuses(known_key(cache@, kid@)),
            },
    {
        match self.lookup_any(cache, kid) {
            Some(key) => Ok(key),
            None => Err(ApiError::Unauthorized(join("signing key not found for kid ", kid))),
        }
    }

    /// The key with the identifier `kid`, if at the time `now` the cache is
    /// still fresh.
    pub fn lookup_fresh(&self, cache: &JwksCache, kid: &str, now: u128) -> (found: Option<
        (DecodingKey, Algorithm),
    >)
        ensures
            found == cache@.fresh_key(kid@, self@.cache_ttl, now as nat),
    {
        match cache.fetched_at {
            None => None,
            Some(fetched_at) => if now > fetched_at && now - fetched_at > self.cache_ttl {
                None
            } else {
                self.lookup_any(cache, kid)
            },
        }
    }

    /// The key with the identifier `kid`, however old the cache is.
    pub fn lookup_any(&self, cache: &JwksCache, kid: &str) -> (found: Option<
        (DecodingKey, Algorithm),
    >)
        ensures
            found == cache@.key(kid@),
    {
        match cache.keys.get(kid) {
            Some(key) => Some((key.decoding_key.clone(), key.algorithm)),
            None => None,
        }
    }

    /// Takes in what came of fetching the published keys, at the time `now`.
    /// A key set replaces all keys of the cache; tells which of its keys had
    /// to be left out. A failed fetch leaves the cache as it is.
    pub fn refresh(&self, cache: &mut JwksCache, fetch: JwksFetch, now: u128) -> (done: Result<
        Vec<SkippedJwk>,
        ApiError,
    >)
        ensures
            match done {
                Ok(skipped) => fetched_keys(fetch) matches Ok(jwks) && final(cache)@
                    == JwksCacheView::fetched(jwks, now as nat) && skipped@.map_values(
                    |one: SkippedJwk| one@,
                ) == unusable_keys(jwks),
                Err(err) => err.refuses(fetched_keys(fetch)) && *final(cache) == *old(cache),
            },
            (done is Ok) == (fetch is Document),
            fetch matches JwksFetch::Document(document) ==> final(cache)@ == JwksCacheView::fetched(
                document.keys@,
                now as nat,
            ),
            old(cache)@.well_formed() ==> final(cache)@.well_formed(),
    {
        let document: JwksDocument = match fetch {
            JwksFetch::Failed(text) => {
                return Err(ApiError::Unauthorized(join("failed to fetch JWKS: ", text.as_str())));
            },
            JwksFetch::ErrorStatus(text) => {
                return Err(
                    ApiError::Unauthorized(join("JWKS endpoint returned error: ", text.as_str())),
                );
            },
            JwksFetch::InvalidBody(text) => {
                return Err(ApiError::Unauthorized(join("invalid JWKS body: ", text.as_str())));
            },
            JwksFetch::Document(document) => document,
        };
        let (keys, skipped): (StringHashMap<CachedKey>, Vec<SkippedJwk>) = build_keys(
            &document.keys,
        );
        cache.keys = keys;
        cache.fetched_at = Some(now);
        proof {
            law_fetched_cache_is_well_formed(document.keys@, now as nat);
        }
        Ok(skipped)
    }

    /// The settings that a token signed with `algorithm` is decoded with.
    pub fn checks(&self, algorithm: Algorithm) -> (checks: TokenChecks<'_>)
        ensures
            checks@ == self@.checks(algorithm),
    {
        let issuer: Option<&str> = as_str(&self.issuer);
        if self.audiences.len() > 0 {
            TokenChecks { algorithm, issuer, audiences: Some(&self.audiences), validate_aud: true }
        } else {
            TokenChecks { algorithm, issuer, audiences: None, validate_aud: false }
        }
    }
}

/// Fetching a list of keys leaves the cache in a good state.
pub proof fn law_fetched_cache_is_well_formed(jwks: Seq<Jwk>, now: nat)
    ensures
        JwksCacheView::fetched(jwks, now).well_formed(),
{
    assert forall|kid: Seq<char>| #[trigger]
        published_keys(jwks).contains_key(kid) implies published_keys(
        jwks,
    )[kid].algorithm.is_published() by {
        law_published_keys_are_asymmetric(jwks, kid);
    }
}

/// A cache that was fetched at `at` answers from what it holds until it is
/// older than `cache_ttl`, and from then on answers nothing until it is
/// fetched again.
pub proof fn law_keys_stay_fresh_for_the_ttl(
    jwks: Seq<Jwk>,
    kid: Seq<char>,
    cache_ttl: nat,
    at: nat,
    now: nat,
)
    ensures
        now <= at + cache_ttl ==> JwksCacheView::fetched(jwks, at).fresh_key(kid, cache_ttl, now)
            == JwksCacheView::fetched(jwks, at).key(kid),
        now > at + cache_ttl ==> JwksCacheView::fetched(jwks, at).fresh_key(kid, cache_ttl, now)
            is None,
{
}

/// Whatever the cache held before, after a fetch an identifier is known
/// exactly when one of the keys fetched serves it: keys that are no longer
/// published are forgotten, and new ones are known at once.
pub proof fn law_fetch_replaces_all_keys(jwks: Seq<Jwk>, kid: Seq<char>, now: nat)
    ensures
        (known_key(JwksCacheView::fetched(jwks, now), kid) is Ok) == (exists|i: int|
            0 <= i < jwks.len() && serves(#[trigger] jwks[i], kid)),
        forall|i: int| #[trigger]
            serves_last(jwks, i, kid) ==> (ready_key(jwks[i]) matches Ok(key) && known_key(
                JwksCacheView::fetched(jwks, now),
                kid,
            ) == Ok::<(DecodingKey, Algorithm), Seq<char>>((key.decoding_key, key.algorithm))),
{
    law_last_serving_key_counts(jwks, kid);
    assert forall|i: int| #[trigger] serves_last(jwks, i, kid) implies published_keys(
        jwks,
    ).contains_key(kid) by {
        assert(serves(jwks[i], kid));
    }
}

/// Before the first fetch, no identifier is answered from the cache.
pub proof fn law_nothing_is_known_before_the_first_fetch(
    kid: Seq<char>,
    cache_ttl: nat,
    now: nat,
)
    ensures
        JwksCacheView::unfetched().fresh_key(kid, cache_ttl, now) is None,
        JwksCacheView::unfetched().key(kid) is None,
{
}

/// A configuration is made exactly of a key URL that parses, and then holds the
/// settings that were given: the issuer, every audience in order, and for how
/// long fetched keys stay fresh.
pub proof fn law_configuration_holds_the_settings(
    parsed: Result<Seq<char>, Seq<char>>,
    issuer: Option<Seq<char>>,
    audiences: Seq<Seq<char>>,
    cache_ttl: nat,
    config: JwtConfigView,
)
    ensures
        configured(parsed, issuer, audiences, cache_ttl) == Ok::<JwtConfigView, Seq<char>>(config)
            <==> {
            &&& parsed == Ok::<Seq<char>, Seq<char>>(config.jwks_url)
            &&& config.issuer == issuer
            &&& config.audiences == audiences
            &&& config.cache_ttl == cache_ttl
        },
        parsed matches Err(message) ==> configured(parsed, issuer, audiences, cache_ttl) == Err::<
            JwtConfigView,
            Seq<char>,
        >("invalid --jwt-jwks-url: "@ + message),
{
}

/// A token is decoded for the algorithm asked for, with the issuer that is
/// configured and all the audiences that are; audiences count exactly when some
/// are configured.
pub proof fn law_checks_are_those_configured(config: JwtConfigView, algorithm: Algorithm)
    ensures
        config.checks(algorithm).algorithm == algorithm,
        config.checks(algorithm).issuer == config.issuer,
        config.audiences.len() > 0 ==> config.checks(algorithm).audiences == Some(config.audiences)
            && config.checks(algorithm).validate_aud,
        config.audiences.len() == 0 ==> config.checks(algorithm).audiences is None
            && !config.checks(algorithm).validate_aud,
{
}

/// A fetch brings keys exactly when it brings a key set, and then brings all of
/// its keys, in order; what else comes of a fetch says why it brought none.
pub proof fn law_a_fetch_brings_the_whole_key_set(fetch: JwksFetch, jwks: Seq<Jwk>)
    ensures
        fetched_keys(fetch) == Ok::<Seq<Jwk>, Seq<char>>(jwks) <==> (fetch matches
            JwksFetch::Document(document) && document.keys@ == jwks),
        fetch matches JwksFetch::Failed(text) ==> fetched_keys(fetch) == Err::<
            Seq<Jwk>,
            Seq<char>,
        >("failed to fetch JWKS: "@ + text@),
        fetch matches JwksFetch::ErrorStatus(text) ==> fetched_keys(fetch) == Err::<
            Seq<Jwk>,
            Seq<char>,
        >("JWKS endpoint returned error: "@ + text@),
        fetch matches JwksFetch::InvalidBody(text) ==> fetched_keys(fetch) == Err::<
            Seq<Jwk>,
            Seq<char>,
        >("invalid JWKS body: "@ + text@),
{
}

/// Once a key set was fetched, each of its keys that can be made ready is known
/// under its identifier, unless a later key of the set takes its place.
pub proof fn law_every_usable_key_of_a_key_set_is_known(
    document: JwksDocument,
    jwks: Seq<Jwk>,
    i: int,
    kid: Seq<char>,
    now: nat,
)
    requires
        fetched_keys(JwksFetch::Document(document)) == Ok::<Seq<Jwk>, Seq<char>>(jwks),
        0 <= i < document.keys@.len(),
        document.keys@[i].kid matches Some(own) && own@ == kid,
        ready_key(document.keys@[i]) is Ok,
        forall|j: int|
            i < j < document.keys@.len() ==> !(((#[trigger] document.keys@[j]).kid matches Some(
                own,
            ) && own@ == kid) && ready_key(document.keys@[j]) is Ok),
    ensures
        JwksCacheView::fetched(jwks, now).fetched_at == Some(now),
        ready_key(document.keys@[i]) matches Ok(key) && JwksCacheView::fetched(jwks, now).key(kid)
            == Some((key.decoding_key, key.algorithm)),
{
    let keys = document.keys@;
    assert(serves_last(keys, i, kid)) by {
        law_keys_serve_their_identifier(keys[i], kid);
        assert forall|j: int| i < j < keys.len() implies !serves(#[trigger] keys[j], kid) by {
            law_keys_serve_their_identifier(keys[j], kid);
        }
    }
    law_fetch_replaces_all_keys(keys, kid, now);
}

/// Once a key set was fetched, an identifier that none of its usable keys has is
/// not known, whatever was known before.
pub proof fn law_keys_outside_a_key_set_are_forgotten(
    document: JwksDocument,
    jwks: Seq<Jwk>,
    kid: Seq<char>,
    now: nat,
)
    requires
        fetched_keys(JwksFetch::Document(document)) == Ok::<Seq<Jwk>, Seq<char>>(jwks),
        forall|j: int|
            0 <= j < document.keys@.len() ==> !(((#[trigger] document.keys@[j]).kid matches Some(
                own,
            ) && own@ == kid) && ready_key(document.keys@[j]) is Ok),
    ensures
        JwksCacheView::fetched(jwks, now).key(kid) is None,
{
    let keys = document.keys@;
    assert forall|j: int| 0 <= j < keys.len() implies !serves(#[trigger] keys[j], kid) by {
        law_keys_serve_their_identifier(keys[j], kid);
    }
    law_fetch_replaces_all_keys(keys, kid, now);
}

/// A cache answers with a key exactly when it holds it under that very
/// identifier, together with the algorithm that the key is for.
pub proof fn law_a_cache_answers_with_what_it_holds(
    cache: JwksCacheView,
    kid: Seq<char>,
    key: DecodingKey,
    algorithm: Algorithm,
)
    ensures
        cache.key(kid) == Some((key, algorithm)) <==> cache.keys.contains_key(kid)
            && cache.keys[kid] == (CachedKey { decoding_key: key, algorithm }),
        known_key(cache, kid) == Ok::<(DecodingKey, Algorithm), Seq<char>>((key, algorithm))
            <==> cache.keys.contains_key(kid) && cache.keys[kid] == (CachedKey {
            decoding_key: key,
            algorithm,
        }),
        !cache.keys.contains_key(kid) ==> known_key(cache, kid) == Err::<
            (DecodingKey, Algorithm),
            Seq<char>,
        >("signing key not found for kid "@ + kid),
{
}

/// Any cache answers from its fresh keys exactly when keys were fetched no
/// longer ago than `cache_ttl` and it holds the key; the very last moment counts.
pub proof fn law_fresh_keys_are_those_within_the_ttl(
    cache: JwksCacheView,
    kid: Seq<char>,
    cache_ttl: nat,
    now: nat,
    key: DecodingKey,
    algorithm: Algorithm,
)
    ensures
        cache.fresh_key(kid, cache_ttl, now) == Some((key, algorithm)) <==> {
            &&& cache.fetched_at matches Some(at) && now <= at + cache_ttl
            &&& cache.keys.contains_key(kid)
            &&& cache.keys[kid] == (CachedKey { decoding_key: key, algorithm })
        },
        cache.is_fresh(cache_ttl, now) <==> (cache.fetched_at matches Some(at) && now <= at
            + cache_ttl),
{
}

} // verus!
