//! Published signing keys: reading a JSON Web Key Set.

use crate::algorithm::{algorithm_named, parse_algorithm, Algorithm};
use crate::outside::{ec_key, from_ec_components, from_rsa_components, rsa_key};
use crate::text::{as_str, join, optional_str, optional_text, same_text, with_error_text};
use jsonwebtoken::DecodingKey;
use vstd::hash_map::StringHashMap;
use vstd::prelude::*;

verus! {

/// A published key, as its issuer describes it.
#[derive(Debug)]
pub struct Jwk {
    /// The identifier that tokens refer to the key by.
    pub kid: Option<String>,
    /// The family of the key.
    pub kty: String,
    /// The algorithm that the key is for.
    pub algorithm: Option<String>,
    /// The modulus of an RSA key.
    pub n: Option<String>,
    /// The exponent of an RSA key.
    pub e: Option<String>,
    /// The curve of an elliptic-curve key.
    pub crv: Option<String>,
    /// The first coordinate of an elliptic-curve key.
    pub x: Option<String>,
    /// The second coordinate of an elliptic-curve key.
    pub y: Option<String>,
}

/// A set of published keys.
#[derive(Debug)]
pub struct JwksDocument {
    /// The keys, in the order in which they are published.
    pub keys: Vec<Jwk>,
}

/// A key that is ready to verify tokens.
pub struct CachedKey {
    /// The key itself.
    pub decoding_key: DecodingKey,
    /// The only algorithm that the key verifies.
    pub algorithm: Algorithm,
}

/// The algorithm that a published key names, if it names a supported one.
pub open spec fn named_algorithm(alg: Option<Seq<char>>) -> Option<Algorithm> {
    match alg {
        Some(text) => algorithm_named(text),
        None => None,
    }
}

/// The ready key for RSA components of which `built` was made.
pub open spec fn ready_rsa_key(
    built: Result<DecodingKey, Seq<char>>,
    alg: Option<Seq<char>>,
) -> Result<CachedKey, Seq<char>> {
    match built {
        Err(message) => Err("invalid RSA components: "@ + message),
        Ok(decoding_key) => Ok(
            CachedKey {
                decoding_key,
                algorithm: match named_algorithm(alg) {
                    Some(algorithm) => algorithm,
                    None => Algorithm::RS256,
                },
            },
        ),
    }
}

/// The ready key for elliptic-curve components of which `built` was made.
pub open spec fn ready_ec_key(
    built: Result<DecodingKey, Seq<char>>,
    crv: Option<Seq<char>>,
    alg: Option<Seq<char>>,
) -> Result<CachedKey, Seq<char>> {
    match built {
        Err(message) => Err("invalid EC components: "@ + message),
        Ok(decoding_key) => match crv {
            Some(curve) => if curve == "P-256"@ {
                Ok(CachedKey { decoding_key, algorithm: Algorithm::ES256 })
            } else if curve == "P-384"@ {
                Ok(CachedKey { decoding_key, algorithm: Algorithm::ES384 })
            } else {
                Err("unsupported EC curve: "@ + curve)
            },
            None => Ok(
                CachedKey {
                    decoding_key,
                    algorithm: match named_algorithm(alg) {
                        Some(algorithm) => algorithm,
                        None => Algorithm::ES256,
                    },
                },
            ),
        },
    }
}

/// The ready key that a published key gives, or why it gives none.
pub open spec fn ready_key(jwk: Jwk) -> Result<CachedKey, Seq<char>> {
    if jwk.kty@ == "RSA"@ {
        match (jwk.n, jwk.e) {
            (None, _) => Err("RSA JWK missing 'n'"@),
            (_, None) => Err("RSA JWK missing 'e'"@),
            (Some(n), Some(e)) => ready_rsa_key(rsa_key(n@, e@), optional_text(jwk.algorithm)),
        }
    } else if jwk.kty@ == "EC"@ {
        match (jwk.x, jwk.y) {
            (None, _) => Err("EC JWK missing 'x'"@),
            (_, None) => Err("EC JWK missing 'y'"@),
            (Some(x), Some(y)) => ready_ec_key(
                ec_key(x@, y@),
                optional_text(jwk.crv),
                optional_text(jwk.algorithm),
            ),
        }
    } else {
        Err("unsupported kty: "@ + jwk.kty@)
    }
}

/// Completes an RSA key of whose components `built` was made. A key that names
/// no supported algorithm is for RS256.
pub fn rsa_cached_key(built: Result<DecodingKey, String>, alg: Option<&str>) -> (key: Result<
    CachedKey,
    String,
>)
    ensures
        with_error_text(key) == ready_rsa_key(with_error_text(built), optional_str(alg)),
{
    match built {
        Err(message) => Err(join("invalid RSA components: ", message.as_str())),
        Ok(decoding_key) => {
            let algorithm: Algorithm = match parse_algorithm(alg) {
                Some(algorithm) => algorithm,
                None => Algorithm::RS256,
            };
            Ok(CachedKey { decoding_key, algorithm })
        },
    }
}

/// Completes an elliptic-curve key of whose components `built` was made. The
/// curve decides the algorithm; a key that names neither a curve nor a
/// supported algorithm is for ES256.
pub fn ec_cached_key(
    built: Result<DecodingKey, String>,
    crv: Option<&str>,
    alg: Option<&str>,
) -> (key: Result<CachedKey, String>)
    ensures
        with_error_text(key) == ready_ec_key(
            with_error_text(built),
            optional_str(crv),
            optional_str(alg),
        ),
{
    let decoding_key: DecodingKey = match built {
        Err(message) => {
            return Err(join("invalid EC components: ", message.as_str()));
        },
        Ok(decoding_key) => decoding_key,
    };
    let algorithm: Algorithm = match crv {
        Some(curve) => if same_text(curve, "P-256") {
            Algorithm::ES256
        } else if same_text(curve, "P-384") {
            Algorithm::ES384
        } else {
            return Err(join("unsupported EC curve: ", curve));
        },
        None => match parse_algorithm(alg) {
            Some(algorithm) => algorithm,
            None => Algorithm::ES256,
        },
    };
    Ok(CachedKey { decoding_key, algorithm })
}

/// Makes a published key ready to verify tokens, or says why it cannot.
pub fn build_key(jwk: &Jwk) -> (key: Result<CachedKey, String>)
    ensures
        with_error_text(key) == ready_key(*jwk),
{
    let kty: &str = jwk.kty.as_str();
    if same_text(kty, "RSA") {
        let n: &str = match &jwk.n {
            Some(n) => n.as_str(),
            None => {
                return Err("RSA JWK missing 'n'".to_owned());
            },
        };
        let e: &str = match &jwk.e {
            Some(e) => e.as_str(),
            None => {
                return Err("RSA JWK missing 'e'".to_owned());
            },
        };
        rsa_cached_key(from_rsa_components(n, e), as_str(&jwk.algorithm))
    } else if same_text(kty, "EC") {
        let x: &str = match &jwk.x {
            Some(x) => x.as_str(),
            None => {
                return Err("EC JWK missing 'x'".to_owned());
            },
        };
        let y: &str = match &jwk.y {
            Some(y) => y.as_str(),
            None => {
                return Err("EC JWK missing 'y'".to_owned());
            },
        };
        ec_cached_key(from_ec_components(x, y), as_str(&jwk.crv), as_str(&jwk.algorithm))
    } else {
        Err(join("unsupported kty: ", kty))
    }
}

/// Whether a published key gives a ready key under the identifier `kid`.
#[verifier::opaque]
pub open spec fn serves(jwk: Jwk, kid: Seq<char>) -> bool {
    optional_text(jwk.kid) == Some(kid) && ready_key(jwk) is Ok
}

/// The ready keys of a list of published keys, by identifier. Where several
/// published keys serve one identifier, the last of them counts. Keys without
/// an identifier and keys that cannot be made ready are left out.
pub open spec fn published_keys(jwks: Seq<Jwk>) -> Map<Seq<char>, CachedKey>
    decreases jwks.len(),
{
    if jwks.len() == 0 {
        Map::empty()
    } else {
        match (jwks.last().kid, ready_key(jwks.last())) {
            (Some(kid), Ok(key)) => published_keys(jwks.drop_last()).insert(kid@, key),
            _ => published_keys(jwks.drop_last()),
        }
    }
}

/// A published key that was left out, and why.
#[derive(Debug)]
pub struct SkippedJwk {
    /// The identifier of the key.
    pub kid: String,
    /// Why the key could not be made ready.
    pub error: String,
}

impl View for SkippedJwk {
    type V = (Seq<char>, Seq<char>);

    open spec fn view(&self) -> (Seq<char>, Seq<char>) {
        (self.kid@, self.error@)
    }
}

/// The published keys with an identifier that cannot be made ready: identifier
/// and reason of each, in the order in which they are published.
pub open spec fn unusable_keys(jwks: Seq<Jwk>) -> Seq<(Seq<char>, Seq<char>)>
    decreases jwks.len(),
{
    if jwks.len() == 0 {
        Seq::empty()
    } else {
        match (jwks.last().kid, ready_key(jwks.last())) {
            (Some(kid), Err(error)) => unusable_keys(jwks.drop_last()).push((kid@, error)),
            _ => unusable_keys(jwks.drop_last()),
        }
    }
}

/// Makes the published keys ready, and tells which had to be left out.
pub fn build_keys(jwks: &Vec<Jwk>) -> (built: (StringHashMap<CachedKey>, Vec<SkippedJwk>))
    ensures
        built.0@ == published_keys(jwks@),
        built.1@.map_values(|skipped: SkippedJwk| skipped@) == unusable_keys(jwks@),
{
    let mut keys: StringHashMap<CachedKey> = StringHashMap::new();
    let mut skipped: Vec<SkippedJwk> = Vec::new();
    let mut i: usize = 0;
    assert(jwks@.take(0) =~= Seq::empty());
    assert(skipped@.map_values(|skipped: SkippedJwk| skipped@) =~= Seq::empty());
    while i < jwks.len()
        invariant
            i <= jwks.len(),
            keys@ == published_keys(jwks@.take(i as int)),
            skipped@.map_values(|skipped: SkippedJwk| skipped@) == unusable_keys(
                jwks@.take(i as int),
            ),
        decreases jwks.len() - i,
    {
        let jwk: &Jwk = &jwks[i];
        assert(jwks@.take(i + 1).drop_last() =~= jwks@.take(i as int));
        let ghost before = skipped@.map_values(|skipped: SkippedJwk| skipped@);
        match &jwk.kid {
            Some(kid) => match build_key(jwk) {
                Ok(key) => {
                    keys.insert(kid.clone(), key);
                },
                Err(error) => {
                    skipped.push(SkippedJwk { kid: kid.clone(), error });
                    assert(skipped@.map_values(|skipped: SkippedJwk| skipped@) =~= before.push(
                        (kid@, error@),
                    ));
                },
            },
            None => {},
        }
        i += 1;
    }
    assert(jwks@.take(i as int) =~= jwks@);
    (keys, skipped)
}

/// A ready key is never for a symmetric algorithm, nor for EdDSA: it is for an
/// RSA or an elliptic-curve signature.
pub proof fn law_ready_keys_are_asymmetric(jwk: Jwk)
    ensures
        ready_key(jwk) matches Ok(key) ==> key.algorithm.is_published(),
{
}

proof fn lemma_last_published(jwks: Seq<Jwk>, kid: Seq<char>)
    requires
        jwks.len() > 0,
    ensures
        serves(jwks.last(), kid) ==> published_keys(jwks).contains_key(kid) && ready_key(
            jwks.last(),
        ) == Ok::<CachedKey, Seq<char>>(published_keys(jwks)[kid]),
        !serves(jwks.last(), kid) ==> published_keys(jwks).contains_key(kid) == published_keys(
            jwks.drop_last(),
        ).contains_key(kid) && published_keys(jwks)[kid] == published_keys(jwks.drop_last())[kid],
{
    reveal(serves);
}

/// Whether the published key at `i` is the last one that serves `kid`.
pub open spec fn serves_last(jwks: Seq<Jwk>, i: int, kid: Seq<char>) -> bool {
    &&& 0 <= i < jwks.len()
    &&& serves(jwks[i], kid)
    &&& forall|j: int| i < j < jwks.len() ==> !serves(#[trigger] jwks[j], kid)
}

proof fn lemma_serving_key_is_known(jwks: Seq<Jwk>, i: int, kid: Seq<char>)
    requires
        0 <= i < jwks.len(),
        serves(jwks[i], kid),
    ensures
        published_keys(jwks).contains_key(kid),
    decreases jwks.len(),
{
    lemma_last_published(jwks, kid);
    if i < jwks.len() - 1 {
        assert(jwks.drop_last()[i] == jwks[i]);
        lemma_serving_key_is_known(jwks.drop_last(), i, kid);
    }
}

proof fn lemma_last_serving_key_counts(jwks: Seq<Jwk>, i: int, kid: Seq<char>)
    requires
        serves_last(jwks, i, kid),
    ensures
        ready_key(jwks[i]) == Ok::<CachedKey, Seq<char>>(published_keys(jwks)[kid]),
    decreases jwks.len(),
{
    lemma_last_published(jwks, kid);
    if i < jwks.len() - 1 {
        let rest = jwks.drop_last();
        assert(!serves(jwks[jwks.len() - 1], kid));
        assert(rest[i] == jwks[i]);
        assert forall|j: int| i < j < rest.len() implies !serves(#[trigger] rest[j], kid) by {
            assert(rest[j] == jwks[j]);
        }
        lemma_last_serving_key_counts(rest, i, kid);
    }
}

/// An identifier is known exactly when a published key serves it, and the last
/// published key that serves it is the one that counts.
#[verifier::spinoff_prover]
pub proof fn law_last_serving_key_counts(jwks: Seq<Jwk>, kid: Seq<char>)
    ensures
        published_keys(jwks).contains_key(kid) == (exists|i: int|
            0 <= i < jwks.len() && serves(#[trigger] jwks[i], kid)),
        forall|i: int| #[trigger]
            serves_last(jwks, i, kid) ==> ready_key(jwks[i]) == Ok::<CachedKey, Seq<char>>(
                published_keys(jwks)[kid],
            ),
{
    if published_keys(jwks).contains_key(kid) {
        law_known_keys_were_published(jwks, kid);
    }
    if exists|i: int| 0 <= i < jwks.len() && serves(#[trigger] jwks[i], kid) {
        let i = choose|i: int| 0 <= i < jwks.len() && serves(#[trigger] jwks[i], kid);
        lemma_serving_key_is_known(jwks, i, kid);
    }
    assert forall|i: int| #[trigger] serves_last(jwks, i, kid) implies ready_key(jwks[i]) == Ok::<
        CachedKey,
        Seq<char>,
    >(published_keys(jwks)[kid]) by {
        lemma_last_serving_key_counts(jwks, i, kid);
    }
}

/// A key that is known under an identifier is what one of the published keys
/// that serve the identifier gives.
pub proof fn law_known_keys_were_published(jwks: Seq<Jwk>, kid: Seq<char>)
    requires
        published_keys(jwks).contains_key(kid),
    ensures
        exists|i: int|
            0 <= i < jwks.len() && serves(#[trigger] jwks[i], kid) && ready_key(jwks[i]) == Ok::<
                CachedKey,
                Seq<char>,
            >(published_keys(jwks)[kid]),
    decreases jwks.len(),
{
    lemma_last_published(jwks, kid);
    let rest = jwks.drop_last();
    if serves(jwks.last(), kid) {
        assert(serves(jwks[jwks.len() - 1], kid));
    } else {
        law_known_keys_were_published(rest, kid);
        let i = choose|i: int|
            0 <= i < rest.len() && serves(#[trigger] rest[i], kid) && ready_key(rest[i]) == Ok::<
                CachedKey,
                Seq<char>,
            >(published_keys(rest)[kid]);
        assert(jwks[i] == rest[i]);
        assert(serves(jwks[i], kid));
    }
}

/// Every key that publishing a list makes known is for an RSA or an
/// elliptic-curve signature.
pub proof fn law_published_keys_are_asymmetric(jwks: Seq<Jwk>, kid: Seq<char>)
    requires
        published_keys(jwks).contains_key(kid),
    ensures
        published_keys(jwks)[kid].algorithm.is_published(),
    decreases jwks.len(),
{
    law_ready_keys_are_asymmetric(jwks.last());
    if published_keys(jwks.drop_last()).contains_key(kid) {
        law_published_keys_are_asymmetric(jwks.drop_last(), kid);
    }
}

/// An RSA key with both of its components gives a ready key exactly when its
/// components do: that key, for the algorithm it names, and for RS256 where it
/// names none that is supported. Nothing else about it counts.
pub proof fn law_rsa_keys_are_made_ready(jwk: Jwk, n: String, e: String)
    requires
        jwk.kty@ == "RSA"@,
        jwk.n == Some(n),
        jwk.e == Some(e),
    ensures
        rsa_key(n@, e@) matches Ok(built) ==> (ready_key(jwk) matches Ok(key) && key.decoding_key
            == built),
        rsa_key(n@, e@) matches Err(message) ==> ready_key(jwk) == Err::<CachedKey, Seq<char>>(
            "invalid RSA components: "@ + message,
        ),
        ready_key(jwk) matches Ok(key) ==> {
            &&& jwk.algorithm is None ==> key.algorithm is RS256
            &&& jwk.algorithm matches Some(name) ==> (algorithm_named(name@) matches Some(alg)
                ==> key.algorithm == alg)
            &&& jwk.algorithm matches Some(name) ==> (algorithm_named(name@) is None
                ==> key.algorithm is RS256)
        },
{
}

/// An elliptic-curve key with both of its coordinates gives a ready key exactly
/// when its coordinates do and it names no unsupported curve. The curve alone
/// decides the algorithm, whatever algorithm the key names; only a key without a
/// curve is for the algorithm it names, and for ES256 where it names none that
/// is supported.
pub proof fn law_ec_keys_are_made_ready(jwk: Jwk, x: String, y: String)
    requires
        jwk.kty@ == "EC"@,
        jwk.x == Some(x),
        jwk.y == Some(y),
    ensures
        ec_key(x@, y@) matches Err(message) ==> ready_key(jwk) == Err::<CachedKey, Seq<char>>(
            "invalid EC components: "@ + message,
        ),
        ec_key(x@, y@) matches Ok(built) ==> {
            &&& jwk.crv matches Some(crv) ==> {
                &&& crv@ == "P-256"@ ==> ready_key(jwk) == Ok::<CachedKey, Seq<char>>(
                    CachedKey { decoding_key: built, algorithm: Algorithm::ES256 },
                )
                &&& crv@ == "P-384"@ ==> ready_key(jwk) == Ok::<CachedKey, Seq<char>>(
                    CachedKey { decoding_key: built, algorithm: Algorithm::ES384 },
                )
                &&& crv@ != "P-256"@ && crv@ != "P-384"@ ==> ready_key(jwk) == Err::<
                    CachedKey,
                    Seq<char>,
                >("unsupported EC curve: "@ + crv@)
            }
            &&& jwk.crv is None ==> (ready_key(jwk) matches Ok(key) && key.decoding_key == built)
        },
        jwk.crv is None ==> (ready_key(jwk) matches Ok(key) ==> {
            &&& jwk.algorithm is None ==> key.algorithm is ES256
            &&& jwk.algorithm matches Some(name) ==> (algorithm_named(name@) matches Some(alg)
                ==> key.algorithm == alg)
            &&& jwk.algorithm matches Some(name) ==> (algorithm_named(name@) is None
                ==> key.algorithm is ES256)
        }),
{
    lemma_families_and_curves_differ();
}

proof fn lemma_families_and_curves_differ()
    ensures
        "RSA"@ != "EC"@,
        "P-256"@ != "P-384"@,
{
    reveal_strlit("RSA");
    reveal_strlit("EC");
    reveal_strlit("P-256");
    reveal_strlit("P-384");
    assert("RSA"@.len() != "EC"@.len());
    assert("P-256"@[2] != "P-384"@[2]);
}

/// A key of a known family that lacks a component gives no ready key, and
/// neither does a key of any other family; the reason says which.
pub proof fn law_incomplete_and_foreign_keys_are_left_out(jwk: Jwk)
    ensures
        jwk.kty@ == "RSA"@ && jwk.n is None ==> ready_key(jwk) == Err::<CachedKey, Seq<char>>(
            "RSA JWK missing 'n'"@,
        ),
        jwk.kty@ == "RSA"@ && jwk.n is Some && jwk.e is None ==> ready_key(jwk) == Err::<
            CachedKey,
            Seq<char>,
        >("RSA JWK missing 'e'"@),
        jwk.kty@ == "EC"@ && jwk.x is None ==> ready_key(jwk) == Err::<CachedKey, Seq<char>>(
            "EC JWK missing 'x'"@,
        ),
        jwk.kty@ == "EC"@ && jwk.x is Some && jwk.y is None ==> ready_key(jwk) == Err::<
            CachedKey,
            Seq<char>,
        >("EC JWK missing 'y'"@),
        jwk.kty@ != "RSA"@ && jwk.kty@ != "EC"@ ==> ready_key(jwk) == Err::<CachedKey, Seq<char>>(
            "unsupported kty: "@ + jwk.kty@,
        ),
{
    lemma_families_and_curves_differ();
}

/// What is made of a key does not depend on its identifier, nor on the
/// components of the other family.
pub proof fn law_only_the_own_family_counts(a: Jwk, b: Jwk)
    requires
        a.kty == b.kty,
        a.algorithm == b.algorithm,
    ensures
        a.kty@ == "RSA"@ && a.n == b.n && a.e == b.e ==> ready_key(a) == ready_key(b),
        a.kty@ == "EC"@ && a.x == b.x && a.y == b.y && a.crv == b.crv ==> ready_key(a)
            == ready_key(b),
{
    lemma_families_and_curves_differ();
}

/// Completing a key keeps the key that was built of its components, and fails
/// only as building it did, or for its curve.
pub proof fn law_completing_keeps_the_key(
    built: Result<DecodingKey, Seq<char>>,
    crv: Option<Seq<char>>,
    alg: Option<Seq<char>>,
    key: CachedKey,
)
    ensures
        ready_rsa_key(built, alg) == Ok::<CachedKey, Seq<char>>(key) <==> built == Ok::<
            DecodingKey,
            Seq<char>,
        >(key.decoding_key) && {
            ||| alg matches Some(name) && algorithm_named(name) == Some(key.algorithm)
            ||| key.algorithm is RS256 && (alg matches Some(name) ==> algorithm_named(name) is None)
        },
        ready_ec_key(built, crv, alg) == Ok::<CachedKey, Seq<char>>(key) <==> built == Ok::<
            DecodingKey,
            Seq<char>,
        >(key.decoding_key) && {
            ||| crv == Some("P-256"@) && key.algorithm is ES256
            ||| crv == Some("P-384"@) && key.algorithm is ES384
            ||| crv is None && (alg matches Some(name) && algorithm_named(name) == Some(
                key.algorithm,
            ))
            ||| crv is None && key.algorithm is ES256 && (alg matches Some(name)
                ==> algorithm_named(name) is None)
        },
        built matches Err(message) ==> ready_rsa_key(built, alg) == Err::<CachedKey, Seq<char>>(
            "invalid RSA components: "@ + message,
        ) && ready_ec_key(built, crv, alg) == Err::<CachedKey, Seq<char>>(
            "invalid EC components: "@ + message,
        ),
        built is Ok ==> (crv matches Some(curve) ==> curve != "P-256"@ && curve != "P-384"@
            ==> ready_ec_key(built, crv, alg) == Err::<CachedKey, Seq<char>>(
            "unsupported EC curve: "@ + curve,
        )),
{
    lemma_families_and_curves_differ();
}

/// A key serves an identifier exactly when that is its identifier and it gives
/// a ready key.
pub proof fn law_keys_serve_their_identifier(jwk: Jwk, kid: Seq<char>)
    ensures
        serves(jwk, kid) <==> (jwk.kid matches Some(own) && own@ == kid) && ready_key(jwk) is Ok,
{
    reveal(serves);
}

/// One published key makes its ready key known under its identifier, and
/// nothing else; no published keys make nothing known.
pub proof fn law_one_key_is_known_under_its_identifier(jwk: Jwk)
    ensures
        published_keys(Seq::<Jwk>::empty()) == Map::<Seq<char>, CachedKey>::empty(),
        (jwk.kid matches Some(kid) && ready_key(jwk) is Ok) ==> published_keys(seq![jwk])
            == Map::<Seq<char>, CachedKey>::empty().insert(jwk.kid->0@, ready_key(jwk)->Ok_0),
        jwk.kid is None || ready_key(jwk) is Err ==> published_keys(seq![jwk]) == Map::<
            Seq<char>,
            CachedKey,
        >::empty(),
{
    assert(seq![jwk].drop_last() =~= Seq::<Jwk>::empty());
    assert(seq![jwk].last() == jwk);
    reveal_with_fuel(published_keys, 2);
}

/// Publishing one list of keys behind another makes known what either makes
/// known; where both serve an identifier, the list behind counts.
pub proof fn law_later_keys_take_precedence(front: Seq<Jwk>, back: Seq<Jwk>)
    ensures
        published_keys(front + back) == published_keys(front).union_prefer_right(
            published_keys(back),
        ),
    decreases back.len(),
{
    if back.len() == 0 {
        assert(front + back =~= front);
        assert(published_keys(front).union_prefer_right(published_keys(back)) =~= published_keys(
            front,
        ));
    } else {
        law_later_keys_take_precedence(front, back.drop_last());
        assert((front + back).drop_last() =~= front + back.drop_last());
        assert((front + back).last() == back.last());
        assert(published_keys(front + back) =~= published_keys(front).union_prefer_right(
            published_keys(back),
        ));
    }
}

/// A published key that cannot be made ready is told of, with its identifier
/// and the reason, if it has an identifier; a key that can be made ready is not.
pub proof fn law_one_unusable_key_is_told_of(jwk: Jwk)
    ensures
        unusable_keys(Seq::<Jwk>::empty()) == Seq::<(Seq<char>, Seq<char>)>::empty(),
        (jwk.kid is Some && ready_key(jwk) is Err) ==> unusable_keys(seq![jwk]) == seq![
            (jwk.kid->0@, ready_key(jwk)->Err_0),
        ],
        jwk.kid is None || ready_key(jwk) is Ok ==> unusable_keys(seq![jwk]) == Seq::<
            (Seq<char>, Seq<char>),
        >::empty(),
{
    assert(seq![jwk].drop_last() =~= Seq::<Jwk>::empty());
    assert(seq![jwk].last() == jwk);
    reveal_with_fuel(unusable_keys, 2);
}

/// The unusable keys of a list are told of in the order of the list.
pub proof fn law_unusable_keys_are_told_of_in_order(front: Seq<Jwk>, back: Seq<Jwk>)
    ensures
        unusable_keys(front + back) == unusable_keys(front) + unusable_keys(back),
    decreases back.len(),
{
    if back.len() == 0 {
        assert(front + back =~= front);
        assert(unusable_keys(front) + unusable_keys(back) =~= unusable_keys(front));
    } else {
        law_unusable_keys_are_told_of_in_order(front, back.drop_last());
        assert((front + back).drop_last() =~= front + back.drop_last());
        assert((front + back).last() == back.last());
        assert(unusable_keys(front + back) =~= unusable_keys(front) + unusable_keys(back));
    }
}

/// A key that was left out is known by its identifier and by the reason.
pub proof fn law_skipped_keys_keep_their_parts(skipped: SkippedJwk)
    ensures
        skipped@ == (skipped.kid@, skipped.error@),
{
}

} // verus!
