use smolvm_auth::algorithm::{parse_algorithm, Algorithm};
use smolvm_auth::api_error::ApiError;
use smolvm_auth::auth::{JwksCache, JwksFetch, JwtConfig, KeyLookup};
use smolvm_auth::jwk::{build_key, Jwk, JwksDocument};

const URL: &str = "https://issuer.example/keys";

fn rsa(kid: Option<&str>, alg: Option<&str>) -> Jwk {
    Jwk {
        kid: kid.map(str::to_string),
        kty: "RSA".to_string(),
        algorithm: alg.map(str::to_string),
        n: Some("AQAB".to_string()),
        e: Some("AQAB".to_string()),
        crv: None,
        x: None,
        y: None,
    }
}

fn ec(crv: Option<&str>, alg: Option<&str>) -> Jwk {
    Jwk {
        kid: Some("ec".to_string()),
        kty: "EC".to_string(),
        algorithm: alg.map(str::to_string),
        n: None,
        e: None,
        crv: crv.map(str::to_string),
        x: Some("AQAB".to_string()),
        y: Some("AQAB".to_string()),
    }
}

fn algorithm(jwk: &Jwk) -> Algorithm {
    match build_key(jwk) {
        Ok(key) => key.algorithm,
        Err(error) => panic!("{}", error),
    }
}

fn failure(jwk: &Jwk) -> String {
    match build_key(jwk) {
        Ok(_) => panic!("a key was built"),
        Err(error) => error,
    }
}

fn config(cache_ttl: u128) -> JwtConfig {
    JwtConfig::new(URL, None, vec![], cache_ttl).unwrap()
}

fn document(keys: Vec<Jwk>) -> JwksFetch {
    JwksFetch::Document(JwksDocument { keys })
}

fn found(config: &JwtConfig, cache: &JwksCache, kid: &str) -> Option<Algorithm> {
    config.lookup_any(cache, kid).map(|(_, alg)| alg)
}

#[test]
fn algorithm_parsing_supports_common_set() {
    assert_eq!(parse_algorithm(Some("RS256")), Some(Algorithm::RS256));
    assert_eq!(parse_algorithm(Some("ES384")), Some(Algorithm::ES384));
    assert_eq!(parse_algorithm(Some("PS512")), Some(Algorithm::PS512));
    assert_eq!(parse_algorithm(Some("HS256")), None);
}

#[test]
fn published_names_read_back() {
    for alg in [
        Algorithm::RS256,
        Algorithm::RS384,
        Algorithm::RS512,
        Algorithm::ES256,
        Algorithm::ES384,
        Algorithm::PS256,
        Algorithm::PS384,
        Algorithm::PS512,
    ] {
        assert_eq!(parse_algorithm(Some(alg.name())), Some(alg));
        assert_eq!(alg.name(), format!("{:?}", alg));
    }
    for alg in [
        Algorithm::HS256,
        Algorithm::HS384,
        Algorithm::HS512,
        Algorithm::EdDSA,
    ] {
        assert_eq!(parse_algorithm(Some(alg.name())), None);
        assert_eq!(alg.name(), format!("{:?}", alg));
    }
    assert_eq!(parse_algorithm(None), None);
    assert_eq!(parse_algorithm(Some("")), None);
    assert_eq!(parse_algorithm(Some("rs256")), None);
    assert_eq!(parse_algorithm(Some("RS2567")), None);
}

#[test]
fn keys_are_for_the_algorithm_they_name_or_their_family_s() {
    assert_eq!(algorithm(&rsa(None, None)), Algorithm::RS256);
    assert_eq!(algorithm(&rsa(None, Some("PS384"))), Algorithm::PS384);
    assert_eq!(algorithm(&rsa(None, Some("HS256"))), Algorithm::RS256);
    assert_eq!(algorithm(&ec(None, None)), Algorithm::ES256);
    assert_eq!(algorithm(&ec(None, Some("ES384"))), Algorithm::ES384);
    assert_eq!(algorithm(&ec(Some("P-256"), None)), Algorithm::ES256);
    assert_eq!(
        algorithm(&ec(Some("P-384"), Some("ES256"))),
        Algorithm::ES384
    );
}

#[test]
fn unusable_keys_say_why() {
    let mut jwk = rsa(None, None);
    jwk.n = None;
    assert_eq!(failure(&jwk), "RSA JWK missing 'n'");
    let mut jwk = rsa(None, None);
    jwk.e = None;
    assert_eq!(failure(&jwk), "RSA JWK missing 'e'");
    let mut jwk = rsa(None, None);
    jwk.n = Some("!".to_string());
    assert!(failure(&jwk).starts_with("invalid RSA components: Base64 error: "));

    let mut jwk = ec(None, None);
    jwk.x = None;
    assert_eq!(failure(&jwk), "EC JWK missing 'x'");
    let mut jwk = ec(None, None);
    jwk.y = None;
    assert_eq!(failure(&jwk), "EC JWK missing 'y'");
    let mut jwk = ec(Some("P-521"), None);
    assert_eq!(failure(&jwk), "unsupported EC curve: P-521");
    jwk.y = Some("!".to_string());
    assert!(failure(&jwk).starts_with("invalid EC components: Base64 error: "));

    let mut jwk = rsa(None, None);
    jwk.kty = "oct".to_string();
    assert_eq!(failure(&jwk), "unsupported kty: oct");
}

#[test]
fn url_must_parse() {
    let cfg = JwtConfig::new("HTTPS://Issuer.example/a/../keys", None, vec![], 1).unwrap();
    assert_eq!(cfg.jwks_url(), URL);
    let err = match JwtConfig::new("not a url", None, vec![], 1) {
        Ok(_) => panic!("accepted"),
        Err(err) => err,
    };
    assert_eq!(
        err,
        "invalid --jwt-jwks-url: relative URL without a base"
    );
    let err = match JwtConfig::new("http://", None, vec![], 1) {
        Ok(_) => panic!("accepted"),
        Err(err) => err,
    };
    assert_eq!(err, "invalid --jwt-jwks-url: empty host");
}

#[test]
fn nothing_is_known_before_the_first_fetch() {
    let cfg = config(u128::MAX);
    let cache = JwksCache::default();
    assert!(matches!(
        cfg.key_for(&cache, "k", 0),
        KeyLookup::Refresh
    ));
    assert!(found(&cfg, &cache, "k").is_none());
    match cfg.key_after_refresh(&cache, "k") {
        Err(ApiError::Unauthorized(message)) => {
            assert_eq!(message, "signing key not found for kid k")
        }
        _ => panic!("found"),
    }
}

#[test]
fn keys_stay_fresh_for_the_ttl() {
    let cfg = config(10);
    let mut cache = JwksCache::default();
    cfg.refresh(&mut cache, document(vec![rsa(Some("k"), None)]), 100)
        .unwrap();
    for now in [0, 99, 100, 105, 110] {
        assert!(matches!(
            cfg.key_for(&cache, "k", now),
            KeyLookup::Found(_, Algorithm::RS256)
        ));
    }
    assert!(matches!(
        cfg.key_for(&cache, "k", 111),
        KeyLookup::Refresh
    ));
    assert!(cfg.lookup_fresh(&cache, "k", 111).is_none());
    assert!(found(&cfg, &cache, "k").is_some());
    assert!(matches!(
        cfg.key_for(&cache, "other", 105),
        KeyLookup::Refresh
    ));
}

#[test]
fn fetch_replaces_all_keys() {
    let cfg = config(10);
    let mut cache = JwksCache::default();
    cfg.refresh(&mut cache, document(vec![rsa(Some("old"), None)]), 1)
        .unwrap();
    let skipped = cfg
        .refresh(&mut cache, document(vec![rsa(Some("new"), None)]), 2)
        .unwrap();
    assert!(skipped.is_empty());
    assert_eq!(found(&cfg, &cache, "old"), None);
    assert_eq!(found(&cfg, &cache, "new"), Some(Algorithm::RS256));
}

#[test]
fn last_usable_key_of_an_identifier_counts() {
    let cfg = config(10);
    let mut cache = JwksCache::default();
    let mut broken = rsa(Some("k"), None);
    broken.n = None;
    let skipped = cfg
        .refresh(
            &mut cache,
            document(vec![
                rsa(Some("k"), Some("RS384")),
                rsa(None, Some("PS256")),
                rsa(Some("k"), Some("RS512")),
                broken,
                rsa(Some("m"), None),
            ]),
            2,
        )
        .unwrap();
    assert_eq!(found(&cfg, &cache, "k"), Some(Algorithm::RS512));
    assert_eq!(found(&cfg, &cache, "m"), Some(Algorithm::RS256));
    assert_eq!(skipped.len(), 1);
    assert_eq!(skipped[0].kid, "k");
    assert_eq!(skipped[0].error, "RSA JWK missing 'n'");
}

#[test]
fn failed_fetch_leaves_the_cache() {
    let cfg = config(10);
    let mut cache = JwksCache::default();
    cfg.refresh(&mut cache, document(vec![rsa(Some("k"), None)]), 1)
        .unwrap();
    let cases = [
        (
            JwksFetch::Failed("refused".to_string()),
            "failed to fetch JWKS: refused",
        ),
        (
            JwksFetch::ErrorStatus("503".to_string()),
            "JWKS endpoint returned error: 503",
        ),
        (
            JwksFetch::InvalidBody("eof".to_string()),
            "invalid JWKS body: eof",
        ),
    ];
    for (fetch, expected) in cases {
        match cfg.refresh(&mut cache, fetch, 50) {
            Err(ApiError::Unauthorized(message)) => assert_eq!(message, expected),
            _ => panic!("not refused"),
        }
        assert!(matches!(
            cfg.key_for(&cache, "k", 11),
            KeyLookup::Found(_, _)
        ));
        assert!(matches!(
            cfg.key_for(&cache, "k", 12),
            KeyLookup::Refresh
        ));
    }
}
