//! Whole requests: a token is minted, presented in a header, and decided
//! against the keys that its issuer publishes.

use base64::engine::general_purpose::URL_SAFE_NO_PAD;
use base64::Engine;
use jsonwebtoken::{encode, EncodingKey, Header};
use serde_json::Value;
use smolvm_auth::api_error::ApiError;
use smolvm_auth::auth::{JwksCache, JwksFetch, JwtConfig};
use smolvm_auth::jwk::{Jwk, JwksDocument};
use smolvm_auth::middleware::{AuthStep, Claims};
use std::time::{SystemTime, UNIX_EPOCH};

// Keys that sign nothing but the tokens of these tests.
const FIRST_RSA_DER_HEX: &str = "\
    308204a50201000282010100dc54f5a888f420d99eacd424ec3222ecc63e7aa68d3720ca3fab6e26e435f6f84a02\
    537527deb536d6b466cc5d557e0b4ed6d0855b1e7146d95d90d49ab58c6b48a2ccb15d200b33eadd6ca8f8b7f0b4\
    805c0bc7f147c90ccc9fab71d7acda2c9243f2543387a78f6ce6613f16ea0edca803a3858f10eac0771024c3a63e\
    652cdb7f56b05015df2198dea9cbeb216709283c7e5ca6ba617345032ae98361806c21bf3740cfc2c0d7709fa93d\
    7d1f86610981916655b87839b6bbbd09766e20aba632f658c534a74e35c390befdefe56c20c3f38352f4309c8747\
    35f5048cc732c3310547c6cd29fd38dbb5cb7bada75aeb423e638a43bd0e6791a1b7fe2637d70203010001028201\
    004256f05a6cd5f8981d8f131704e8f99c09faa0ea49e599e15b774de4b6dccabe2a6675e375fc37dac99daac008\
    b02791d70c95df3936bacba6c1e5cc25c2d9032a6d1e2d9f08f96689e65e83a7d3964d7ac27c2798edd0caa247c7\
    12b16a118ccf035750e3ed09d604e77ecb44a6779017a474d54f64bc11f4276fb25af93973cf9a51b353a0d31d8b\
    6be581ea83b94b9ffb5a1dd81dd091fb9b0b4f28aacb1661c6dacd4cb2e2e40a2bfa33a2f37e1829e81de36bfa91\
    1fdebe2c79e63332cd98809b68e75ff0b58dc5ddd9cb89fc84e8e2a7a3d3b78138f8b096cd44c3827d94a2c2e0f0\
    b7bbd92d435ddac3df6bf7583f35acc83b7bb17f735ee61526fd6102818100f3266ae87f58cca49d3a17c8987c44\
    8957f2ff99d28d770ef9a72e90f22b1b97bc566c252a11e2410e168b993d512300150249c2087c2f1924b5c52b95\
    9a7c76d2512875855ac74e90592e133a3421f377ddf3a8fee7fe2a78d1b924d2aa21422b4feb67ce39298b03b42e\
    8228c835fbaf5ce6be3db6cc7a344e67f8b26e8df702818100e7f9d58ac1faae28c07da83edba816b553677ec22d\
    572458dcc777497268500b37ae5ce55c09adb5ede0a30558faca1b86fa422df0838de9e52d30da19c4285182167d\
    a8c7d273fb2d50717a66da348620a4a86fffcb156fe2720b0e89cbfaebf41f828fe5ae108f762361c3ea05bac428\
    a125e7c379b1cb366c6129523aad2102818100c0018e5a9a755ce480e3e6f418b5c8c94c122f952097657505dfe6\
    fdbebe1bc3ee8db04888b8269a88ad74ff455454f7339fe2eebe14927ca0688992a9489d1097744f26be6fb90369\
    298320dbcd5f220b7dd1739a1748b5f1426b9990619871d012042aacc6a6ef87b53924bf5f9a816d314764e306fe\
    e1617ca8cdd2d94a7102818100e0c975a5fa06825137060cccac699b67a62479ee8ba50fb1946f2d265cd8bc07c2\
    b3118da7bc313a440213b690dca4903c21b19376a6e413ac62381e802d56ac75147a3bdd360ff16b9db1f8dc45c1\
    f3df19efa6680651059436d28409ff416cf7a8b909db94eab339d55b5d4f1eb23676f0811cae8cf43e68c468fa73\
    962c4102818100e87c891beec760fb5f71e3975a5b19c77f7816ba9cc8d9bf65b0625fda377d7b9bae1c44117501\
    7847421ff139124e6ac7e234b6c81e7d3134bbc9ee96478597d9b909e34c19363dffe37fc57fa7a090de6de8d9a3\
    bb20bd024477931d00f289266085d7e99fdd856e069651531bb0ee1d1c8474afbb20933ee6304f22dc9169\
";
const FIRST_RSA_N: &str = "\
    3FT1qIj0INmerNQk7DIi7MY-eqaNNyDKP6tuJuQ19vhKAlN1J961Nta0ZsxdVX4LTtbQhVsecUbZXZDUmrWMa0iizLFd\
    IAsz6t1sqPi38LSAXAvH8UfJDMyfq3HXrNoskkPyVDOHp49s5mE_FuoO3KgDo4WPEOrAdxAkw6Y-\
    ZSzbf1awUBXfIZjeqcvrIWcJKDx-XKa6YXNFAyrpg2GAbCG_N0DPwsDXcJ-pPX0fhmEJgZFmVbh4Oba7vQl2biCrpjL2\
    WMU0p041w5C-_e_lbCDD84NS9DCch0c19QSMxzLDMQVHxs0p_Tjbtct7rada60I-Y4pDvQ5nkaG3_iY31w\
";
const SECOND_RSA_DER_HEX: &str = "\
    308204a30201000282010100de584be56b0eb79e56c656401414a45af3c1a5d4555fa54f033a2f342972b7e6c58d\
    593800d9715f7c4b590a2e36a1d20fe5d3060ec951351924f3c98ae24ed7614240dfc9cd7e883c56ab67459685ad\
    26dd2e98d29935f967162640874dc24eeac1899eef53952917f5d1b4e5514b7459bbce7a19ad42fb7799febf996b\
    5315bc548ceadb9a98db19ab07a0e51c779eb5ca6bd9002dae63639cc40e8475a7d8c06f329cdfbebefeced4ff29\
    31e202772e1c3e38d1296f7f85d5bea143c8864457bff141668ec986810148c13328881a3cbb4c7c56241e458734\
    f004bdfd4b4e40a9c6bee314cd5ab0d3296e5278cea4bdd7cbb4c82716aa63dff229a5d77e810203010001028201\
    0001a595f61282f3dce5b5d34c2723ec1fd6f4e9f0ecb3142ff5a940e1d01de70f1bdae9308a27d2244dd0f76d55\
    085b3e69770b671ccd5c9b45faef3df0a00e8b3f8782804fd3ec78470961ac8e9c3bd42b84cd4e5526bcaac2c2dc\
    149bb5f192c4e00b284edbabb7dfbb36b6f230fdfbfc194929300b0fa339fc8559ab21d3862adfac9a87e31c29cc\
    7a10d1f86e5a1f60bc298071cda39e207a7b36ae6f050287a195c398bf5b6c07b4da57f3e3147b33e57e478aaee2\
    73e24aa4208a0b2146737c47f8b22ab2adda5e1bb2e9036f0b2d90918dfcf3fa6abdfe2296417ab3456661e1a888\
    ebcab3df4baae24b38ef1b3326b7edb26713e138f4c02b0f82dce102818100f0b19cf226b2a3290e8bef24d7db33\
    81d5dd901a84fefb00007850d49d987bc7636faceca6ae7df160ae36ce0205bd2bf08c00cfa7be5265217d8bb2a0\
    283972653be20099fe0889dc17a609779cc57bba2b391478357839d71200de601b95e582fbaff1fd819e83f88729\
    82cb4f683f04f65589fc03952efd96b76fa391296102818100ec7bf8bf24ac12f2b0cb614fccad4dd071e0704c1f\
    89635d4584b26d7590f1b2eb1e9843fc5f2889e8e5e74304fe13ab3110fab9fcf125f5ca65fcae2c9c181a9b4a83\
    96a016f0fc5b191952718bc359f0f029ca4132e6349bd06bc9a03db4a191acf267a94bda8cf3a3ff04793f365df0\
    6e94637b7be8d31da6dbcbe524c9210281807577391134b199cf3fba2b4bdfccaaa682a94edaa26d8e31c208f5e9\
    cdbfcd28d1ee7e8640128884749a914498d8142a8d8ac61a91d2e0835a84dad8a230ff5844efa4ac867ae3cfe409\
    e68e5841ba5f57cc205f4d0b4b516f14ea379ccfd9a7d8f4dc394d6f24dd633d13953183df6c620f964f711e8e80\
    1062adc35e204a010281801352b1e9946a8705d3925aba358437a67f979235762238bf474de7727037ceb80ae42e\
    16e809327bca4ef6cd901bdea98f51cedae1a326b1e5bedd9db1c1736ac1239e8af13bcea7201e75e639a6ece86d\
    7a823fa7822c3342440e7aa42046a1291113a18ac0caf3d7789ffed2956ab0d45384c6783190bda75f99f8181a20\
    6102818100dae0a170ed42372c0fa5eb47f9d0c979f7d8bad9cf056b4273601a7aa524297e57b520cfbde708937e\
    a26d6c5c4d863ac47369a9640e9db0f67fcf10ab1f6136ba8848ec8f4018baa09af73560d33ae1d7308f7f87e571\
    a81ac4d4a235c9e25ea206c545dae1aea749df7638a8176533c1c0e6c04e388c0f046b1b9d805d0cc3\
";
const SECOND_RSA_N: &str = "\
    3lhL5WsOt55WxlZAFBSkWvPBpdRVX6VPAzovNClyt-bFjVk4ANlxX3xLWQouNqHSD-XTBg7JUTUZJPPJiuJO12FCQN_J\
    zX6IPFarZ0WWha0m3S6Y0pk1-WcWJkCHTcJO6sGJnu9TlSkX9dG05VFLdFm7znoZrUL7d5n-\
    v5lrUxW8VIzq25qY2xmrB6DlHHeetcpr2QAtrmNjnMQOhHWn2MBvMpzfvr7-\
    ztT_KTHiAncuHD440Slvf4XVvqFDyIZEV7_xQWaOyYaBAUjBMyiIGjy7THxWJB5FhzTwBL39S05Aqca-\
    4xTNWrDTKW5SeM6kvdfLtMgnFqpj3_Ippdd-gQ\
";
const EC_PKCS8_HEX: &str = "\
    308187020100301306072a8648ce3d020106082a8648ce3d030107046d306b020101042036d9397cc94bbd19e5cd\
    a9fee3f9c7b846535033bcbabad4bd477d4bc3e7e360a144034200048e6fef7d2786bd2733a8a0e2d3c586d0909c\
    1c190755bfe270af2eb3328cb14edb18a442191db68e0bb09dd862ac6481cb21c35acdf7123e2fad30aea5272c54\
";
const EC_X: &str = "jm_vfSeGvSczqKDi08WG0JCcHBkHVb_icK8uszKMsU4";
const EC_Y: &str = "2xikQhkdto4LsJ3YYqxkgcshw1rN9xI-L60wrqUnLFQ";
const JWKS_URL: &str = "http://127.0.0.1:9/.well-known/jwks.json";
const ISSUER: &str = "https://issuer.example";
const SECOND: u128 = 1_000_000_000;

fn unhex(text: &str) -> Vec<u8> {
    (0..text.len() / 2)
        .map(|i| u8::from_str_radix(&text[2 * i..2 * i + 2], 16).unwrap())
        .collect()
}

struct TestKey {
    kid: String,
    der_hex: &'static str,
    n: &'static str,
}

impl TestKey {
    fn first(kid: &str) -> Self {
        Self {
            kid: kid.to_string(),
            der_hex: FIRST_RSA_DER_HEX,
            n: FIRST_RSA_N,
        }
    }

    fn second(kid: &str) -> Self {
        Self {
            kid: kid.to_string(),
            der_hex: SECOND_RSA_DER_HEX,
            n: SECOND_RSA_N,
        }
    }

    fn jwk(&self) -> Jwk {
        Jwk {
            kid: Some(self.kid.clone()),
            kty: "RSA".to_string(),
            algorithm: Some("RS256".to_string()),
            n: Some(self.n.to_string()),
            e: Some("AQAB".to_string()),
            crv: None,
            x: None,
            y: None,
        }
    }

    fn mint(&self, claims: &Value) -> String {
        self.mint_with(jsonwebtoken::Algorithm::RS256, claims)
    }

    fn mint_with(&self, alg: jsonwebtoken::Algorithm, claims: &Value) -> String {
        let mut header = Header::new(alg);
        header.kid = Some(self.kid.clone());
        let key = EncodingKey::from_rsa_der(&unhex(self.der_hex));
        encode(&header, claims, &key).expect("sign jwt")
    }
}

fn mint_secret(kid: &str, alg: jsonwebtoken::Algorithm, claims: &Value) -> String {
    let mut header = Header::new(alg);
    header.kid = Some(kid.to_string());
    encode(&header, claims, &EncodingKey::from_secret(b"shared")).expect("sign jwt")
}

fn now_secs() -> u64 {
    SystemTime::now()
        .duration_since(UNIX_EPOCH)
        .unwrap()
        .as_secs()
}

fn object(members: Vec<(&str, Value)>) -> Value {
    let mut map = serde_json::Map::new();
    for (name, value) in members {
        map.insert(name.to_string(), value);
    }
    Value::Object(map)
}

fn valid_claims() -> Value {
    object(vec![
        ("iss", Value::from(ISSUER)),
        ("aud", Value::from("smolvm")),
        ("sub", Value::from("user-1")),
        ("exp", Value::from(now_secs() + 300)),
        ("iat", Value::from(now_secs())),
    ])
}

fn set(claims: &mut Value, name: &str, value: Value) {
    claims
        .as_object_mut()
        .unwrap()
        .insert(name.to_string(), value);
}

fn config(cache_ttl: u128) -> JwtConfig {
    JwtConfig::new(
        JWKS_URL,
        Some(ISSUER.to_string()),
        vec!["smolvm".to_string()],
        cache_ttl,
    )
    .unwrap()
}

/// An endpoint that publishes keys, with a count of how often it was asked.
struct Endpoint {
    config: JwtConfig,
    cache: JwksCache,
    published: fn() -> Vec<Jwk>,
    fetches: usize,
    now: u128,
}

impl Endpoint {
    fn new(config: JwtConfig, published: fn() -> Vec<Jwk>) -> Self {
        Self {
            config,
            cache: JwksCache::default(),
            published,
            fetches: 0,
            now: 5 * SECOND,
        }
    }

    fn request(&mut self, header: Option<&str>) -> Result<Claims, ApiError> {
        let header = header.map(|text| text.as_bytes());
        let ready = match self.config.begin(&self.cache, header, self.now)? {
            AuthStep::Verify(ready) => ready,
            AuthStep::Refresh(presented) => {
                self.fetches += 1;
                let document = JwksDocument {
                    keys: (self.published)(),
                };
                self.config
                    .refresh(&mut self.cache, JwksFetch::Document(document), self.now)?;
                self.config.resume(&self.cache, presented)?
            }
        };
        self.config.verify_token(&ready)
    }

    fn bearer(&mut self, token: &str) -> Result<Claims, ApiError> {
        self.request(Some(&format!("Bearer {}", token)))
    }
}

fn publish_first() -> Vec<Jwk> {
    vec![TestKey::first("k1").jwk()]
}

fn publish_second() -> Vec<Jwk> {
    vec![TestKey::second("k2").jwk()]
}

fn publish_nothing() -> Vec<Jwk> {
    vec![]
}

fn serving() -> Endpoint {
    Endpoint::new(config(600 * SECOND), publish_first)
}

fn message(result: Result<Claims, ApiError>) -> String {
    match result {
        Err(ApiError::Unauthorized(message)) => message,
        Err(other) => panic!("another error: {:?}", other),
        Ok(claims) => panic!("accepted: {:?}", claims),
    }
}

#[test]
fn missing_token_returns_401_with_challenge() {
    let mut endpoint = serving();
    let err = endpoint.request(None).unwrap_err();
    let reply = err.into_response();
    assert_eq!(reply.status, 401);
    let challenge = reply.www_authenticate.expect("missing WWW-Authenticate");
    assert!(challenge.starts_with("Bearer"), "got: {}", challenge);
    assert_eq!(endpoint.fetches, 0);
}

#[test]
fn valid_token_is_accepted() {
    let claims = valid_claims();
    let token = TestKey::first("k1").mint(&claims);
    let accepted = serving().bearer(&token).unwrap();
    assert_eq!(accepted.0, claims);
    assert_eq!(accepted.clone().0, claims);
}

#[test]
fn expired_token_is_rejected() {
    let mut claims = valid_claims();
    // Use an expiry well outside the default 60s leeway.
    set(&mut claims, "exp", Value::from(now_secs() - 3600));
    set(&mut claims, "iat", Value::from(now_secs() - 7200));
    let token = TestKey::first("k1").mint(&claims);
    let err = serving().bearer(&token).unwrap_err();
    assert_eq!(err.into_response().status, 401);
    assert_eq!(
        message(serving().bearer(&token)),
        "invalid token: ExpiredSignature"
    );
}

#[test]
fn expiry_has_a_minute_of_leeway() {
    let mut claims = valid_claims();
    set(&mut claims, "exp", Value::from(now_secs() - 20));
    let token = TestKey::first("k1").mint(&claims);
    assert!(serving().bearer(&token).is_ok());
}

#[test]
fn token_without_expiry_is_rejected() {
    let mut claims = valid_claims();
    claims.as_object_mut().unwrap().remove("exp");
    let token = TestKey::first("k1").mint(&claims);
    assert_eq!(
        message(serving().bearer(&token)),
        "invalid token: Missing required claim: exp"
    );
    set(&mut claims, "exp", Value::from("tomorrow"));
    let token = TestKey::first("k1").mint(&claims);
    assert!(serving().bearer(&token).is_err());
}

#[test]
fn wrong_issuer_is_rejected() {
    let mut claims = valid_claims();
    set(&mut claims, "iss", Value::from("https://attacker.example"));
    let token = TestKey::first("k1").mint(&claims);
    let err = serving().bearer(&token).unwrap_err();
    assert_eq!(err.into_response().status, 401);
    assert_eq!(
        message(serving().bearer(&token)),
        "invalid token: InvalidIssuer"
    );
}

#[test]
fn issuer_list_must_name_the_issuer() {
    let mut claims = valid_claims();
    let names = vec![Value::from("https://other.example"), Value::from(ISSUER)];
    set(&mut claims, "iss", Value::Array(names));
    let token = TestKey::first("k1").mint(&claims);
    assert!(serving().bearer(&token).is_ok());
    let names = vec![Value::from("https://other.example")];
    set(&mut claims, "iss", Value::Array(names));
    let token = TestKey::first("k1").mint(&claims);
    assert!(serving().bearer(&token).is_err());
}

#[test]
fn wrong_audience_is_rejected() {
    let mut claims = valid_claims();
    set(&mut claims, "aud", Value::from("another"));
    let token = TestKey::first("k1").mint(&claims);
    assert_eq!(
        message(serving().bearer(&token)),
        "invalid token: InvalidAudience"
    );
    set(
        &mut claims,
        "aud",
        Value::Array(vec![Value::from("another"), Value::from("smolvm")]),
    );
    let token = TestKey::first("k1").mint(&claims);
    assert!(serving().bearer(&token).is_ok());
}

#[test]
fn audience_and_issuer_count_only_when_set() {
    let open = JwtConfig::new(JWKS_URL, None, vec![], 600 * SECOND).unwrap();
    let mut endpoint = Endpoint::new(open, publish_first);
    let mut claims = valid_claims();
    set(&mut claims, "aud", Value::from("another"));
    set(&mut claims, "iss", Value::from("https://attacker.example"));
    let token = TestKey::first("k1").mint(&claims);
    assert_eq!(endpoint.bearer(&token).unwrap().0, claims);
}

#[test]
fn unsetting_checks_keeps_tokens_accepted() {
    let issuer = || Some(ISSUER.to_string());
    let audiences = || vec!["smolvm".to_string()];
    let mut unnamed = valid_claims();
    unnamed.as_object_mut().unwrap().remove("iss");
    unnamed.as_object_mut().unwrap().remove("aud");
    for claims in [valid_claims(), unnamed] {
        let token = TestKey::first("k1").mint(&claims);
        for (issuer, audiences) in [
            (issuer(), audiences()),
            (None, audiences()),
            (issuer(), vec![]),
            (None, vec![]),
        ] {
            let config = JwtConfig::new(JWKS_URL, issuer, audiences, 600 * SECOND).unwrap();
            let mut endpoint = Endpoint::new(config, publish_first);
            assert_eq!(endpoint.bearer(&token).unwrap().0, claims);
        }
    }
}

#[test]
fn refusals_without_checks_are_refusals_with_any() {
    let mut claims = valid_claims();
    set(&mut claims, "exp", Value::from(now_secs() - 3600));
    set(&mut claims, "iss", Value::from("https://attacker.example"));
    set(&mut claims, "aud", Value::from("another"));
    let token = TestKey::first("k1").mint(&claims);
    let open = JwtConfig::new(JWKS_URL, None, vec![], 600 * SECOND).unwrap();
    let refusal = message(Endpoint::new(open, publish_first).bearer(&token));
    assert_eq!(refusal, "invalid token: ExpiredSignature");
    assert_eq!(message(serving().bearer(&token)), refusal);
}

#[test]
fn fitting_tokens_are_accepted() {
    let list = |names: &[&str]| Value::Array(names.iter().map(|name| Value::from(*name)).collect());
    for (iss, aud) in [
        (Value::from(ISSUER), Value::from("smolvm")),
        (list(&["https://other.example", ISSUER]), list(&["smolvm"])),
        (Value::from(7), Value::Null),
    ] {
        let mut claims = valid_claims();
        set(&mut claims, "iss", iss);
        set(&mut claims, "aud", aud);
        let token = TestKey::first("k1").mint(&claims);
        let open = JwtConfig::new(JWKS_URL, None, vec![], 600 * SECOND).unwrap();
        let mut endpoint = Endpoint::new(open, publish_first);
        assert_eq!(endpoint.bearer(&token).unwrap().0, claims);
        assert_eq!(serving().bearer(&token).unwrap().0, claims);
    }
}

#[test]
fn misfits_are_refused() {
    for (name, value, refusal) in [
        ("iss", Value::Array(vec![]), "invalid token: InvalidIssuer"),
        ("aud", Value::Array(vec![]), "invalid token: InvalidAudience"),
        (
            "exp",
            Value::from((now_secs() + 300).to_string()),
            "invalid token: Missing required claim: exp",
        ),
    ] {
        let mut claims = valid_claims();
        set(&mut claims, name, value);
        let token = TestKey::first("k1").mint(&claims);
        let err = serving().bearer(&token).unwrap_err();
        assert_eq!(err.into_response().status, 401);
        assert_eq!(message(serving().bearer(&token)), refusal);
    }
}

#[test]
fn unsigned_tokens_are_rejected() {
    let header = object(vec![
        ("alg", Value::from("none")),
        ("kid", Value::from("k1")),
    ]);
    let token = format!(
        "{}.{}.",
        URL_SAFE_NO_PAD.encode(header.to_string()),
        URL_SAFE_NO_PAD.encode(valid_claims().to_string())
    );
    let refusal = message(serving().bearer(&token));
    assert!(refusal.starts_with("malformed token header: JSON error: "));

    let signed = TestKey::first("k1").mint(&valid_claims());
    let stripped = &signed[..signed.rfind('.').unwrap() + 1];
    assert_eq!(
        message(serving().bearer(stripped)),
        "invalid token: InvalidSignature"
    );
}

#[test]
fn unknown_kid_triggers_jwks_refresh_and_succeeds() {
    // Long TTL: refresh must be triggered by the unknown `kid`, not by expiry.
    let mut endpoint = Endpoint::new(config(3600 * SECOND), publish_first);

    // Warm the cache with k1.
    let token1 = TestKey::first("k1").mint(&valid_claims());
    assert!(endpoint.bearer(&token1).is_ok());
    assert_eq!(endpoint.fetches, 1);
    assert!(endpoint.bearer(&token1).is_ok());
    assert_eq!(endpoint.fetches, 1);

    // Rotate: JWKS now serves k2 instead of k1.
    endpoint.published = publish_second;

    let token2 = TestKey::second("k2").mint(&valid_claims());
    assert!(endpoint.bearer(&token2).is_ok());
    assert_eq!(endpoint.fetches, 2);

    // k1 is gone now.
    assert_eq!(
        message(endpoint.bearer(&token1)),
        "signing key not found for kid k1"
    );
    assert_eq!(endpoint.fetches, 3);
}

#[test]
fn stale_cache_is_fetched_again() {
    let mut endpoint = Endpoint::new(config(600 * SECOND), publish_first);
    let token = TestKey::first("k1").mint(&valid_claims());
    assert!(endpoint.bearer(&token).is_ok());
    endpoint.now += 600 * SECOND;
    assert!(endpoint.bearer(&token).is_ok());
    assert_eq!(endpoint.fetches, 1);
    endpoint.now += 1;
    endpoint.published = publish_nothing;
    assert_eq!(
        message(endpoint.bearer(&token)),
        "signing key not found for kid k1"
    );
    assert_eq!(endpoint.fetches, 2);
}

#[test]
fn other_key_under_the_same_kid_is_rejected() {
    let token = TestKey::second("k1").mint(&valid_claims());
    assert_eq!(
        message(serving().bearer(&token)),
        "invalid token: InvalidSignature"
    );
}

#[test]
fn altered_claims_are_rejected() {
    let token = TestKey::first("k1").mint(&valid_claims());
    let mut claims = valid_claims();
    set(&mut claims, "sub", Value::from("user-2"));
    let other = TestKey::first("k1").mint(&claims);
    let parts: Vec<&str> = token.split('.').collect();
    let others: Vec<&str> = other.split('.').collect();
    let mixed = format!("{}.{}.{}", parts[0], others[1], parts[2]);
    assert_eq!(
        message(serving().bearer(&mixed)),
        "invalid token: InvalidSignature"
    );
}

#[test]
fn symmetric_tokens_are_rejected() {
    let token = mint_secret("k1", jsonwebtoken::Algorithm::HS256, &valid_claims());
    assert_eq!(
        message(serving().bearer(&token)),
        "symmetric algorithms are not accepted"
    );
    let token = mint_secret("k1", jsonwebtoken::Algorithm::HS384, &valid_claims());
    assert_eq!(
        message(serving().bearer(&token)),
        "token alg HS384 does not match key alg RS256"
    );
    let token = mint_secret("k1", jsonwebtoken::Algorithm::HS512, &valid_claims());
    assert_eq!(
        message(serving().bearer(&token)),
        "token alg HS512 does not match key alg RS256"
    );
}

#[test]
fn algorithm_must_be_the_key_s() {
    let token = TestKey::first("k1").mint_with(jsonwebtoken::Algorithm::PS384, &valid_claims());
    assert_eq!(
        message(serving().bearer(&token)),
        "token alg PS384 does not match key alg RS256"
    );
}

#[test]
fn every_rsa_algorithm_verifies() {
    let cases = [
        (jsonwebtoken::Algorithm::RS256, "RS256"),
        (jsonwebtoken::Algorithm::RS384, "RS384"),
        (jsonwebtoken::Algorithm::RS512, "RS512"),
        (jsonwebtoken::Algorithm::PS256, "PS256"),
        (jsonwebtoken::Algorithm::PS384, "PS384"),
        (jsonwebtoken::Algorithm::PS512, "PS512"),
    ];
    for (alg, name) in cases {
        let mut endpoint = serving();
        let mut jwk = TestKey::first("k1").jwk();
        jwk.algorithm = Some(name.to_string());
        let document = JwksFetch::Document(JwksDocument { keys: vec![jwk] });
        endpoint
            .config
            .refresh(&mut endpoint.cache, document, endpoint.now)
            .unwrap();
        let token = TestKey::first("k1").mint_with(alg, &valid_claims());
        assert!(endpoint.bearer(&token).is_ok(), "{}", name);
        assert_eq!(endpoint.fetches, 0);
    }
}

fn publish_ec() -> Vec<Jwk> {
    vec![Jwk {
        kid: Some("ec".to_string()),
        kty: "EC".to_string(),
        algorithm: None,
        n: None,
        e: None,
        crv: Some("P-256".to_string()),
        x: Some(EC_X.to_string()),
        y: Some(EC_Y.to_string()),
    }]
}

#[test]
fn elliptic_curve_tokens_are_accepted() {
    let mut header = Header::new(jsonwebtoken::Algorithm::ES256);
    header.kid = Some("ec".to_string());
    let key = EncodingKey::from_ec_der(&unhex(EC_PKCS8_HEX));
    let token = encode(&header, &valid_claims(), &key).expect("sign jwt");
    let mut endpoint = Endpoint::new(config(SECOND), publish_ec);
    assert_eq!(
        endpoint.bearer(&token).unwrap().0["sub"],
        Value::from("user-1")
    );
}

#[test]
fn token_header_must_be_readable_and_name_a_key() {
    let mut endpoint = serving();
    assert_eq!(
        message(endpoint.bearer("not-a-token")),
        "malformed token header: InvalidToken"
    );
    let header = Header::new(jsonwebtoken::Algorithm::RS256);
    let key = EncodingKey::from_rsa_der(&unhex(FIRST_RSA_DER_HEX));
    let token = encode(&header, &valid_claims(), &key).expect("sign jwt");
    assert_eq!(
        message(endpoint.bearer(&token)),
        "token header missing 'kid'"
    );
    assert_eq!(endpoint.fetches, 0);
}
