//! Issuing and checking tokens.

use axum_login::claims::{read_claims, Claims, TokenKind};
use axum_login::clock::{now_unix, unix_timestamp};
use axum_login::jwt::accept_claims;
use axum_login::{AuthUser, JwtConfig, JwtError, TokenUser, DEFAULT_JWT_COOKIE_NAME};
use jsonwebtoken::Algorithm;
use serde_json::Value;
use std::time::{Duration, UNIX_EPOCH};

#[derive(Debug, Clone, PartialEq)]
struct User {
    id: i64,
    name: String,
    pw_hash: Vec<u8>,
}

fn object(members: Vec<(&str, Value)>) -> Value {
    let mut map: serde_json::Map<String, Value> = serde_json::Map::new();
    for (name, value) in members {
        map.insert(name.to_string(), value);
    }
    Value::Object(map)
}

impl AuthUser for User {
    type Id = i64;

    fn id(&self) -> i64 {
        self.id
    }

    fn session_auth_hash(&self) -> &[u8] {
        &self.pw_hash
    }
}

impl TokenUser for User {
    fn subject(&self) -> Result<Value, serde_json::Error> {
        Ok(Value::from(self.id))
    }

    fn parse_subject(subject: Option<&Value>) -> Option<i64> {
        subject?.as_i64()
    }

    // The hash never lands in the claims.
    fn to_claims(&self) -> Value {
        object(vec![
            ("id", Value::from(self.id)),
            ("name", Value::from(self.name.as_str())),
        ])
    }

    fn from_claims(claims: &Value) -> Option<User> {
        Some(User {
            id: claims.get("id")?.as_i64()?,
            name: claims.get("name")?.as_str()?.to_string(),
            pw_hash: Vec::new(),
        })
    }
}

fn alice() -> User {
    User {
        id: 42,
        name: "alice".to_string(),
        pw_hash: vec![],
    }
}

fn config() -> JwtConfig {
    JwtConfig::from_secret(b"test-secret")
}

fn alice_claims(iat: u64, exp: u64, typ: TokenKind) -> Claims {
    Claims {
        sub: Value::from(42),
        iat,
        exp,
        typ,
        user: alice().to_claims(),
    }
}

#[test]
fn encode_decode_round_trip() {
    let cfg = config();
    let user = User {
        id: 42,
        name: "alice".to_string(),
        pw_hash: vec![1, 2, 3],
    };

    let token = cfg.encode(&user).unwrap();
    let decoded: User = cfg.decode(&token).unwrap();

    assert_eq!(decoded.id, 42);
    assert_eq!(decoded.name, "alice");
    // The sensitive field was skipped and comes back as default.
    assert!(decoded.pw_hash.is_empty());
}

#[test]
fn decode_rejects_tampered_token() {
    let cfg = config();
    let user = User {
        id: 42,
        name: "alice".to_string(),
        pw_hash: vec![],
    };

    let mut token = cfg.encode(&user).unwrap();
    token.push('x'); // Corrupt the signature segment.

    assert!(cfg.decode::<User>(&token).is_none());
}

#[test]
fn decode_rejects_wrong_secret() {
    let user = User {
        id: 42,
        name: "alice".to_string(),
        pw_hash: vec![],
    };
    let token = config().encode(&user).unwrap();

    let other = JwtConfig::from_secret(b"different-secret");
    assert!(other.decode::<User>(&token).is_none());
}

#[test]
fn should_refresh_only_in_last_third() {
    let cfg = config();
    let now = now_unix();

    // Lifetime 90s: refresh once remaining <= 30s (last third).
    assert!(cfg.should_refresh(now - 60, now + 30)); // remaining 30 == 1/3
    assert!(cfg.should_refresh(now - 80, now + 10)); // remaining 10
    assert!(!cfg.should_refresh(now - 45, now + 45)); // remaining 45 > 1/3
    assert!(!cfg.should_refresh(now, now + 90)); // fresh
}

#[test]
fn should_refresh_respects_toggle_and_bad_bounds() {
    let now = now_unix();
    // Disabled.
    assert!(!config()
        .with_sliding_refresh(false)
        .should_refresh(now - 60, now + 30));
    // Degenerate exp <= iat.
    assert!(!config().should_refresh(now, now));
}

#[test]
fn refresh_starts_a_third_before_expiry() {
    let cfg = config();
    assert!(!cfg.should_refresh_at(1000, 1090, 1059));
    assert!(cfg.should_refresh_at(1000, 1090, 1060));
    assert!(cfg.should_refresh_at(1000, 1090, 1089));
    assert!(!cfg.should_refresh_at(1000, 1090, 1090));
    assert!(!cfg.should_refresh_at(1000, 1090, 1000));
    assert!(!cfg.should_refresh_at(1000, 1000, 900));
    // A lifetime that is no multiple of three: 100 / 3 is 33.
    assert!(!cfg.should_refresh_at(0, 100, 66));
    assert!(cfg.should_refresh_at(0, 100, 67));
    // The longest lifetime there is.
    assert!(!cfg.should_refresh_at(0, u64::MAX, 0));
    assert!(cfg.should_refresh_at(0, u64::MAX, u64::MAX - 1));
    assert!(!cfg
        .with_sliding_refresh(false)
        .should_refresh_at(1000, 1090, 1060));
}

#[test]
fn defaults_of_a_shared_secret() {
    let cfg = config();
    assert_eq!(cfg.algorithm, Algorithm::HS256);
    assert_eq!(cfg.validation.leeway, 0);
    assert_eq!(cfg.validation.reject_tokens_expiring_in_less_than, 1);
    assert_eq!(cfg.ttl, Duration::from_secs(86_400));
    assert_eq!(cfg.cookie_name, DEFAULT_JWT_COOKIE_NAME);
    assert_eq!(cfg.path, "/");
    assert!(cfg.secure);
    assert!(cfg.sliding_refresh);
    assert!(!cfg.refresh_enabled);
    assert_eq!(cfg.refresh_ttl, Duration::from_secs(604_800));
    assert_eq!(cfg.refresh_cookie_name, "auth.refresh");
    assert_eq!(cfg.refresh_path, "/");
}

#[test]
fn builders_set_one_field_each() {
    let cfg = config()
        .with_ttl(Duration::from_secs(60))
        .with_cookie_name("a")
        .with_path("/a".to_string())
        .with_secure(false)
        .with_sliding_refresh(false)
        .with_refresh_enabled(true)
        .with_refresh_ttl(Duration::from_secs(120))
        .with_refresh_cookie_name("b")
        .with_refresh_path("/b");
    let copy = cfg.clone();
    for c in [&cfg, &copy] {
        assert_eq!(c.ttl, Duration::from_secs(60));
        assert_eq!(c.cookie_name, "a");
        assert_eq!(c.path, "/a");
        assert!(!c.secure);
        assert!(!c.sliding_refresh);
        assert!(c.refresh_enabled);
        assert_eq!(c.refresh_ttl, Duration::from_secs(120));
        assert_eq!(c.refresh_cookie_name, "b");
        assert_eq!(c.refresh_path, "/b");
    }
    let token = copy.encode(&alice()).unwrap();
    assert_eq!(cfg.decode::<User>(&token), Some(alice()));
}

#[test]
fn kinds_of_tokens_do_not_mix() {
    let cfg = config();
    let access = cfg.encode(&alice()).unwrap();
    let refresh = cfg.encode_refresh(&alice()).unwrap();
    assert!(cfg.decode_kind::<User>(&access, TokenKind::Access).is_some());
    assert!(cfg.decode_kind::<User>(&access, TokenKind::Refresh).is_none());
    assert!(cfg.decode_kind::<User>(&refresh, TokenKind::Refresh).is_some());
    assert!(cfg.decode_kind::<User>(&refresh, TokenKind::Access).is_none());
    assert!(cfg.decode::<User>(&refresh).is_none());
}

#[test]
fn decoding_gives_the_times_back() {
    let cfg = config().with_ttl(Duration::from_secs(90));
    let before = now_unix();
    let token = cfg.encode(&alice()).unwrap();
    let after = now_unix();
    let (user, iat, exp) = cfg.decode_kind::<User>(&token, TokenKind::Access).unwrap();
    assert_eq!(user, alice());
    assert!(before <= iat && iat <= after);
    assert_eq!(exp, iat + 90);

    let now = now_unix();
    let token = cfg
        .sign_claims(alice_claims(now - 7, now + 1000, TokenKind::Refresh))
        .unwrap();
    assert_eq!(
        cfg.decode_kind::<User>(&token, TokenKind::Refresh),
        Some((alice(), now - 7, now + 1000))
    );
}

#[test]
fn expiry_stops_at_the_last_timestamp() {
    let cfg = config();
    let token = cfg
        .encode_at(
            alice().subject(),
            alice().to_claims(),
            TokenKind::Access,
            Duration::from_secs(10),
            u64::MAX - 5,
        )
        .unwrap();
    let (_, iat, exp) = cfg.decode_kind::<User>(&token, TokenKind::Access).unwrap();
    assert_eq!(iat, u64::MAX - 5);
    assert_eq!(exp, u64::MAX);
}

#[test]
fn expired_token_is_rejected() {
    let cfg = config();
    let now = now_unix();
    // 30 s ago, and this very second.
    for exp in [now - 30, now] {
        let past = cfg
            .sign_claims(alice_claims(now - 1000, exp, TokenKind::Access))
            .unwrap();
        assert!(cfg.decode::<User>(&past).is_none());
    }
    let valid = cfg
        .sign_claims(alice_claims(now - 1000, now + 30, TokenKind::Access))
        .unwrap();
    assert_eq!(cfg.decode::<User>(&valid), Some(alice()));
    let past = cfg
        .with_ttl(Duration::from_secs(0))
        .encode(&alice())
        .unwrap();
    assert!(config().decode::<User>(&past).is_none());
}

#[test]
fn leeway_can_be_allowed() {
    let mut cfg = config();
    cfg.validation.leeway = 60;
    let now = now_unix();
    let within = cfg
        .sign_claims(alice_claims(now - 1000, now - 30, TokenKind::Access))
        .unwrap();
    assert_eq!(cfg.decode::<User>(&within), Some(alice()));
    let past = cfg
        .sign_claims(alice_claims(now - 1000, now - 200, TokenKind::Access))
        .unwrap();
    assert!(cfg.decode::<User>(&past).is_none());
}

#[test]
fn same_subject_and_view_give_the_same_token() {
    let cfg = config();
    let mut other = alice();
    other.pw_hash = vec![1, 2, 3];
    let token = |user: &User| {
        cfg.encode_at(
            user.subject(),
            user.to_claims(),
            TokenKind::Access,
            Duration::from_secs(10),
            1000,
        )
        .unwrap()
    };
    assert_eq!(token(&alice()), token(&other));
    other.id = 43;
    assert_ne!(token(&alice()), token(&other));
}

#[derive(Debug, Clone, PartialEq)]
struct Guest(Option<i64>);

impl AuthUser for Guest {
    type Id = Option<i64>;

    fn id(&self) -> Option<i64> {
        self.0
    }

    fn session_auth_hash(&self) -> &[u8] {
        &[]
    }
}

impl TokenUser for Guest {
    fn subject(&self) -> Result<Value, serde_json::Error> {
        Ok(Value::from(self.0))
    }

    fn parse_subject(subject: Option<&Value>) -> Option<Option<i64>> {
        match subject {
            None | Some(Value::Null) => Some(None),
            Some(id) => id.as_i64().map(Some),
        }
    }

    fn to_claims(&self) -> Value {
        Value::from(self.0)
    }

    fn from_claims(claims: &Value) -> Option<Guest> {
        Some(Guest(claims.as_i64()))
    }
}

#[test]
fn subject_may_be_missing_where_the_id_is_optional() {
    let json = object(vec![
        ("iat", Value::from(5u64)),
        ("exp", Value::from(7u64)),
        ("typ", Value::from("access")),
        ("user", Value::Null),
    ]);
    assert_eq!(
        accept_claims::<Guest>(&Some(json.clone()), TokenKind::Access),
        Some((Guest(None), 5, 7))
    );
    assert_eq!(accept_claims::<User>(&Some(json), TokenKind::Access), None);
    let token = config().encode(&Guest(None)).unwrap();
    assert_eq!(config().decode::<Guest>(&token), Some(Guest(None)));
}

#[test]
fn kind_may_be_an_object_with_a_null() {
    let kind = |members: Vec<(&str, Value)>| TokenKind::from_json(&object(members));
    assert_eq!(kind(vec![("access", Value::Null)]), Some(TokenKind::Access));
    assert_eq!(
        kind(vec![("refresh", Value::Null)]),
        Some(TokenKind::Refresh)
    );
    assert_eq!(kind(vec![("other", Value::Null)]), None);
    assert_eq!(kind(vec![("access", Value::from(1))]), None);
    assert_eq!(
        kind(vec![("access", Value::Null), ("refresh", Value::Null)]),
        None
    );
    assert_eq!(kind(vec![]), None);
    assert_eq!(TokenKind::from_json(&Value::Null), None);
    assert_eq!(
        TokenKind::from_json(&Value::from("access")),
        Some(TokenKind::Access)
    );
}

#[test]
fn errors_have_a_form_in_the_signing_crate() {
    let error = config().encode(&Nameless).unwrap_err().into_token_error();
    assert!(matches!(
        error.kind(),
        jsonwebtoken::errors::ErrorKind::Json(_)
    ));
    let mut cfg = config();
    cfg.algorithm = Algorithm::ES256;
    let error = cfg.encode(&alice()).unwrap_err().into_token_error();
    assert!(matches!(
        error.kind(),
        jsonwebtoken::errors::ErrorKind::InvalidAlgorithm
    ));
}

#[test]
fn usable_keys_are_told_from_others() {
    let mut cfg = config();
    assert!(cfg.can_check());
    assert!(!cfg.has_rsa_key());
    cfg.validation.leeway = 1_700_000_001;
    assert!(!cfg.can_check());
    cfg.validation.leeway = 1_700_000_000;
    assert!(cfg.can_check());
    cfg.decoding_key = jsonwebtoken::DecodingKey::from_ed_der(&[1; 31]);
    assert!(!cfg.can_check());
    cfg.decoding_key = jsonwebtoken::DecodingKey::from_ed_der(&[1; 32]);
    assert!(cfg.can_check());
    cfg.encoding_key = jsonwebtoken::EncodingKey::from_rsa_der(&[1; 8]);
    assert!(cfg.has_rsa_key());
}

#[test]
fn names_can_be_given_in_several_forms() {
    let owned = "abc".to_string();
    let texts = [
        config().with_path("abc").path,
        config().with_path(&owned).path,
        config().with_path(owned.clone().as_mut_str()).path,
        config().with_path(owned.clone().into_boxed_str()).path,
        config().with_path(std::borrow::Cow::Borrowed("abc")).path,
        config()
            .with_path(std::borrow::Cow::<str>::Owned(owned.clone()))
            .path,
        config().with_path(owned).path,
    ];
    assert!(texts.iter().all(|text| text == "abc"));
    assert_eq!(config().with_path('/').path, "/");
}

#[test]
fn token_is_compact() {
    let token = config().encode(&alice()).unwrap();
    assert_eq!(token.split('.').count(), 3);
    assert!(token
        .chars()
        .all(|c| c.is_ascii_alphanumeric() || c == '-' || c == '_' || c == '.'));
}

#[test]
fn malformed_tokens_are_rejected() {
    let cfg = config();
    assert!(cfg.decode::<User>("").is_none());
    assert!(cfg.decode::<User>("a.b").is_none());
    assert!(cfg.decode::<User>("not-a-valid-token").is_none());
}

#[test]
fn composite_subject_is_not_accepted() {
    let cfg = config();
    let now = now_unix();
    let mut claims = alice_claims(now, now + 100, TokenKind::Access);
    claims.sub = Value::Array(vec![Value::from(42)]);
    let token = cfg.sign_claims(claims).unwrap();
    assert!(cfg.decode::<User>(&token).is_none());
}

#[test]
fn view_nested_too_deep_is_not_read_back() {
    let cfg = config();
    let now = now_unix();
    let mut claims = alice_claims(now, now + 100, TokenKind::Access);
    for _ in 0..200 {
        claims.user = Value::Array(vec![claims.user]);
    }
    let token = cfg.sign_claims(claims).unwrap();
    assert!(cfg.decode::<User>(&token).is_none());
}

#[test]
fn subject_and_view_have_to_be_the_users() {
    let cfg = config();
    let now = now_unix();
    let mut claims = alice_claims(now, now + 100, TokenKind::Access);
    claims.sub = Value::from("alice");
    let token = cfg.sign_claims(claims).unwrap();
    assert!(cfg.decode::<User>(&token).is_none());

    let mut claims = alice_claims(now, now + 100, TokenKind::Access);
    claims.user = Value::Null;
    let token = cfg.sign_claims(claims).unwrap();
    assert!(cfg.decode::<User>(&token).is_none());
}

#[derive(Debug, Clone)]
struct Nameless;

impl AuthUser for Nameless {
    type Id = ();

    fn id(&self) {}

    fn session_auth_hash(&self) -> &[u8] {
        &[]
    }
}

impl TokenUser for Nameless {
    fn subject(&self) -> Result<Value, serde_json::Error> {
        Err(serde_json::from_str::<Value>("{").unwrap_err())
    }

    fn parse_subject(_: Option<&Value>) -> Option<()> {
        None
    }

    fn to_claims(&self) -> Value {
        Value::Null
    }

    fn from_claims(_: &Value) -> Option<Nameless> {
        None
    }
}

#[test]
fn user_without_a_json_id_gets_no_token() {
    assert!(matches!(
        config().encode(&Nameless),
        Err(JwtError::Json(_))
    ));
}

#[test]
fn key_of_another_family_does_not_sign() {
    for algorithm in [Algorithm::ES256, Algorithm::RS256, Algorithm::EdDSA] {
        let mut cfg = config();
        cfg.algorithm = algorithm;
        assert!(matches!(cfg.encode(&alice()), Err(JwtError::Jwt(_))));
    }
}

#[test]
fn longer_hmac_algorithms_sign_too() {
    for algorithm in [Algorithm::HS384, Algorithm::HS512] {
        let mut cfg = config();
        cfg.algorithm = algorithm;
        cfg.validation = jsonwebtoken::Validation::new(algorithm);
        let token = cfg.encode(&alice()).unwrap();
        assert_eq!(cfg.decode::<User>(&token), Some(alice()));
        assert!(config().decode::<User>(&token).is_none());
    }
}

#[test]
fn claims_have_their_json_form() {
    let json = alice_claims(5, 7, TokenKind::Refresh).into_json();
    assert_eq!(
        json,
        object(vec![
            ("sub", Value::from(42)),
            ("iat", Value::from(5u64)),
            ("exp", Value::from(7u64)),
            ("typ", Value::from("refresh")),
            ("user", alice().to_claims()),
        ])
    );
    let claims = read_claims(&json).unwrap();
    assert_eq!(claims.sub, Some(&Value::from(42)));
    assert_eq!(claims.iat, 5);
    assert_eq!(claims.exp, 7);
    assert_eq!(claims.typ, TokenKind::Refresh);
    assert_eq!(claims.user, &alice().to_claims());
}

#[test]
fn incomplete_claims_are_not_read() {
    let whole = alice_claims(5, 7, TokenKind::Access).into_json();
    assert!(read_claims(&whole).is_some());
    for name in ["iat", "exp", "typ", "user"] {
        let mut map = whole.as_object().unwrap().clone();
        map.remove(name);
        assert!(read_claims(&Value::Object(map)).is_none());
    }
    let mut map = whole.as_object().unwrap().clone();
    map.remove("sub");
    let json = Value::Object(map);
    assert!(read_claims(&json).unwrap().sub.is_none());
    assert_eq!(accept_claims::<User>(&Some(json), TokenKind::Access), None);
    for (name, value) in [
        ("iat", Value::from(-1)),
        ("exp", Value::from("7")),
        ("typ", Value::from("Access")),
        ("typ", Value::from(1)),
    ] {
        let mut map = whole.as_object().unwrap().clone();
        map.insert(name.to_string(), value);
        assert!(read_claims(&Value::Object(map)).is_none());
    }
    let mut map = whole.as_object().unwrap().clone();
    map.insert("more".to_string(), Value::Null);
    assert!(read_claims(&Value::Object(map)).is_some());
    assert!(read_claims(&Value::Null).is_none());
}

#[test]
fn accepted_claims_are_of_the_expected_kind() {
    let json = Some(alice_claims(5, 7, TokenKind::Access).into_json());
    assert_eq!(
        accept_claims::<User>(&json, TokenKind::Access),
        Some((alice(), 5, 7))
    );
    assert_eq!(accept_claims::<User>(&json, TokenKind::Refresh), None);
    assert_eq!(accept_claims::<User>(&None, TokenKind::Access), None);
    assert_eq!(
        accept_claims::<User>(&Some(Value::Null), TokenKind::Access),
        None
    );
}

#[test]
fn kinds_have_names() {
    assert_eq!(TokenKind::Access.name(), "access");
    assert_eq!(TokenKind::Refresh.name(), "refresh");
    assert_eq!(TokenKind::from_name("access"), Some(TokenKind::Access));
    assert_eq!(TokenKind::from_name("refresh"), Some(TokenKind::Refresh));
    assert_eq!(TokenKind::from_name("Refresh"), None);
    assert_eq!(TokenKind::from_name(""), None);
}

#[test]
fn timestamps_are_whole_seconds() {
    assert_eq!(unix_timestamp(&UNIX_EPOCH), 0);
    assert_eq!(
        unix_timestamp(&(UNIX_EPOCH + Duration::from_millis(5999))),
        5
    );
    assert_eq!(unix_timestamp(&(UNIX_EPOCH - Duration::from_secs(5))), 0);
    // January 2024.
    assert!(now_unix() > 1_704_067_200);
}

#[test]
fn last_part_of_a_token_is_the_code_of_the_others() {
    for (algorithm, length) in [
        (Algorithm::HS256, 43),
        (Algorithm::HS384, 64),
        (Algorithm::HS512, 86),
    ] {
        let mut cfg = config();
        cfg.algorithm = algorithm;
        let token = cfg.encode(&alice()).unwrap();
        let (message, code) = token.rsplit_once('.').unwrap();
        assert_eq!(message.split('.').count(), 2);
        assert_eq!(code.len(), length);
        let made = jsonwebtoken::crypto::sign(message.as_bytes(), &cfg.encoding_key, algorithm);
        assert_eq!(made.unwrap(), code);
        let key = &cfg.decoding_key;
        assert!(jsonwebtoken::crypto::verify(code, message.as_bytes(), key, algorithm).unwrap());
    }
}

#[test]
fn changed_tokens_are_rejected() {
    let cfg = config();
    let token = cfg.encode(&alice()).unwrap();
    assert!(cfg.decode::<User>(&token).is_some());
    for more in ["x", ".", ".x", "=", " ", "\u{e9}"] {
        assert!(cfg.decode::<User>(&format!("{token}{more}")).is_none());
    }
    let parts: Vec<&str> = token.split('.').collect();
    let other = cfg
        .encode(&User {
            id: 1,
            ..alice()
        })
        .unwrap();
    let other: Vec<&str> = other.split('.').collect();
    // The payload of one token under the code of another.
    let mixed = format!("{}.{}.{}", parts[0], other[1], parts[2]);
    assert!(cfg.decode::<User>(&mixed).is_none());
    // The code of another token, one that is cut short, and none.
    for code in [other[2], &parts[2][1..], ""] {
        let mixed = format!("{}.{}.{}", parts[0], parts[1], code);
        assert!(cfg.decode::<User>(&mixed).is_none());
    }
    // A part too few, and one too many.
    assert!(cfg
        .decode::<User>(&format!("{}.{}", parts[0], parts[1]))
        .is_none());
    assert!(cfg
        .decode::<User>(&format!("{}.{token}", parts[0]))
        .is_none());
}

#[test]
fn token_of_another_algorithm_is_rejected() {
    let mut other = config();
    other.algorithm = Algorithm::HS512;
    let token = other.encode(&alice()).unwrap();
    assert!(config().decode::<User>(&token).is_none());
}

fn bytes(hex: &str) -> Vec<u8> {
    (0..hex.len() / 2)
        .map(|i| u8::from_str_radix(&hex[2 * i..2 * i + 2], 16).unwrap())
        .collect()
}

/// A configuration with the key pair whose private number is 1, on the curve P-256.
fn elliptic() -> JwtConfig {
    let private = bytes(
        "3041020100301306072a8648ce3d020106082a8648ce3d0301070427302502010104200000000000000000\
         000000000000000000000000000000000000000000000001",
    );
    let public = bytes(
        "046b17d1f2e12c4247f8bce6e563a440f277037d812deb33a0f4a13945d898c2964fe342e2fe1a7f9b8ee7\
         eb4a7c0f9e162bce33576b315ececbb6406837bf51f5",
    );
    let mut cfg = config();
    cfg.algorithm = Algorithm::ES256;
    cfg.validation = jsonwebtoken::Validation::new(Algorithm::ES256);
    cfg.encoding_key = jsonwebtoken::EncodingKey::from_ec_der(&private);
    cfg.decoding_key = jsonwebtoken::DecodingKey::from_ec_der(&public);
    cfg
}

/// A configuration with the first key pair of the test vectors for Ed25519.
fn edwards() -> JwtConfig {
    let private = bytes(
        "302e020100300506032b6570042204209d61b19deffd5a60ba844af492ec2cc44449c5697b326919703bac\
         031cae7f60",
    );
    let public = bytes("d75a980182b10ab7d54bfed3c964073a0ee172f3daa62325af021a68f707511a");
    let mut cfg = config();
    cfg.algorithm = Algorithm::EdDSA;
    cfg.validation = jsonwebtoken::Validation::new(Algorithm::EdDSA);
    cfg.encoding_key = jsonwebtoken::EncodingKey::from_ed_der(&private);
    cfg.decoding_key = jsonwebtoken::DecodingKey::from_ed_der(&public);
    cfg
}

#[test]
fn key_pairs_sign_and_check() {
    for cfg in [elliptic(), edwards()] {
        assert!(cfg.can_check());
        assert!(!cfg.has_rsa_key());
        let token = cfg.encode(&alice()).unwrap();
        assert_eq!(cfg.decode::<User>(&token), Some(alice()));
        assert!(cfg.decode::<User>(&format!("{token}x")).is_none());
        assert!(config().decode::<User>(&token).is_none());
        // The same claims give the same token.
        let claims = || alice_claims(5, 7, TokenKind::Access);
        assert_eq!(
            cfg.sign_claims(claims()).unwrap(),
            cfg.sign_claims(claims()).unwrap()
        );
    }
}

#[test]
fn same_failure_gives_the_same_error() {
    let mut cfg = elliptic();
    cfg.encoding_key = jsonwebtoken::EncodingKey::from_ec_der(&[1, 2, 3]);
    for _ in 0..2 {
        let error = cfg.encode(&alice()).unwrap_err().into_token_error();
        assert!(matches!(
            error.kind(),
            jsonwebtoken::errors::ErrorKind::InvalidEcdsaKey
        ));
    }
}
