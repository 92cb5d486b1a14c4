use std::collections::BTreeMap;

use chrono::Utc;
use hmac::{Hmac, Mac};
use iomentum_backend_practice::domain::errors::Error;
use iomentum_backend_practice::domain::types::{ClaimMap, JwtClaims};
use iomentum_backend_practice::handlers::jwt_handler::JwtHandler;
use jwt::SignWithKey;
use sha2::Sha256;
use uuid::Uuid;

#[test]
fn test_generate_token() {
    let jwt_handler = JwtHandler::new("secret".to_string()).unwrap();
    let claims = JwtClaims::new(
        "username".to_string(),
        Uuid::new_v4().as_u128(),
        "role".to_string(),
    );
    let token = jwt_handler.generate_token(claims).unwrap();
    assert!(!token.is_empty());
}

#[test]
fn test_decode_token() {
    let jwt_handler = JwtHandler::new("secret".to_string()).unwrap();
    let claims = JwtClaims::new(
        "username".to_string(),
        Uuid::new_v4().as_u128(),
        "role".to_string(),
    );
    let token = jwt_handler.generate_token(claims).unwrap();
    let decoded_claims = jwt_handler.decode_token(&token).unwrap();
    assert_eq!(decoded_claims.sub, "username");
    assert_eq!(decoded_claims.role, "role");
    assert!(decoded_claims.exp > Utc::now().timestamp());
}

fn sample() -> JwtClaims {
    JwtClaims::issued_at(
        "alice".to_string(),
        0xa1a2a3a4b1b2c1c2d1d2d3d4d5d6d7d8,
        "user".to_string(),
        1_700_000_000,
    )
}

#[test]
fn claims_last_a_day() {
    let claims = sample();
    assert_eq!(claims.iat, 1_700_000_000);
    assert_eq!(claims.exp, 1_700_086_400);
    assert_eq!(claims.sub, "alice");
    assert_eq!(claims.role, "user");
    assert_eq!(claims.user_id, 0xa1a2a3a4b1b2c1c2d1d2d3d4d5d6d7d8);
}

#[test]
fn claims_are_valid_within_their_day() {
    let claims = sample();
    assert!(claims.is_valid_at(1_700_000_000));
    assert!(claims.is_valid_at(1_700_086_399));
    assert!(!claims.is_valid_at(1_700_086_400));
    assert!(!claims.is_valid_at(1_699_999_999));
    assert!(!claims.is_valid_at(1_700_000_000 + 25 * 3600));
}

#[test]
fn claims_made_now_are_valid_and_old_ones_are_not() {
    let before = Utc::now().timestamp();
    let fresh = JwtClaims::new("alice".to_string(), 1, "user".to_string());
    let after = Utc::now().timestamp();
    assert!(before <= fresh.iat && fresh.iat <= after);
    assert_eq!(fresh.exp, fresh.iat + 86_400);
    assert!(fresh.is_valid());

    let old = JwtClaims::issued_at(
        "alice".to_string(),
        1,
        "user".to_string(),
        Utc::now().timestamp() - 25 * 3600,
    );
    assert!(!old.is_valid());

    let early = JwtClaims::issued_at(
        "alice".to_string(),
        1,
        "user".to_string(),
        Utc::now().timestamp() + 3600,
    );
    assert!(!early.is_valid());
}

#[test]
fn claims_are_written_as_text() {
    let map = sample().to_tree_map();
    assert_eq!(map.len(), 5);
    assert_eq!(map.get("sub").unwrap(), "alice");
    assert_eq!(map.get("role").unwrap(), "user");
    assert_eq!(map.get("exp").unwrap(), "1700086400");
    assert_eq!(map.get("iat").unwrap(), "1700000000");
    assert_eq!(map.get("user_id").unwrap(), "a1a2a3a4-b1b2-c1c2-d1d2-d3d4d5d6d7d8");
    assert!(map.get("name").is_none());

    let small = JwtClaims::issued_at("a".to_string(), 0x1f, "r".to_string(), -5).to_tree_map();
    assert_eq!(small.get("user_id").unwrap(), "00000000-0000-0000-0000-00000000001f");
    assert_eq!(small.get("iat").unwrap(), "-5");
    assert_eq!(small.get("exp").unwrap(), "86395");
}

#[test]
fn claims_read_back_from_their_map() {
    let back = JwtClaims::try_from(sample().to_tree_map()).unwrap();
    assert_eq!(back.sub, "alice");
    assert_eq!(back.role, "user");
    assert_eq!(back.user_id, 0xa1a2a3a4b1b2c1c2d1d2d3d4d5d6d7d8);
    assert_eq!(back.exp, 1_700_086_400);
    assert_eq!(back.iat, 1_700_000_000);
}

fn map_of(pairs: &[(&str, &str)]) -> ClaimMap {
    let mut map = ClaimMap::new();
    for (k, v) in pairs {
        map.insert(k.to_string(), v.to_string());
    }
    map
}

const ID: &str = "a1a2a3a4-b1b2-c1c2-d1d2-d3d4d5d6d7d8";

fn assert_malformed(r: Result<JwtClaims, Error>) {
    match r {
        Err(Error::LoginFailed(m)) => assert_eq!(m, "Error in JWT formatting"),
        other => panic!("unexpected: {:?}", other),
    }
}

#[test]
fn claims_need_every_key() {
    let full = [("sub", "alice"), ("user_id", ID), ("role", "user"), ("exp", "20"), ("iat", "10")];
    let ok = JwtClaims::try_from(map_of(&full)).unwrap();
    assert_eq!(ok.exp, 20);
    assert_eq!(ok.iat, 10);
    for missing in 0..full.len() {
        let mut pairs = full.to_vec();
        pairs.remove(missing);
        assert_malformed(JwtClaims::try_from(map_of(&pairs)));
    }
    assert_malformed(JwtClaims::try_from(ClaimMap::new()));
}

#[test]
fn claims_need_values_that_can_be_read() {
    let with = |key: &str, value: &str| {
        let mut map = map_of(&[
            ("sub", "alice"),
            ("user_id", ID),
            ("role", "user"),
            ("exp", "20"),
            ("iat", "10"),
        ]);
        map.insert(key.to_string(), value.to_string());
        JwtClaims::try_from(map)
    };
    assert_malformed(with("exp", "soon"));
    assert_malformed(with("exp", ""));
    assert_malformed(with("exp", "1.5"));
    assert_malformed(with("iat", "9223372036854775808"));
    assert_malformed(with("user_id", "alice"));
    assert_malformed(with("user_id", "a1a2a3a4-b1b2-c1c2-d1d2-d3d4d5d6d7d"));
    assert_malformed(with("user_id", "g1a2a3a4-b1b2-c1c2-d1d2-d3d4d5d6d7d8"));
    assert_eq!(with("exp", "+30").unwrap().exp, 30);
    assert_eq!(with("sub", "").unwrap().sub, "");
    // forms that the identifier's parser reads but that are not canonical
    assert_malformed(with("user_id", "A1A2A3A4-B1B2-C1C2-D1D2-D3D4D5D6D7D8"));
    assert_malformed(with("user_id", "a1a2a3a4b1b2c1c2d1d2d3d4d5d6d7d8"));
    assert_malformed(with("user_id", "{a1a2a3a4-b1b2-c1c2-d1d2-d3d4d5d6d7d8}"));
    assert_malformed(with("user_id", "urn:uuid:a1a2a3a4-b1b2-c1c2-d1d2-d3d4d5d6d7d8"));
    assert_malformed(with("user_id", "00000000000000000000000000000001"));
    assert_eq!(
        with("user_id", "00000000-0000-0000-0000-000000000001").unwrap().user_id,
        1
    );
    assert_eq!(
        with("user_id", ID).unwrap().user_id,
        Uuid::parse_str(ID).unwrap().as_u128()
    );
}

#[test]
fn claim_map_holds_one_value_for_each_key() {
    let mut map = ClaimMap::new();
    assert_eq!(map.len(), 0);
    assert!(map.get("a").is_none());
    map.insert("a".to_string(), "1".to_string());
    map.insert("b".to_string(), "2".to_string());
    assert_eq!(map.len(), 2);
    assert_eq!(map.get("a").unwrap(), "1");
    assert_eq!(map.get("b").unwrap(), "2");
    map.insert("a".to_string(), "3".to_string());
    assert_eq!(map.len(), 2);
    assert_eq!(map.get("a").unwrap(), "3");
    assert_eq!(map.get("b").unwrap(), "2");
    assert!(map.get("").is_none());
    assert!(map.get("A").is_none());
}

#[test]
fn token_is_what_the_signer_gives_for_the_claims() {
    let handler = JwtHandler::new("secret".to_string()).unwrap();
    let token = handler.generate_token(sample()).unwrap();

    let key: Hmac<Sha256> = Hmac::new_from_slice(b"secret").unwrap();
    let mut tree = BTreeMap::new();
    tree.insert("sub", "alice".to_string());
    tree.insert("user_id", ID.to_string());
    tree.insert("role", "user".to_string());
    tree.insert("exp", "1700086400".to_string());
    tree.insert("iat", "1700000000".to_string());
    let expected = tree.sign_with_key(&key).unwrap();
    assert_eq!(token, expected);
    assert_eq!(token.split('.').count(), 3);
    assert!(token.starts_with("eyJhbGciOiJIUzI1NiJ9."));
}

#[test]
fn token_decodes_to_the_claims_it_was_made_of() {
    let handler = JwtHandler::new("secret".to_string()).unwrap();
    let token = handler.generate_token(sample()).unwrap();
    let back = handler.decode_token(&token).unwrap();
    assert_eq!(back.sub, "alice");
    assert_eq!(back.role, "user");
    assert_eq!(back.user_id, 0xa1a2a3a4b1b2c1c2d1d2d3d4d5d6d7d8);
    assert_eq!(back.exp, 1_700_086_400);
    assert_eq!(back.iat, 1_700_000_000);
}

#[test]
fn expired_token_still_decodes() {
    let handler = JwtHandler::new("secret".to_string()).unwrap();
    let old = JwtClaims::issued_at("alice".to_string(), 1, "user".to_string(), 1000);
    let token = handler.generate_token(old).unwrap();
    let back = handler.decode_token(&token).unwrap();
    assert_eq!(back.exp, 87_400);
    assert!(!back.is_valid());
}

#[test]
fn token_of_another_secret_is_refused() {
    let handler = JwtHandler::new("secret".to_string()).unwrap();
    let other = JwtHandler::new("incorrectsecret".to_string()).unwrap();
    let token = other.generate_token(sample()).unwrap();
    assert_malformed(handler.decode_token(&token));
    assert!(other.decode_token(&token).is_ok());
}

#[test]
fn tampered_token_is_refused() {
    let handler = JwtHandler::new("secret".to_string()).unwrap();
    let token = handler.generate_token(sample()).unwrap();
    let bytes = token.as_bytes();
    let last = bytes.len() - 1;
    for i in 0..bytes.len() {
        if bytes[i] == b'.' || i == last {
            // a separator is structure; the last character of the signature
            // carries bits that its encoding does not use
            continue;
        }
        let mut changed = bytes.to_vec();
        changed[i] = if changed[i] == b'A' { b'B' } else { b'A' };
        let changed = String::from_utf8(changed).unwrap();
        assert_malformed(handler.decode_token(&changed));
    }
}

#[test]
fn malformed_token_is_refused() {
    let handler = JwtHandler::new("secret".to_string()).unwrap();
    for bad in ["", "a", "a.b", "a.b.c", "a.b.c.d", "..", "not a token"] {
        assert_malformed(handler.decode_token(bad));
    }
    let token = handler.generate_token(sample()).unwrap();
    assert_malformed(handler.decode_token(&format!("{}.", token)));
    assert_malformed(handler.decode_token(&token[..token.len() - 4]));
}

#[test]
fn signed_token_without_claims_is_refused() {
    let key: Hmac<Sha256> = Hmac::new_from_slice(b"secret").unwrap();
    let mut tree = BTreeMap::new();
    tree.insert("sub", "alice".to_string());
    let token = tree.sign_with_key(&key).unwrap();
    let handler = JwtHandler::new("secret".to_string()).unwrap();
    assert_malformed(handler.decode_token(&token));
}

#[test]
fn signing_error_carries_the_signers_words() {
    match JwtHandler::signing_error("no key") {
        Error::InternalError(m) => assert_eq!(m, "Failed to sign token: no key"),
        other => panic!("unexpected: {:?}", other),
    }
}

#[test]
fn bearer_is_authorized_while_the_session_runs() {
    let handler = JwtHandler::new("secret".to_string()).unwrap();
    let token = handler.generate_token(sample()).unwrap();
    let who = handler.authorize_at(&token, 1_700_000_000).unwrap();
    assert_eq!(who.user_id, 0xa1a2a3a4b1b2c1c2d1d2d3d4d5d6d7d8);
    assert_eq!(who.role, "user");
    assert!(handler.authorize_at(&token, 1_700_086_399).is_ok());
    match handler.authorize_at(&token, 1_700_086_400) {
        Err(Error::LoginFailed(m)) => assert_eq!(m, "Session is not valid at this time"),
        other => panic!("unexpected: {:?}", other),
    }
    assert!(handler.authorize_at(&token, 1_699_999_999).is_err());
    match handler.authorize_at("a.b.c", 1_700_000_000) {
        Err(Error::LoginFailed(m)) => assert_eq!(m, "Error in JWT formatting"),
        other => panic!("unexpected: {:?}", other),
    }
}

#[test]
fn bearer_is_authorized_now() {
    let handler = JwtHandler::new("secret".to_string()).unwrap();
    let fresh = JwtClaims::new("admin_user".to_string(), 3, "admin".to_string());
    let token = handler.generate_token(fresh).unwrap();
    let who = handler.authorize(&token).unwrap();
    assert_eq!(who.user_id, 3);
    assert_eq!(who.role, "admin");

    let old = JwtClaims::issued_at(
        "admin_user".to_string(),
        3,
        "admin".to_string(),
        Utc::now().timestamp() - 25 * 3600,
    );
    let token = handler.generate_token(old).unwrap();
    assert!(handler.authorize(&token).is_err());

    let forger = JwtHandler::new("incorrectsecret".to_string()).unwrap();
    let fake = JwtClaims::new("test1".to_string(), Uuid::new_v4().as_u128(), "admin".to_string());
    let fake = forger.generate_token(fake).unwrap();
    assert!(handler.authorize(&fake).is_err());
}
