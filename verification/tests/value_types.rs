use iomentum_backend_practice::domain::dtos::user_dtos::{NewUserDto, UserDto};
use iomentum_backend_practice::domain::errors::Error;
use iomentum_backend_practice::domain::types::user_types::{InternalUseUser, NewUser, User};
use iomentum_backend_practice::domain::types::{PasswordHash, Role, Username};
use iomentum_backend_practice::handlers::password_hasher::{
    hash_password, hash_password_with_salt, verify,
};

#[test]
fn test_username_new() {
    let username = "username";
    let username = Username::new(username).unwrap();
    assert_eq!(username.as_ref(), "username");

    let username = " us$rname ";
    let username = Username::new(username).unwrap();
    assert_eq!(username.as_ref(), "us$rname");
}

#[test]
fn test_username_new_invalid_username() {
    let username = "";
    let username = Username::new(username);
    assert!(username.is_err());

    let username = "us/ername";
    let username = Username::new(username);
    assert!(username.is_err());
}

#[test]
fn test_role_new() {
    let role = "user";
    let role = Role::new(role.to_string()).unwrap();
    assert_eq!(role.as_ref(), "user");

    let role = "admin";
    let role = Role::new(role.to_string()).unwrap();
    assert_eq!(role.as_ref(), "admin");

    let role = "USER";
    let role = Role::new(role.to_string()).unwrap();
    assert_eq!(role.as_ref(), "user");
}

#[test]
fn test_role_new_invalid_role() {
    let role = "invalid";
    let role = Role::new(role.to_string());
    assert!(role.is_err());
}

#[test]
fn test_password_hash_new() {
    let password = "password";
    let password_hash = PasswordHash::new(password).unwrap();
    assert_ne!(password, password_hash.expose_secret());
}

#[test]
fn test_password_hash_new_invalid_password() {
    let password = "pass";
    let password_hash = PasswordHash::new(password);
    assert!(password_hash.is_err());
}

#[test]
fn test_hash_password() {
    let password = "password";
    let hashed_password = hash_password(password).unwrap();
    assert_ne!(password, hashed_password);
}

#[test]
fn test_verify() {
    let password = "password";
    let hashed_password = hash_password(password).unwrap();
    assert!(verify(password, &hashed_password));
}

#[test]
fn username_is_trimmed_and_checked() {
    assert_eq!(Username::new("  bob  ").unwrap().as_ref(), "bob");
    assert_eq!(Username::new("\t\u{3000}bob smith\u{a0}\n").unwrap().as_ref(), "bob smith");
    assert!(Username::new("bo/b").is_err());
    assert!(Username::new("").is_err());
}

#[test]
fn username_errors_say_why() {
    match Username::new("   ") {
        Err(Error::InvalidUsername(m)) => assert_eq!(m, "Username cannot be empty"),
        other => panic!("unexpected: {:?}", other),
    }
    for bad in ["a/b", "a(b", "a)b", "a\"b", "a<b", "a>b", "a\\b", "a{b", "a}b"] {
        match Username::new(bad) {
            Err(Error::InvalidUsername(m)) => {
                assert_eq!(m, "Username cannot contain special characters")
            }
            other => panic!("unexpected for {}: {:?}", bad, other),
        }
    }
    for good in ["a$b", "a b", "a-b", "a_b", "a.b", "a[b]", "a'b", "é", "名前"] {
        assert_eq!(Username::new(good).unwrap().as_ref(), good);
    }
}

#[test]
fn role_is_folded_and_closed() {
    assert_eq!(Role::new("USER".to_string()).unwrap().as_ref(), "user");
    assert_eq!(Role::new("AdMiN".to_string()).unwrap().as_ref(), "admin");
    assert!(Role::new("superuser".to_string()).is_err());
    assert!(Role::new("".to_string()).is_err());
    assert!(Role::new(" user".to_string()).is_err());
    match Role::new("SuperUser".to_string()) {
        Err(Error::InvalidRole(m)) => assert_eq!(m, "superuser"),
        other => panic!("unexpected: {:?}", other),
    }
}

#[test]
fn role_from_folded_does_not_fold() {
    assert_eq!(Role::from_folded("admin".to_string()).unwrap().as_ref(), "admin");
    match Role::from_folded("USER".to_string()) {
        Err(Error::InvalidRole(m)) => assert_eq!(m, "USER"),
        other => panic!("unexpected: {:?}", other),
    }
}

#[test]
fn password_length_is_counted_in_characters() {
    match PasswordHash::new("1234567") {
        Err(Error::InvalidPassword(m)) => {
            assert_eq!(m, "Password must be at least 8 characters long")
        }
        other => panic!("unexpected: {:?}", other),
    }
    assert!(PasswordHash::new("").is_err());
    assert!(PasswordHash::new("12345678").is_ok());
    // four characters, though they take eight bytes
    match PasswordHash::new("éééé") {
        Err(Error::InvalidPassword(m)) => {
            assert_eq!(m, "Password must be at least 8 characters long")
        }
        other => panic!("unexpected: {:?}", other),
    }
    // seven characters in fourteen bytes
    assert!(PasswordHash::new("ééééééé").is_err());
    // eight characters
    let hash = PasswordHash::new("éééééééé").unwrap();
    assert!(verify("éééééééé", hash.expose_secret()));
    match PasswordHash::with_salt("éééé", "c29tZXNhbHRzb21lc2FsdA") {
        Err(Error::InvalidPassword(m)) => {
            assert_eq!(m, "Password must be at least 8 characters long")
        }
        other => panic!("unexpected: {:?}", other),
    }
}

#[test]
fn password_hash_matches_its_password_only() {
    let hash = PasswordHash::new("longenough1").unwrap();
    assert!(hash.expose_secret().starts_with("$argon2id$"));
    assert!(verify("longenough1", hash.expose_secret()));
    assert!(!verify("longenough2", hash.expose_secret()));
    assert!(!verify("", hash.expose_secret()));
}

#[test]
fn password_hash_keeps_and_copies_its_text() {
    let stored = PasswordHash::new_unchecked("$argon2id$stored".to_string());
    assert_eq!(stored.expose_secret(), "$argon2id$stored");
    let copy = stored.clone();
    assert_eq!(copy.expose_secret(), "$argon2id$stored");
}

#[test]
fn password_hash_is_not_printed() {
    let stored = PasswordHash::new_unchecked("$argon2id$stored".to_string());
    let printed = format!("{:?}", stored);
    assert!(!printed.contains("stored"));
    assert!(!printed.contains("argon2id"));
}

#[test]
fn hashing_with_a_salt_is_repeatable() {
    let salt = "c29tZXNhbHRzb21lc2FsdA";
    let first = hash_password_with_salt("password", salt).unwrap();
    let second = hash_password_with_salt("password", salt).unwrap();
    assert_eq!(first, second);
    assert!(first.starts_with("$argon2id$v=19$m=19456,t=2,p=1$c29tZXNhbHRzb21lc2FsdA$"));
    assert!(verify("password", &first));
    let other = hash_password_with_salt("password", "b3RoZXJzYWx0b3RoZXJzYQ").unwrap();
    assert_ne!(first, other);
    let third = hash_password_with_salt("passwore", salt).unwrap();
    assert_ne!(first, third);
    assert!(!verify("passwore", &first));
}

#[test]
fn hashing_with_a_bad_salt_fails() {
    match hash_password_with_salt("password", "!") {
        Err(m) => assert_eq!(
            m,
            "Failed to hash password, please try again or contact support if the problem persists"
        ),
        Ok(h) => panic!("unexpected: {}", h),
    }
    match PasswordHash::with_salt("password", "!") {
        Err(Error::InvalidPassword(m)) => assert_eq!(m, "Failed to hash password"),
        other => panic!("unexpected: {:?}", other),
    }
    match PasswordHash::with_salt("short", "!") {
        Err(Error::InvalidPassword(m)) => {
            assert_eq!(m, "Password must be at least 8 characters long")
        }
        other => panic!("unexpected: {:?}", other),
    }
}

#[test]
fn hash_holds_its_salt() {
    for salt in [
        "c29tZXNhbHRzb21lc2FsdA",
        "b3RoZXJzYWx0b3RoZXJzYQ",
        "YWJjZGVmZ2hpamtsbW5v",
        "++++////++++",
    ] {
        let encoded = hash_password_with_salt("password", salt).unwrap();
        assert!(encoded.starts_with(&format!("$argon2id$v=19$m=19456,t=2,p=1${}$", salt)));
    }
    // a dollar sign is no character of a salt
    assert!(hash_password_with_salt("password", "c29tZXNhbHRz$29tZXNhbHRz").is_err());
    // too few bytes once decoded
    assert!(hash_password_with_salt("password", "abcd").is_err());
    // characters that a salt may hold but that do not decode
    assert!(hash_password_with_salt("password", "a.b/c+d-e").is_err());
}

#[test]
fn fresh_salts_differ() {
    let first = hash_password("password").unwrap();
    let second = hash_password("password").unwrap();
    assert_ne!(first, second);
    assert!(verify("password", &first));
    assert!(verify("password", &second));
}

#[test]
fn verify_takes_a_malformed_hash_for_no_match() {
    assert!(!verify("password", ""));
    assert!(!verify("password", "password"));
    assert!(!verify("password", "$argon2id$"));
    assert!(!verify("password", "$argon2id$v=19$m=19456,t=2,p=1$c29tZXNhbHRzb21lc2FsdA"));
}

fn dto(username: &str, password: &str, role: &str) -> NewUserDto {
    NewUserDto {
        username: username.to_string(),
        password: password.to_string(),
        role: role.to_string(),
    }
}

#[test]
fn registration_is_validated_name_first_then_role_then_password() {
    match NewUser::try_from(dto("bo/b", "short", "nobody")) {
        Err(Error::InvalidUsername(_)) => {}
        _ => panic!("expected an invalid username"),
    }
    match NewUser::try_from(dto("bob", "short", "nobody")) {
        Err(Error::InvalidRole(m)) => assert_eq!(m, "nobody"),
        _ => panic!("expected an invalid role"),
    }
    match NewUser::try_from(dto("bob", "short", "user")) {
        Err(Error::InvalidPassword(_)) => {}
        _ => panic!("expected an invalid password"),
    }
    match NewUser::try_from(dto("bob", "éééé", "user")) {
        Err(Error::InvalidPassword(m)) => {
            assert_eq!(m, "Password must be at least 8 characters long")
        }
        _ => panic!("expected an invalid password"),
    }
    let user = NewUser::try_from(dto(" alice ", "longenough1", "Admin")).unwrap();
    assert_eq!(user.username.as_ref(), "alice");
    assert_eq!(user.role.as_ref(), "admin");
    assert!(verify("longenough1", user.password_hash.expose_secret()));
}

#[test]
fn registration_with_a_salt_is_repeatable() {
    let salt = "c29tZXNhbHRzb21lc2FsdA";
    let first = NewUser::with_salt(dto("alice", "longenough1", "user"), salt).unwrap();
    let second = NewUser::with_salt(dto("alice", "longenough1", "user"), salt).unwrap();
    assert_eq!(first.password_hash.expose_secret(), second.password_hash.expose_secret());
    assert_eq!(
        first.password_hash.expose_secret(),
        hash_password_with_salt("longenough1", salt).unwrap()
    );
    assert!(NewUser::with_salt(dto("alice", "longenough1", "user"), "!").is_err());
    assert!(NewUser::with_salt(dto("alice", "longenough1", "root"), salt).is_err());
    assert!(NewUser::with_salt(dto("", "longenough1", "user"), salt).is_err());
}

#[test]
fn stored_users_are_read_back() {
    let user = User::from_stored(7, "alice", "user".to_string()).unwrap();
    assert_eq!(user.id, 7);
    assert_eq!(user.username.as_ref(), "alice");
    assert_eq!(user.role.as_ref(), "user");
    assert!(User::from_stored(7, "", "user".to_string()).is_err());
    assert!(User::from_stored(7, "alice", "root".to_string()).is_err());

    let internal =
        InternalUseUser::from_stored(9, "bob", "$argon2id$x".to_string(), "ADMIN".to_string())
            .unwrap();
    assert_eq!(internal.id, 9);
    assert_eq!(internal.username.as_ref(), "bob");
    assert_eq!(internal.password_hash.expose_secret(), "$argon2id$x");
    assert_eq!(internal.role.as_ref(), "admin");
    assert!(InternalUseUser::from_stored(9, "b{b", "h".to_string(), "user".to_string()).is_err());
}

#[test]
fn user_dto_shows_name_and_role() {
    let user = User::from_stored(7, "alice", "user".to_string()).unwrap();
    let dto = UserDto::from(user);
    assert_eq!(dto.id, 7);
    assert_eq!(dto.username, "alice");
    assert_eq!(dto.role, "user");
}
