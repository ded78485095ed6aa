use totp_mfa::command::{Login, RegisterUser};
use totp_mfa::domain::AuthError;
use totp_mfa::store::Db;

fn register_cmd(name: &str, email: &str, password: &str) -> RegisterUser {
    RegisterUser {
        name: name.to_string(),
        email: email.to_string(),
        password: password.to_string(),
    }
}

#[test]
fn register_returns_user_with_id() {
    let mut db = Db::new();
    let user = db
        .register(register_cmd("Ann", "Ann@x.com", "pw"))
        .unwrap();
    assert_eq!(user.id.len(), 36);
    assert!(!user.id.is_empty());
    assert_eq!(user.email, "ann@x.com");
    assert_eq!(user.name, "Ann");
    assert_eq!(user.password, "pw");
    assert_eq!(db.user.len(), 1);
    assert_eq!(db.mfa.len(), 1);
    assert_eq!(db.mfa[0].account_id, user.id);
    assert!(!db.mfa[0].otp_enabled);
    assert!(!db.mfa[0].otp_verified);
    assert!(db.mfa[0].otp_base32.is_none());
    assert!(db.mfa[0].otp_auth_url.is_none());
}

#[test]
fn register_duplicate_same_case() {
    let mut db = Db::new();
    assert!(db.register(register_cmd("Ann", "ann@x.com", "pw")).is_ok());
    let r = db.register(register_cmd("Ann2", "ann@x.com", "pw2"));
    assert!(matches!(r, Err(AuthError::DuplicateEmail)));
    assert_eq!(db.user.len(), 1);
}

#[test]
fn register_duplicate_differs_only_in_case() {
    let mut db = Db::new();
    let first = db.register(register_cmd("Ann", "Ann@X.com", "pw"));
    assert!(first.is_ok());
    let second = db.register(register_cmd("Bob", "aNN@x.COM", "pw2"));
    assert!(matches!(second, Err(AuthError::DuplicateEmail)));
    assert_eq!(db.user.len(), 1);
    assert_eq!(db.mfa.len(), 1);
}

#[test]
fn login_is_case_insensitive() {
    let mut db = Db::new();
    db.register(register_cmd("Ann", "Ann@x.com", "pw")).unwrap();
    let user = db
        .login(Login { email: "ANN@X.COM".to_string(), password: "whatever".to_string() })
        .unwrap();
    assert_eq!(user.email, "ann@x.com");
    assert_eq!(user.name, "Ann");
}

#[test]
fn login_unknown_email_fails() {
    let db = Db::new();
    let r = db.login(Login { email: "none@x.com".to_string(), password: "pw".to_string() });
    assert!(matches!(r, Err(AuthError::InvalidCredentials)));
}

#[test]
fn find_user_by_email_lookup() {
    let mut db = Db::new();
    db.register(register_cmd("Ann", "ann@x.com", "pw")).unwrap();
    let found = db.find_user_by_email("Ann@X.Com".to_string());
    assert!(found.is_some());
    assert_eq!(found.unwrap().name, "Ann");
    assert!(db.find_user_by_email("bob@x.com".to_string()).is_none());
}

#[test]
fn find_mfa_by_account_lookup() {
    let mut db = Db::new();
    let user = db.register(register_cmd("Ann", "ann@x.com", "pw")).unwrap();
    let record = db.find_mfa_by_account(user.id.clone());
    assert!(record.is_some());
    let record = record.unwrap();
    assert_eq!(record.account_id, user.id);
    assert!(!record.otp_enabled);
    assert!(db.find_mfa_by_account("missing-id".to_string()).is_none());
}
