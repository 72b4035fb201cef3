use lazybucket::auth::{authorize, split_credentials};
use lazybucket::config::Config;
use lazybucket::status::Status;

fn config() -> Config {
    Config { login: "admin".to_string(), password: "secret".to_string() }
}

#[test]
fn accepts_matching_credentials() {
    assert_eq!(authorize(Some("admin:secret"), &config()), Ok(()));
}

#[test]
fn rejects_missing_header() {
    assert_eq!(authorize(None, &config()), Err(Status::Unauthorized));
}

#[test]
fn rejects_value_without_colon() {
    assert_eq!(authorize(Some("adminsecret"), &config()), Err(Status::Unauthorized));
    assert_eq!(authorize(Some(""), &config()), Err(Status::Unauthorized));
}

#[test]
fn rejects_wrong_password_or_login() {
    assert_eq!(authorize(Some("admin:wrong"), &config()), Err(Status::Unauthorized));
    assert_eq!(authorize(Some("root:secret"), &config()), Err(Status::Unauthorized));
    assert_eq!(authorize(Some("admin:secret "), &config()), Err(Status::Unauthorized));
}

#[test]
fn password_may_hold_colons() {
    let cfg = Config { login: "admin".to_string(), password: "se:cr:et".to_string() };
    assert_eq!(authorize(Some("admin:se:cr:et"), &cfg), Ok(()));
}

#[test]
fn login_with_colon_is_never_accepted() {
    let cfg = Config { login: "ad:min".to_string(), password: "secret".to_string() };
    assert_eq!(authorize(Some("ad:min:secret"), &cfg), Err(Status::Unauthorized));
}

#[test]
fn split_at_first_colon() {
    assert_eq!(split_credentials("a:b:c"), Some(("a".to_string(), "b:c".to_string())));
    assert_eq!(split_credentials(":"), Some((String::new(), String::new())));
    assert_eq!(split_credentials("héllo:wörld"), Some(("héllo".to_string(), "wörld".to_string())));
    assert_eq!(split_credentials("none"), None);
}

#[test]
fn unauthorized_code_is_401() {
    assert_eq!(Status::Unauthorized.code(), 401);
}
