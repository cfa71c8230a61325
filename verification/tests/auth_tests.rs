use oxide::auth::{
    auth_outcome, auth_response, authenticate, generate_failure_response,
    generate_success_response, handle_auth_login, AuthLoginFailure, AuthLoginSuccess, AuthOutcome,
    Database, UserValidator,
};
use oxide::database::AUTH_CREDENTIALS;
use oxide::query::QueryParams;
use oxide::response::{StatusCode, Version};

#[test]
fn test_handle_auth_login_success() {
    let mut query = QueryParams::new();
    query.insert("username".to_string(), "valid_user".to_string());
    query.insert("password".to_string(), "valid_password".to_string());

    let db = Database;
    let response = handle_auth_login(&query, &db);
    let body = response.body().to_string();

    println!("Body content: {}", body);
    assert!(body.contains("Valid=TRUE"));
    assert!(body.contains("Ticket=<auth_ticket>"));
}

#[test]
fn test_handle_auth_login_failure() {
    let mut query = QueryParams::new();
    query.insert("username".to_string(), "invalid_user".to_string());
    query.insert("password".to_string(), "wrong_password".to_string());

    let db = Database;
    let response = handle_auth_login(&query, &db);
    let body = response.body().to_string();

    println!("Body content: {}", body);
    assert!(body.contains("reasoncode=INV-100"));
    assert!(body.contains("reasontext=Invalid username or password"));
    assert!(body.contains("reasonurl=https://winehq.com"));
}

#[test]
fn success_reply_is_exact() {
    let mut query = QueryParams::new();
    query.insert("username".to_string(), "valid_user".to_string());
    query.insert("password".to_string(), "valid_password".to_string());
    let response = handle_auth_login(&query, &Database);
    assert_eq!(response.status(), StatusCode::ok());
    assert_eq!(response.status().as_u16(), 200);
    assert_eq!(response.version(), Version::Http10);
    assert_eq!(response.body(), "Valid=TRUE\nTicket=<auth_ticket>");
    assert_eq!(response.header("Connection"), Some("close"));
    assert_eq!(response.header("Content-Type"), Some("text/plain; charset=utf-8"));
    assert_eq!(response.headers().len(), 2);
}

#[test]
fn failure_reply_is_exact() {
    let mut query = QueryParams::new();
    query.insert("username".to_string(), "valid_user".to_string());
    query.insert("password".to_string(), "Valid_password".to_string());
    let response = handle_auth_login(&query, &Database);
    assert_eq!(response.status(), StatusCode::unauthorized());
    assert_eq!(response.status().as_u16(), 401);
    assert_eq!(response.version(), Version::Http10);
    assert_eq!(
        response.body(),
        "reasoncode=INV-100\nreasontext=Invalid username or password\nreasonurl=https://winehq.com"
    );
    assert_eq!(response.header("Connection"), Some("close"));
    assert_eq!(response.header("Content-Type"), Some("text/plain; charset=utf-8"));
}

#[test]
fn missing_parameter_is_a_failure() {
    let mut only_user = QueryParams::new();
    only_user.insert("username".to_string(), "valid_user".to_string());
    assert_eq!(handle_auth_login(&only_user, &Database).status().as_u16(), 401);

    let mut only_password = QueryParams::new();
    only_password.insert("password".to_string(), "valid_password".to_string());
    assert_eq!(handle_auth_login(&only_password, &Database).status().as_u16(), 401);

    assert_eq!(handle_auth_login(&QueryParams::new(), &Database).status().as_u16(), 401);
}

#[test]
fn swapped_pair_is_a_failure() {
    let mut query = QueryParams::new();
    query.insert("username".to_string(), "valid_password".to_string());
    query.insert("password".to_string(), "valid_user".to_string());
    assert_eq!(handle_auth_login(&query, &Database).status().as_u16(), 401);
}

#[test]
fn last_value_of_a_parameter_wins() {
    let mut query = QueryParams::new();
    query.insert("username".to_string(), "someone".to_string());
    query.insert("password".to_string(), "valid_password".to_string());
    query.insert("username".to_string(), "valid_user".to_string());
    assert_eq!(query.get("username"), Some("valid_user"));
    assert_eq!(handle_auth_login(&query, &Database).status().as_u16(), 200);

    query.insert("password".to_string(), "other".to_string());
    assert_eq!(query.get("password"), Some("other"));
    assert_eq!(handle_auth_login(&query, &Database).status().as_u16(), 401);
    assert_eq!(query.get("missing"), None);
}

#[test]
fn from_pairs_inserts_in_order() {
    let query = QueryParams::from_pairs(vec![
        ("a".to_string(), "1".to_string()),
        ("b".to_string(), "2".to_string()),
        ("a".to_string(), "3".to_string()),
    ]);
    assert_eq!(query.get("a"), Some("3"));
    assert_eq!(query.get("b"), Some("2"));
    assert_eq!(query.get("c"), None);
}

#[test]
fn fixed_pair_validator() {
    assert!(Database.validate_user("valid_user", "valid_password"));
    assert!(!Database.validate_user("valid_user", "valid_passwor"));
    assert!(!Database.validate_user("valid_use", "valid_password"));
    assert!(!Database.validate_user("", ""));
    assert!(!Database.validate_user("VALID_USER", "valid_password"));
}

#[test]
fn active_credentials_validator() {
    let mut credentials = AUTH_CREDENTIALS::new();
    assert!(credentials.validate_user("postgres", "password"));
    assert!(!credentials.validate_user("postgres", "passwor"));
    assert!(!credentials.validate_user("valid_user", "valid_password"));
    credentials.update_credentials("neo".to_string(), "trinity".to_string());
    assert!(credentials.validate_user("neo", "trinity"));
    assert!(!credentials.validate_user("postgres", "password"));

    let mut query = QueryParams::new();
    query.insert("username".to_string(), "neo".to_string());
    query.insert("password".to_string(), "trinity".to_string());
    assert_eq!(handle_auth_login(&query, &credentials).status().as_u16(), 200);
    assert_eq!(handle_auth_login(&query, &Database).status().as_u16(), 401);
}

#[test]
fn login_bodies() {
    assert_eq!(generate_success_response("abc"), "Valid=TRUE\nTicket=abc");
    assert_eq!(generate_success_response(""), "Valid=TRUE\nTicket=");
    assert_eq!(
        generate_failure_response("C", "some text", "http://u"),
        "reasoncode=C\nreasontext=some text\nreasonurl=http://u"
    );
    let success = AuthLoginSuccess { ticket: "T-1".to_string() };
    assert_eq!(success.to_response(), "Valid=TRUE\nTicket=T-1");
    let failure = AuthLoginFailure {
        reason_code: "INV-200".to_string(),
        reason_text: "Locked".to_string(),
        reason_url: "https://example.org".to_string(),
    };
    assert_eq!(
        failure.to_response(),
        "reasoncode=INV-200\nreasontext=Locked\nreasonurl=https://example.org"
    );
}

#[test]
fn outcomes() {
    match auth_outcome(true) {
        AuthOutcome::Success(success) => {
            assert_eq!(success.ticket, "<auth_ticket>");
            assert!(!success.ticket.is_empty());
        }
        AuthOutcome::Failure(_) => panic!("an accepted login is a success"),
    }
    match auth_outcome(false) {
        AuthOutcome::Failure(failure) => {
            assert_eq!(failure.reason_code, "INV-100");
            assert_eq!(failure.reason_text, "Invalid username or password");
            assert_eq!(failure.reason_url, "https://winehq.com");
        }
        AuthOutcome::Success(_) => panic!("a refused login is a failure"),
    }
    let mut query = QueryParams::new();
    query.insert("username".to_string(), "valid_user".to_string());
    query.insert("password".to_string(), "valid_password".to_string());
    assert!(matches!(authenticate(&query, &Database), AuthOutcome::Success(_)));
    assert!(matches!(authenticate(&QueryParams::new(), &Database), AuthOutcome::Failure(_)));

    let custom = AuthOutcome::Success(AuthLoginSuccess { ticket: "xyz".to_string() });
    let response = auth_response(&custom);
    assert_eq!(response.status().as_u16(), 200);
    assert_eq!(response.body(), "Valid=TRUE\nTicket=xyz");
}
