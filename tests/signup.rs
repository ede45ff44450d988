use auth_service::email::is_valid_email;
use auth_service::signup::{signup, validate_signup, SignupError, SignupReply, SignupRequest};

fn request(email: &str, password: &str, requires_2fa: bool) -> SignupRequest {
    SignupRequest {
        email: email.to_string(),
        password: password.to_string(),
        requires_2fa,
    }
}

fn random_email() -> String {
    "a1b2c3d4e5f6@example.com".to_string()
}

fn reply_text(reply: &SignupReply) -> String {
    match reply {
        SignupReply::Created(body) => body.message.clone(),
        SignupReply::Rejected(body) => body.error.clone(),
    }
}

#[test]
fn should_return_201_if_valid_input() {
    let test_cases = [
        request(&random_email(), "password123", true),
        request(&random_email(), "averylongpassword12345", false),
        request("test.user+tag@example.com", "P@ssw0rd!", true),
    ];

    for test_case in test_cases.iter() {
        let reply = signup(test_case);
        assert_eq!(reply.status(), 201, "Failed for input: {:?}", test_case.email);
        assert!(matches!(reply, SignupReply::Created(_)));
        assert_eq!(reply_text(&reply), "User created successfully!", "Response message mismatch");
    }
}

#[test]
fn should_return_400_if_invalid_input() {
    let test_cases = [
        (request("", "password123", true), "Email cannot be empty"),
        (request("invalidemail", "password123", true), "Invalid email format"),
        (request("test@", "password123", true), "Invalid email format"),
        (request("@example.com", "password123", true), "Invalid email format"),
        (request("test@example", "password123", true), "Invalid email format"),
        (request("test@@example.com", "password123", true), "Invalid email format"),
        (request("test@example.com.", "password123", true), "Invalid email format"),
        (request(&random_email(), "", true), "Password cannot be empty"),
        (request("qSdy6asQjL8siKA@m.fegl", "password123", true), "Invalid email format"),
        (request("test@example.net", "password123", true), "Invalid email format"),
        (request("user@domain.org", "password123", true), "Invalid email format"),
    ];

    for (test_case, expected_error) in test_cases.iter() {
        let reply = signup(test_case);
        assert_eq!(reply.status(), 400, "Failed for input: {:?}", test_case.email);
        assert!(matches!(reply, SignupReply::Rejected(_)));
        assert_eq!(
            reply_text(&reply),
            *expected_error,
            "Error message mismatch for input: {:?}",
            test_case.email
        );
    }
}

#[test]
fn scenario_tagged_email_is_created() {
    let reply = signup(&request("test.user+tag@example.com", "P@ssw0rd!", true));
    assert_eq!(reply.status(), 201);
    assert_eq!(reply_text(&reply), "User created successfully!");
}

#[test]
fn shaped_emails_with_passwords_are_created() {
    for email in [
        "a@b.com",
        "x_y%z-1@sub.domain.com",
        "name@example.com.br",
        "name@example.com.abcd",
        "A.B@x-y.z.com",
    ] {
        let reply = signup(&request(email, "p", false));
        assert_eq!(reply.status(), 201, "{}", email);
        assert_eq!(reply_text(&reply), "User created successfully!");
    }
}

#[test]
fn empty_email_is_rejected_whatever_the_password() {
    for password in ["", "x", "password123"] {
        let reply = signup(&request("", password, false));
        assert_eq!(reply.status(), 400);
        assert_eq!(reply_text(&reply), "Email cannot be empty");
    }
}

#[test]
fn malformed_email_is_rejected_before_the_password() {
    let reply = signup(&request("test@example.net", "", true));
    assert_eq!(reply.status(), 400);
    assert_eq!(reply_text(&reply), "Invalid email format");
}

#[test]
fn empty_password_with_valid_email_is_rejected() {
    let reply = signup(&request("test@example.com", "", false));
    assert_eq!(reply.status(), 400);
    assert_eq!(reply_text(&reply), "Password cannot be empty");
}

#[test]
fn validate_signup_names_each_error() {
    assert_eq!(validate_signup("", "pw"), Err(SignupError::EmptyEmail));
    assert_eq!(validate_signup("nope", "pw"), Err(SignupError::InvalidEmailFormat));
    assert_eq!(validate_signup("a@b.com", ""), Err(SignupError::EmptyPassword));
    assert_eq!(validate_signup("a@b.com", "pw"), Ok(()));
}

#[test]
fn error_messages() {
    assert_eq!(SignupError::EmptyEmail.message(), "Email cannot be empty");
    assert_eq!(SignupError::InvalidEmailFormat.message(), "Invalid email format");
    assert_eq!(SignupError::EmptyPassword.message(), "Password cannot be empty");
}

#[test]
fn email_shape_edges() {
    assert!(is_valid_email("a@b.com"));
    assert!(is_valid_email("a@b.com.de"));
    assert!(is_valid_email("a@b.com.abcd"));
    assert!(!is_valid_email("a@b.com.a"));
    assert!(!is_valid_email("a@b.com.abcde"));
    assert!(!is_valid_email("a@b.com.d1"));
    assert!(!is_valid_email("a@com"));
    assert!(!is_valid_email("a@.com"));
    assert!(!is_valid_email("a@b..com"));
    assert!(!is_valid_email("a b@c.com"));
    assert!(!is_valid_email("a@b.com\n"));
    assert!(!is_valid_email("a@b.COM"));
    assert!(!is_valid_email(""));
}

#[test]
fn signup_with_plain_email_and_password_is_created() {
    let reply = signup(&request("test@email.com", "password", false));
    assert_eq!(reply.status(), 201);
    assert_eq!(reply_text(&reply), "User created successfully!");
}
