use rust_app::error::ApiError;
use rust_app::handler::{
    check_email_exist, login_outcome, new_user_record, sign_up, verification_mail, web_login,
    NewUser, SignUp, StoredCredentials, NEW_USER_ROLE, NEW_USER_STATUS, PASSWORD_HASH_COST,
    VERIFICATION_SUBJECT,
};

const PASSWORD_HASH: &str = "$2a$04$UuTkLRZZ6QofpDOlMz32MuuxEHA43WOemOYHPz6.SjsVsyO1tDU96";

fn account(id: i32, hash: &str) -> Option<StoredCredentials> {
    Some(StoredCredentials { id, password_hash: hash.to_string() })
}

fn body(name: Option<&str>) -> SignUp {
    SignUp {
        email: "ann@example.com".to_string(),
        phone_number: "+620000".to_string(),
        password: "hunter2".to_string(),
        name: name.map(|n| n.to_string()),
    }
}

#[test]
fn login_with_unknown_email_is_not_found() {
    assert_eq!(
        web_login(Ok(()), None, "password"),
        Err(ApiError::NotFound("Email not registered".to_string()))
    );
}

#[test]
fn login_with_right_password_gives_the_account() {
    assert_eq!(web_login(Ok(()), account(41, PASSWORD_HASH), "password"), Ok(41));
}

#[test]
fn login_with_wrong_password_is_unauthorized() {
    assert_eq!(
        web_login(Ok(()), account(41, PASSWORD_HASH), "passw0rd"),
        Err(ApiError::Unauthorized("Wrong password".to_string()))
    );
}

#[test]
fn login_against_malformed_hash_is_internal_error() {
    assert_eq!(
        web_login(Ok(()), account(41, "not-a-hash"), "password"),
        Err(ApiError::InternalServerErrorWithMessage(
            "Invalid hash: the hash format is malformed; expected 60 ASCII bytes".to_string()
        ))
    );
}

#[test]
fn login_outcome_cases() {
    assert_eq!(login_outcome(3, Ok(true)), Ok(3));
    assert_eq!(
        login_outcome(3, Ok(false)),
        Err(ApiError::Unauthorized("Wrong password".to_string()))
    );
    assert_eq!(
        login_outcome(3, Err("broken".to_string())),
        Err(ApiError::InternalServerErrorWithMessage("broken".to_string()))
    );
}

#[test]
fn taken_email_is_a_conflict() {
    match check_email_exist(Ok(()), true) {
        Err(e) => assert_eq!(e, ApiError::Conflict("email already exist".to_string())),
        Ok(_) => panic!("a taken e-mail must be refused"),
    }
}

#[test]
fn free_email_is_ok() {
    match check_email_exist(Ok(()), false) {
        Ok(m) => assert_eq!(m.msg, "OK"),
        Err(e) => panic!("unexpected {:?}", e),
    }
}

#[test]
fn sign_up_with_taken_email_is_a_conflict() {
    match sign_up(Ok(()), true, &body(None)) {
        Err(e) => assert_eq!(e, ApiError::Conflict("Email already registered".to_string())),
        Ok(_) => panic!("a taken e-mail must be refused"),
    }
}

#[test]
fn signed_up_password_logs_in() {
    let user: NewUser = match sign_up(Ok(()), false, &body(Some("Ann"))) {
        Ok(u) => u,
        Err(e) => panic!("unexpected {:?}", e),
    };
    assert_eq!(user.email, "ann@example.com");
    assert_eq!(user.phone_number, "+620000");
    assert_eq!(user.name, "Ann");
    assert_eq!(user.role, "customer");
    assert_eq!(user.status, "unverified");
    assert_eq!(user.password_hash.len(), 60);
    assert!(user.password_hash.starts_with("$2b$06$"));
    assert_eq!(PASSWORD_HASH_COST, 6);
    assert_eq!(web_login(Ok(()), account(9, &user.password_hash), "hunter2"), Ok(9));
    assert_eq!(
        web_login(Ok(()), account(9, &user.password_hash), "hunter3"),
        Err(ApiError::Unauthorized("Wrong password".to_string()))
    );
}

#[test]
fn new_user_record_passes_hash_failure_on() {
    match new_user_record(&body(None), Err("Rand error: x".to_string())) {
        Err(e) => assert_eq!(e, ApiError::InternalServerErrorWithMessage("Rand error: x".to_string())),
        Ok(_) => panic!("a hashing failure must be passed on"),
    }
    match new_user_record(&body(Some("Bo")), Ok("h".to_string())) {
        Ok(u) => {
            assert_eq!(u.password_hash, "h");
            assert_eq!(u.name, "Bo");
            assert_eq!(u.role, NEW_USER_ROLE);
            assert_eq!(u.status, NEW_USER_STATUS);
        }
        Err(e) => panic!("unexpected {:?}", e),
    }
}

#[test]
fn verification_mail_links_the_token() {
    let mail = verification_mail(&"ann@example.com".to_string(), "https://x.test/verify?t=", "abc.def");
    assert_eq!(mail.recipient, "ann@example.com");
    assert_eq!(mail.subject, "Verfication");
    assert_eq!(mail.subject, VERIFICATION_SUBJECT);
    assert_eq!(mail.link, "https://x.test/verify?t=abc.def");
}

fn invalid() -> Result<(), ApiError> {
    Err(ApiError::BadRequest("email: invalid".to_string()))
}

#[test]
fn invalid_login_body_is_refused_first() {
    assert_eq!(
        web_login(invalid(), account(41, PASSWORD_HASH), "password"),
        Err(ApiError::BadRequest("email: invalid".to_string()))
    );
}

#[test]
fn invalid_email_check_body_is_refused_first() {
    match check_email_exist(invalid(), false) {
        Err(e) => assert_eq!(e, ApiError::BadRequest("email: invalid".to_string())),
        Ok(_) => panic!("an invalid body must be refused"),
    }
}

#[test]
fn invalid_sign_up_body_is_refused_first() {
    match sign_up(invalid(), false, &body(None)) {
        Err(e) => assert_eq!(e, ApiError::BadRequest("email: invalid".to_string())),
        Ok(_) => panic!("an invalid body must be refused"),
    }
}
