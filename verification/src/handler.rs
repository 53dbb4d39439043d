use vstd::prelude::*;

use crate::error::{result_view, ApiError, ApiErrorView};
use crate::http_body::Message;
use crate::password::{
    bcrypt_hash, bcrypt_hash_prefix, bcrypt_verify, bcrypt_verify_outcome, is_randomness_failure, password_verifies,
    text_result,
};

verus! {

/// The bcrypt cost at which a new account's password is hashed.
pub const PASSWORD_HASH_COST: u32 = 6;

/// The subject of the mail that asks a new user to confirm the address.
pub const VERIFICATION_SUBJECT: &'static str = "Verfication";

/// What the account lookup by e-mail gives for a login: the account's id
/// and the bcrypt hash of its password.
pub struct StoredCredentials {
    pub id: i32,
    pub password_hash: String,
}

/// The body of a sign-up request.
pub struct SignUp {
    pub email: String,
    pub phone_number: String,
    pub password: String,
    pub name: Option<String>,
}

/// The row that a successful sign-up inserts.
pub struct NewUser {
    pub email: String,
    pub phone_number: String,
    pub password_hash: String,
    pub name: String,
    pub role: String,
    pub status: String,
}

/// The role of an account made by sign-up.
pub const NEW_USER_ROLE: &'static str = "customer";

/// The status of an account made by sign-up, until its e-mail is confirmed.
pub const NEW_USER_STATUS: &'static str = "unverified";

/// The mail that asks a new user to confirm the address.
pub struct VerificationMail {
    pub recipient: String,
    pub subject: String,
    pub link: String,
}

/// The result of a login, given whether the e-mail is registered (and, if so,
/// the account's id) and what checking the password against the stored hash
/// gave: the account's id, or the error that answers the attempt.
pub open spec fn login_result(account: Option<i32>, verified: Result<bool, Seq<char>>) -> Result<i32, ApiErrorView> {
    match account {
        None => Err(ApiErrorView::NotFound("Email not registered"@)),
        Some(id) => match verified {
            Ok(true) => Ok(id),
            Ok(false) => Err(ApiErrorView::Unauthorized("Wrong password"@)),
            Err(m) => Err(ApiErrorView::InternalServerErrorWithMessage(m)),
        },
    }
}

/// What `web_login` answers for the outcome of validating the request body,
/// the account lookup and the password given: a validation error as it
/// came, otherwise the outcome of checking the password against the stored
/// hash, where there is an account.
pub open spec fn web_login_result(
    validation: Result<(), ApiErrorView>,
    account: Option<StoredCredentials>,
    password: Seq<char>,
) -> Result<i32, ApiErrorView> {
    match validation {
        Err(e) => Err(e),
        Ok(()) => match account {
            None => login_result(None, Ok(false)),
            Some(c) => login_result(Some(c.id), bcrypt_verify_outcome(password, c.password_hash@)),
        },
    }
}

/// What the e-mail check answers: a validation error as it came, `Conflict`
/// for a taken e-mail, the message "OK" otherwise.
pub open spec fn email_check_result(validation: Result<(), ApiErrorView>, already_registered: bool) -> Result<Seq<char>, ApiErrorView> {
    match validation {
        Err(e) => Err(e),
        Ok(()) => if already_registered {
            Err(ApiErrorView::Conflict("email already exist"@))
        } else {
            Ok("OK"@)
        },
    }
}

/// The model of an e-mail check's answer: the message, or the error.
pub open spec fn message_result(r: Result<Message, ApiError>) -> Result<Seq<char>, ApiErrorView> {
    match r {
        Ok(m) => Ok(m.msg@),
        Err(e) => Err(e@),
    }
}

/// The refusal that a sign-up gives before any password is hashed: a
/// validation error as it came, `Conflict` for a taken e-mail, none otherwise.
pub open spec fn sign_up_refusal(validation: Result<(), ApiErrorView>, already_registered: bool) -> Option<ApiErrorView> {
    match validation {
        Err(e) => Some(e),
        Ok(()) => if already_registered {
            Some(ApiErrorView::Conflict("Email already registered"@))
        } else {
            None
        },
    }
}

/// Finishes a login for a registered account once the password has been
/// checked: the account's id when the password matches.
pub fn login_outcome(id: i32, verified: Result<bool, String>) -> (r: Result<i32, ApiError>)
    ensures
        result_view(r) == login_result(Some(id), text_result(verified)),
{
    match verified {
        Ok(true) => Ok(id),
        Ok(false) => Err(ApiError::Unauthorized(String::from_str("Wrong password"))),
        Err(m) => Err(ApiError::InternalServerErrorWithMessage(m)),
    }
}

/// Decides a login from the outcome of validating the request body, the
/// account lookup by e-mail (`None` when no account was found) and the
/// password given: a body that fails validation is answered with that
/// validation error, an unknown e-mail with "Email not registered", a wrong
/// password with "Wrong password", and a matching password gives the
/// account's id.
pub fn web_login(
    validation: Result<(), ApiError>,
    account: Option<StoredCredentials>,
    password: &str,
) -> (r: Result<i32, ApiError>)
    ensures
        result_view(r) == web_login_result(result_view(validation), account, password@),
{
    if let Err(e) = validation {
        return Err(e);
    }
    match account {
        None => Err(ApiError::NotFound(String::from_str("Email not registered"))),
        Some(c) => {
            let verified = bcrypt_verify(password, c.password_hash.as_str());
            login_outcome(c.id, verified)
        },
    }
}

/// Answers whether an e-mail is still free, from the outcome of validating
/// the request body and whether an account already uses the e-mail: a
/// validation error as it came, `Conflict` for a taken e-mail, the plain
/// success answer otherwise.
pub fn check_email_exist(validation: Result<(), ApiError>, already_registered: bool) -> (r: Result<Message, ApiError>)
    ensures
        message_result(r) == email_check_result(result_view(validation), already_registered),
{
    if let Err(e) = validation {
        return Err(e);
    }
    if already_registered {
        Err(ApiError::Conflict(String::from_str("email already exist")))
    } else {
        Ok(Message::ok())
    }
}

/// The row that a sign-up inserts, once the password has been hashed (the
/// hashing failure is passed on as an internal error with its text): the
/// body's e-mail, phone number and name, the hash, and a customer account
/// that is not verified yet.
pub fn new_user_record(body: &SignUp, hashed: Result<String, String>) -> (r: Result<NewUser, ApiError>)
    requires
        body.name is Some || hashed is Err,
    ensures
        hashed matches Err(m) ==> (r matches Err(e) && e@ == ApiErrorView::InternalServerErrorWithMessage(m@)),
        hashed matches Ok(h) ==> (r matches Ok(u) && {
            &&& u.email@ == body.email@
            &&& u.phone_number@ == body.phone_number@
            &&& u.password_hash@ == h@
            &&& u.name@ == body.name->0@
            &&& u.role@ == NEW_USER_ROLE@
            &&& u.status@ == NEW_USER_STATUS@
        }),
{
    match hashed {
        Err(m) => Err(ApiError::InternalServerErrorWithMessage(m)),
        Ok(h) => {
            let name = match &body.name {
                Some(n) => n.clone(),
                None => {
                    proof { assert(false); }
                    String::new()
                },
            };
            Ok(NewUser {
                email: body.email.clone(),
                phone_number: body.phone_number.clone(),
                password_hash: h,
                name,
                role: String::from_str(NEW_USER_ROLE),
                status: String::from_str(NEW_USER_STATUS),
            })
        },
    }
}

/// Decides a sign-up from the outcome of validating the request body,
/// whether the e-mail is already registered, and the body: a validation
/// error is the answer as it came; a registered e-mail is answered with
/// `Conflict`; otherwise the password is hashed at [`PASSWORD_HASH_COST`] and
/// the row to insert is returned: a customer account, not verified yet,
/// whose password hash is a `$2b$06$` bcrypt hash that verifies the password
/// given. The name must be there unless the body is refused first.
pub fn sign_up(validation: Result<(), ApiError>, already_registered: bool, body: &SignUp) -> (r: Result<NewUser, ApiError>)
    requires
        validation is Err || already_registered || body.name is Some,
    ensures
        sign_up_refusal(result_view(validation), already_registered) matches Some(v) ==> (r matches Err(e) && e@ == v),
        sign_up_refusal(result_view(validation), already_registered) is None ==> (r matches Ok(u) ==> {
            &&& u.email@ == body.email@
            &&& u.phone_number@ == body.phone_number@
            &&& u.name@ == body.name->0@
            &&& u.role@ == NEW_USER_ROLE@
            &&& u.status@ == NEW_USER_STATUS@
            &&& u.password_hash@.len() == 60
            &&& u.password_hash@.subrange(0, 7) == "$2b$06$"@
            &&& password_verifies(body.password@, u.password_hash@)
        }),
        sign_up_refusal(result_view(validation), already_registered) is None ==> (r matches Err(e) ==> (
            e@ matches ApiErrorView::InternalServerErrorWithMessage(m) && is_randomness_failure(m))),
{
    if let Err(e) = validation {
        return Err(e);
    }
    if already_registered {
        return Err(ApiError::Conflict(String::from_str("Email already registered")));
    }
    let hashed = bcrypt_hash(body.password.as_str(), PASSWORD_HASH_COST);
    proof {
        reveal_strlit("$2b$");
        reveal_strlit("$");
        reveal_strlit("$2b$06$");
        assert(bcrypt_hash_prefix(PASSWORD_HASH_COST) =~= "$2b$06$"@);
    }
    new_user_record(body, hashed)
}

/// The confirmation mail for a new account: sent to its e-mail, under
/// [`VERIFICATION_SUBJECT`], with the link made of the verification address
/// followed by the account's token.
pub fn verification_mail(email: &String, base_url: &str, token: &str) -> (r: VerificationMail)
    ensures
        r.recipient@ == email@,
        r.subject@ == VERIFICATION_SUBJECT@,
        r.link@ == base_url@ + token@,
{
    let link = String::from_str(base_url).concat(token);
    VerificationMail { recipient: email.clone(), subject: String::from_str(VERIFICATION_SUBJECT), link }
}

/// Whoever signed up with a password and is stored with the hash that
/// `sign_up` made (a hash that verifies that password) logs in with that
/// password and gets the account's id.
pub proof fn lemma_signed_up_password_logs_in(stored: StoredCredentials, password: Seq<char>)
    requires
        password_verifies(password, stored.password_hash@),
    ensures
        web_login_result(Ok(()), Some(stored), password) == Ok::<i32, ApiErrorView>(stored.id),
{
}

/// Once a sign-up has stored an account, its e-mail is taken: the e-mail
/// check answers `Conflict` for it, and so does a second sign-up with it.
/// The registered e-mails are modelled as a set, which the stored account's
/// e-mail joins.
pub proof fn lemma_signed_up_email_is_taken(registered: Set<Seq<char>>, email: Seq<char>)
    ensures
        email_check_result(Ok(()), registered.insert(email).contains(email))
            == Err::<Seq<char>, ApiErrorView>(ApiErrorView::Conflict("email already exist"@)),
        sign_up_refusal(Ok(()), registered.insert(email).contains(email))
            == Some(ApiErrorView::Conflict("Email already registered"@)),
{
}

/// A request body that fails validation is answered with that validation
/// error, by the login, the e-mail check and the sign-up alike, whatever the
/// lookups found and whatever the password.
pub proof fn lemma_invalid_body_is_refused_first(
    failure: ApiErrorView,
    account: Option<StoredCredentials>,
    password: Seq<char>,
    already_registered: bool,
)
    ensures
        web_login_result(Err(failure), account, password) == Err::<i32, ApiErrorView>(failure),
        email_check_result(Err(failure), already_registered) == Err::<Seq<char>, ApiErrorView>(failure),
        sign_up_refusal(Err(failure), already_registered) == Some(failure),
{
}

/// A login with a valid body gives an account id only for an account that
/// was found, only its own id, and only when bcrypt accepts the password
/// against its stored hash; without an account it is "Email not registered".
pub proof fn lemma_login_succeeds_only_with_verified_password(
    account: Option<StoredCredentials>,
    password: Seq<char>,
    id: i32,
)
    ensures
        web_login_result(Ok(()), account, password) == Ok::<i32, ApiErrorView>(id) ==> (
            account matches Some(c) && c.id == id && password_verifies(password, c.password_hash@)),
        account is None ==> web_login_result(Ok(()), account, password)
            == Err::<i32, ApiErrorView>(ApiErrorView::NotFound("Email not registered"@)),
        account matches Some(c) && bcrypt_verify_outcome(password, c.password_hash@) == Ok::<bool, Seq<char>>(false)
            ==> web_login_result(Ok(()), account, password)
            == Err::<i32, ApiErrorView>(ApiErrorView::Unauthorized("Wrong password"@)),
{
}

} // verus!
