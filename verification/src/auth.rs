use vstd::prelude::*;

use crate::error::{ApiError, ApiErrorView};
use crate::http_body::{
    decimal_text, id_member_value, id_object, id_object_text, integer_text, lemma_id_object_read_back,
};

verus! {

/// How a protected route authenticates its callers.
pub enum AuthType {
    /// A web token in the `Authorization` cookie, for a user with one of these roles.
    JWT(Vec<String>),
    /// The service key in the `x-api-key` header.
    APIKEY,
}

/// The model of an [`AuthType`].
pub enum AuthTypeView {
    JWT(Seq<Seq<char>>),
    APIKEY,
}

impl View for AuthType {
    type V = AuthTypeView;

    open spec fn view(&self) -> AuthTypeView {
        match self {
            AuthType::JWT(roles) => AuthTypeView::JWT(roles.deep_view()),
            AuthType::APIKEY => AuthTypeView::APIKEY,
        }
    }
}

/// The guard configured for a group of routes.
pub struct Auth {
    pub classification: AuthType,
}

/// The guard in front of one service.
pub struct AuthMiddleware<S> {
    service: S,
    classification: AuthType,
}

/// What the guard reads from a request: the value of the `Authorization`
/// cookie and of the `x-api-key` header, where they are present.
pub struct RequestCredentials {
    pub auth_cookie: Option<String>,
    pub api_key: Option<String>,
}

/// What the guard does next.
pub enum AuthAction {
    /// Answer the request with this error.
    Reject(ApiError),
    /// Decode this web token and check that its user has one of these roles.
    DecodeToken { roles: Vec<String>, token: String },
    /// Compare the key presented with the service key.
    CompareApiKey { presented: String },
    /// Pass the request on, with the JSON text of the caller identity to
    /// attach to it, where there is one.
    Forward { claims: Option<String> },
}

/// The model of an [`AuthAction`].
pub enum AuthActionView {
    Reject(ApiErrorView),
    DecodeToken { roles: Seq<Seq<char>>, token: Seq<char> },
    CompareApiKey { presented: Seq<char> },
    Forward { claims: Option<Seq<char>> },
}

impl View for AuthAction {
    type V = AuthActionView;

    open spec fn view(&self) -> AuthActionView {
        match self {
            AuthAction::Reject(e) => AuthActionView::Reject(e@),
            AuthAction::DecodeToken { roles, token } => AuthActionView::DecodeToken {
                roles: roles.deep_view(),
                token: token@,
            },
            AuthAction::CompareApiKey { presented } => AuthActionView::CompareApiKey { presented: presented@ },
            AuthAction::Forward { claims } => AuthActionView::Forward {
                claims: match claims {
                    Some(c) => Some(c@),
                    None => None,
                },
            },
        }
    }
}

/// The model of an optional text.
pub open spec fn text_option(t: Option<String>) -> Option<Seq<char>> {
    match t {
        Some(s) => Some(s@),
        None => None,
    }
}

/// The model of a token decoding result: the user id, or the error.
pub open spec fn decoded_view(d: Result<i64, ApiError>) -> Result<i64, ApiErrorView> {
    match d {
        Ok(id) => Ok(id),
        Err(e) => Err(e@),
    }
}

/// The first step of the guard on a request: a token guard without the
/// `Authorization` cookie answers "not logged in" and otherwise decodes the
/// cookie's token; a key guard without the `x-api-key` header answers
/// "wrong auth" and otherwise compares the key presented.
pub open spec fn request_action(
    classification: AuthTypeView,
    auth_cookie: Option<Seq<char>>,
    api_key: Option<Seq<char>>,
) -> AuthActionView {
    match classification {
        AuthTypeView::JWT(roles) => match auth_cookie {
            None => AuthActionView::Reject(ApiErrorView::Unauthorized("not logged in"@)),
            Some(token) => AuthActionView::DecodeToken { roles, token },
        },
        AuthTypeView::APIKEY => match api_key {
            None => AuthActionView::Reject(ApiErrorView::Unauthorized("wrong auth"@)),
            Some(presented) => AuthActionView::CompareApiKey { presented },
        },
    }
}

/// The step after a token was decoded: a decoding error is the answer; a
/// decoded user id is attached to the request as `{ "id":<id> }`.
pub open spec fn decoded_action(decoded: Result<i64, ApiErrorView>) -> AuthActionView {
    match decoded {
        Ok(id) => AuthActionView::Forward { claims: Some(id_object(decimal_text(id as int))) },
        Err(e) => AuthActionView::Reject(e),
    }
}

/// The step after the service key was read: the request passes when the key
/// presented is that key, and is answered "wrong auth" otherwise.
pub open spec fn api_key_action(presented: Seq<char>, expected: Seq<char>) -> AuthActionView {
    if presented == expected {
        AuthActionView::Forward { claims: None }
    } else {
        AuthActionView::Reject(ApiErrorView::Unauthorized("wrong auth"@))
    }
}

/// The whole run of the guard on one request, given what decoding the token
/// gives and the service key (each used only where the run reaches it).
pub open spec fn guard_outcome(
    classification: AuthTypeView,
    auth_cookie: Option<Seq<char>>,
    api_key: Option<Seq<char>>,
    decoded: Result<i64, ApiErrorView>,
    expected_key: Seq<char>,
) -> AuthActionView {
    match request_action(classification, auth_cookie, api_key) {
        AuthActionView::DecodeToken { .. } => decoded_action(decoded),
        AuthActionView::CompareApiKey { presented } => api_key_action(presented, expected_key),
        other => other,
    }
}

/// A request proves who sends it: a token guard got a cookie whose token
/// decodes, a key guard got the service key.
pub open spec fn authenticated(
    classification: AuthTypeView,
    auth_cookie: Option<Seq<char>>,
    api_key: Option<Seq<char>>,
    decoded: Result<i64, ApiErrorView>,
    expected_key: Seq<char>,
) -> bool {
    match classification {
        AuthTypeView::JWT(_) => auth_cookie is Some && decoded is Ok,
        AuthTypeView::APIKEY => api_key is Some && api_key->0 == expected_key,
    }
}

/// Copies a role list.
fn copy_roles(roles: &Vec<String>) -> (r: Vec<String>)
    ensures
        r.deep_view() == roles.deep_view(),
{
    let mut r: Vec<String> = Vec::new();
    let n = roles.len();
    for i in 0..n
        invariant
            n == roles.len(),
            r.len() == i,
            forall|j: int| 0 <= j < i ==> #[trigger] r[j]@ == roles[j]@,
    {
        r.push(roles[i].clone());
    }
    proof {
        assert(r.deep_view() =~= roles.deep_view());
    }
    r
}

/// Whether a user's role is one that a token guard admits: one of its roles.
pub fn role_allowed(roles: &Vec<String>, role: &String) -> (r: bool)
    ensures
        r == roles.deep_view().contains(role@),
{
    let n = roles.len();
    for i in 0..n
        invariant
            n == roles.len(),
            forall|j: int| 0 <= j < i ==> #[trigger] roles[j]@ != role@,
    {
        if roles[i] == *role {
            proof {
                assert(roles.deep_view()[i as int] == role@);
            }
            return true;
        }
    }
    proof {
        if roles.deep_view().contains(role@) {
            let k = choose|k: int| 0 <= k < roles.deep_view().len() && roles.deep_view()[k] == role@;
            assert(roles[k]@ == role@);
        }
    }
    false
}

impl AuthType {
    /// A copy of this classification.
    pub fn duplicate(&self) -> (r: AuthType)
        ensures
            r@ == self@,
    {
        match self {
            AuthType::JWT(roles) => AuthType::JWT(copy_roles(roles)),
            AuthType::APIKEY => AuthType::APIKEY,
        }
    }
}

impl Auth {
    /// Puts this guard in front of a service.
    pub fn new_transform<S>(&self, service: S) -> (r: AuthMiddleware<S>)
        ensures
            r.classification()@ == self.classification@,
            r.inner_service() == service,
    {
        AuthMiddleware { service, classification: self.classification.duplicate() }
    }
}

impl<S> AuthMiddleware<S> {
    /// How this guard authenticates.
    pub closed spec fn classification(&self) -> AuthType {
        self.classification
    }

    /// The service behind this guard.
    pub closed spec fn inner_service(&self) -> S {
        self.service
    }

    /// Whether this guard reads the `x-api-key` header (rather than the
    /// `Authorization` cookie).
    pub fn uses_api_key(&self) -> (r: bool)
        ensures
            r == (self.classification() is APIKEY),
    {
        match &self.classification {
            AuthType::APIKEY => true,
            AuthType::JWT(_) => false,
        }
    }

    /// The service behind this guard.
    pub fn service(&self) -> (r: &S)
        ensures
            *r == self.inner_service(),
    {
        &self.service
    }

    /// The first step of the guard on a request.
    pub fn call(&self, request: &RequestCredentials) -> (r: AuthAction)
        ensures
            r@ == request_action(
                self.classification()@,
                text_option(request.auth_cookie),
                text_option(request.api_key),
            ),
    {
        match &self.classification {
            AuthType::JWT(roles) => match &request.auth_cookie {
                None => AuthAction::Reject(ApiError::Unauthorized(String::from_str("not logged in"))),
                Some(token) => AuthAction::DecodeToken { roles: copy_roles(roles), token: token.clone() },
            },
            AuthType::APIKEY => match &request.api_key {
                None => AuthAction::Reject(ApiError::Unauthorized(String::from_str("wrong auth"))),
                Some(presented) => AuthAction::CompareApiKey { presented: presented.clone() },
            },
        }
    }

    /// The step after the token of the request was decoded.
    pub fn on_token_decoded(decoded: Result<i64, ApiError>) -> (r: AuthAction)
        ensures
            r@ == decoded_action(decoded_view(decoded)),
    {
        match decoded {
            Ok(id) => {
                let value = integer_text(id);
                AuthAction::Forward { claims: Some(id_object_text(value.as_str())) }
            },
            Err(e) => AuthAction::Reject(e),
        }
    }

    /// The step after the service key was read.
    pub fn on_service_key(presented: &String, expected: &String) -> (r: AuthAction)
        ensures
            r@ == api_key_action(presented@, expected@),
    {
        if *presented == *expected {
            AuthAction::Forward { claims: None }
        } else {
            AuthAction::Reject(ApiError::Unauthorized(String::from_str("wrong auth")))
        }
    }
}

/// The guard passes a request on exactly when the request proves who sends
/// it; otherwise it answers with an error.
pub proof fn lemma_guard_forwards_iff_authenticated(
    classification: AuthTypeView,
    auth_cookie: Option<Seq<char>>,
    api_key: Option<Seq<char>>,
    decoded: Result<i64, ApiErrorView>,
    expected_key: Seq<char>,
)
    ensures
        (guard_outcome(classification, auth_cookie, api_key, decoded, expected_key) is Forward)
            <==> authenticated(classification, auth_cookie, api_key, decoded, expected_key),
        (guard_outcome(classification, auth_cookie, api_key, decoded, expected_key) is Forward)
            || (guard_outcome(classification, auth_cookie, api_key, decoded, expected_key) is Reject),
{
}

/// A rejected request is answered "unauthorized", unless decoding its token
/// failed, in which case it is answered with that failure.
pub proof fn lemma_guard_rejections(
    classification: AuthTypeView,
    auth_cookie: Option<Seq<char>>,
    api_key: Option<Seq<char>>,
    decoded: Result<i64, ApiErrorView>,
    expected_key: Seq<char>,
)
    ensures
        guard_outcome(classification, auth_cookie, api_key, decoded, expected_key) matches AuthActionView::Reject(e) ==> {
            ||| e is Unauthorized
            ||| (classification is JWT && auth_cookie is Some && decoded == Err::<i64, ApiErrorView>(e))
        },
{
}

/// A token guard that finds the `Authorization` cookie decodes exactly the
/// cookie's token, checked against every role the guard was configured
/// with, whatever the request's `x-api-key` header holds.
pub proof fn lemma_token_guard_decodes_cookie_against_all_roles(
    roles: Seq<Seq<char>>,
    token: Seq<char>,
    api_key: Option<Seq<char>>,
)
    ensures
        request_action(AuthTypeView::JWT(roles), Some(token), api_key) matches AuthActionView::DecodeToken {
            roles: checked,
            token: decoded,
        } && checked == roles && decoded == token,
{
}

/// A key guard that finds the `x-api-key` header compares exactly that key,
/// whatever the cookie holds.
pub proof fn lemma_key_guard_compares_presented_key(cookie: Option<Seq<char>>, key: Seq<char>)
    ensures
        request_action(AuthTypeView::APIKEY, cookie, Some(key)) matches AuthActionView::CompareApiKey {
            presented,
        } && presented == key,
{
}

/// A decoded token lets the request through with an identity from which the
/// decoded user id reads back unchanged; a decoding failure is the answer
/// as it came.
pub proof fn lemma_decoded_identity_reads_back(id: i64, failure: ApiErrorView)
    ensures
        decoded_action(Ok(id)) matches AuthActionView::Forward { claims: Some(c) }
            && id_member_value(c) == id as int,
        decoded_action(Err(failure)) == AuthActionView::Reject(failure),
{
    lemma_id_object_read_back(id as int);
}

/// Two decoded users are never given the same identity.
pub proof fn lemma_decoded_identities_differ(a: i64, b: i64)
    requires
        a != b,
    ensures
        decoded_action(Ok(a)) != decoded_action(Ok(b)),
{
    lemma_id_object_read_back(a as int);
    lemma_id_object_read_back(b as int);
}

} // verus!
