//! Request-handling rules of a small account service: the error model and
//! how each error is answered, the login, sign-up and e-mail checks, the
//! authentication guard placed in front of protected routes, and the small
//! text builders that the handlers need.

pub mod error;
pub mod http_body;
pub mod password;
pub mod handler;
pub mod auth;
pub mod cli;
pub mod mailer;
