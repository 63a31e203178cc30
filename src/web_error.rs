//! Errors at the HTTP boundary and the safe form they are shown to clients
//! in: a status code and a client error that carries no storage text.
use vstd::prelude::*;
use crate::{bill, seller, transaction, user};

verus! {

/// Failures of token handling.
#[derive(Clone, Copy, Debug, PartialEq, Eq, Structural)]
pub enum TokenError {
    HmacFailNewFromSlice,
    InvalidFormat,
    CannotDecodeIdent,
    CannotDecodeExp,
    SignatureNotMatching,
    ExpNotIso,
    Expired,
}

#[derive(Clone, Debug)]
pub enum Error {
    RouteNotExist(String),
    JsonDeserialization(String),
    FormDeserialization(String),
    LoginFailPwdNotMatching { user_id: String },
    /// The request carries no valid authentication context.
    CtxExt(String),
    ReqStampNotInReqExt,
    CantCreateModelManagerProvider(String),
    User(user::Error),
    Transaction(transaction::Error),
    Seller(seller::Error),
    Bill(bill::Error),
    /// Password hashing or checking failed.
    Pwd(String),
    Token(TokenError),
    SerdeJson(String),
    UnsupportedMedia,
}

#[allow(non_camel_case_types)]
#[derive(Clone, Debug)]
pub enum ClientError {
    ROUTE_NOT_EXIST { uri: String },
    JSON_DESERIALIZE { message: &'static str },
    FORM_DESERIALIZE { message: &'static str },
    LOGIN_FAIL,
    NO_AUTH,
    ENTITY_NOT_FOUND { entity: &'static str, id: String },
    USER_ALREADY_EXISTS,
    SERVICE_ERROR,
    UNSUPPORTED_MEDIA,
}

impl Error {
    /// The status code and client error that `self` is answered with.
    pub fn client_status_and_error(&self) -> (r: (u16, ClientError))
        ensures
            match self {
                Error::UnsupportedMedia => r.0 == 415 && r.1 matches ClientError::UNSUPPORTED_MEDIA,
                Error::RouteNotExist(uri) => r.0 == 404 && (r.1 matches ClientError::ROUTE_NOT_EXIST {
                    uri: u,
                } && u@ == uri@),
                Error::JsonDeserialization(_) => r.0 == 400 && (r.1 matches ClientError::JSON_DESERIALIZE {
                    message,
                } && message@ == "Some fields are missing or incorrect"@),
                Error::FormDeserialization(_) => r.0 == 400 && (r.1 matches ClientError::FORM_DESERIALIZE {
                    message,
                } && message@ == "Some fields are missing or incorrect"@),
                Error::LoginFailPwdNotMatching { .. } => r.0 == 403 && r.1 matches ClientError::LOGIN_FAIL,
                Error::CtxExt(_) => r.0 == 403 && r.1 matches ClientError::NO_AUTH,
                Error::User(user::Error::UserNotUnique) => r.0 == 409
                    && r.1 matches ClientError::USER_ALREADY_EXISTS,
                Error::User(user::Error::UserEmailNotFound) | Error::User(
                    user::Error::UserNotFound { .. },
                ) => r.0 == 403 && r.1 matches ClientError::LOGIN_FAIL,
                _ => r.0 == 500 && r.1 matches ClientError::SERVICE_ERROR,
            },
    {
        match self {
            Error::UnsupportedMedia => (415, ClientError::UNSUPPORTED_MEDIA),
            Error::RouteNotExist(uri) => (404, ClientError::ROUTE_NOT_EXIST { uri: uri.clone() }),
            Error::JsonDeserialization(_) => (
                400,
                ClientError::JSON_DESERIALIZE { message: "Some fields are missing or incorrect" },
            ),
            Error::FormDeserialization(_) => (
                400,
                ClientError::FORM_DESERIALIZE { message: "Some fields are missing or incorrect" },
            ),
            Error::LoginFailPwdNotMatching { .. } => (403, ClientError::LOGIN_FAIL),
            Error::CtxExt(_) => (403, ClientError::NO_AUTH),
            Error::User(user::Error::UserNotUnique) => (409, ClientError::USER_ALREADY_EXISTS),
            Error::User(user::Error::UserEmailNotFound) | Error::User(
                user::Error::UserNotFound { .. },
            ) => (403, ClientError::LOGIN_FAIL),
            _ => (500, ClientError::SERVICE_ERROR),
        }
    }
}

} // verus!
