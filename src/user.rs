//! User accounts: external ids and lookup results.
use vstd::prelude::*;
use vstd::string::StringExecFns;
use crate::dbx::DbxError;
use crate::ids::{external_id_of, generate_id};

verus! {

#[derive(Clone, Copy, Debug, PartialEq, Eq, Structural)]
pub enum UserTyp {
    Sys,
    User,
    UnVarifiedUser,
}

#[derive(Clone, Debug)]
pub struct User {
    pub user_id: String,
    pub name: String,
    pub email: String,
    pub typ: UserTyp,
}

/// Fields required for creating a user.
#[derive(Clone, Debug)]
pub struct UserForCreate {
    pub name: String,
    pub email: String,
    pub pwd_clear: String,
}

pub type Result<T> = std::result::Result<T, Error>;

#[derive(Clone, Debug)]
pub enum Error {
    UserNotFound { user_id: String },
    UserEmailNotFound,
    UserNotUnique,
    Dbx(DbxError),
}

impl From<DbxError> for Error {
    fn from(value: DbxError) -> (r: Error) {
        match value {
            DbxError::UniqueViolation(_) => Error::UserNotUnique,
            other => Error::Dbx(other),
        }
    }
}

impl vstd::std_specs::convert::FromSpecImpl<DbxError> for Error {
    open spec fn obeys_from_spec() -> bool {
        true
    }

    open spec fn from_spec(v: DbxError) -> Error {
        match v {
            DbxError::UniqueViolation(_) => Error::UserNotUnique,
            other => Error::Dbx(other),
        }
    }
}

pub struct UserBmc;

impl UserBmc {
    /// A fresh external user id.
    pub fn generate_user_id() -> (r: String)
        ensures
            exists|key: Seq<u8>| key.len() == 64 && r@ == external_id_of(key, 10),
    {
        generate_id(10)
    }

    /// The result of a lookup by user id: the row found, or `UserNotFound`
    /// with the id asked for.
    pub fn found_by_user_id<T>(row: Option<T>, user_id: &str) -> (r: Result<T>)
        ensures
            row matches Some(u) ==> r == Ok::<T, Error>(u),
            row is None ==> (r matches Err(Error::UserNotFound { user_id: id }) && id@
                == user_id@),
    {
        match row {
            Some(u) => Ok(u),
            None => Err(Error::UserNotFound { user_id: String::from_str(user_id) }),
        }
    }

    /// The result of a lookup by email: the row found, or `UserEmailNotFound`.
    pub fn found_by_email<T>(row: Option<T>) -> (r: Result<T>)
        ensures
            row matches Some(u) ==> r == Ok::<T, Error>(u),
            row is None ==> r matches Err(Error::UserEmailNotFound),
    {
        match row {
            Some(u) => Ok(u),
            None => Err(Error::UserEmailNotFound),
        }
    }
}

} // verus!
