//! Bills: created once with a fresh external id and a soft link to a seller.
use vstd::prelude::*;
use vstd::string::StringExecFns;
use crate::dbx::{DbxError, one_row};
use crate::ids::{external_id_of, generate_id};

verus! {

#[derive(Clone, Debug)]
pub struct Bill {
    pub bill_id: String,
    pub remark: Option<String>,
    /// The linked seller's external id; absent when none was resolved.
    pub seller_id: Option<String>,
}

/// Fields required for creating a bill.
#[derive(Clone, Debug)]
pub struct BillForCreate {
    pub remark: Option<String>,
    pub seller_id: Option<String>,
}

/// The bill row to write: its fresh external id, its remark and the
/// external id of the seller to link when one is stored under it.
#[derive(Clone, Debug)]
pub struct BillInsert {
    pub bill_id: String,
    pub remark: Option<String>,
    pub seller_id: Option<String>,
}

pub type Result<T> = std::result::Result<T, Error>;

#[derive(Clone, Debug)]
pub enum Error {
    BillNotFound { bill_id: String },
    BillNotUnique,
    Dbx(DbxError),
}

impl From<DbxError> for Error {
    fn from(value: DbxError) -> (r: Error) {
        match value {
            DbxError::UniqueViolation(_) => Error::BillNotUnique,
            other => Error::Dbx(other),
        }
    }
}

impl vstd::std_specs::convert::FromSpecImpl<DbxError> for Error {
    open spec fn obeys_from_spec() -> bool {
        true
    }

    open spec fn from_spec(v: DbxError) -> Error {
        match v {
            DbxError::UniqueViolation(_) => Error::BillNotUnique,
            other => Error::Dbx(other),
        }
    }
}

pub struct BillBmc;

impl BillBmc {
    fn generate_bill_id() -> (r: String)
        ensures
            exists|key: Seq<u8>| key.len() == 64 && r@ == external_id_of(key, 10),
    {
        generate_id(10)
    }

    /// The row that creating `bill_c` writes, under a fresh external id.
    pub fn new_bill(bill_c: BillForCreate) -> (r: BillInsert)
        ensures
            r.remark == bill_c.remark,
            r.seller_id == bill_c.seller_id,
            exists|key: Seq<u8>| key.len() == 64 && r.bill_id@ == external_id_of(key, 10),
    {
        let BillForCreate { remark, seller_id } = bill_c;
        BillInsert { bill_id: BillBmc::generate_bill_id(), remark, seller_id }
    }

    /// The outcome of the insert-if-absent write of a bill: the external id
    /// it returned, or, when the id was already taken and nothing came back,
    /// `NoRowReturned`.
    pub fn created(returned: Option<String>) -> (r: Result<String>)
        ensures
            returned matches Some(id) ==> r == Ok::<String, Error>(id),
            returned is None ==> r matches Err(Error::Dbx(DbxError::NoRowReturned)),
    {
        match one_row(returned) {
            Ok(id) => Ok(id),
            Err(e) => Err(Error::from(e)),
        }
    }

    /// The result of a lookup by external id: the row found, or
    /// `BillNotFound` with the id asked for.
    pub fn found(row: Option<Bill>, bill_id: &str) -> (r: Result<Bill>)
        ensures
            row is Some ==> r == Ok::<Bill, Error>(row->Some_0),
            row is None ==> (r matches Err(Error::BillNotFound { bill_id: id }) && id@ == bill_id@),
    {
        match row {
            Some(b) => Ok(b),
            None => Err(Error::BillNotFound { bill_id: String::from_str(bill_id) }),
        }
    }
}

} // verus!
