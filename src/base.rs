//! Table metadata that each entity's model controller states.
use vstd::prelude::*;
use crate::bill::BillBmc;
use crate::seller::SellerBmc;
use crate::transaction::TransactionBmc;
use crate::user::UserBmc;

verus! {

/// Meta information on the table that a model controller manages.
pub trait DbBmc {
    /// The name of the table.
    spec fn table() -> Seq<char>;

    fn table_ref() -> (r: &'static str)
        ensures
            r@ == Self::table(),
    ;

    /// The table has creation and modification stamp columns.
    fn has_timestamps() -> (r: bool) {
        true
    }

    /// The table has an owner column set on create.
    fn has_owner_id() -> (r: bool) {
        false
    }
}

impl DbBmc for BillBmc {
    open spec fn table() -> Seq<char> {
        "bill"@
    }

    fn table_ref() -> (r: &'static str) {
        "bill"
    }
}

impl DbBmc for SellerBmc {
    open spec fn table() -> Seq<char> {
        "seller"@
    }

    fn table_ref() -> (r: &'static str) {
        "seller"
    }
}

impl DbBmc for TransactionBmc {
    open spec fn table() -> Seq<char> {
        "transaction"@
    }

    fn table_ref() -> (r: &'static str) {
        "transaction"
    }
}

impl DbBmc for UserBmc {
    open spec fn table() -> Seq<char> {
        "user"@
    }

    fn table_ref() -> (r: &'static str) {
        "user"
    }
}

} // verus!
