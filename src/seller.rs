//! Sellers: reference rows keyed by their trimmed, case-sensitive name.
use vstd::prelude::*;
use vstd::string::StringExecFns;
use crate::dbx::DbxError;
use crate::ids::{external_id_of, generate_id};
use crate::reconcile::{absent_from, absent_keys, asks_for, distinct_keys, keys_of};
use crate::text::KeyRule;

verus! {

/// Fields required for creating a seller.
#[derive(Clone, Debug)]
pub struct SellerForCreate {
    pub name: String,
}

#[derive(Clone, Debug)]
pub struct Seller {
    pub seller_id: String,
    pub name: String,
}

pub type Result<T> = std::result::Result<T, Error>;

#[derive(Clone, Debug)]
pub enum Error {
    SellerNotFound { name_or_id: String },
    SellerNotUnique,
    Dbx(DbxError),
}

impl From<DbxError> for Error {
    fn from(value: DbxError) -> (r: Error) {
        match value {
            DbxError::UniqueViolation(_) => Error::SellerNotUnique,
            other => Error::Dbx(other),
        }
    }
}

impl vstd::std_specs::convert::FromSpecImpl<DbxError> for Error {
    open spec fn obeys_from_spec() -> bool {
        true
    }

    open spec fn from_spec(v: DbxError) -> Error {
        match v {
            DbxError::UniqueViolation(_) => Error::SellerNotUnique,
            other => Error::Dbx(other),
        }
    }
}

/// The candidate names of a creation request.
pub open spec fn names_of(sellers_c: Seq<SellerForCreate>) -> Seq<String> {
    sellers_c.map_values(|s: SellerForCreate| s.name)
}

/// The limit a listing uses: the one asked for when within 1 to 50, else 10.
pub open spec fn page_limit_of(limit: Option<i32>) -> i32 {
    match limit {
        Some(v) if 1 <= v <= 50 => v,
        _ => 10,
    }
}

pub struct SellerBmc;

impl SellerBmc {
    fn generate_seller_id() -> (r: String)
        ensures
            exists|key: Seq<u8>| key.len() == 64 && r@ == external_id_of(key, 10),
    {
        generate_id(10)
    }

    /// The distinct trimmed names that a creation request asks for.
    pub fn candidate_names(sellers_c: &Vec<SellerForCreate>) -> (r: Vec<String>)
        ensures
            keys_of(r@).no_duplicates(),
            forall|k: Seq<char>|
                keys_of(r@).contains(k) <==> asks_for(
                    names_of(sellers_c@),
                    KeyRule::CaseSensitive,
                    k,
                ),
    {
        let mut names: Vec<String> = Vec::new();
        let mut i: usize = 0;
        while i < sellers_c.len()
            invariant
                i <= sellers_c.len(),
                names@ =~= names_of(sellers_c@).subrange(0, i as int),
            decreases sellers_c.len() - i,
        {
            names.push(sellers_c[i].name.clone());
            i = i + 1;
        }
        assert(names@ =~= names_of(sellers_c@));
        distinct_keys(&names, KeyRule::CaseSensitive)
    }

    /// The sellers to insert: each name of `names` that `existing` does not
    /// hold, in order, with a fresh external id.
    pub fn new_sellers(names: &Vec<String>, existing: &Vec<String>) -> (r: Vec<Seller>)
        ensures
            r@.len() == absent_from(keys_of(names@), keys_of(existing@)).len(),
            forall|i: int|
                0 <= i < r@.len() ==> r@[i].name@ == absent_from(keys_of(names@), keys_of(existing@))[i]
                    && exists|key: Seq<u8>|
                    key.len() == 64 && r@[i].seller_id@ == external_id_of(key, 10),
    {
        let fresh = absent_keys(names, existing);
        let mut r: Vec<Seller> = Vec::new();
        let mut i: usize = 0;
        while i < fresh.len()
            invariant
                i <= fresh.len(),
                keys_of(fresh@) == absent_from(keys_of(names@), keys_of(existing@)),
                r@.len() == i,
                forall|j: int|
                    0 <= j < i ==> r@[j].name@ == fresh@[j]@ && exists|key: Seq<u8>|
                        key.len() == 64 && r@[j].seller_id@ == external_id_of(key, 10),
            decreases fresh.len() - i,
        {
            let seller_id = SellerBmc::generate_seller_id();
            r.push(Seller { seller_id, name: fresh[i].clone() });
            i = i + 1;
        }
        r
    }

    /// The limit a listing uses: the one asked for when within 1 to 50, else 10.
    pub fn page_limit(limit: Option<i32>) -> (r: i32)
        ensures
            r == page_limit_of(limit),
    {
        match limit {
            Some(v) if 1 <= v && v <= 50 => v,
            _ => 10,
        }
    }

    /// The pattern a name search matches against: the name between `%` signs.
    pub fn search_pattern(name: &str) -> (r: String)
        ensures
            r@ == seq!['%'] + name@ + seq!['%'],
    {
        let mut r = String::from_str("%");
        r.append(name);
        r.append("%");
        proof {
            reveal_strlit("%");
        }
        r
    }

    /// The result of a lookup by name: the row found, or `SellerNotFound`
    /// naming what was asked for.
    pub fn found_by_name(row: Option<Seller>, name: &str) -> (r: Result<Seller>)
        ensures
            row is Some ==> r == Ok::<Seller, Error>(row->Some_0),
            row is None ==> (r matches Err(Error::SellerNotFound { name_or_id })
                && name_or_id@ == "name: "@ + name@),
    {
        match row {
            Some(s) => Ok(s),
            None => {
                let mut text = String::from_str("name: ");
                text.append(name);
                Err(Error::SellerNotFound { name_or_id: text })
            },
        }
    }

    /// The result of a lookup by external id: the row found, or
    /// `SellerNotFound` naming what was asked for.
    pub fn found_by_seller_id(row: Option<Seller>, seller_id: &str) -> (r: Result<Seller>)
        ensures
            row is Some ==> r == Ok::<Seller, Error>(row->Some_0),
            row is None ==> (r matches Err(Error::SellerNotFound { name_or_id })
                && name_or_id@ == "seller_id: "@ + seller_id@),
    {
        match row {
            Some(s) => Ok(s),
            None => {
                let mut text = String::from_str("seller_id: ");
                text.append(seller_id);
                Err(Error::SellerNotFound { name_or_id: text })
            },
        }
    }
}

} // verus!
