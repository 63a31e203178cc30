use lib_core::base::DbBmc;
use lib_core::bill::{self, Bill, BillBmc, BillForCreate};
use lib_core::dbx::DbxError;
use lib_core::ids::{external_id, generate_id, take_chars};
use lib_core::seller::{self, Seller, SellerBmc, SellerForCreate};
use lib_core::transaction::TransactionBmc;
use lib_core::user::{self, UserBmc, UserTyp};
use lib_core::web_error::{ClientError, Error, TokenError};

fn is_id(s: &str, len: usize) -> bool {
    s.chars().count() == len
        && s.chars().all(|c| c.is_ascii_digit() || c.is_ascii_uppercase())
}

#[test]
fn external_id_is_upper_base58_prefix() {
    let key = vec![0x04, 0x30, 0x5e, 0x2b, 0x24, 0x73, 0xf0, 0x58];
    assert_eq!(external_id(&key, 10), "HE11OWOR1D");
    assert_eq!(external_id(&key, 4), "HE11");
    assert_eq!(external_id(&vec![0u8; 64], 10), "1111111111");
}

#[test]
fn take_chars_counts_characters() {
    assert_eq!(take_chars("àbc", 2), "àb");
    assert_eq!(take_chars("ab", 5), "ab");
}

#[test]
fn generated_ids_have_display_length() {
    let a = generate_id(10);
    let b = generate_id(20);
    assert!(is_id(&a, 10));
    assert!(is_id(&b, 20));
    assert_ne!(generate_id(20), generate_id(20));
    assert!(is_id(&UserBmc::generate_user_id(), 10));
}

#[test]
fn seller_created_once() {
    let first = SellerBmc::candidate_names(&vec![SellerForCreate { name: " Acme ".to_string() }]);
    assert_eq!(first, vec!["Acme".to_string()]);
    let created = SellerBmc::new_sellers(&first, &Vec::new());
    assert_eq!(created.len(), 1);
    assert_eq!(created[0].name, "Acme");
    assert!(is_id(&created[0].seller_id, 10));

    let second = SellerBmc::candidate_names(&vec![SellerForCreate { name: "Acme".to_string() }]);
    assert_eq!(second, first);
    let existing = vec![created[0].name.clone()];
    assert!(SellerBmc::new_sellers(&second, &existing).is_empty());
}

#[test]
fn seller_candidates_dedup_by_trimmed_name() {
    let names = SellerBmc::candidate_names(&vec![
        SellerForCreate { name: "a".to_string() },
        SellerForCreate { name: " a ".to_string() },
        SellerForCreate { name: "A".to_string() },
    ]);
    let mut names = names;
    names.sort();
    assert_eq!(names, vec!["A".to_string(), "a".to_string()]);
}

#[test]
fn seller_page_limit() {
    assert_eq!(SellerBmc::page_limit(None), 10);
    assert_eq!(SellerBmc::page_limit(Some(0)), 10);
    assert_eq!(SellerBmc::page_limit(Some(1)), 1);
    assert_eq!(SellerBmc::page_limit(Some(50)), 50);
    assert_eq!(SellerBmc::page_limit(Some(51)), 10);
    assert_eq!(SellerBmc::page_limit(Some(-3)), 10);
}

#[test]
fn seller_search_pattern() {
    assert_eq!(SellerBmc::search_pattern("ac"), "%ac%");
    assert_eq!(SellerBmc::search_pattern(""), "%%");
}

#[test]
fn seller_lookups() {
    let s = Seller { seller_id: "ABC".to_string(), name: "Acme".to_string() };
    assert_eq!(SellerBmc::found_by_name(Some(s), "Acme").unwrap().seller_id, "ABC");
    match SellerBmc::found_by_name(None, "Acme") {
        Err(seller::Error::SellerNotFound { name_or_id }) => assert_eq!(name_or_id, "name: Acme"),
        other => panic!("unexpected {:?}", other),
    }
    match SellerBmc::found_by_seller_id(None, "XYZ") {
        Err(seller::Error::SellerNotFound { name_or_id }) => {
            assert_eq!(name_or_id, "seller_id: XYZ")
        }
        other => panic!("unexpected {:?}", other),
    }
}

#[test]
fn bill_with_unknown_seller_is_a_soft_link() {
    let plan = BillBmc::new_bill(BillForCreate {
        remark: Some("r".to_string()),
        seller_id: Some("NONEXISTENT".to_string()),
    });
    assert_eq!(plan.remark.as_deref(), Some("r"));
    assert_eq!(plan.seller_id.as_deref(), Some("NONEXISTENT"));
    assert!(is_id(&plan.bill_id, 10));
    let id = BillBmc::created(Some(plan.bill_id.clone())).unwrap();
    assert_eq!(id, plan.bill_id);
    let stored = Bill { bill_id: id.clone(), remark: Some("r".to_string()), seller_id: None };
    let found = BillBmc::found(Some(stored), &id).unwrap();
    assert!(found.seller_id.is_none());
}

#[test]
fn bill_id_collision_is_no_row_returned() {
    assert!(matches!(BillBmc::created(None), Err(bill::Error::Dbx(DbxError::NoRowReturned))));
    match BillBmc::found(None, "B1") {
        Err(bill::Error::BillNotFound { bill_id }) => assert_eq!(bill_id, "B1"),
        other => panic!("unexpected {:?}", other),
    }
}

#[test]
fn user_lookups() {
    assert!(matches!(UserBmc::found_by_user_id(Some(UserTyp::Sys), "u"), Ok(UserTyp::Sys)));
    match UserBmc::found_by_user_id::<UserTyp>(None, "demo1") {
        Err(user::Error::UserNotFound { user_id }) => assert_eq!(user_id, "demo1"),
        other => panic!("unexpected {:?}", other),
    }
    assert!(matches!(UserBmc::found_by_email::<UserTyp>(None), Err(user::Error::UserEmailNotFound)));
}

#[test]
fn table_names() {
    assert_eq!(SellerBmc::table_ref(), "seller");
    assert_eq!(BillBmc::table_ref(), "bill");
    assert_eq!(TransactionBmc::table_ref(), "transaction");
    assert_eq!(UserBmc::table_ref(), "user");
    assert!(SellerBmc::has_timestamps());
    assert!(!SellerBmc::has_owner_id());
}

#[test]
fn client_errors() {
    let (code, e) = Error::RouteNotExist("/x".to_string()).client_status_and_error();
    assert_eq!(code, 404);
    assert!(matches!(e, ClientError::ROUTE_NOT_EXIST { uri } if uri == "/x"));
    let (code, e) = Error::JsonDeserialization("bad".to_string()).client_status_and_error();
    assert_eq!(code, 400);
    assert!(matches!(e, ClientError::JSON_DESERIALIZE { message } if message == "Some fields are missing or incorrect"));
    let (code, _) = Error::FormDeserialization("bad".to_string()).client_status_and_error();
    assert_eq!(code, 400);
    let (code, e) = Error::UnsupportedMedia.client_status_and_error();
    assert_eq!(code, 415);
    assert!(matches!(e, ClientError::UNSUPPORTED_MEDIA));
    let (code, e) = Error::LoginFailPwdNotMatching { user_id: "u".to_string() }.client_status_and_error();
    assert_eq!(code, 403);
    assert!(matches!(e, ClientError::LOGIN_FAIL));
    let (code, e) = Error::CtxExt("none".to_string()).client_status_and_error();
    assert_eq!(code, 403);
    assert!(matches!(e, ClientError::NO_AUTH));
    let (code, e) = Error::User(user::Error::UserNotUnique).client_status_and_error();
    assert_eq!(code, 409);
    assert!(matches!(e, ClientError::USER_ALREADY_EXISTS));
    let (code, e) = Error::User(user::Error::UserEmailNotFound).client_status_and_error();
    assert_eq!(code, 403);
    assert!(matches!(e, ClientError::LOGIN_FAIL));
    let (code, e) = Error::Seller(seller::Error::SellerNotUnique).client_status_and_error();
    assert_eq!(code, 500);
    assert!(matches!(e, ClientError::SERVICE_ERROR));
    let (code, _) = Error::Token(TokenError::Expired).client_status_and_error();
    assert_eq!(code, 500);
}
