use lib_core::decimal::Decimal;
use lib_core::time::TimeRfc3339;
use lib_core::transaction::{
    PaymentMethod, TagLinkRow, TransactionBmc, TransactionForCreate, TransactionRow, UnitCost,
    UnitLinkRow,
};

fn dec(digits: u128, scale: u32) -> Decimal {
    Decimal { negative: false, digits, scale }
}

fn tr1() -> TransactionForCreate {
    TransactionForCreate {
        name: "tr1".to_string(),
        transaction_time: None,
        remark: None,
        tags: Some(vec!["a".to_string(), "B ".to_string()]),
        payment_method: PaymentMethod::Cash,
        unit_cost: Some(UnitCost { unit_type: "kg".to_string(), unit: dec(14, 1), cost_per_unit: dec(580, 1) }),
        seller_cost: dec(1043, 2),
        bill_id: None,
    }
}

fn sorted(mut v: Vec<String>) -> Vec<String> {
    v.sort();
    v
}

#[test]
fn batch_with_tags_and_unit_cost() {
    let now = TimeRfc3339 { unix_nanos: 5, offset_seconds: 0 };
    let plan = TransactionBmc::plan_create(vec![tr1()], now);
    assert_eq!(sorted(plan.tags.clone()), vec!["a".to_string(), "b".to_string()]);
    assert_eq!(plan.unit_types, vec!["kg".to_string()]);
    assert_eq!(plan.unit_costs.len(), 1);
    assert_eq!(plan.unit_costs[0].unit_type, "kg");
    assert_eq!(plan.unit_costs[0].cost_per_unit, dec(58, 0));
    assert_eq!(plan.rows.len(), 1);
    let row = &plan.rows[0];
    assert_eq!(row.name, "tr1");
    assert_eq!(row.transaction_time, now);
    assert_eq!(row.tag_keys, vec!["a".to_string(), "b".to_string()]);
    let unit = row.unit.as_ref().unwrap();
    assert_eq!(unit.unit, dec(14, 1));
    assert_eq!(unit.unit_type, "kg");
    assert_eq!(unit.cost_per_unit, dec(58, 0));
    assert_eq!(row.payment_method.as_str(), "Cash");
    assert_eq!(row.transaction_id.chars().count(), 20);

    // Read back: the stored rows re-assemble into the declared transaction.
    let stored = vec![TransactionRow {
        serial_id: 1,
        transaction_id: row.transaction_id.clone(),
        name: row.name.clone(),
        remark: None,
        transaction_time: row.transaction_time,
        payment_method_name: "Cash".to_string(),
        seller_cost: row.seller_cost,
        bill_id: None,
    }];
    let links = vec![
        TagLinkRow { transaction_serial_id: 1, tag_name: "a".to_string() },
        TagLinkRow { transaction_serial_id: 1, tag_name: "b".to_string() },
    ];
    let units = vec![UnitLinkRow {
        transaction_serial_id: 1,
        unit: dec(14, 1),
        cost_per_unit: dec(58, 0),
        unit_type_name: "kg".to_string(),
    }];
    let out = TransactionBmc::assemble(&stored, &links, &units);
    assert_eq!(out.len(), 1);
    assert_eq!(out[0].transaction_id, row.transaction_id);
    assert_eq!(sorted(out[0].tags.clone()), vec!["a".to_string(), "b".to_string()]);
    let uc = out[0].unit_cost.as_ref().unwrap();
    assert_eq!(uc.unit_type, "kg");
    assert_eq!(uc.unit, dec(14, 1));
    assert_eq!(uc.cost_per_unit, dec(58, 0));
    assert_eq!(out[0].payment_method, PaymentMethod::Cash);
}

#[test]
fn batch_shares_one_reconciliation() {
    let now = TimeRfc3339 { unix_nanos: 0, offset_seconds: 0 };
    let given = TimeRfc3339::parse_utc("2020-09-08T13:10:08.511Z").unwrap();
    let mut tr2 = tr1();
    tr2.name = "tr 2".to_string();
    tr2.transaction_time = Some(given);
    tr2.tags = Some(vec!["d".to_string(), "A".to_string(), " c".to_string()]);
    tr2.unit_cost = Some(UnitCost { unit_type: " KG".to_string(), unit: dec(5, 0), cost_per_unit: dec(58, 0) });
    let mut tr3 = tr1();
    tr3.tags = None;
    tr3.unit_cost = Some(UnitCost { unit_type: "bag".to_string(), unit: dec(5, 0), cost_per_unit: dec(340, 0) });
    let plan = TransactionBmc::plan_create(vec![tr1(), tr2, tr3], now);
    assert_eq!(sorted(plan.tags.clone()), vec!["a", "b", "c", "d"].iter().map(|s| s.to_string()).collect::<Vec<_>>());
    assert_eq!(sorted(plan.unit_types.clone()), vec!["bag".to_string(), "kg".to_string()]);
    assert_eq!(plan.unit_costs.len(), 2);
    assert_eq!(plan.rows.len(), 3);
    assert_eq!(plan.rows[0].transaction_time, now);
    assert_eq!(plan.rows[1].transaction_time, given);
    assert_eq!(plan.rows[1].name, "tr 2");
    assert_eq!(plan.rows[1].tag_keys, vec!["d".to_string(), "a".to_string(), "c".to_string()]);
    assert!(plan.rows[2].tag_keys.is_empty());
    assert_eq!(plan.rows[2].unit.as_ref().unwrap().unit_type, "bag");
}

#[test]
fn empty_batch_plans_nothing() {
    let plan = TransactionBmc::plan_create(Vec::new(), TimeRfc3339 { unix_nanos: 0, offset_seconds: 0 });
    assert!(plan.tags.is_empty() && plan.unit_types.is_empty() && plan.unit_costs.is_empty());
    assert!(plan.rows.is_empty());
}

#[test]
fn assemble_joins_by_serial_id() {
    let t = TimeRfc3339 { unix_nanos: 0, offset_seconds: 0 };
    let row = |serial_id: i64, id: &str, pm: &str| TransactionRow {
        serial_id,
        transaction_id: id.to_string(),
        name: id.to_lowercase(),
        remark: Some("r".to_string()),
        transaction_time: t,
        payment_method_name: pm.to_string(),
        seller_cost: dec(1700, 0),
        bill_id: Some("B".to_string()),
    };
    let rows = vec![row(2, "T2", "upi"), row(1, "T1", "bitcoin")];
    let links = vec![
        TagLinkRow { transaction_serial_id: 1, tag_name: "x".to_string() },
        TagLinkRow { transaction_serial_id: 2, tag_name: "y".to_string() },
        TagLinkRow { transaction_serial_id: 1, tag_name: "z".to_string() },
    ];
    let units = vec![
        UnitLinkRow { transaction_serial_id: 2, unit: dec(1, 0), cost_per_unit: dec(2, 0), unit_type_name: "bag".to_string() },
        UnitLinkRow { transaction_serial_id: 2, unit: dec(9, 0), cost_per_unit: dec(9, 0), unit_type_name: "kg".to_string() },
    ];
    let out = TransactionBmc::assemble(&rows, &links, &units);
    assert_eq!(out.len(), 2);
    assert_eq!(out[0].transaction_id, "T2");
    assert_eq!(out[0].tags, vec!["y".to_string()]);
    assert_eq!(out[0].payment_method, PaymentMethod::Upi);
    assert_eq!(out[0].unit_cost.as_ref().unwrap().unit_type, "bag");
    assert_eq!(out[0].remark.as_deref(), Some("r"));
    assert_eq!(out[0].bill_id.as_deref(), Some("B"));
    assert_eq!(out[1].tags, vec!["x".to_string(), "z".to_string()]);
    assert_eq!(out[1].payment_method, PaymentMethod::Unknown);
    assert!(out[1].unit_cost.is_none());
    assert_eq!(out[1].seller_cost, dec(1700, 0));
}

#[test]
fn payment_method_names() {
    assert_eq!(PaymentMethod::from_name("cash"), PaymentMethod::Cash);
    assert_eq!(PaymentMethod::from_name("CaSh"), PaymentMethod::Cash);
    assert_eq!(PaymentMethod::from_name("Card"), PaymentMethod::Card);
    assert_eq!(PaymentMethod::from_name("UPI"), PaymentMethod::Upi);
    assert_eq!(PaymentMethod::from_name("Unknown"), PaymentMethod::Unknown);
    assert_eq!(PaymentMethod::from_name("cash "), PaymentMethod::Unknown);
    assert_eq!(PaymentMethod::from_name(""), PaymentMethod::Unknown);
    assert_eq!(PaymentMethod::Upi.as_str(), "Upi");
    assert_eq!(PaymentMethod::Card.as_str(), "Card");
    assert_eq!(PaymentMethod::Unknown.as_str(), "Unknown");
}

#[test]
fn decimal_canonical_form() {
    assert_eq!(dec(5800, 2).canonical(), dec(58, 0));
    assert_eq!(dec(10430, 3).canonical(), dec(1043, 2));
    assert_eq!(dec(100, 0).canonical(), dec(100, 0));
    assert_eq!(Decimal { negative: true, digits: 0, scale: 4 }.canonical(), dec(0, 0));
    assert_eq!(Decimal { negative: true, digits: 120, scale: 1 }.canonical(), Decimal { negative: true, digits: 12, scale: 0 });
}
