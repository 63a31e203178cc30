use lib_core::dbx::DbxError;
use lib_core::reconcile::{
    absent_keys, contains_key, distinct_keys, resolve_serials, KeyRow, ReconcileAction, ReconcileError,
    ReconcileEvent, ReconcileStep, Reconciler,
};
use lib_core::text::{normalize_name, trim, KeyRule};

fn strings(v: &[&str]) -> Vec<String> {
    v.iter().map(|s| s.to_string()).collect()
}

fn sorted(mut v: Vec<String>) -> Vec<String> {
    v.sort();
    v
}

#[test]
fn trim_drops_unicode_whitespace() {
    assert_eq!(trim("  Acme \t\n"), "Acme");
    assert_eq!(trim("\u{3000}x y\u{a0}"), "x y");
    assert_eq!(trim("   "), "");
    assert_eq!(trim(""), "");
}

#[test]
fn normalize_folds_case_for_tags_only() {
    assert_eq!(normalize_name(" B ", KeyRule::CaseInsensitive), "b");
    assert_eq!(normalize_name(" ÀB ", KeyRule::CaseInsensitive), "àb");
    assert_eq!(normalize_name(" Acme ", KeyRule::CaseSensitive), "Acme");
}

#[test]
fn dedup_keeps_one_key_per_normalized_name() {
    let tags = strings(&["a", " a", "A ", "B ", "b", "c"]);
    let keys = sorted(distinct_keys(&tags, KeyRule::CaseInsensitive));
    assert_eq!(keys, strings(&["a", "b", "c"]));

    let sellers = strings(&[" Acme", "Acme ", "acme"]);
    let keys = sorted(distinct_keys(&sellers, KeyRule::CaseSensitive));
    assert_eq!(keys, strings(&["Acme", "acme"]));

    assert!(distinct_keys(&Vec::new(), KeyRule::CaseInsensitive).is_empty());
}

#[test]
fn dedup_is_idempotent() {
    let tags = strings(&[" X", "x", "y "]);
    let once = distinct_keys(&tags, KeyRule::CaseInsensitive);
    let twice = distinct_keys(&once, KeyRule::CaseInsensitive);
    assert_eq!(sorted(once), sorted(twice));
}

#[test]
fn absent_keys_is_the_complement_in_order() {
    let keys = strings(&["a", "b", "c", "d"]);
    let existing = strings(&["c", "a", "z"]);
    assert_eq!(absent_keys(&keys, &existing), strings(&["b", "d"]));
    assert!(absent_keys(&keys, &keys).is_empty());
    assert_eq!(absent_keys(&keys, &Vec::new()), keys);
}

#[test]
fn contains_key_compares_whole_strings() {
    let v = strings(&["ab", "c"]);
    assert!(contains_key(&v, &"c".to_string()));
    assert!(!contains_key(&v, &"a".to_string()));
}

fn row(serial_id: i64, name: &str) -> KeyRow {
    KeyRow { serial_id, name: name.to_string() }
}

#[test]
fn resolve_maps_each_key_to_its_serial() {
    let rows = vec![row(7, "a"), row(9, "b"), row(11, "a")];
    let ids = resolve_serials(&strings(&["b", "a", "b"]), &rows).unwrap();
    assert_eq!(ids, vec![9, 7, 9]);
}

#[test]
fn resolve_names_the_first_missing_key() {
    let rows = vec![row(1, "a")];
    match resolve_serials(&strings(&["a", "x", "y"]), &rows) {
        Err(ReconcileError::Unresolved { key }) => assert_eq!(key, "x"),
        other => panic!("unexpected {:?}", other),
    }
}

#[test]
fn overlapping_callers_resolve_to_the_same_serial() {
    // Both callers saw an empty table; caller A wrote first.
    let a = strings(&["a", "b"]);
    let b = strings(&["b", "c"]);
    let table_after_a = vec![row(1, "a"), row(2, "b")];
    let a_ids = resolve_serials(&a, &table_after_a).unwrap();
    // B's insert-if-absent of its stale complement skips "b" and adds "c".
    let b_new = absent_keys(&b, &Vec::new());
    assert_eq!(b_new, strings(&["b", "c"]));
    let table_after_b = vec![row(1, "a"), row(2, "b"), row(3, "c")];
    let b_ids = resolve_serials(&b, &table_after_b).unwrap();
    assert_eq!(a_ids[1], b_ids[0]);
    assert_eq!(resolve_serials(&a, &table_after_b).unwrap(), a_ids);
}

#[test]
fn reconciler_runs_a_full_pass() {
    let (mut r, first) = Reconciler::start(&strings(&["a", " A", "b "]), KeyRule::CaseInsensitive);
    let keys = match first {
        ReconcileAction::FindExisting(ks) => sorted(ks),
        other => panic!("unexpected {:?}", other),
    };
    assert_eq!(keys, strings(&["a", "b"]));
    match r.on_event(ReconcileEvent::Existing(strings(&["b"]))) {
        ReconcileAction::InsertIfAbsent(ks) => assert_eq!(ks, strings(&["a"])),
        other => panic!("unexpected {:?}", other),
    }
    match r.on_event(ReconcileEvent::Inserted) {
        ReconcileAction::Resolve(ks) => assert_eq!(sorted(ks), strings(&["a", "b"])),
        other => panic!("unexpected {:?}", other),
    }
    let rows = vec![row(4, "b"), row(5, "a")];
    let expected: Vec<i64> = r.keys.iter().map(|k| if k == "a" { 5 } else { 4 }).collect();
    match r.on_event(ReconcileEvent::Resolved(rows)) {
        ReconcileAction::Finished(ids) => assert_eq!(ids, expected),
        other => panic!("unexpected {:?}", other),
    }
    assert_eq!(r.step, ReconcileStep::Done);
}

#[test]
fn reconciler_aborts_on_failure_or_disorder() {
    let (mut r, _) = Reconciler::start(&strings(&["a"]), KeyRule::CaseSensitive);
    assert!(matches!(
        r.on_event(ReconcileEvent::Inserted),
        ReconcileAction::Abort(ReconcileError::UnexpectedEvent)
    ));
    assert_eq!(r.step, ReconcileStep::Failed);

    let (mut r, _) = Reconciler::start(&strings(&["a"]), KeyRule::CaseSensitive);
    assert!(matches!(
        r.on_event(ReconcileEvent::Failed(DbxError::PoolTimeout)),
        ReconcileAction::Abort(ReconcileError::Storage(DbxError::PoolTimeout))
    ));

    let (mut r, _) = Reconciler::start(&strings(&["a"]), KeyRule::CaseSensitive);
    r.on_event(ReconcileEvent::Existing(Vec::new()));
    r.on_event(ReconcileEvent::Inserted);
    match r.on_event(ReconcileEvent::Resolved(Vec::new())) {
        ReconcileAction::Abort(ReconcileError::Unresolved { key }) => assert_eq!(key, "a"),
        other => panic!("unexpected {:?}", other),
    }
}
