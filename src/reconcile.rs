//! The reconcile-and-insert engine: from a batch of candidate names to one
//! stored row per distinct natural key, resolved to internal serial ids.
//!
//! The steps that need the store (finding existing keys, the
//! insert-if-absent write, the re-resolution query) are run by the caller;
//! the decisions between them are made here. The store's insert-if-absent
//! write is modelled by [`insert_if_absent`] so that the engine's guarantees
//! can be stated and proved.
use vstd::prelude::*;
use crate::dbx::DbxError;
use crate::text::{KeyRule, normalized, normalize_name};

verus! {

/// The natural keys held by a list of strings.
pub open spec fn keys_of(v: Seq<String>) -> Seq<Seq<char>> {
    v.map_values(|s: String| s@)
}

/// Whether some candidate of the batch normalises to `k`.
pub open spec fn asks_for(cands: Seq<String>, rule: KeyRule, k: Seq<char>) -> bool {
    exists|i: int| 0 <= i < cands.len() && normalized(cands[i]@, rule) == k
}

/// The keys of `keys` that `existing` does not hold, in their order.
pub open spec fn absent_from(keys: Seq<Seq<char>>, existing: Seq<Seq<char>>) -> Seq<Seq<char>>
    decreases keys.len(),
{
    if keys.len() == 0 {
        keys
    } else {
        let rest = absent_from(keys.drop_last(), existing);
        if existing.contains(keys.last()) {
            rest
        } else {
            rest.push(keys.last())
        }
    }
}

/// A stored reference row: internal serial id and natural key.
#[derive(Clone, Debug)]
pub struct KeyRow {
    pub serial_id: i64,
    pub name: String,
}

/// A table of reference rows as (natural key, serial id) pairs.
pub open spec fn rows_model(rows: Seq<KeyRow>) -> Seq<(Seq<char>, int)> {
    rows.map_values(|r: KeyRow| (r.name@, r.serial_id as int))
}

/// The serial id of the first row stored under `k`.
pub open spec fn lookup(t: Seq<(Seq<char>, int)>, k: Seq<char>) -> Option<int>
    decreases t.len(),
{
    if t.len() == 0 {
        None
    } else if t[0].0 == k {
        Some(t[0].1)
    } else {
        lookup(t.drop_first(), k)
    }
}

/// Whether the table holds a row under `k`.
pub open spec fn has_key(t: Seq<(Seq<char>, int)>, k: Seq<char>) -> bool {
    lookup(t, k) is Some
}

/// No two rows share a natural key.
pub open spec fn unique_keys(t: Seq<(Seq<char>, int)>) -> bool {
    forall|i: int, j: int| 0 <= i < t.len() && 0 <= j < t.len() && i != j ==> t[i].0 != t[j].0
}

/// The store's insert-if-absent write of `keys`, in order: a key already
/// present is a silent no-op, any other is appended under the next dense
/// serial id.
pub open spec fn insert_if_absent(t: Seq<(Seq<char>, int)>, keys: Seq<Seq<char>>) -> Seq<
    (Seq<char>, int),
>
    decreases keys.len(),
{
    if keys.len() == 0 {
        t
    } else {
        let t1 = insert_if_absent(t, keys.drop_last());
        if has_key(t1, keys.last()) {
            t1
        } else {
            t1.push((keys.last(), t1.len() as int + 1))
        }
    }
}

/// Why a batch could not be resolved to serial ids.
#[derive(Clone, Debug)]
pub enum ReconcileError {
    /// No stored row carries this key.
    Unresolved { key: String },
    /// A store round-trip failed.
    Storage(DbxError),
    /// The store reported an outcome the engine did not ask for.
    UnexpectedEvent,
}

/// Whether `v` holds a string equal to `k`.
pub fn contains_key(v: &Vec<String>, k: &String) -> (r: bool)
    ensures
        r == keys_of(v@).contains(k@),
{
    let mut i: usize = 0;
    while i < v.len()
        invariant
            i <= v.len(),
            forall|j: int| 0 <= j < i ==> v@[j]@ != k@,
        decreases v.len() - i,
    {
        if v[i] == *k {
            assert(keys_of(v@)[i as int] == k@);
            return true;
        }
        i = i + 1;
    }
    assert(!keys_of(v@).contains(k@)) by {
        if keys_of(v@).contains(k@) {
            let j = choose|j: int| 0 <= j < keys_of(v@).len() && keys_of(v@)[j] == k@;
            assert(v@[j]@ == k@);
        }
    }
    false
}

/// The distinct natural keys of a batch of candidate names, each once.
pub fn distinct_keys(cands: &Vec<String>, rule: KeyRule) -> (r: Vec<String>)
    ensures
        keys_of(r@).no_duplicates(),
        forall|k: Seq<char>| keys_of(r@).contains(k) <==> asks_for(cands@, rule, k),
{
    let mut r: Vec<String> = Vec::new();
    let mut i: usize = 0;
    while i < cands.len()
        invariant
            i <= cands.len(),
            keys_of(r@).no_duplicates(),
            forall|k: Seq<char>|
                keys_of(r@).contains(k) <==> exists|j: int|
                    0 <= j < i && normalized(cands@[j]@, rule) == k,
        decreases cands.len() - i,
    {
        let key = normalize_name(cands[i].as_str(), rule);
        let ghost old_r = r@;
        if !contains_key(&r, &key) {
            r.push(key);
            assert(keys_of(r@) =~= keys_of(old_r).push(key@));
        }
        assert forall|k: Seq<char>|
            keys_of(r@).contains(k) <==> exists|j: int|
                0 <= j < i + 1 && normalized(cands@[j]@, rule) == k by {
            if keys_of(r@).contains(k) {
                if k == key@ {
                    assert(0 <= i < i + 1 && normalized(cands@[i as int]@, rule) == k);
                } else {
                    let m = choose|m: int| 0 <= m < keys_of(r@).len() && keys_of(r@)[m] == k;
                    assert(m < old_r.len());
                    assert(keys_of(old_r)[m] == k);
                    assert(keys_of(old_r).contains(k));
                    let j = choose|j: int| 0 <= j < i && normalized(cands@[j]@, rule) == k;
                    assert(0 <= j < i + 1 && normalized(cands@[j]@, rule) == k);
                }
            }
            if exists|j: int| 0 <= j < i + 1 && normalized(cands@[j]@, rule) == k {
                let j = choose|j: int| 0 <= j < i + 1 && normalized(cands@[j]@, rule) == k;
                if j < i {
                    assert(exists|j: int| 0 <= j < i && normalized(cands@[j]@, rule) == k);
                    assert(keys_of(old_r).contains(k));
                    let m = choose|m: int| 0 <= m < keys_of(old_r).len() && keys_of(old_r)[m] == k;
                    assert(keys_of(r@)[m] == k);
                } else {
                    if keys_of(old_r).contains(key@) {
                        let m = choose|m: int|
                            0 <= m < keys_of(old_r).len() && keys_of(old_r)[m] == key@;
                        assert(keys_of(r@)[m] == k);
                    } else {
                        assert(keys_of(r@)[keys_of(r@).len() - 1] == k);
                    }
                }
            }
        }
        i = i + 1;
    }
    r
}

/// The keys of `keys` that `existing` does not hold, in their order: what
/// remains to be written once the keys already stored are known.
pub fn absent_keys(keys: &Vec<String>, existing: &Vec<String>) -> (r: Vec<String>)
    ensures
        keys_of(r@) == absent_from(keys_of(keys@), keys_of(existing@)),
{
    let mut r: Vec<String> = Vec::new();
    let mut i: usize = 0;
    while i < keys.len()
        invariant
            i <= keys.len(),
            keys_of(r@) == absent_from(keys_of(keys@).subrange(0, i as int), keys_of(existing@)),
        decreases keys.len() - i,
    {
        let ghost sub = keys_of(keys@).subrange(0, i + 1);
        assert(sub.drop_last() =~= keys_of(keys@).subrange(0, i as int));
        if !contains_key(existing, &keys[i]) {
            let ghost old_r = r@;
            r.push(keys[i].clone());
            assert(keys_of(r@) =~= keys_of(old_r).push(keys@[i as int]@));
        }
        i = i + 1;
    }
    assert(keys_of(keys@).subrange(0, keys.len() as int) =~= keys_of(keys@));
    r
}

/// The serial id of the first row under `k`, found by a scan of `rows`.
fn find_serial(rows: &Vec<KeyRow>, k: &String) -> (r: Option<i64>)
    ensures
        r matches Some(s) ==> lookup(rows_model(rows@), k@) == Some(s as int),
        r is None ==> lookup(rows_model(rows@), k@) is None,
{
    let mut i: usize = 0;
    assert(rows_model(rows@).subrange(0, rows.len() as int) =~= rows_model(rows@));
    while i < rows.len()
        invariant
            i <= rows.len(),
            lookup(rows_model(rows@), k@) == lookup(
                rows_model(rows@).subrange(i as int, rows.len() as int),
                k@,
            ),
        decreases rows.len() - i,
    {
        let ghost sub = rows_model(rows@).subrange(i as int, rows.len() as int);
        assert(sub.drop_first() =~= rows_model(rows@).subrange(i + 1, rows.len() as int));
        if rows[i].name == *k {
            return Some(rows[i].serial_id);
        }
        i = i + 1;
    }
    None
}

/// Every key of `keys` resolved to the serial id stored under it, or the
/// first key that no row carries.
pub fn resolve_serials(keys: &Vec<String>, rows: &Vec<KeyRow>) -> (r: Result<Vec<i64>, ReconcileError>)
    ensures
        r matches Ok(ids) ==> ids@.len() == keys@.len() && forall|i: int|
            0 <= i < keys@.len() ==> lookup(rows_model(rows@), keys@[i]@) == Some(ids@[i] as int),
        r is Err ==> (r matches Err(ReconcileError::Unresolved { key }) && exists|i: int|
            0 <= i < keys@.len() && keys@[i]@ == key@ && lookup(rows_model(rows@), key@) is None),
{
    let mut ids: Vec<i64> = Vec::new();
    let mut i: usize = 0;
    while i < keys.len()
        invariant
            i <= keys.len(),
            ids@.len() == i,
            forall|j: int|
                0 <= j < i ==> lookup(rows_model(rows@), keys@[j]@) == Some(ids@[j] as int),
        decreases keys.len() - i,
    {
        match find_serial(rows, &keys[i]) {
            Some(s) => ids.push(s),
            None => {
                return Err(ReconcileError::Unresolved { key: keys[i].clone() });
            },
        }
        i = i + 1;
    }
    Ok(ids)
}

/// Where a reconciliation pass stands.
#[derive(Clone, Copy, Debug, PartialEq, Eq, Structural)]
pub enum ReconcileStep {
    /// Waiting for the keys already stored.
    FindExisting,
    /// Waiting for the insert-if-absent write to complete.
    InsertAbsent,
    /// Waiting for the rows that resolve every key.
    Resolve,
    Done,
    Failed,
}

/// What the store reported for the last action.
#[derive(Clone, Debug)]
pub enum ReconcileEvent {
    /// The keys of the pass that are already stored.
    Existing(Vec<String>),
    /// The insert-if-absent write completed.
    Inserted,
    /// The stored rows under the keys of the pass.
    Resolved(Vec<KeyRow>),
    /// The round-trip failed.
    Failed(DbxError),
}

/// What the store has to do next.
#[derive(Clone, Debug)]
pub enum ReconcileAction {
    /// Report which of these keys are stored.
    FindExisting(Vec<String>),
    /// Write these keys with insert-if-absent.
    InsertIfAbsent(Vec<String>),
    /// Report the rows stored under these keys.
    Resolve(Vec<String>),
    /// The pass is complete: the serial id of each key, in key order.
    Finished(Vec<i64>),
    /// The pass failed; the enclosing unit of work must be rolled back.
    Abort(ReconcileError),
}

/// One reconcile-and-insert pass over a reference table.
#[derive(Clone, Debug)]
pub struct Reconciler {
    /// The distinct natural keys of the pass.
    pub keys: Vec<String>,
    pub step: ReconcileStep,
}

impl Reconciler {
    /// Starts a pass over a batch of candidate names: their distinct keys are
    /// looked up first.
    pub fn start(cands: &Vec<String>, rule: KeyRule) -> (r: (Reconciler, ReconcileAction))
        ensures
            r.0.step == ReconcileStep::FindExisting,
            keys_of(r.0.keys@).no_duplicates(),
            forall|k: Seq<char>| keys_of(r.0.keys@).contains(k) <==> asks_for(cands@, rule, k),
            r.1 matches ReconcileAction::FindExisting(ks) && keys_of(ks@) == keys_of(r.0.keys@),
    {
        let keys = distinct_keys(cands, rule);
        let ask = clone_keys(&keys);
        (Reconciler { keys, step: ReconcileStep::FindExisting }, ReconcileAction::FindExisting(ask))
    }

    /// Takes the store's report on the last action and says what to do next.
    pub fn on_event(&mut self, ev: ReconcileEvent) -> (r: ReconcileAction)
        ensures
            keys_of(final(self).keys@) == keys_of(old(self).keys@),
            ({
                let keys = keys_of(old(self).keys@);
                match (old(self).step, ev) {
                    (_, ReconcileEvent::Failed(e)) => final(self).step == ReconcileStep::Failed
                        && r == ReconcileAction::Abort(ReconcileError::Storage(e)),
                    (ReconcileStep::FindExisting, ReconcileEvent::Existing(ex)) => final(self).step
                        == ReconcileStep::InsertAbsent && (r matches ReconcileAction::InsertIfAbsent(
                        ks,
                    ) && keys_of(ks@) == absent_from(keys, keys_of(ex@))),
                    (ReconcileStep::InsertAbsent, ReconcileEvent::Inserted) => final(self).step
                        == ReconcileStep::Resolve && (r matches ReconcileAction::Resolve(ks)
                        && keys_of(ks@) == keys),
                    (ReconcileStep::Resolve, ReconcileEvent::Resolved(rows)) => if forall|i: int|
                        0 <= i < keys.len() ==> has_key(rows_model(rows@), keys[i]) {
                        final(self).step == ReconcileStep::Done && (r matches ReconcileAction::Finished(
                            ids,
                        ) && ids@.len() == keys.len() && forall|i: int|
                            0 <= i < keys.len() ==> lookup(rows_model(rows@), keys[i]) == Some(
                                ids@[i] as int,
                            ))
                    } else {
                        final(self).step == ReconcileStep::Failed && (r matches ReconcileAction::Abort(
                            ReconcileError::Unresolved { key },
                        ) && keys.contains(key@) && !has_key(rows_model(rows@), key@))
                    },
                    _ => final(self).step == ReconcileStep::Failed && r matches ReconcileAction::Abort(
                        ReconcileError::UnexpectedEvent,
                    ),
                }
            }),
    {
        let step = self.step;
        match ev {
            ReconcileEvent::Failed(e) => {
                self.step = ReconcileStep::Failed;
                ReconcileAction::Abort(ReconcileError::Storage(e))
            },
            ReconcileEvent::Existing(ex) => {
                if step == ReconcileStep::FindExisting {
                    self.step = ReconcileStep::InsertAbsent;
                    ReconcileAction::InsertIfAbsent(absent_keys(&self.keys, &ex))
                } else {
                    self.step = ReconcileStep::Failed;
                    ReconcileAction::Abort(ReconcileError::UnexpectedEvent)
                }
            },
            ReconcileEvent::Inserted => {
                if step == ReconcileStep::InsertAbsent {
                    self.step = ReconcileStep::Resolve;
                    ReconcileAction::Resolve(clone_keys(&self.keys))
                } else {
                    self.step = ReconcileStep::Failed;
                    ReconcileAction::Abort(ReconcileError::UnexpectedEvent)
                }
            },
            ReconcileEvent::Resolved(rows) => {
                if step == ReconcileStep::Resolve {
                    match resolve_serials(&self.keys, &rows) {
                        Ok(ids) => {
                            proof {
                                assert forall|i: int| 0 <= i < self.keys@.len() implies lookup(
                                    rows_model(rows@),
                                    keys_of(self.keys@)[i],
                                ) == Some(ids@[i] as int) by {
                                    assert(keys_of(self.keys@)[i] == self.keys@[i]@);
                                }
                                assert forall|i: int| 0 <= i < self.keys@.len() implies has_key(
                                    rows_model(rows@),
                                    keys_of(self.keys@)[i],
                                ) by {
                                    assert(keys_of(self.keys@)[i] == self.keys@[i]@);
                                    assert(lookup(rows_model(rows@), self.keys@[i]@) == Some(
                                        ids@[i] as int,
                                    ));
                                }
                            }
                            self.step = ReconcileStep::Done;
                            ReconcileAction::Finished(ids)
                        },
                        Err(e) => {
                            self.step = ReconcileStep::Failed;
                            proof {
                                let key = e->Unresolved_key;
                                let i = choose|i: int|
                                    0 <= i < self.keys@.len() && self.keys@[i]@ == key@
                                        && lookup(rows_model(rows@), key@) is None;
                                assert(keys_of(self.keys@)[i] == key@);
                            }
                            ReconcileAction::Abort(e)
                        },
                    }
                } else {
                    self.step = ReconcileStep::Failed;
                    ReconcileAction::Abort(ReconcileError::UnexpectedEvent)
                }
            },
        }
    }
}

fn clone_keys(v: &Vec<String>) -> (r: Vec<String>)
    ensures
        keys_of(r@) == keys_of(v@),
{
    let mut r: Vec<String> = Vec::new();
    let mut i: usize = 0;
    while i < v.len()
        invariant
            i <= v.len(),
            keys_of(r@) =~= keys_of(v@).subrange(0, i as int),
        decreases v.len() - i,
    {
        let ghost before = r@;
        r.push(v[i].clone());
        assert(keys_of(r@) =~= keys_of(before).push(v@[i as int]@));
        i = i + 1;
    }
    r
}

proof fn lemma_lookup_push(t: Seq<(Seq<char>, int)>, x: (Seq<char>, int), k: Seq<char>)
    ensures
        lookup(t.push(x), k) == if has_key(t, k) {
            lookup(t, k)
        } else if x.0 == k {
            Some(x.1)
        } else {
            None
        },
    decreases t.len(),
{
    if t.len() > 0 {
        assert(t.push(x).drop_first() =~= t.drop_first().push(x));
        lemma_lookup_push(t.drop_first(), x, k);
    } else {
        assert(t.push(x).drop_first() =~= t);
    }
}

proof fn lemma_has_key_index(t: Seq<(Seq<char>, int)>, k: Seq<char>)
    ensures
        has_key(t, k) <==> exists|i: int| 0 <= i < t.len() && t[i].0 == k,
    decreases t.len(),
{
    if t.len() > 0 {
        lemma_has_key_index(t.drop_first(), k);
        if exists|i: int| 0 <= i < t.len() && t[i].0 == k {
            let i = choose|i: int| 0 <= i < t.len() && t[i].0 == k;
            if i > 0 {
                assert(t.drop_first()[i - 1].0 == k);
            }
        }
        if has_key(t.drop_first(), k) {
            let i = choose|i: int| 0 <= i < t.drop_first().len() && t.drop_first()[i].0 == k;
            assert(t[i + 1].0 == k);
        }
    }
}

proof fn lemma_insert_if_absent(t: Seq<(Seq<char>, int)>, keys: Seq<Seq<char>>)
    ensures
        forall|k: Seq<char>|
            has_key(insert_if_absent(t, keys), k) <==> (has_key(t, k) || keys.contains(k)),
        forall|k: Seq<char>|
            has_key(t, k) ==> lookup(insert_if_absent(t, keys), k) == lookup(t, k),
        unique_keys(t) ==> unique_keys(insert_if_absent(t, keys)),
    decreases keys.len(),
{
    if keys.len() > 0 {
        let t1 = insert_if_absent(t, keys.drop_last());
        lemma_insert_if_absent(t, keys.drop_last());
        assert forall|k: Seq<char>| keys.contains(k) <==> (keys.drop_last().contains(k) || k
            == keys.last()) by {
            if keys.contains(k) {
                let i = choose|i: int| 0 <= i < keys.len() && keys[i] == k;
                if i < keys.len() - 1 {
                    assert(keys.drop_last()[i] == k);
                }
            }
            if keys.drop_last().contains(k) {
                let i = choose|i: int| 0 <= i < keys.drop_last().len() && keys.drop_last()[i] == k;
                assert(keys[i] == k);
            }
            if k == keys.last() {
                assert(keys[keys.len() - 1] == k);
            }
        }
        if !has_key(t1, keys.last()) {
            let x = (keys.last(), t1.len() as int + 1);
            assert forall|k: Seq<char>| #[trigger] lookup(t1.push(x), k) == if has_key(t1, k) {
                lookup(t1, k)
            } else if x.0 == k {
                Some(x.1)
            } else {
                None
            } by {
                lemma_lookup_push(t1, x, k);
            }
            if unique_keys(t) {
                lemma_has_key_index(t1, keys.last());
                assert(unique_keys(t1.push(x)));
            }
        }
    }
}

proof fn lemma_skip_stored(
    t: Seq<(Seq<char>, int)>,
    keys: Seq<Seq<char>>,
    existing: Seq<Seq<char>>,
)
    requires
        forall|k: Seq<char>| existing.contains(k) ==> has_key(t, k),
    ensures
        insert_if_absent(t, absent_from(keys, existing)) == insert_if_absent(t, keys),
    decreases keys.len(),
{
    if keys.len() > 0 {
        let rest = absent_from(keys.drop_last(), existing);
        lemma_skip_stored(t, keys.drop_last(), existing);
        let t1 = insert_if_absent(t, keys.drop_last());
        if existing.contains(keys.last()) {
            lemma_insert_if_absent(t, keys.drop_last());
        } else {
            assert(rest.push(keys.last()).drop_last() =~= rest);
        }
    }
}

/// One row per key: reconciling a batch of candidate names, with any number
/// of exact, whitespace or case duplicates, leaves a table with unique keys
/// that holds every key the batch asks for, and a second reconciliation of
/// the same batch leaves it unchanged. `keys` are the distinct keys of the
/// batch and `existing` those of them found stored before the write.
pub proof fn reconcile_keeps_one_row_per_key(
    t: Seq<(Seq<char>, int)>,
    cands: Seq<String>,
    rule: KeyRule,
    keys: Seq<Seq<char>>,
    existing: Seq<Seq<char>>,
)
    requires
        unique_keys(t),
        forall|k: Seq<char>| keys.contains(k) <==> asks_for(cands, rule, k),
        forall|k: Seq<char>| existing.contains(k) ==> has_key(t, k),
    ensures
        unique_keys(insert_if_absent(t, absent_from(keys, existing))),
        forall|k: Seq<char>|
            has_key(insert_if_absent(t, absent_from(keys, existing)), k) <==> (has_key(t, k)
                || asks_for(cands, rule, k)),
        insert_if_absent(insert_if_absent(t, absent_from(keys, existing)), keys) == insert_if_absent(
            t,
            absent_from(keys, existing),
        ),
{
    lemma_skip_stored(t, keys, existing);
    let t2 = insert_if_absent(t, keys);
    lemma_insert_if_absent(t, keys);
    lemma_idempotent(t2, keys);
}

proof fn lemma_idempotent(t: Seq<(Seq<char>, int)>, keys: Seq<Seq<char>>)
    requires
        forall|k: Seq<char>| keys.contains(k) ==> has_key(t, k),
    ensures
        insert_if_absent(t, keys) == t,
    decreases keys.len(),
{
    if keys.len() > 0 {
        assert forall|k: Seq<char>| keys.drop_last().contains(k) implies has_key(t, k) by {
            let i = choose|i: int| 0 <= i < keys.drop_last().len() && keys.drop_last()[i] == k;
            assert(keys[i] == k);
        }
        lemma_idempotent(t, keys.drop_last());
        assert(keys.contains(keys.last())) by {
            assert(keys[keys.len() - 1] == keys.last());
        }
    }
}

/// Concurrent callers agree: two callers that found their existing keys in
/// the same table and then wrote one after the other, the second with a
/// stale view, both succeed, and a key that both asked for resolves to the
/// same serial id after the first write and after the second.
pub proof fn concurrent_reconciles_agree(
    t: Seq<(Seq<char>, int)>,
    keys_a: Seq<Seq<char>>,
    existing_a: Seq<Seq<char>>,
    keys_b: Seq<Seq<char>>,
    existing_b: Seq<Seq<char>>,
    k: Seq<char>,
)
    requires
        unique_keys(t),
        forall|x: Seq<char>| existing_a.contains(x) ==> has_key(t, x),
        forall|x: Seq<char>| existing_b.contains(x) ==> has_key(t, x),
        keys_a.contains(k),
        keys_b.contains(k),
    ensures
        ({
            let t1 = insert_if_absent(t, absent_from(keys_a, existing_a));
            let t2 = insert_if_absent(t1, absent_from(keys_b, existing_b));
            &&& unique_keys(t2)
            &&& lookup(t1, k) is Some
            &&& lookup(t2, k) == lookup(t1, k)
        }),
{
    lemma_skip_stored(t, keys_a, existing_a);
    lemma_insert_if_absent(t, keys_a);
    let t1 = insert_if_absent(t, keys_a);
    lemma_skip_stored(t1, keys_b, existing_b);
    lemma_insert_if_absent(t1, keys_b);
}

} // verus!
