//! Transaction scope over one storage connection, and classification of
//! storage failures.
//!
//! A scope is a state machine `Idle -> Began -> {Committed | RolledBack}`.
//! The caller runs each statement against the store and reports what
//! happened; the scope decides what becomes durable.
use vstd::prelude::*;

verus! {

/// Where a scope stands.
#[derive(Clone, Copy, Debug, PartialEq, Eq, Structural)]
pub enum ScopeState {
    Idle,
    Began,
    Committed,
    RolledBack,
}

/// What happened on a scope.
#[derive(Clone, Copy, Debug, PartialEq, Eq, Structural)]
pub enum ScopeEvent {
    /// `begin()` was asked for.
    Begin,
    /// A write statement completed.
    Statement,
    /// A statement failed.
    Failed,
    /// `commit()` was asked for.
    Commit,
    /// `rollback()` was asked for.
    Rollback,
    /// The scope is discarded.
    Drop,
}

/// What the connection has to be told after an event.
#[derive(Clone, Copy, Debug, PartialEq, Eq, Structural)]
pub enum ScopeAction {
    Nothing,
    SendBegin,
    SendCommit,
    SendRollback,
}

/// A uniqueness conflict reported by the store.
#[derive(Clone, Debug)]
pub struct UniqueViolation {
    pub table: String,
    pub constraint: String,
}

/// Failures at the storage boundary, classified.
#[derive(Clone, Debug)]
pub enum DbxError {
    /// `begin()` on a scope that is not idle.
    AlreadyBegan,
    /// `commit()` or `rollback()` with no transaction open.
    NotBegan,
    /// A query that had to return one row returned none.
    NoRowReturned,
    /// A write hit a uniqueness constraint.
    UniqueViolation(UniqueViolation),
    /// No connection became free before the acquire timeout.
    PoolTimeout,
    /// The store could not be reached.
    ConnectError,
    /// Any other failure; its text is not kept.
    StorageError,
}

/// A failed statement as the driver reports it.
#[derive(Clone, Debug)]
pub struct StoreFailure {
    /// The driver marked the failure as a uniqueness-constraint violation.
    pub unique_violation: bool,
    /// Table named by the failure, if any.
    pub table: Option<String>,
    /// Constraint named by the failure, if any.
    pub constraint: Option<String>,
}

/// The classified form of a driver failure.
pub open spec fn classified(f: StoreFailure) -> DbxError {
    if f.unique_violation && f.table is Some && f.constraint is Some {
        DbxError::UniqueViolation(
            UniqueViolation { table: f.table->Some_0, constraint: f.constraint->Some_0 },
        )
    } else {
        DbxError::StorageError
    }
}

/// Turns a driver failure into a structured error: a uniqueness conflict
/// that names its table and constraint, or an opaque storage error.
pub fn classify(f: StoreFailure) -> (r: DbxError)
    ensures
        r == classified(f),
{
    if f.unique_violation {
        match (f.table, f.constraint) {
            (Some(table), Some(constraint)) => {
                return DbxError::UniqueViolation(UniqueViolation { table, constraint });
            },
            _ => {},
        }
    }
    DbxError::StorageError
}

/// The single row a `fetch_one` query has to return: `NoRowReturned` when
/// the query gave none (also an insert-if-absent write that was skipped).
pub fn one_row<T>(row: Option<T>) -> (r: Result<T, DbxError>)
    ensures
        row matches Some(v) ==> r == Ok::<T, DbxError>(v),
        row is None ==> r matches Err(DbxError::NoRowReturned),
{
    match row {
        Some(v) => Ok(v),
        None => Err(DbxError::NoRowReturned),
    }
}

impl DbxError {
    pub open spec fn unique_violation_of(&self) -> Option<UniqueViolation> {
        match self {
            DbxError::UniqueViolation(u) => Some(*u),
            _ => None,
        }
    }

    /// The uniqueness conflict this error carries, if it is one.
    pub fn resolve_unique_violation(&self) -> (r: Option<UniqueViolation>)
        ensures
            r == self.unique_violation_of(),
    {
        match self {
            DbxError::UniqueViolation(u) => Some(
                UniqueViolation { table: u.table.clone(), constraint: u.constraint.clone() },
            ),
            _ => None,
        }
    }
}

/// One storage connection used for one logical unit of work.
#[derive(Clone, Copy, Debug, PartialEq, Eq, Structural)]
pub struct TxnScope {
    pub state: ScopeState,
    /// Writes made inside the open transaction, not yet durable.
    pub pending: bool,
    /// Some write of this scope is durable.
    pub persisted: bool,
}

impl TxnScope {
    /// Writes are pending only inside an open transaction.
    pub open spec fn wf(&self) -> bool {
        self.pending ==> self.state == ScopeState::Began
    }
}

/// Every event keeps a well-formed scope well-formed.
pub proof fn next_preserves_wf(s: TxnScope, e: ScopeEvent)
    requires
        s.wf(),
    ensures
        next(s, e).wf(),
{
}

/// The scope after `e`.
pub open spec fn next(s: TxnScope, e: ScopeEvent) -> TxnScope {
    match e {
        ScopeEvent::Begin => if s.state == ScopeState::Idle {
            TxnScope { state: ScopeState::Began, ..s }
        } else {
            s
        },
        ScopeEvent::Statement => if s.state == ScopeState::Began {
            TxnScope { pending: true, ..s }
        } else {
            TxnScope { persisted: true, ..s }
        },
        ScopeEvent::Commit => if s.state == ScopeState::Began {
            TxnScope { state: ScopeState::Committed, pending: false, persisted: s.persisted || s.pending }
        } else {
            s
        },
        ScopeEvent::Failed | ScopeEvent::Rollback | ScopeEvent::Drop => if s.state
            == ScopeState::Began {
            TxnScope { state: ScopeState::RolledBack, pending: false, ..s }
        } else {
            s
        },
    }
}

/// What the connection is told, or the error reported, on `e`.
pub open spec fn outcome(s: TxnScope, e: ScopeEvent) -> Result<ScopeAction, DbxError> {
    let began = s.state == ScopeState::Began;
    match e {
        ScopeEvent::Begin => if s.state == ScopeState::Idle {
            Ok(ScopeAction::SendBegin)
        } else {
            Err(DbxError::AlreadyBegan)
        },
        ScopeEvent::Statement => Ok(ScopeAction::Nothing),
        ScopeEvent::Commit => if began {
            Ok(ScopeAction::SendCommit)
        } else {
            Err(DbxError::NotBegan)
        },
        ScopeEvent::Rollback => if began {
            Ok(ScopeAction::SendRollback)
        } else {
            Err(DbxError::NotBegan)
        },
        ScopeEvent::Failed | ScopeEvent::Drop => if began {
            Ok(ScopeAction::SendRollback)
        } else {
            Ok(ScopeAction::Nothing)
        },
    }
}

/// The scope after each event of `es` in turn.
pub open spec fn run(s: TxnScope, es: Seq<ScopeEvent>) -> TxnScope
    decreases es.len(),
{
    if es.len() == 0 {
        s
    } else {
        next(run(s, es.drop_last()), es.last())
    }
}

impl TxnScope {
    /// A scope on a fresh connection, with nothing written.
    pub fn new() -> (r: TxnScope)
        ensures
            r == (TxnScope { state: ScopeState::Idle, pending: false, persisted: false }),
            r.wf(),
    {
        TxnScope { state: ScopeState::Idle, pending: false, persisted: false }
    }

    /// Applies `e` and says what to tell the connection.
    pub fn handle(&mut self, e: ScopeEvent) -> (r: Result<ScopeAction, DbxError>)
        ensures
            *final(self) == next(*old(self), e),
            r == outcome(*old(self), e),
    {
        let began = self.state == ScopeState::Began;
        match e {
            ScopeEvent::Begin => {
                if self.state == ScopeState::Idle {
                    self.state = ScopeState::Began;
                    Ok(ScopeAction::SendBegin)
                } else {
                    Err(DbxError::AlreadyBegan)
                }
            },
            ScopeEvent::Statement => {
                if began {
                    self.pending = true;
                } else {
                    self.persisted = true;
                }
                Ok(ScopeAction::Nothing)
            },
            ScopeEvent::Commit => {
                if began {
                    self.state = ScopeState::Committed;
                    self.persisted = self.persisted || self.pending;
                    self.pending = false;
                    Ok(ScopeAction::SendCommit)
                } else {
                    Err(DbxError::NotBegan)
                }
            },
            ScopeEvent::Rollback => {
                if began {
                    self.state = ScopeState::RolledBack;
                    self.pending = false;
                    Ok(ScopeAction::SendRollback)
                } else {
                    Err(DbxError::NotBegan)
                }
            },
            ScopeEvent::Failed | ScopeEvent::Drop => {
                if began {
                    self.state = ScopeState::RolledBack;
                    self.pending = false;
                    Ok(ScopeAction::SendRollback)
                } else {
                    Ok(ScopeAction::Nothing)
                }
            },
        }
    }

    /// Opens the transaction; fails with `AlreadyBegan` unless idle.
    pub fn begin(&mut self) -> (r: Result<ScopeAction, DbxError>)
        ensures
            *final(self) == next(*old(self), ScopeEvent::Begin),
            r == outcome(*old(self), ScopeEvent::Begin),
    {
        self.handle(ScopeEvent::Begin)
    }

    /// Makes the pending writes durable; fails with `NotBegan` unless open.
    pub fn commit(&mut self) -> (r: Result<ScopeAction, DbxError>)
        ensures
            *final(self) == next(*old(self), ScopeEvent::Commit),
            r == outcome(*old(self), ScopeEvent::Commit),
    {
        self.handle(ScopeEvent::Commit)
    }

    /// Discards the pending writes; fails with `NotBegan` unless open.
    pub fn rollback(&mut self) -> (r: Result<ScopeAction, DbxError>)
        ensures
            *final(self) == next(*old(self), ScopeEvent::Rollback),
            r == outcome(*old(self), ScopeEvent::Rollback),
    {
        self.handle(ScopeEvent::Rollback)
    }

    /// Gives the scope up: an open transaction is rolled back.
    pub fn discard(&mut self) -> (r: ScopeAction)
        ensures
            *final(self) == next(*old(self), ScopeEvent::Drop),
            Ok::<ScopeAction, DbxError>(r) == outcome(*old(self), ScopeEvent::Drop),
    {
        match self.handle(ScopeEvent::Drop) {
            Ok(a) => a,
            Err(_) => ScopeAction::Nothing,
        }
    }
}

proof fn lemma_statements_pend(s: TxnScope, n: nat)
    requires
        s.state == ScopeState::Began,
    ensures
        run(s, Seq::new(n, |i: int| ScopeEvent::Statement)).state == ScopeState::Began,
        run(s, Seq::new(n, |i: int| ScopeEvent::Statement)).persisted == s.persisted,
    decreases n,
{
    if n > 0 {
        let es = Seq::new(n, |i: int| ScopeEvent::Statement);
        assert(es.drop_last() =~= Seq::new((n - 1) as nat, |i: int| ScopeEvent::Statement));
        lemma_statements_pend(s, (n - 1) as nat);
    }
}

/// Atomicity: on a fresh scope, once a transaction is begun, any number of
/// writes followed by a failing statement leaves nothing durable, whether
/// the caller then commits, rolls back or drops the scope.
pub proof fn failed_unit_of_work_persists_nothing(n: nat, last: ScopeEvent)
    requires
        last == ScopeEvent::Commit || last == ScopeEvent::Rollback || last == ScopeEvent::Drop,
    ensures
        ({
            let fresh = TxnScope { state: ScopeState::Idle, pending: false, persisted: false };
            let es = seq![ScopeEvent::Begin] + Seq::new(n, |i: int| ScopeEvent::Statement) + seq![
                ScopeEvent::Failed,
                last,
            ];
            let end = run(fresh, es);
            &&& !end.persisted
            &&& !end.pending
            &&& end.state == ScopeState::RolledBack
        }),
{
    let fresh = TxnScope { state: ScopeState::Idle, pending: false, persisted: false };
    let stmts = Seq::new(n, |i: int| ScopeEvent::Statement);
    let es = seq![ScopeEvent::Begin] + stmts + seq![ScopeEvent::Failed, last];
    lemma_run_append(fresh, seq![ScopeEvent::Begin], stmts);
    let b = seq![ScopeEvent::Begin] + stmts;
    assert(es.drop_last() =~= b.push(ScopeEvent::Failed));
    assert((b.push(ScopeEvent::Failed)).drop_last() =~= b);
    assert(seq![ScopeEvent::Begin].drop_last() =~= Seq::<ScopeEvent>::empty());
    assert(run(fresh, Seq::<ScopeEvent>::empty()) == fresh);
    let began = run(fresh, seq![ScopeEvent::Begin]);
    assert(began == next(fresh, ScopeEvent::Begin));
    lemma_statements_pend(began, n);
    let mid = run(fresh, b);
    assert(run(fresh, b.push(ScopeEvent::Failed)) == next(mid, ScopeEvent::Failed));
    assert(run(fresh, es) == next(next(mid, ScopeEvent::Failed), last));
}

proof fn lemma_run_append(s: TxnScope, a: Seq<ScopeEvent>, b: Seq<ScopeEvent>)
    ensures
        run(s, a + b) == run(run(s, a), b),
    decreases b.len(),
{
    if b.len() == 0 {
        assert(a + b =~= a);
    } else {
        assert((a + b).drop_last() =~= a + b.drop_last());
        lemma_run_append(s, a, b.drop_last());
    }
}

} // verus!
