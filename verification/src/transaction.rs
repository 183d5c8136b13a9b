//! Transactions and savepoints.
use vstd::prelude::*;
use crate::connection::{is_engine_error, Connection};
use crate::types::Result;

verus! {

/// The type of transaction to create.
#[derive(Debug, Copy, Clone, PartialEq, Eq, Structural)]
pub enum TransactionType {
    /// The transaction starts when the database is first accessed.
    Deferred,
    /// The transaction starts a write transaction immediately.
    Immediate,
    /// Like `Immediate`, and outside WAL mode other connections cannot read meanwhile.
    Exclusive,
}

/// What a [Transaction] stands for.
#[derive(Debug, Copy, Clone, PartialEq, Eq, Structural)]
pub enum TransactionState {
    /// A transaction begun with BEGIN.
    ActiveTransaction,
    /// A savepoint inside a transaction.
    ActiveSavepoint,
    /// Finished: committed or rolled back.
    Inactive,
}

/// The statement that begins a transaction of the given type.
pub open spec fn begin_text(tt: TransactionType) -> Seq<char> {
    match tt {
        TransactionType::Deferred => "BEGIN"@,
        TransactionType::Immediate => "BEGIN IMMEDIATE"@,
        TransactionType::Exclusive => "BEGIN EXCLUSIVE"@,
    }
}

/// The statement that commits an active transaction or releases an active savepoint.
pub open spec fn commit_text(state: TransactionState) -> Seq<char> {
    match state {
        TransactionState::ActiveSavepoint => "RELEASE SAVEPOINT a"@,
        _ => "COMMIT"@,
    }
}

/// The statement that rolls back an active transaction or rolls back to an active savepoint.
pub open spec fn rollback_text(state: TransactionState) -> Seq<char> {
    match state {
        TransactionState::ActiveSavepoint => "ROLLBACK TO a"@,
        _ => "ROLLBACK"@,
    }
}

/// The statement that creates a savepoint.
pub open spec fn savepoint_text() -> Seq<char> {
    "SAVEPOINT a"@
}

/// The statement that begins a transaction of the given type.
pub fn begin_sql(tt: TransactionType) -> (s: &'static str)
    ensures
        s@ == begin_text(tt),
{
    match tt {
        TransactionType::Deferred => "BEGIN",
        TransactionType::Immediate => "BEGIN IMMEDIATE",
        TransactionType::Exclusive => "BEGIN EXCLUSIVE",
    }
}

/// The statement that finishes an active transaction or savepoint by committing it.
pub fn commit_sql(state: TransactionState) -> (s: &'static str)
    requires
        state != TransactionState::Inactive,
    ensures
        s@ == commit_text(state),
{
    match state {
        TransactionState::ActiveSavepoint => "RELEASE SAVEPOINT a",
        _ => "COMMIT",
    }
}

/// The statement that finishes an active transaction or savepoint by rolling it back.
pub fn rollback_sql(state: TransactionState) -> (s: &'static str)
    requires
        state != TransactionState::Inactive,
    ensures
        s@ == rollback_text(state),
    opens_invariants none
    no_unwind
{
    match state {
        TransactionState::ActiveSavepoint => "ROLLBACK TO a",
        _ => "ROLLBACK",
    }
}

/// A transaction or a savepoint on a connection.
pub struct Transaction<'db> {
    db: &'db Connection,
    state: TransactionState,
    sent: Ghost<Seq<Seq<char>>>,
}

impl Connection {
    /// Starts a new transaction of the given type.
    pub fn transaction<'c>(&'c self, tt: TransactionType) -> (r: Result<Transaction<'c>>)
        ensures
            r matches Ok(t) ==> t.spec_state() == TransactionState::ActiveTransaction && t.spec_db()
                == *self && t.spec_sent() == seq![begin_text(tt)],
            r matches Err(e) ==> is_engine_error(e),
            r is Err ==> exists|t: Transaction<'c>| {
                &&& #[trigger] t.spec_sent() == seq![begin_text(tt)]
                &&& t.spec_db() == *self
                &&& !t.is_active()
            },
    {
        let mut txn = Transaction { db: self, state: TransactionState::Inactive, sent: Ghost(Seq::empty()) };
        match txn.start(tt) {
            Ok(()) => Ok(txn),
            Err(e) => {
                assert(txn.spec_sent() == seq![begin_text(tt)]);
                Err(e)
            },
        }
    }
}

impl<'db> Transaction<'db> {
    /// What this transaction stands for.
    pub closed spec fn spec_state(&self) -> TransactionState {
        self.state
    }

    /// The connection of this transaction.
    pub closed spec fn spec_db(&self) -> Connection {
        *self.db
    }

    /// The statements that this transaction has sent to its connection, in order.
    pub closed spec fn spec_sent(&self) -> Seq<Seq<char>> {
        self.sent@
    }

    /// Send a statement to the connection and note it.
    fn send(&mut self, sql: &str) -> (r: Result<()>)
        ensures
            final(self).spec_sent() == old(self).spec_sent().push(sql@),
            final(self).spec_state() == old(self).spec_state(),
            final(self).spec_db() == old(self).spec_db(),
            r matches Err(e) ==> is_engine_error(e),
    {
        let ret = self.db.execute(sql, ());
        proof {
            self.sent@ = self.sent@.push(sql@);
        }
        match ret {
            Ok(_) => Ok(()),
            Err(e) => Err(e),
        }
    }

    /// Whether this transaction is still open.
    pub open spec fn is_active(&self) -> bool {
        self.spec_state() != TransactionState::Inactive
    }

    /// The connection of this transaction.
    pub fn connection(&self) -> (c: &'db Connection)
        ensures
            *c == self.spec_db(),
    {
        self.db
    }

    fn start(&mut self, tt: TransactionType) -> (r: Result<()>)
        ensures
            r is Ok ==> final(self).spec_state() == TransactionState::ActiveTransaction,
            r is Err ==> final(self).spec_state() == old(self).spec_state(),
            final(self).spec_db() == old(self).spec_db(),
            final(self).spec_sent() == old(self).spec_sent().push(begin_text(tt)),
            r matches Err(e) ==> is_engine_error(e),
    {
        match self.send(begin_sql(tt)) {
            Ok(()) => {
                self.state = TransactionState::ActiveTransaction;
                Ok(())
            },
            Err(e) => Err(e),
        }
    }

    /// Consumes the transaction, committing it (for a savepoint: releasing it).
    pub fn commit(self) -> (r: Result<&'db Connection>)
        requires
            self.is_active(),
        ensures
            r matches Ok(c) ==> *c == self.spec_db(),
            r matches Err(e) ==> is_engine_error(e),
    {
        let mut this = self;
        match this.commit_mut() {
            Ok(()) => Ok(this.db),
            Err(e) => Err(e),
        }
    }

    fn commit_mut(&mut self) -> (r: Result<()>)
        requires
            old(self).is_active(),
        ensures
            final(self).spec_state() == TransactionState::Inactive,
            final(self).spec_db() == old(self).spec_db(),
            final(self).spec_sent() == old(self).spec_sent().push(commit_text(old(self).spec_state())),
            r matches Err(e) ==> is_engine_error(e),
    {
        let sql = commit_sql(self.state);
        let ret = self.send(sql);
        self.state = TransactionState::Inactive;
        ret
    }

    /// Consumes the transaction, rolling it back (for a savepoint: rolling back to it).
    pub fn rollback(self) -> (r: Result<&'db Connection>)
        requires
            self.is_active(),
        ensures
            r matches Ok(c) ==> *c == self.spec_db(),
            r matches Err(e) ==> is_engine_error(e),
    {
        let mut this = self;
        match this.rollback_mut() {
            Ok(()) => Ok(this.db),
            Err(e) => Err(e),
        }
    }

    fn rollback_mut(&mut self) -> (r: Result<()>)
        requires
            old(self).is_active(),
        ensures
            final(self).spec_state() == TransactionState::Inactive,
            final(self).spec_db() == old(self).spec_db(),
            final(self).spec_sent() == old(self).spec_sent().push(rollback_text(old(self).spec_state())),
            r matches Err(e) ==> is_engine_error(e),
    {
        let sql = rollback_sql(self.state);
        let ret = self.send(sql);
        self.state = TransactionState::Inactive;
        ret
    }

    /// Create a savepoint inside this transaction. Committing or rolling back the savepoint
    /// affects only what was done since it was created.
    pub fn savepoint(&mut self) -> (r: Result<Transaction<'_>>)
        requires
            old(self).is_active(),
        ensures
            final(self).spec_state() == old(self).spec_state(),
            r matches Ok(t) ==> t.spec_state() == TransactionState::ActiveSavepoint && t.spec_db()
                == old(self).spec_db() && t.spec_sent() == seq![savepoint_text()],
            r matches Err(e) ==> is_engine_error(e),
    {
        proof { reveal_strlit("SAVEPOINT a"); }
        let mut sp = Transaction { db: self.db, state: TransactionState::Inactive, sent: Ghost(Seq::empty()) };
        match sp.send("SAVEPOINT a") {
            Ok(()) => {
                sp.state = TransactionState::ActiveSavepoint;
                Ok(sp)
            },
            Err(e) => Err(e),
        }
    }
}

impl<'db> std::ops::Deref for Transaction<'db> {
    type Target = Connection;

    fn deref(&self) -> (c: &Connection)
        ensures
            *c == self.spec_db(),
    {
        self.db
    }
}

impl<'db> Drop for Transaction<'db> {
    /// A transaction that was neither committed nor rolled back is rolled back.
    fn drop(&mut self)
        opens_invariants none
        no_unwind
    {
        if self.state != TransactionState::Inactive {
            let sql = rollback_sql(self.state);
            crate::engine::execute_quietly(self.db.engine(), sql);
            self.state = TransactionState::Inactive;
        }
    }
}

} // verus!
