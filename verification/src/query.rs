//! Prepared statements and the results of queries.
use vstd::prelude::*;
use crate::connection::{engine_error, is_engine_error, Connection};
use crate::engine;
use crate::types::{code_error, Error, Result, SQLITE_EMPTY, SQLITE_MISUSE, SQLITE_NOMEM};
use crate::value::{RawValue, ValueRef};
use vstd::utf8::encode_utf8;
use vstd::string::StringSliceAdditionalSpecFns;
use crate::codes;
use rusqlite::Statement as EngineStatement;
use rusqlite::Connection as EngineConnection;
use rusqlite::Row as EngineRow;

verus! {

/// A value as a parameter holds it, with its bytes as sequences.
pub enum ParamValue {
    Integer(i64),
    Float(u64),
    Text(Seq<u8>),
    Blob(Seq<u8>),
    Null,
}

/// The parameter value that a stored value stands for.
pub open spec fn param_of(v: RawValue) -> ParamValue {
    match v {
        RawValue::Integer(i) => ParamValue::Integer(i),
        RawValue::Float(f, _) => ParamValue::Float(f),
        RawValue::Text(t) => ParamValue::Text(t@),
        RawValue::Blob(b) => ParamValue::Blob(b@),
        RawValue::Null => ParamValue::Null,
    }
}

/// The row holds `n` columns, and column `k` holds what reading column `k` of the engine's
/// row gives.
pub closed spec fn row_read_from(conn: &EngineConnection, row: QueryResult, er: &EngineRow, n: usize) -> bool {
    &&& row.columns@.len() == n
    &&& forall|k: int| 0 <= k < n ==> engine::column_read(
        conn,
        er,
        k as usize,
        (#[trigger] row.columns@[k]).value.spec_value(),
    )
}

/// The row is what reading the `n` columns of some row of the engine gives, in order.
pub closed spec fn read_from_engine(conn: &EngineConnection, row: QueryResult, n: usize) -> bool {
    exists|er: &EngineRow| #[trigger] row_read_from(conn, row, er, n)
}

/// A row read from the engine holds, at every column `k` below its width, exactly what
/// reading column `k` of that engine row gives: the columns keep SQLite's order.
pub proof fn lemma_row_columns_in_order(conn: &EngineConnection, row: QueryResult, er: &EngineRow, n: usize, k: int)
    requires
        row_read_from(conn, row, er, n),
        0 <= k < n,
    ensures
        row.spec_columns().len() == n,
        engine::column_read(conn, er, k as usize, row.spec_columns()[k].spec_value()),
{
    assert(row.columns@[k] == row.spec_columns()[k]);
}

/// Where a statement is in running its query.
#[derive(Debug, Copy, Clone, PartialEq, Eq, Structural)]
pub enum QueryState {
    /// Not yet stepped since it was prepared or last given parameters.
    Ready,
    /// A row is current.
    Active,
    /// All rows have been returned.
    Finished,
}

/// A single value of a row returned from a query.
#[derive(Debug)]
pub struct Column {
    value: ValueRef,
}

impl Column {
    /// The value of this column.
    pub closed spec fn spec_value(&self) -> RawValue {
        self.value.spec_value()
    }

    /// The value of this column, to be read with the methods of [ValueRef].
    pub fn value(&self) -> (v: &ValueRef)
        ensures
            v.spec_value() == self.spec_value(),
    {
        &self.value
    }

    /// Interpret this value as an integer.
    pub fn get_i64(&self) -> (i: i64)
        ensures
            i == crate::value::integer_of(self.spec_value()),
    {
        self.value.get_i64()
    }

    /// Interpret this value as an `i32`, cut to 32 bits.
    pub fn get_i32(&self) -> (i: i32)
        ensures
            i == crate::value::integer_of(self.spec_value()) as i32,
    {
        self.value.get_i32()
    }

    /// Whether the value is SQL NULL.
    pub fn is_null(&self) -> (b: bool)
        ensures
            b == (self.spec_value() is Null),
    {
        self.value.is_null()
    }
}

/// A row returned from a query.
#[derive(Debug)]
pub struct QueryResult {
    columns: Vec<Column>,
}

impl QueryResult {
    /// The columns of this row.
    pub closed spec fn spec_columns(&self) -> Seq<Column> {
        self.columns@
    }

    /// Returns the number of columns in the row.
    pub fn len(&self) -> (n: usize)
        ensures
            n == self.spec_columns().len(),
    {
        self.columns.len()
    }

    /// The column at the given position.
    pub fn column(&self, index: usize) -> (c: &Column)
        requires
            index < self.spec_columns().len(),
        ensures
            *c == self.spec_columns()[index as int],
    {
        &self.columns[index]
    }
}

/// A prepared statement.
///
/// The rows of a query are read from SQLite when the statement is first stepped, and then
/// handed out one at a time.
pub struct Statement<'db> {
    db: &'db Connection,
    base: EngineStatement<'db>,
    state: QueryState,
    rows: Vec<QueryResult>,
    pos: usize,
    bindings: Ghost<Map<int, ParamValue>>,
    n_columns: usize,
    param_names: Vec<Option<String>>,
    sql: String,
}

impl<'db> Statement<'db> {
    /// Where the statement is in running its query.
    pub closed spec fn spec_state(&self) -> QueryState {
        self.state
    }

    /// The rows that SQLite gave for the current run of the query; empty while the statement
    /// is [QueryState::Ready].
    pub closed spec fn spec_rows(&self) -> Seq<QueryResult> {
        self.rows@
    }

    /// The values bound to the parameters, by position, since the statement was prepared or
    /// its bindings last cleared.
    pub closed spec fn spec_bindings(&self) -> Map<int, ParamValue> {
        self.bindings@
    }

    /// How many rows have been handed out in the current run.
    pub closed spec fn spec_pos(&self) -> nat {
        self.pos as nat
    }

    /// The number of columns of the query's rows, as SQLite gave it when the statement was
    /// prepared and again when the query was last run.
    pub closed spec fn spec_column_count(&self) -> nat {
        self.n_columns as nat
    }

    /// The connection that the statement was prepared on.
    pub closed spec fn spec_connection(&self) -> Connection {
        *self.db
    }

    /// The SQL that the statement was prepared from.
    pub closed spec fn spec_sql(&self) -> Seq<char> {
        self.sql@
    }

    /// The number of parameters of the query, as SQLite gave it when it was prepared.
    pub closed spec fn spec_parameter_count(&self) -> nat {
        self.param_names@.len()
    }

    /// The names of the parameters, by position from 1 (at index 0), as SQLite gave them
    /// when the query was prepared; `None` for a parameter without a name.
    pub closed spec fn spec_param_names(&self) -> Seq<Option<Seq<char>>> {
        Seq::new(self.param_names@.len(), |i: int| match self.param_names@[i] {
            Some(s) => Some(s@),
            None => None,
        })
    }

    /// The statement's bookkeeping agrees with its state: nothing has been read while it is
    /// ready, a row is current while it is active, and every row has been handed out once it
    /// is finished.
    pub open spec fn wf(&self) -> bool {
        &&& self.spec_pos() <= self.spec_rows().len()
        &&& self.spec_state() == QueryState::Ready ==> self.spec_rows().len() == 0
            && self.spec_pos() == 0
        &&& self.spec_state() == QueryState::Active ==> self.spec_pos() >= 1
        &&& self.spec_state() == QueryState::Finished ==> self.spec_pos()
            == self.spec_rows().len()
        &&& forall|i: int| self.spec_pos() <= i < self.spec_rows().len() ==> (
            #[trigger] self.spec_rows()[i]).spec_columns().len() == self.spec_column_count()
        &&& forall|i: int| self.spec_pos() <= i < self.spec_rows().len() ==> read_from_engine(
            self.spec_connection().spec_engine(),
            #[trigger] self.spec_rows()[i],
            self.spec_column_count() as usize,
        )
    }

    /// The two are the same query: they have the same SQL, parameters and number of columns.
    pub open spec fn same_counts(&self, other: &Statement<'db>) -> bool {
        &&& self.spec_connection() == other.spec_connection()
        &&& self.spec_sql() == other.spec_sql()
        &&& self.spec_param_names() == other.spec_param_names()
        &&& self.spec_column_count() == other.spec_column_count()
    }

    /// The bindings of `after` are those that binding `params` gives, over the bindings that
    /// `before` keeps when it is given new parameters: its own while it is ready, none once
    /// its query has run.
    pub open spec fn rebinds<P: Params>(params: P, before: &Statement<'db>, after: &Statement<'db>) -> bool {
        params.binds(
            after.spec_param_names(),
            if before.spec_state() == QueryState::Ready {
                before.spec_bindings()
            } else {
                Map::<int, ParamValue>::empty()
            },
            after.spec_bindings(),
        )
    }

    /// The statement is well formed and waits for parameters or its first step.
    pub open spec fn ready(&self) -> bool {
        self.wf() && self.spec_state() == QueryState::Ready
    }

    /// Whether the query has been run against the database in this round.
    pub open spec fn fetched(&self) -> bool {
        self.spec_state() != QueryState::Ready
    }

    /// Step through the query and collect every row that it returns, each with `n` columns.
    fn fetch_rows(conn: &EngineConnection, base: &mut EngineStatement<'db>, n: usize) -> (r: Result<Vec<QueryResult>>)
        ensures
            r matches Err(e) ==> is_engine_error(e),
            r matches Ok(rows) ==> forall|i: int| 0 <= i < rows@.len() ==> (
                #[trigger] rows@[i]).spec_columns().len() == n,
            r matches Ok(rows) ==> forall|i: int| 0 <= i < rows@.len() ==> #[trigger] read_from_engine(
                conn,
                rows@[i],
                n,
            ),
    {
        let mut rows = engine::raw_query(base);
        let mut out: Vec<QueryResult> = Vec::new();
        let mut count: usize = 0;
        while count < usize::MAX
            invariant
                forall|i: int| 0 <= i < out@.len() ==> (#[trigger] out@[i]).spec_columns().len() == n,
                forall|i: int| 0 <= i < out@.len() ==> #[trigger] read_from_engine(conn, out@[i], n),
            decreases usize::MAX - count,
        {
            match engine::rows_next(&mut rows) {
                Err(e) => return Err(engine_error(e)),
                Ok(None) => return Ok(out),
                Ok(Some(row)) => {
                    let mut columns: Vec<Column> = Vec::new();
                    let mut k: usize = 0;
                    while k < n
                        invariant
                            k <= n,
                            columns@.len() == k,
                            forall|c: int| 0 <= c < k ==> engine::column_read(
                                conn,
                                row,
                                c as usize,
                                (#[trigger] columns@[c]).value.spec_value(),
                            ),
                        decreases n - k,
                    {
                        let v = match engine::read_column(conn, row, k) {
                            Ok(v) => v,
                            Err(e) => return Err(engine_error(e)),
                        };
                        columns.push(Column { value: ValueRef::new(v) });
                        k = k + 1;
                    }
                    let ghost before = out@;
                    let fetched = QueryResult { columns };
                    assert(row_read_from(conn, fetched, row, n));
                    out.push(fetched);
                    assert forall|i: int| 0 <= i < out@.len() implies (#[trigger] out@[i]).spec_columns().len() == n by {
                        if i < before.len() {
                            assert(out@[i] == before[i]);
                        }
                    }
                    assert forall|i: int| 0 <= i < out@.len() implies #[trigger] read_from_engine(conn, out@[i], n) by {
                        if i < before.len() {
                            assert(out@[i] == before[i]);
                        } else {
                            assert(row_read_from(conn, out@[i], row, n));
                        }
                    }
                },
            }
            count = count + 1;
        }
        Err(SQLITE_NOMEM())
    }

    /// Advance to the next row and return it, or `None` once every row has been returned.
    /// The first call after preparing or binding runs the query.
    pub fn next(&mut self) -> (r: Result<Option<&mut QueryResult>>)
        requires
            old(self).wf(),
        ensures
            final(self).wf(),
            old(self).spec_state() == QueryState::Finished ==> (r matches Ok(None) && *final(self)
                == *old(self)),
            old(self).fetched() ==> final(self).spec_column_count() == old(self).spec_column_count(),
            r matches Err(e) ==> is_engine_error(e),
            final(self).spec_parameter_count() == old(self).spec_parameter_count(),
            r matches Ok(Some(row)) ==> row.spec_columns().len() == final(self).spec_column_count(),
            r matches Ok(Some(row)) ==> read_from_engine(
                final(self).spec_connection().spec_engine(),
                *row,
                final(self).spec_column_count() as usize,
            ),
            final(self).spec_bindings() == old(self).spec_bindings(),
            final(self).spec_param_names() == old(self).spec_param_names(),
            final(self).spec_sql() == old(self).spec_sql(),
            final(self).spec_connection() == old(self).spec_connection(),
            old(self).spec_state() == QueryState::Active ==> final(self).spec_rows().len()
                == old(self).spec_rows().len(),
            old(self).spec_state() == QueryState::Active && old(self).spec_pos() < old(
                self,
            ).spec_rows().len() ==> (r matches Ok(Some(row)) && *row == old(self).spec_rows()[old(self).spec_pos() as int]
                && final(self).spec_state() == QueryState::Active
                && final(self).spec_pos() == old(self).spec_pos() + 1
                && final(self).spec_rows() == old(self).spec_rows().update(old(self).spec_pos() as int, *final(row))),
            old(self).spec_state() == QueryState::Active && old(self).spec_pos() == old(
                self,
            ).spec_rows().len() ==> (r matches Ok(None) && final(self).spec_state() == QueryState::Finished
                && final(self).spec_rows() == old(self).spec_rows()),
            old(self).spec_state() == QueryState::Ready ==> (r is Err <==> !final(self).fetched()),
            old(self).spec_state() == QueryState::Ready && final(self).fetched() ==> {
                ||| (r matches Ok(None) && final(self).spec_rows().len() == 0
                    && final(self).spec_state() == QueryState::Finished)
                ||| (r matches Ok(Some(row)) && final(self).spec_rows().len() > 0
                    && final(self).spec_state() == QueryState::Active && final(self).spec_pos() == 1
                    && final(self).spec_rows()[0] == *final(row))
            },
    {
        if self.state == QueryState::Finished {
            return Ok(None);
        }
        if self.state == QueryState::Ready {
            let n = engine::column_count(&self.base);
            match Self::fetch_rows(self.db.engine(), &mut self.base, n) {
                Ok(rows) => {
                    self.n_columns = n;
                    self.rows = rows;
                    self.pos = 0;
                    self.state = QueryState::Active;
                },
                Err(e) => return Err(e),
            }
        }
        if self.pos < self.rows.len() {
            let i = self.pos;
            self.pos = i + 1;
            self.state = QueryState::Active;
            Ok(Some(&mut self.rows[i]))
        } else {
            self.state = QueryState::Finished;
            Ok(None)
        }
    }
}

impl<'db> Statement<'db> {
    /// Bind a stored value to the parameter at the given position, counted from 1. A
    /// position below 1 fails with `SQLITE_RANGE`; a FLOAT fails with `SQLITE_MISMATCH`.
    pub fn bind_value(&mut self, position: i32, value: &RawValue) -> (r: Result<()>)
        requires
            old(self).ready(),
        ensures
            final(self).ready(),
            final(self).same_counts(old(self)),
            r matches Err(e) ==> is_engine_error(e),
            position < 1 ==> r == Err::<(), Error>(code_error(codes::SQLITE_RANGE)),
            position >= 1 && value is Float ==> r == Err::<(), Error>(
                code_error(codes::SQLITE_MISMATCH),
            ),
            r is Ok ==> final(self).spec_bindings() == old(self).spec_bindings().insert(
                position as int,
                param_of(*value),
            ),
            r is Err ==> final(self).spec_bindings() == old(self).spec_bindings(),
    {
        if position < 1 {
            return Err(crate::types::SQLITE_RANGE());
        }
        let pos: usize = position as usize;
        let res = match value {
            RawValue::Float(..) => return Err(crate::types::SQLITE_MISMATCH()),
            RawValue::Integer(i) => engine::bind_integer(&mut self.base, pos, *i),
            RawValue::Text(t) => engine::bind_text(&mut self.base, pos, t.as_slice()),
            RawValue::Blob(b) => engine::bind_blob(&mut self.base, pos, b.as_slice()),
            RawValue::Null => engine::bind_null(&mut self.base, pos),
        };
        match res {
            Ok(()) => {
                proof {
                    self.bindings@ = self.bindings@.insert(position as int, param_of(*value));
                }
                Ok(())
            },
            Err(e) => Err(engine_error(e)),
        }
    }

    /// Bind the provided parameters to the query. If the query was run before, the results
    /// are dropped and the earlier parameters cleared first.
    pub fn query<P: Params>(&mut self, params: P) -> (r: Result<()>)
        requires
            old(self).wf(),
        ensures
            final(self).ready(),
            final(self).same_counts(old(self)),
            r matches Err(e) ==> is_engine_error(e),
            r is Ok ==> params.binds(
                final(self).spec_param_names(),
                if old(self).spec_state() == QueryState::Ready {
                    old(self).spec_bindings()
                } else {
                    Map::<int, ParamValue>::empty()
                },
                final(self).spec_bindings(),
            ),
    {
        if self.state != QueryState::Ready {
            self.rows = Vec::new();
            self.pos = 0;
            self.state = QueryState::Ready;
            engine::clear_bindings(&mut self.base);
            proof {
                self.bindings@ = Map::empty();
            }
        }
        params.bind_params(self)
    }

    /// Run a query that is expected to return exactly one row, and give that row to `f`.
    /// No row fails with `SQLITE_EMPTY`; a second row fails with `SQLITE_MISUSE`.
    pub fn query_row<P: Params, R, F: FnOnce(&QueryResult) -> Result<R>>(
        &mut self,
        params: P,
        f: F,
    ) -> (r: Result<R>)
        requires
            old(self).wf(),
            forall|row: &QueryResult| call_requires(f, (row,)),
        ensures
            final(self).wf(),
            final(self).fetched() ==> Self::rebinds(params, old(self), final(self)),
            final(self).spec_sql() == old(self).spec_sql(),
            !final(self).fetched() ==> (r matches Err(e) && is_engine_error(e)),
            r is Ok ==> final(self).fetched() && final(self).spec_rows().len() == 1,
            final(self).fetched() && final(self).spec_rows().len() == 0 ==> r == Err::<R, Error>(
                code_error(codes::SQLITE_EMPTY),
            ),
            final(self).fetched() && final(self).spec_rows().len() == 1 ==> call_ensures(
                f,
                (&final(self).spec_rows()[0],),
                r,
            ),
            final(self).fetched() && final(self).spec_rows().len() >= 2 ==> {
                ||| (r is Err && call_ensures(f, (&final(self).spec_rows()[0],), r))
                ||| (r == Err::<R, Error>(code_error(codes::SQLITE_MISUSE)) && exists|v: R|
                    call_ensures(f, (&final(self).spec_rows()[0],), Ok::<R, Error>(v)))
            },
    {
        match self.query(params) {
            Ok(()) => {},
            Err(e) => return Err(e),
        }
        let ret = match self.next() {
            Err(e) => return Err(e),
            Ok(None) => return Err(SQLITE_EMPTY()),
            Ok(Some(row)) => f(&*row),
        };
        let ret = match ret {
            Ok(x) => x,
            Err(e) => return Err(e),
        };
        match self.next() {
            Err(e) => Err(e),
            Ok(Some(_)) => Err(SQLITE_MISUSE()),
            Ok(None) => Ok(ret),
        }
    }

    /// Run a query that is expected to return no rows, such as an INSERT, UPDATE or DELETE,
    /// and return the number of rows that it changed. A query that returns rows fails with
    /// `SQLITE_MISUSE`.
    pub fn execute<P: Params>(&mut self, params: P) -> (r: Result<i64>)
        requires
            old(self).wf(),
        ensures
            final(self).wf(),
            final(self).fetched() ==> Self::rebinds(params, old(self), final(self)),
            final(self).spec_sql() == old(self).spec_sql(),
            r matches Err(e) ==> is_engine_error(e),
            !final(self).fetched() ==> r is Err,
            r is Ok ==> final(self).fetched() && final(self).spec_rows().len() == 0,
            final(self).fetched() && final(self).spec_rows().len() == 0 ==> r is Ok,
            final(self).fetched() && final(self).spec_rows().len() > 0 ==> r == Err::<i64, Error>(
                code_error(codes::SQLITE_MISUSE),
            ),
            r matches Ok(n) ==> exists|c: u64| #[trigger] engine::reported_changes(
                old(self).spec_connection().spec_engine(),
                c,
            ) && n == c as i64,
            final(self).spec_connection() == old(self).spec_connection(),
    {
        match self.query(params) {
            Ok(()) => {},
            Err(e) => return Err(e),
        }
        match self.next() {
            Err(e) => Err(e),
            Ok(Some(_)) => Err(SQLITE_MISUSE()),
            Ok(None) => Ok(engine::changes_of(self.db.engine()) as i64),
        }
    }

    /// Run a query that is expected to be an INSERT and return the rowid that it inserted.
    /// A query that returns rows fails with `SQLITE_MISUSE`.
    pub fn insert<P: Params>(&mut self, params: P) -> (r: Result<i64>)
        requires
            old(self).wf(),
        ensures
            final(self).wf(),
            final(self).fetched() ==> Self::rebinds(params, old(self), final(self)),
            final(self).spec_sql() == old(self).spec_sql(),
            r matches Err(e) ==> is_engine_error(e),
            !final(self).fetched() ==> r is Err,
            r is Ok ==> final(self).fetched() && final(self).spec_rows().len() == 0,
            final(self).fetched() && final(self).spec_rows().len() == 0 ==> r is Ok,
            final(self).fetched() && final(self).spec_rows().len() > 0 ==> r == Err::<i64, Error>(
                code_error(codes::SQLITE_MISUSE),
            ),
            r matches Ok(id) ==> engine::reported_rowid(old(self).spec_connection().spec_engine(), id),
            final(self).spec_connection() == old(self).spec_connection(),
    {
        match self.query(params) {
            Ok(()) => {},
            Err(e) => return Err(e),
        }
        match self.next() {
            Err(e) => Err(e),
            Ok(Some(_)) => Err(SQLITE_MISUSE()),
            Ok(None) => Ok(engine::rowid_of(self.db.engine())),
        }
    }

    /// Returns the current row without advancing, or `None` when no row is current.
    pub fn current_result(&self) -> (r: Option<&QueryResult>)
        requires
            self.wf(),
        ensures
            self.spec_state() == QueryState::Active ==> r == Some(
                &self.spec_rows()[self.spec_pos() - 1],
            ),
            self.spec_state() != QueryState::Active ==> r is None,
    {
        if self.state == QueryState::Active {
            Some(&self.rows[self.pos - 1])
        } else {
            None
        }
    }

    /// Mutable version of [current_result](Self::current_result).
    pub fn current_result_mut(&mut self) -> (r: Option<&mut QueryResult>)
        requires
            old(self).wf(),
        ensures
            final(self).wf(),
            final(self).spec_state() == old(self).spec_state(),
            final(self).spec_pos() == old(self).spec_pos(),
            old(self).spec_state() == QueryState::Active ==> (r matches Some(row)
                && *row == old(self).spec_rows()[old(self).spec_pos() - 1]
                && final(self).spec_rows() == old(self).spec_rows().update(old(self).spec_pos() - 1, *final(row))),
            old(self).spec_state() != QueryState::Active ==> r is None && *final(self) == *old(self),
    {
        if self.state == QueryState::Active {
            let i = self.pos - 1;
            Some(&mut self.rows[i])
        } else {
            None
        }
    }

    /// Returns the SQL that the statement was prepared from.
    pub fn sql(&self) -> (s: &str)
        ensures
            s@ == self.spec_sql(),
    {
        self.sql.as_str()
    }

    /// Returns the number of parameters of the query.
    pub fn parameter_count(&self) -> (n: usize)
        ensures
            n == self.spec_parameter_count(),
    {
        self.param_names.len()
    }

    /// Returns the number of columns of the rows that the query returns.
    pub fn column_count(&self) -> (n: usize)
        ensures
            n == self.spec_column_count(),
    {
        self.n_columns
    }

    /// Returns the name of the parameter at the given position, counted from 1. There is
    /// none at 0 or past the last parameter, nor for a parameter without a name.
    pub fn parameter_name(&self, position: usize) -> (n: Option<String>)
        ensures
            position == 0 || position > self.spec_parameter_count() ==> n is None,
            1 <= position <= self.spec_parameter_count() ==> match n {
                Some(s) => self.spec_param_names()[position - 1] == Some(s@),
                None => self.spec_param_names()[position - 1] is None,
            },
    {
        if position == 0 || position > self.param_names.len() {
            None
        } else {
            match &self.param_names[position - 1] {
                Some(s) => Some(s.clone()),
                None => None,
            }
        }
    }

    /// Return the position of the parameter with the given name, or `None` when the query has
    /// no such parameter: the first position that has the name.
    pub fn parameter_position(&self, name: &str) -> (p: Option<usize>)
        ensures
            match p {
                Some(i) => name_position(self.spec_param_names(), name@) == Some(i as int),
                None => name_position(self.spec_param_names(), name@) is None,
            },
    {
        let ghost names = self.spec_param_names();
        let mut i: usize = 0;
        while i < self.param_names.len()
            invariant
                i <= self.param_names@.len(),
                names == self.spec_param_names(),
                position_from(names, name@, 0) == position_from(names, name@, i as int),
            decreases self.param_names@.len() - i,
        {
            match &self.param_names[i] {
                Some(s) => {
                    if same_text(s.as_str(), name) {
                        return Some(i + 1);
                    }
                },
                None => {},
            }
            i = i + 1;
        }
        None
    }
}

/// The first position, counted from 1, at index `k` or after, whose parameter has the name.
pub open spec fn position_from(names: Seq<Option<Seq<char>>>, name: Seq<char>, k: int) -> Option<int>
    decreases names.len() - k,
{
    if k < 0 || k >= names.len() {
        None
    } else if names[k] == Some(name) {
        Some(k + 1)
    } else {
        position_from(names, name, k + 1)
    }
}

/// The first position, counted from 1, whose parameter has the name.
pub open spec fn name_position(names: Seq<Option<Seq<char>>>, name: Seq<char>) -> Option<int> {
    position_from(names, name, 0)
}

/// Whether two texts are the same.
fn same_text(a: &str, b: &str) -> (r: bool)
    ensures
        r == (a@ == b@),
{
    let x = a.as_bytes();
    let y = b.as_bytes();
    proof {
        vstd::utf8::encode_utf8_decode_utf8(a@);
        vstd::utf8::encode_utf8_decode_utf8(b@);
    }
    if x.len() != y.len() {
        return false;
    }
    let mut i: usize = 0;
    while i < x.len()
        invariant
            x@ == a.spec_bytes(),
            y@ == b.spec_bytes(),
            x@.len() == y@.len(),
            i <= x@.len(),
            forall|k: int| 0 <= k < i ==> x@[k] == y@[k],
        decreases x@.len() - i,
    {
        if x[i] != y[i] {
            assert(a.spec_bytes() != b.spec_bytes());
            return false;
        }
        i = i + 1;
    }
    assert(x@ =~= y@);
    true
}

/// Binding `x` for position `position` over the bindings `before` gives `after`: its value
/// is bound at one of the positions it may write.
pub open spec fn binds_one<T: ToParam>(x: T, names: Seq<Option<Seq<char>>>, position: int, before: Map<int, ParamValue>, after: Map<int, ParamValue>) -> bool {
    exists|p: int| #[trigger] x.writes(names, position, p) && after == before.insert(p, x.param_value())
}

/// The bindings `trace` are those before and after binding each of `items` in order, the
/// first for position `start`.
pub open spec fn binds_trace<T: ToParam>(items: Seq<T>, names: Seq<Option<Seq<char>>>, start: int, trace: Seq<Map<int, ParamValue>>) -> bool {
    &&& trace.len() == items.len() + 1
    &&& forall|k: int| 0 <= k < items.len() ==> binds_one(#[trigger] items[k], names, start + k, trace[k], trace[k + 1])
}

/// Binding `items` in order, the first for position `start`, over `before` gives `after`.
pub open spec fn seq_binds<T: ToParam>(
    items: Seq<T>,
    names: Seq<Option<Seq<char>>>,
    start: int,
    before: Map<int, ParamValue>,
    after: Map<int, ParamValue>,
) -> bool {
    exists|trace: Seq<Map<int, ParamValue>>|
        #[trigger] binds_trace(items, names, start, trace) && trace[0] == before && trace.last() == after
}

/// Collections of parameters to a query.
pub trait Params {
    /// Whether binding these parameters over the bindings `before` can give `after`.
    spec fn binds(&self, names: Seq<Option<Seq<char>>>, before: Map<int, ParamValue>, after: Map<int, ParamValue>) -> bool;

    /// Bind these parameters to the statement.
    fn bind_params(self, stmt: &mut Statement<'_>) -> (r: Result<()>)
        requires
            old(stmt).ready(),
        ensures
            final(stmt).ready(),
            final(stmt).same_counts(old(stmt)),
            r matches Err(e) ==> is_engine_error(e),
            r is Ok ==> self.binds(old(stmt).spec_param_names(), old(stmt).spec_bindings(), final(stmt).spec_bindings()),
    ;
}

/// No parameters.
impl Params for () {
    open spec fn binds(&self, names: Seq<Option<Seq<char>>>, before: Map<int, ParamValue>, after: Map<int, ParamValue>) -> bool {
        after == before
    }

    fn bind_params(self, stmt: &mut Statement<'_>) -> (r: Result<()>)
        ensures
            r == Ok::<(), Error>(()),
            *final(stmt) == *old(stmt),
    {
        Ok(())
    }
}

/// Parameters bound in order, the first at position 1.
impl<T: ToParam> Params for Vec<T> {
    open spec fn binds(&self, names: Seq<Option<Seq<char>>>, before: Map<int, ParamValue>, after: Map<int, ParamValue>) -> bool {
        seq_binds(self@, names, 1, before, after)
    }

    fn bind_params(self, stmt: &mut Statement<'_>) -> (r: Result<()>)
        ensures
            self@.len() == 0 ==> r == Ok::<(), Error>(()) && final(stmt).spec_bindings() == old(
                stmt,
            ).spec_bindings(),
    {
        let ghost before = stmt.spec_bindings();
        let n = self.len();
        let mut rest = self;
        let ghost all = rest@;
        let ghost mut trace: Seq<Map<int, ParamValue>> = seq![before];
        let mut i: usize = 0;
        while i < n
            invariant
                n == all.len(),
                n == self@.len(),
                stmt.same_counts(old(stmt)),
                i <= n,
                rest@ == all.subrange(i as int, n as int),
                stmt.ready(),
                trace.len() == i + 1,
                trace[0] == before,
                trace.last() == stmt.spec_bindings(),
                forall|k: int| 0 <= k < i ==> binds_one(#[trigger] all[k], stmt.spec_param_names(), 1 + k, trace[k], trace[k + 1]),
            decreases n - i,
        {
            if i >= 2147483647 {
                return Err(crate::types::SQLITE_RANGE());
            }
            let position: i32 = (i + 1) as i32;
            let val = rest.remove(0);
            let ghost g = val;
            assert(g == all[i as int]);
            match val.bind_param(stmt, position) {
                Ok(()) => {},
                Err(e) => return Err(e),
            }
            proof {
                let old_trace = trace;
                trace = trace.push(stmt.spec_bindings());
                assert forall|k: int| 0 <= k < i + 1 implies binds_one(#[trigger] all[k], stmt.spec_param_names(), 1 + k, trace[k], trace[k + 1]) by {
                    if k < i {
                        assert(trace[k] == old_trace[k]);
                        assert(trace[k + 1] == old_trace[k + 1]);
                    }
                }
            }
            i = i + 1;
            assert(rest@ =~= all.subrange(i as int, n as int));
        }
        assert(binds_trace(all, stmt.spec_param_names(), 1, trace));
        Ok(())
    }
}

/// Two parameters, at positions 1 and 2.
impl<A: ToParam, B: ToParam> Params for (A, B) {
    open spec fn binds(&self, names: Seq<Option<Seq<char>>>, before: Map<int, ParamValue>, after: Map<int, ParamValue>) -> bool {
        exists|m: Map<int, ParamValue>| #[trigger] binds_one(self.0, names, 1, before, m) && binds_one(self.1, names, 2, m, after)
    }

    fn bind_params(self, stmt: &mut Statement<'_>) -> (r: Result<()>) {
        let ghost g = self;
        let ghost b0 = stmt.spec_bindings();
        match self.0.bind_param(stmt, 1) {
            Ok(()) => {},
            Err(e) => return Err(e),
        }
        let ghost b1 = stmt.spec_bindings();
        match self.1.bind_param(stmt, 2) {
            Ok(()) => {},
            Err(e) => return Err(e),
        }
        assert(binds_one(g.0, stmt.spec_param_names(), 1, b0, b1));
        Ok(())
    }
}

/// Three parameters, at positions 1 to 3.
impl<A: ToParam, B: ToParam, C: ToParam> Params for (A, B, C) {
    open spec fn binds(&self, names: Seq<Option<Seq<char>>>, before: Map<int, ParamValue>, after: Map<int, ParamValue>) -> bool {
        exists|m1: Map<int, ParamValue>, m2: Map<int, ParamValue>|
            #[trigger] binds_one(self.0, names, 1, before, m1) && #[trigger] binds_one(self.1, names, 2, m1, m2)
                && binds_one(self.2, names, 3, m2, after)
    }

    fn bind_params(self, stmt: &mut Statement<'_>) -> (r: Result<()>) {
        let ghost g = self;
        let ghost b0 = stmt.spec_bindings();
        match self.0.bind_param(stmt, 1) {
            Ok(()) => {},
            Err(e) => return Err(e),
        }
        let ghost b1 = stmt.spec_bindings();
        match self.1.bind_param(stmt, 2) {
            Ok(()) => {},
            Err(e) => return Err(e),
        }
        let ghost b2 = stmt.spec_bindings();
        match self.2.bind_param(stmt, 3) {
            Ok(()) => {},
            Err(e) => return Err(e),
        }
        assert(binds_one(g.0, stmt.spec_param_names(), 1, b0, b1) && binds_one(g.1, stmt.spec_param_names(), 2, b1, b2));
        Ok(())
    }
}

/// Four parameters, at positions 1 to 4.
impl<A: ToParam, B: ToParam, C: ToParam, D: ToParam> Params for (A, B, C, D) {
    open spec fn binds(&self, names: Seq<Option<Seq<char>>>, before: Map<int, ParamValue>, after: Map<int, ParamValue>) -> bool {
        exists|m1: Map<int, ParamValue>, m2: Map<int, ParamValue>, m3: Map<int, ParamValue>|
            #[trigger] binds_one(self.0, names, 1, before, m1) && #[trigger] binds_one(self.1, names, 2, m1, m2)
                && #[trigger] binds_one(self.2, names, 3, m2, m3) && binds_one(self.3, names, 4, m3, after)
    }

    fn bind_params(self, stmt: &mut Statement<'_>) -> (r: Result<()>) {
        let ghost g = self;
        let ghost b0 = stmt.spec_bindings();
        match self.0.bind_param(stmt, 1) {
            Ok(()) => {},
            Err(e) => return Err(e),
        }
        let ghost b1 = stmt.spec_bindings();
        match self.1.bind_param(stmt, 2) {
            Ok(()) => {},
            Err(e) => return Err(e),
        }
        let ghost b2 = stmt.spec_bindings();
        match self.2.bind_param(stmt, 3) {
            Ok(()) => {},
            Err(e) => return Err(e),
        }
        let ghost b3 = stmt.spec_bindings();
        match self.3.bind_param(stmt, 4) {
            Ok(()) => {},
            Err(e) => return Err(e),
        }
        assert(binds_one(g.0, stmt.spec_param_names(), 1, b0, b1) && binds_one(g.1, stmt.spec_param_names(), 2, b1, b2) && binds_one(g.2, stmt.spec_param_names(), 3, b2, b3));
        Ok(())
    }
}

/// Values that can be bound to a parameter of a query.
pub trait ToParam {
    /// The value that is bound.
    spec fn param_value(&self) -> ParamValue;

    /// Whether binding for the parameter at `position` may bind position `p`: only `p`
    /// itself, but for a named parameter, which binds where the name is.
    spec fn writes(&self, names: Seq<Option<Seq<char>>>, position: int, p: int) -> bool;

    /// Bind this value to the parameter at the given position, counted from 1.
    fn bind_param(self, stmt: &mut Statement<'_>, position: i32) -> (r: Result<()>)
        requires
            old(stmt).ready(),
        ensures
            final(stmt).ready(),
            final(stmt).same_counts(old(stmt)),
            r matches Err(e) ==> is_engine_error(e),
            r is Ok ==> exists|p: int|
                #[trigger] self.writes(old(stmt).spec_param_names(), position as int, p) && final(stmt).spec_bindings() == old(
                    stmt,
                ).spec_bindings().insert(p, self.param_value()),
            r is Err ==> final(stmt).spec_bindings() == old(stmt).spec_bindings(),
    ;
}

/// Binds NULL.
impl ToParam for () {
    open spec fn param_value(&self) -> ParamValue {
        ParamValue::Null
    }

    open spec fn writes(&self, names: Seq<Option<Seq<char>>>, position: int, p: int) -> bool {
        p == position
    }

    fn bind_param(self, stmt: &mut Statement<'_>, position: i32) -> (r: Result<()>)
        ensures
            position < 1 ==> r == Err::<(), Error>(code_error(codes::SQLITE_RANGE)),
    {
        let r = stmt.bind_value(position, &RawValue::Null);
        assert(self.writes(stmt.spec_param_names(), position as int, position as int));
        r
    }
}

impl ToParam for i64 {
    open spec fn param_value(&self) -> ParamValue {
        ParamValue::Integer(*self)
    }

    open spec fn writes(&self, names: Seq<Option<Seq<char>>>, position: int, p: int) -> bool {
        p == position
    }

    fn bind_param(self, stmt: &mut Statement<'_>, position: i32) -> (r: Result<()>)
        ensures
            position < 1 ==> r == Err::<(), Error>(code_error(codes::SQLITE_RANGE)),
    {
        let r = stmt.bind_value(position, &RawValue::Integer(self));
        assert(self.writes(stmt.spec_param_names(), position as int, position as int));
        r
    }
}

impl ToParam for i32 {
    open spec fn param_value(&self) -> ParamValue {
        ParamValue::Integer(*self as i64)
    }

    open spec fn writes(&self, names: Seq<Option<Seq<char>>>, position: int, p: int) -> bool {
        p == position
    }

    fn bind_param(self, stmt: &mut Statement<'_>, position: i32) -> (r: Result<()>)
        ensures
            position < 1 ==> r == Err::<(), Error>(code_error(codes::SQLITE_RANGE)),
    {
        let r = stmt.bind_value(position, &RawValue::Integer(self as i64));
        assert(self.writes(stmt.spec_param_names(), position as int, position as int));
        r
    }
}

/// Binds 1 for true and 0 for false.
impl ToParam for bool {
    open spec fn param_value(&self) -> ParamValue {
        ParamValue::Integer(if *self { 1 } else { 0 })
    }

    open spec fn writes(&self, names: Seq<Option<Seq<char>>>, position: int, p: int) -> bool {
        p == position
    }

    fn bind_param(self, stmt: &mut Statement<'_>, position: i32) -> (r: Result<()>)
        ensures
            position < 1 ==> r == Err::<(), Error>(code_error(codes::SQLITE_RANGE)),
    {
        let r = stmt.bind_value(position, &RawValue::Integer(if self { 1 } else { 0 }));
        assert(self.writes(stmt.spec_param_names(), position as int, position as int));
        r
    }
}

/// Binds TEXT.
impl ToParam for &str {
    open spec fn param_value(&self) -> ParamValue {
        ParamValue::Text(self.spec_bytes())
    }

    open spec fn writes(&self, names: Seq<Option<Seq<char>>>, position: int, p: int) -> bool {
        p == position
    }

    fn bind_param(self, stmt: &mut Statement<'_>, position: i32) -> (r: Result<()>)
        ensures
            position < 1 ==> r == Err::<(), Error>(code_error(codes::SQLITE_RANGE)),
    {
        let r = stmt.bind_value(position, &RawValue::Text(crate::value::Blob::from_slice(self.as_bytes()).into_vec()));
        assert(self.writes(stmt.spec_param_names(), position as int, position as int));
        r
    }
}

/// Binds TEXT.
impl ToParam for String {
    open spec fn param_value(&self) -> ParamValue {
        ParamValue::Text(encode_utf8(self@))
    }

    open spec fn writes(&self, names: Seq<Option<Seq<char>>>, position: int, p: int) -> bool {
        p == position
    }

    fn bind_param(self, stmt: &mut Statement<'_>, position: i32) -> (r: Result<()>)
        ensures
            position < 1 ==> r == Err::<(), Error>(code_error(codes::SQLITE_RANGE)),
    {
        let r = stmt.bind_value(position, &RawValue::Text(crate::value::Blob::from_slice(self.as_str().as_bytes()).into_vec()));
        assert(self.writes(stmt.spec_param_names(), position as int, position as int));
        r
    }
}

/// Binds a BLOB.
impl ToParam for crate::value::Blob {
    open spec fn param_value(&self) -> ParamValue {
        ParamValue::Blob(self@)
    }

    open spec fn writes(&self, names: Seq<Option<Seq<char>>>, position: int, p: int) -> bool {
        p == position
    }

    fn bind_param(self, stmt: &mut Statement<'_>, position: i32) -> (r: Result<()>)
        ensures
            position < 1 ==> r == Err::<(), Error>(code_error(codes::SQLITE_RANGE)),
    {
        let ghost g = self;
        let r = stmt.bind_value(position, &RawValue::Blob(self.into_vec()));
        assert(g.writes(stmt.spec_param_names(), position as int, position as int));
        r
    }
}

/// Binds the value in its own datatype; a FLOAT fails with `SQLITE_MISMATCH`.
impl ToParam for RawValue {
    open spec fn param_value(&self) -> ParamValue {
        param_of(*self)
    }

    open spec fn writes(&self, names: Seq<Option<Seq<char>>>, position: int, p: int) -> bool {
        p == position
    }

    fn bind_param(self, stmt: &mut Statement<'_>, position: i32) -> (r: Result<()>)
        ensures
            position < 1 ==> r == Err::<(), Error>(code_error(codes::SQLITE_RANGE)),
            position >= 1 && self is Float ==> r == Err::<(), Error>(
                code_error(codes::SQLITE_MISMATCH),
            ),
    {
        let r = stmt.bind_value(position, &self);
        assert(self.writes(stmt.spec_param_names(), position as int, position as int));
        r
    }
}

/// Binds the value in its own datatype; a FLOAT fails with `SQLITE_MISMATCH`.
impl ToParam for crate::value::Value {
    open spec fn param_value(&self) -> ParamValue {
        match self {
            crate::value::Value::Integer(i) => ParamValue::Integer(*i),
            crate::value::Value::Float(f) => ParamValue::Float(*f),
            crate::value::Value::Text(t) => ParamValue::Text(encode_utf8(t@)),
            crate::value::Value::Blob(b) => ParamValue::Blob(b@),
            crate::value::Value::Null => ParamValue::Null,
        }
    }

    open spec fn writes(&self, names: Seq<Option<Seq<char>>>, position: int, p: int) -> bool {
        p == position
    }

    fn bind_param(self, stmt: &mut Statement<'_>, position: i32) -> (r: Result<()>)
        ensures
            position < 1 ==> r == Err::<(), Error>(code_error(codes::SQLITE_RANGE)),
            position >= 1 && self is Float ==> r == Err::<(), Error>(
                code_error(codes::SQLITE_MISMATCH),
            ),
    {
        let ghost g = self;
        let raw = match self {
            crate::value::Value::Integer(i) => RawValue::Integer(i),
            crate::value::Value::Float(f) => RawValue::Float(f, Vec::new()),
            crate::value::Value::Text(t) => RawValue::Text(crate::value::Blob::from_slice(t.as_str().as_bytes()).into_vec()),
            crate::value::Value::Blob(b) => RawValue::Blob(b.into_vec()),
            crate::value::Value::Null => RawValue::Null,
        };
        assert(param_of(raw) == g.param_value());
        let r = stmt.bind_value(position, &raw);
        assert(g.writes(stmt.spec_param_names(), position as int, position as int));
        r
    }
}

/// Binds the value, or NULL for `None`.
impl<T: ToParam> ToParam for Option<T> {
    open spec fn param_value(&self) -> ParamValue {
        match self {
            Some(x) => x.param_value(),
            None => ParamValue::Null,
        }
    }

    open spec fn writes(&self, names: Seq<Option<Seq<char>>>, position: int, p: int) -> bool {
        match self {
            Some(x) => x.writes(names, position, p),
            None => p == position,
        }
    }

    fn bind_param(self, stmt: &mut Statement<'_>, position: i32) -> (r: Result<()>)
        ensures
            self is None && position < 1 ==> r == Err::<(), Error>(code_error(codes::SQLITE_RANGE)),
    {
        let ghost g = self;
        match self {
            Some(x) => {
                let ghost gx = x;
                let ghost before = stmt.spec_bindings();
                let r = x.bind_param(stmt, position);
                proof {
                    if r is Ok {
                        let w = choose|w: int| #[trigger] gx.writes(stmt.spec_param_names(), position as int, w) && stmt.spec_bindings() == before.insert(w, gx.param_value());
                        assert(g.writes(stmt.spec_param_names(), position as int, w));
                    }
                }
                r
            },
            None => {
                let r = stmt.bind_value(position, &RawValue::Null);
                assert(g.writes(stmt.spec_param_names(), position as int, position as int));
                r
            },
        }
    }
}

/// Binds the value to the parameter with the given name, wherever it is; a name that the
/// query does not have fails with `SQLITE_RANGE`.
impl<V: ToParam> ToParam for (&str, V) {
    open spec fn param_value(&self) -> ParamValue {
        self.1.param_value()
    }

    open spec fn writes(&self, names: Seq<Option<Seq<char>>>, position: int, p: int) -> bool {
        name_position(names, self.0@) matches Some(q) && self.1.writes(names, q, p)
    }

    fn bind_param(self, stmt: &mut Statement<'_>, position: i32) -> (r: Result<()>)
        ensures
            name_position(old(stmt).spec_param_names(), self.0@) is None ==> r == Err::<(), Error>(
                code_error(codes::SQLITE_RANGE),
            ),
    {
        let ghost g = self;
        match stmt.parameter_position(self.0) {
            Some(p) => {
                if p > 2147483647 {
                    Err(crate::types::SQLITE_RANGE())
                } else {
                    let ghost before = stmt.spec_bindings();
                    let ghost names = stmt.spec_param_names();
                    let r = self.1.bind_param(stmt, p as i32);
                    proof {
                        if r is Ok {
                            let w = choose|w: int| #[trigger] g.1.writes(names, p as int, w) && stmt.spec_bindings() == before.insert(w, g.1.param_value());
                            assert(g.writes(names, position as int, w));
                        }
                    }
                    r
                }
            },
            None => Err(crate::types::SQLITE_RANGE()),
        }
    }
}

/// What the text of a prepared statement tells: SQLite gives no text for a statement that
/// holds no SQL (empty text, or only comments), which is `SQLITE_MISUSE`.
pub fn statement_check(expanded: &Option<String>) -> (r: Result<()>)
    ensures
        r == (if expanded is None {
            Err::<(), Error>(code_error(codes::SQLITE_MISUSE))
        } else {
            Ok::<(), Error>(())
        }),
{
    match expanded {
        None => Err(SQLITE_MISUSE()),
        Some(_) => Ok(()),
    }
}

/// Whether a byte is white space to SQLite's tokenizer: space, tab, line feed, form feed or
/// carriage return.
pub open spec fn sql_space(b: u8) -> bool {
    b == 32 || b == 9 || b == 10 || b == 12 || b == 13
}

/// Text made of white space only, the empty text included, holds no SQL statement.
pub open spec fn blank_sql(b: Seq<u8>) -> bool {
    forall|i: int| 0 <= i < b.len() ==> #[trigger] sql_space(b[i])
}

/// Whether the text is white space only.
pub fn is_blank(sql: &str) -> (r: bool)
    ensures
        r == blank_sql(sql.spec_bytes()),
{
    let b = sql.as_bytes();
    let mut i: usize = 0;
    while i < b.len()
        invariant
            b@ == sql.spec_bytes(),
            i <= b@.len(),
            forall|k: int| 0 <= k < i ==> #[trigger] sql_space(b@[k]),
        decreases b@.len() - i,
    {
        let c = b[i];
        if !(c == 32 || c == 9 || c == 10 || c == 12 || c == 13) {
            assert(!sql_space(b@[i as int]));
            return false;
        }
        i = i + 1;
    }
    true
}

impl Connection {
    /// Prepare some SQL for execution. Text that holds no SQL statement (empty, only white
    /// space, or only comments) fails with `SQLITE_MISUSE`.
    pub fn prepare(&self, sql: &str) -> (r: Result<Statement<'_>>)
        ensures
            r matches Ok(stmt) ==> stmt.ready() && stmt.spec_bindings() == Map::<int, ParamValue>::empty()
                && stmt.spec_sql() == sql@ && stmt.spec_connection() == *self,
            r matches Err(e) ==> is_engine_error(e) || e == code_error(codes::SQLITE_MISUSE),
            blank_sql(sql.spec_bytes()) ==> r == Err::<Statement<'_>, Error>(code_error(codes::SQLITE_MISUSE)),
    {
        if is_blank(sql) {
            return Err(SQLITE_MISUSE());
        }
        match engine::prepare(self.engine(), sql) {
            Ok((base, text)) => {
                let expanded = engine::expanded_sql(&base);
                match statement_check(&expanded) {
                    Ok(()) => {},
                    Err(e) => return Err(e),
                }
                let n_columns = engine::column_count(&base);
                let n_params = engine::parameter_count(&base);
                let mut param_names: Vec<Option<String>> = Vec::new();
                let mut k: usize = 0;
                while k < n_params
                    invariant
                        k <= n_params,
                        param_names@.len() == k,
                    decreases n_params - k,
                {
                    param_names.push(engine::parameter_name(&base, k + 1));
                    k = k + 1;
                }
                Ok(Statement {
                    db: self,
                    base,
                    state: QueryState::Ready,
                    rows: Vec::new(),
                    pos: 0,
                    bindings: Ghost(Map::empty()),
                    n_columns,
                    param_names,
                    sql: text,
                })
            },
            Err(e) => Err(engine_error(e)),
        }
    }

    /// Prepare the SQL and run it as [Statement::query_row].
    pub fn query_row<P: Params, R, F: FnOnce(&QueryResult) -> Result<R>>(
        &self,
        sql: &str,
        params: P,
        f: F,
    ) -> (r: Result<R>)
        requires
            forall|row: &QueryResult| call_requires(f, (row,)),
        ensures
            r is Ok ==> exists|row: QueryResult| call_ensures(f, (&row,), r),
            r matches Err(e) ==> is_engine_error(e) || exists|row: QueryResult| call_ensures(
                f,
                (&row,),
                r,
            ),
            blank_sql(sql.spec_bytes()) ==> r == Err::<R, Error>(code_error(codes::SQLITE_MISUSE)),
    {
        match self.prepare(sql) {
            Ok(mut stmt) => stmt.query_row(params, f),
            Err(e) => Err(e),
        }
    }

    /// Prepare the SQL and run it as [Statement::execute].
    pub fn execute<'c, P: Params>(&'c self, sql: &str, params: P) -> (r: Result<i64>)
        ensures
            r matches Err(e) ==> is_engine_error(e),
            blank_sql(sql.spec_bytes()) ==> r == Err::<i64, Error>(code_error(codes::SQLITE_MISUSE)),
            r is Ok ==> exists|s: Statement<'c>| {
                &&& #[trigger] s.spec_sql() == sql@
                &&& s.fetched()
                &&& s.spec_rows().len() == 0
                &&& params.binds(s.spec_param_names(), Map::<int, ParamValue>::empty(), s.spec_bindings())
            },
            r matches Ok(n) ==> exists|c: u64| #[trigger] engine::reported_changes(self.spec_engine(), c)
                && n == c as i64,
    {
        match self.prepare(sql) {
            Ok(mut stmt) => stmt.execute(params),
            Err(e) => Err(e),
        }
    }

    /// Prepare the SQL and run it as [Statement::insert].
    pub fn insert<'c, P: Params>(&'c self, sql: &str, params: P) -> (r: Result<i64>)
        ensures
            r matches Err(e) ==> is_engine_error(e),
            blank_sql(sql.spec_bytes()) ==> r == Err::<i64, Error>(code_error(codes::SQLITE_MISUSE)),
            r is Ok ==> exists|s: Statement<'c>| {
                &&& #[trigger] s.spec_sql() == sql@
                &&& s.fetched()
                &&& s.spec_rows().len() == 0
                &&& params.binds(s.spec_param_names(), Map::<int, ParamValue>::empty(), s.spec_bindings())
            },
            r matches Ok(id) ==> engine::reported_rowid(self.spec_engine(), id),
    {
        match self.prepare(sql) {
            Ok(mut stmt) => stmt.insert(params),
            Err(e) => Err(e),
        }
    }
}

} // verus!
