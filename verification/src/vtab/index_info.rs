//! The query plan that SQLite proposes to a virtual table, and the table's answer.
//!
//! An [IndexInfo] holds, as plain values, what SQLite's `sqlite3_index_info` carries: the
//! constraints and ORDER BY terms of the query (input), and the index number, index string,
//! argument positions and estimates that the table chooses (output).
use vstd::prelude::*;
use crate::codes;
use crate::types::{code_error, Error, Result};
use crate::value::{RawValue, ValueRef};

verus! {

/// The SQLite version from which `estimatedRows` exists.
pub const ESTIMATED_ROWS_VERSION: i32 = 3_008_002;

/// The SQLite version from which `idxFlags` exists.
pub const SCAN_FLAGS_VERSION: i32 = 3_009_000;

/// The SQLite version from which `colUsed` exists.
pub const COLUMNS_USED_VERSION: i32 = 3_010_000;

/// The SQLite version from which `sqlite3_vtab_collation` exists.
pub const COLLATION_VERSION: i32 = 3_022_000;

/// The SQLite version from which `sqlite3_vtab_distinct`, `sqlite3_vtab_rhs_value` and
/// `sqlite3_vtab_in` exist.
pub const DISTINCT_VERSION: i32 = 3_038_000;

/// The operator of a constraint on a virtual table column.
#[derive(Debug, Eq, PartialEq, Clone, Copy, Structural)]
pub enum ConstraintOp {
    Eq,
    GT,
    LE,
    LT,
    GE,
    Match,
    Like,
    Glob,
    Regexp,
    NE,
    IsNot,
    IsNotNull,
    IsNull,
    Is,
    Limit,
    Offset,
    /// An operator overloaded by a virtual table function; the code is 150 or more.
    Function(u8),
}

/// The operator codes that SQLite uses in `sqlite3_index_constraint.op`.
pub open spec fn is_constraint_op_code(v: u8) -> bool {
    v == 2 || v == 4 || v == 8 || v == 16 || v == 32 || (64 <= v && v <= 74) || v >= 150
}

/// The operator that an SQLite operator code stands for.
pub open spec fn constraint_op_of(v: u8) -> ConstraintOp {
    if v == 2 {
        ConstraintOp::Eq
    } else if v == 4 {
        ConstraintOp::GT
    } else if v == 8 {
        ConstraintOp::LE
    } else if v == 16 {
        ConstraintOp::LT
    } else if v == 32 {
        ConstraintOp::GE
    } else if v == 64 {
        ConstraintOp::Match
    } else if v == 65 {
        ConstraintOp::Like
    } else if v == 66 {
        ConstraintOp::Glob
    } else if v == 67 {
        ConstraintOp::Regexp
    } else if v == 68 {
        ConstraintOp::NE
    } else if v == 69 {
        ConstraintOp::IsNot
    } else if v == 70 {
        ConstraintOp::IsNotNull
    } else if v == 71 {
        ConstraintOp::IsNull
    } else if v == 72 {
        ConstraintOp::Is
    } else if v == 73 {
        ConstraintOp::Limit
    } else if v == 74 {
        ConstraintOp::Offset
    } else {
        ConstraintOp::Function(v)
    }
}

impl ConstraintOp {
    /// Whether this operator may be given to a function that a virtual table overloads:
    /// only `Function` with a code of 150 or more.
    pub open spec fn is_function_constraint(self) -> bool {
        self matches ConstraintOp::Function(v) && v >= 150
    }

    /// Decode an SQLite operator code.
    pub fn from_sqlite(val: u8) -> (op: ConstraintOp)
        requires
            is_constraint_op_code(val),
        ensures
            op == constraint_op_of(val),
    {
        match val {
            2 => ConstraintOp::Eq,
            4 => ConstraintOp::GT,
            8 => ConstraintOp::LE,
            16 => ConstraintOp::LT,
            32 => ConstraintOp::GE,
            64 => ConstraintOp::Match,
            65 => ConstraintOp::Like,
            66 => ConstraintOp::Glob,
            67 => ConstraintOp::Regexp,
            68 => ConstraintOp::NE,
            69 => ConstraintOp::IsNot,
            70 => ConstraintOp::IsNotNull,
            71 => ConstraintOp::IsNull,
            72 => ConstraintOp::Is,
            73 => ConstraintOp::Limit,
            74 => ConstraintOp::Offset,
            _ => ConstraintOp::Function(val),
        }
    }

    /// Whether this operator may be given to an overloaded function.
    pub fn valid_function_constraint(&self) -> (b: bool)
        ensures
            b == self.is_function_constraint(),
    {
        match self {
            ConstraintOp::Function(v) => *v >= 150,
            _ => false,
        }
    }
}

/// Decoding is one to one on valid codes: two codes give the same operator only if they
/// are the same code.
pub proof fn lemma_constraint_op_injective(a: u8, b: u8)
    requires
        is_constraint_op_code(a),
        is_constraint_op_code(b),
        constraint_op_of(a) == constraint_op_of(b),
    ensures
        a == b,
{
}

/// How much of the ORDER BY a virtual table has to honour.
#[derive(Debug, Eq, PartialEq, Clone, Copy, Structural)]
pub enum DistinctMode {
    /// All rows in the order of the ORDER BY terms.
    Ordered,
    /// Any order, but rows of a group adjacent to one another.
    Grouped,
    /// As `Grouped`, and all but one row of a group may be skipped.
    Distinct,
}

/// The mode that a `sqlite3_vtab_distinct` result stands for.
pub open spec fn distinct_mode_of(v: i32) -> DistinctMode {
    if v == 0 {
        DistinctMode::Ordered
    } else if v == 1 {
        DistinctMode::Grouped
    } else {
        DistinctMode::Distinct
    }
}

impl DistinctMode {
    /// Decode a result of `sqlite3_vtab_distinct`.
    pub fn from_sqlite(val: i32) -> (m: DistinctMode)
        requires
            0 <= val <= 2,
        ensures
            m == distinct_mode_of(val),
    {
        if val == 0 {
            DistinctMode::Ordered
        } else if val == 1 {
            DistinctMode::Grouped
        } else {
            DistinctMode::Distinct
        }
    }
}

/// One constraint of the query: the column it is on, its operator, and whether it can be
/// used in this plan. The value also knows its position among the constraints; what the
/// table answers for it (the argument position and the omit flag) lives in the
/// [IndexInfo], which is why reading and setting those take the [IndexInfo].
#[derive(Debug, Clone, Copy)]
pub struct IndexInfoConstraint {
    position: usize,
    column: i32,
    op: ConstraintOp,
    usable: bool,
}

/// One ORDER BY term of the query.
#[derive(Debug, Clone, Copy)]
pub struct IndexInfoOrderBy {
    position: usize,
    column: i32,
    desc: bool,
}

/// The value SQLite keeps in `argvIndex` for an argument position: 0 for none, the
/// position plus one otherwise, as a C `int`.
pub open spec fn argv_slot(idx: Option<u32>) -> i32 {
    match idx {
        None => 0i32,
        Some(i) => (i + 1) as i32,
    }
}

/// The argument position that an `argvIndex` value stands for.
pub open spec fn argv_of_slot(x: i32) -> Option<u32> {
    if x == 0 {
        None
    } else {
        Some((x - 1) as u32)
    }
}

/// The argument position given to `set_argv_index` is the one `argv_index` gives back,
/// for every position but `i32::MAX`, whose slot value is `i32::MIN`.
pub proof fn lemma_argv_roundtrip(idx: Option<u32>)
    requires
        idx matches Some(i) ==> i < u32::MAX && i != 0x7fff_ffffu32,
    ensures
        argv_slot(idx) != i32::MIN,
        argv_of_slot(argv_slot(idx)) == idx,
{
    if let Some(i) = idx {
        assert(((i + 1) as i32) != i32::MIN) by (bit_vector)
            requires
                i < 0xffff_ffffu32,
                i != 0x7fff_ffffu32,
        ;
        assert((i + 1) as i32 != 0) by (bit_vector)
            requires
                i < 0xffff_ffffu32,
        ;
        assert((((i + 1) as i32) - 1) as u32 == i) by (bit_vector)
            requires
                i < 0xffff_ffffu32,
                i != 0x7fff_ffffu32,
        ;
    }
}

/// Scan flags set on a new enough SQLite are read back unchanged, for every value that fits
/// in a C `int`.
pub proof fn lemma_scan_flags_roundtrip(v: usize)
    requires
        v <= 0x7fff_ffff,
    ensures
        ((v as i32) as usize) == v,
{
    assert(((v as i32) as usize) == v) by (bit_vector)
        requires
            v <= 0x7fff_ffffusize,
    ;
}

impl IndexInfoConstraint {
    pub closed spec fn spec_position(&self) -> usize {
        self.position
    }

    pub closed spec fn spec_column(&self) -> i32 {
        self.column
    }

    pub closed spec fn spec_op(&self) -> ConstraintOp {
        self.op
    }

    pub closed spec fn spec_usable(&self) -> bool {
        self.usable
    }

    /// The position of the constraint among the constraints of the plan.
    pub fn position(&self) -> (p: usize)
        ensures
            p == self.spec_position(),
    {
        self.position
    }

    /// The column being constrained, counted from 0 as declared; the rowid is -1.
    pub fn column(&self) -> (c: i32)
        ensures
            c == self.spec_column(),
    {
        self.column
    }

    /// The operator of the constraint.
    pub fn op(&self) -> (o: ConstraintOp)
        ensures
            o == self.spec_op(),
    {
        self.op
    }

    /// Whether the constraint can be used in this plan; `best_index` must consider only
    /// those for which this is true.
    pub fn usable(&self) -> (b: bool)
        ensures
            b == self.spec_usable(),
    {
        self.usable
    }

    /// The argument position set for this constraint with
    /// [set_argv_index](Self::set_argv_index), if any.
    pub fn argv_index(&self, info: &IndexInfo) -> (r: Option<u32>)
        requires
            self.spec_position() < info.spec_argv().len(),
            info.spec_argv()[self.spec_position() as int] != i32::MIN,
        ensures
            r == argv_of_slot(info.spec_argv()[self.spec_position() as int]),
    {
        let x = info.usage_at(self.position).argv_index;
        if x == 0 {
            None
        } else {
            Some(#[verifier::truncate] ((x - 1) as u32))
        }
    }

    /// Give the value of this constraint to `filter` as its argument at the given position,
    /// or to no argument with `None`.
    pub fn set_argv_index(&self, info: &mut IndexInfo, idx: Option<u32>)
        requires
            self.spec_position() < old(info).spec_argv().len(),
            idx matches Some(i) ==> i < u32::MAX,
        ensures
            final(info).spec_argv() == old(info).spec_argv().update(
                self.spec_position() as int,
                argv_slot(idx),
            ),
            final(info).same_except_usage(*old(info)),
            final(info).spec_omit() == old(info).spec_omit(),
            final(info).spec_in_wanted() == old(info).spec_in_wanted(),
    {
        let x: i32 = match idx {
            None => 0,
            Some(i) => #[verifier::truncate] ((i + 1) as i32),
        };
        let old_usage = info.usage_at(self.position);
        info.set_usage(
            self.position,
            ConstraintUsage { argv_index: x, omit: old_usage.omit, in_wanted: old_usage.in_wanted },
        );
    }

    /// Whether SQLite was told that the table checks this constraint itself.
    pub fn omit(&self, info: &IndexInfo) -> (b: bool)
        requires
            self.spec_position() < info.spec_omit().len(),
        ensures
            b == info.spec_omit()[self.spec_position() as int],
    {
        info.usage_at(self.position).omit
    }

    /// Tell SQLite that the table checks this constraint itself, so that SQLite may skip
    /// its own check.
    pub fn set_omit(&self, info: &mut IndexInfo, val: bool)
        requires
            self.spec_position() < old(info).spec_omit().len(),
        ensures
            final(info).spec_omit() == old(info).spec_omit().update(
                self.spec_position() as int,
                val,
            ),
            final(info).same_except_usage(*old(info)),
            final(info).spec_argv() == old(info).spec_argv(),
            final(info).spec_in_wanted() == old(info).spec_in_wanted(),
    {
        let old_usage = info.usage_at(self.position);
        info.set_usage(
            self.position,
            ConstraintUsage { argv_index: old_usage.argv_index, omit: val, in_wanted: old_usage.in_wanted },
        );
    }
}

impl IndexInfoConstraint {
    /// The value of the right-hand side of the constraint, where SQLite knows it (mostly a
    /// literal in the SQL). Otherwise, and before SQLite 3.38.0, this fails with
    /// `SQLITE_NOTFOUND`.
    pub fn rhs<'a>(&self, info: &'a IndexInfo) -> (r: Result<&'a ValueRef>)
        requires
            self.spec_position() < info.spec_rhs().len(),
        ensures
            info.spec_version() >= DISTINCT_VERSION && info.spec_rhs()[self.spec_position() as int] is Some
                ==> (r matches Ok(v) && v.spec_value() == info.spec_rhs()[self.spec_position() as int]->0),
            !(info.spec_version() >= DISTINCT_VERSION && info.spec_rhs()[self.spec_position() as int] is Some)
                ==> r == Err::<&ValueRef, Error>(code_error(codes::SQLITE_NOTFOUND)),
    {
        proof {
            use_type_invariant(info);
        }
        if info.version < DISTINCT_VERSION {
            return Err(Error::Sqlite(codes::SQLITE_NOTFOUND, None));
        }
        match &info.details[self.position].rhs {
            Some(v) => Ok(v),
            None => Err(Error::Sqlite(codes::SQLITE_NOTFOUND, None)),
        }
    }

    /// The name of the collation for text comparisons on this column; needs SQLite 3.22.0.
    pub fn collation<'a>(&self, info: &'a IndexInfo) -> (r: Result<&'a str>)
        requires
            self.spec_position() < info.spec_collation().len(),
        ensures
            info.spec_version() >= COLLATION_VERSION ==> (r matches Ok(c) && c@
                == info.spec_collation()[self.spec_position() as int]),
            info.spec_version() < COLLATION_VERSION ==> r == Err::<&str, Error>(
                Error::VersionNotSatisfied(COLLATION_VERSION),
            ),
    {
        proof {
            use_type_invariant(info);
        }
        if info.version < COLLATION_VERSION {
            return Err(Error::VersionNotSatisfied(COLLATION_VERSION));
        }
        Ok(info.details[self.position].collation.as_str())
    }

    /// Whether all values of this IN constraint can be handed to `filter` at once; always
    /// false before SQLite 3.38.0.
    pub fn value_list_available(&self, info: &IndexInfo) -> (b: bool)
        requires
            self.spec_position() < info.spec_in_available().len(),
        ensures
            b == (info.spec_version() >= DISTINCT_VERSION && info.spec_in_available()[self.spec_position() as int]),
    {
        proof {
            use_type_invariant(info);
        }
        info.version >= DISTINCT_VERSION && info.details[self.position].in_available
    }

    /// Ask for all values of this IN constraint at once (or cancel the request with false);
    /// returns what [value_list_available](Self::value_list_available) does. Before SQLite
    /// 3.38.0 nothing is asked and false is returned.
    pub fn set_value_list_wanted(&self, info: &mut IndexInfo, val: bool) -> (b: bool)
        requires
            self.spec_position() < old(info).spec_in_available().len(),
        ensures
            b == (old(info).spec_version() >= DISTINCT_VERSION && old(info).spec_in_available()[self.spec_position() as int]),
            final(info).spec_in_wanted() == (if old(info).spec_version() >= DISTINCT_VERSION {
                old(info).spec_in_wanted().update(self.spec_position() as int, Some(val))
            } else {
                old(info).spec_in_wanted()
            }),
            final(info).same_except_usage(*old(info)),
            final(info).spec_argv() == old(info).spec_argv(),
            final(info).spec_omit() == old(info).spec_omit(),
    {
        proof {
            use_type_invariant(&*info);
        }
        let available = self.value_list_available(info);
        if info.version >= DISTINCT_VERSION {
            let old_usage = info.usage_at(self.position);
            info.set_usage(
                self.position,
                ConstraintUsage { argv_index: old_usage.argv_index, omit: old_usage.omit, in_wanted: Some(val) },
            );
        }
        available
    }

    /// Whether all values of this IN constraint were asked for at once, if the table said.
    pub fn value_list_wanted(&self, info: &IndexInfo) -> (w: Option<bool>)
        requires
            self.spec_position() < info.spec_in_wanted().len(),
        ensures
            w == info.spec_in_wanted()[self.spec_position() as int],
    {
        info.usage_at(self.position).in_wanted
    }
}

impl IndexInfoOrderBy {
    pub closed spec fn spec_position(&self) -> usize {
        self.position
    }

    pub closed spec fn spec_column(&self) -> i32 {
        self.column
    }

    pub closed spec fn spec_desc(&self) -> bool {
        self.desc
    }

    /// The column to order by.
    pub fn column(&self) -> (c: i32)
        ensures
            c == self.spec_column(),
    {
        self.column
    }

    /// Whether the order is descending.
    pub fn desc(&self) -> (b: bool)
        ensures
            b == self.spec_desc(),
    {
        self.desc
    }
}

/// What a virtual table answers for one constraint.
#[derive(Clone, Copy)]
struct ConstraintUsage {
    argv_index: i32,
    omit: bool,
    in_wanted: Option<bool>,
}

/// What SQLite tells about one constraint beyond its column and operator: the value of its
/// right-hand side where SQLite knows it, its collation, and whether all values of an IN
/// operator can be had at once.
struct ConstraintDetail {
    rhs: Option<ValueRef>,
    collation: String,
    in_available: bool,
}

/// Information about a query plan, passed to `VTab::best_index`: the constraints and ORDER
/// BY terms, and the answer that the table fills in.
pub struct IndexInfo {
    version: i32,
    constraints: Vec<IndexInfoConstraint>,
    usage: Vec<ConstraintUsage>,
    details: Vec<ConstraintDetail>,
    order_by: Vec<IndexInfoOrderBy>,
    distinct: DistinctMode,
    index_num: i32,
    index_str: Option<String>,
    order_by_consumed: bool,
    estimated_cost: u64,
    estimated_rows: i64,
    scan_flags: i32,
    columns_used: u64,
}

impl IndexInfo {
    #[verifier::type_invariant]
    spec fn inv(&self) -> bool {
        &&& self.constraints.len() == self.usage.len()
        &&& self.constraints.len() == self.details.len()
        &&& forall|k: int|
            0 <= k < self.constraints.len() ==> #[trigger] self.constraints@[k].position == k
        &&& forall|k: int| 0 <= k < self.order_by.len() ==> #[trigger] self.order_by@[k].position == k
    }

    /// The SQLite version that the plan was made with.
    pub closed spec fn spec_version(&self) -> i32 {
        self.version
    }

    pub closed spec fn spec_constraints(&self) -> Seq<IndexInfoConstraint> {
        self.constraints@
    }

    pub closed spec fn spec_order_by(&self) -> Seq<IndexInfoOrderBy> {
        self.order_by@
    }

    /// The `argvIndex` values, one for each constraint.
    pub closed spec fn spec_argv(&self) -> Seq<i32> {
        Seq::new(self.usage.len() as nat, |k: int| self.usage@[k].argv_index)
    }

    /// The omit flags, one for each constraint.
    pub closed spec fn spec_omit(&self) -> Seq<bool> {
        Seq::new(self.usage.len() as nat, |k: int| self.usage@[k].omit)
    }

    /// For each constraint, whether all values of an IN operator were asked for at once,
    /// where the table said.
    pub closed spec fn spec_in_wanted(&self) -> Seq<Option<bool>> {
        Seq::new(self.usage.len() as nat, |k: int| self.usage@[k].in_wanted)
    }

    /// For each constraint, the value of its right-hand side where SQLite knows it.
    pub closed spec fn spec_rhs(&self) -> Seq<Option<RawValue>> {
        Seq::new(
            self.details.len() as nat,
            |k: int|
                match self.details@[k].rhs {
                    Some(v) => Some(v.spec_value()),
                    None => None,
                },
        )
    }

    /// For each constraint, the name of its collation.
    pub closed spec fn spec_collation(&self) -> Seq<Seq<char>> {
        Seq::new(self.details.len() as nat, |k: int| self.details@[k].collation@)
    }

    /// For each constraint, whether all values of an IN operator can be had at once.
    pub closed spec fn spec_in_available(&self) -> Seq<bool> {
        Seq::new(self.details.len() as nat, |k: int| self.details@[k].in_available)
    }

    /// What SQLite proposed is the same in the two plans.
    pub open spec fn same_inputs(&self, other: IndexInfo) -> bool {
        &&& self.spec_version() == other.spec_version()
        &&& self.spec_constraints() == other.spec_constraints()
        &&& self.spec_order_by() == other.spec_order_by()
        &&& self.spec_distinct() == other.spec_distinct()
        &&& self.spec_columns_used() == other.spec_columns_used()
        &&& self.spec_rhs() == other.spec_rhs()
        &&& self.spec_collation() == other.spec_collation()
        &&& self.spec_in_available() == other.spec_in_available()
        &&& self.spec_argv().len() == other.spec_argv().len()
    }

    pub closed spec fn spec_distinct(&self) -> DistinctMode {
        self.distinct
    }

    pub closed spec fn spec_index_num(&self) -> i32 {
        self.index_num
    }

    pub closed spec fn spec_index_str(&self) -> Option<Seq<char>> {
        match self.index_str {
            Some(s) => Some(s@),
            None => None,
        }
    }

    pub closed spec fn spec_order_by_consumed(&self) -> bool {
        self.order_by_consumed
    }

    pub closed spec fn spec_estimated_cost(&self) -> u64 {
        self.estimated_cost
    }

    pub closed spec fn spec_estimated_rows(&self) -> i64 {
        self.estimated_rows
    }

    pub closed spec fn spec_scan_flags(&self) -> i32 {
        self.scan_flags
    }

    pub closed spec fn spec_columns_used(&self) -> u64 {
        self.columns_used
    }

    /// The answers for the single constraints are the same in the two plans.
    pub open spec fn same_constraint_answers(&self, other: IndexInfo) -> bool {
        &&& self.spec_argv() == other.spec_argv()
        &&& self.spec_omit() == other.spec_omit()
        &&& self.spec_in_wanted() == other.spec_in_wanted()
    }

    /// Everything but the answers for the constraints is the same in the two plans.
    pub open spec fn same_except_usage(&self, other: IndexInfo) -> bool {
        &&& self.same_inputs(other)
        &&& self.spec_omit().len() == other.spec_omit().len()
        &&& self.spec_in_wanted().len() == other.spec_in_wanted().len()
        &&& self.spec_index_num() == other.spec_index_num()
        &&& self.spec_index_str() == other.spec_index_str()
        &&& self.spec_order_by_consumed() == other.spec_order_by_consumed()
        &&& self.spec_estimated_cost() == other.spec_estimated_cost()
        &&& self.spec_estimated_rows() == other.spec_estimated_rows()
        &&& self.spec_scan_flags() == other.spec_scan_flags()
    }

    /// Build the plan that SQLite proposes: the SQLite version, each constraint as
    /// (column, operator code, usable), each ORDER BY term as (column, descending), the
    /// result of `sqlite3_vtab_distinct` (0 where SQLite does not have it), and the initial
    /// estimates, flags and column mask. The answers start out empty, as SQLite hands
    /// them out: no argument positions, no omit flags, index number 0, no index string,
    /// ORDER BY not consumed.
    pub fn new(
        version: i32,
        constraints: Vec<(i32, u8, bool)>,
        order_by: Vec<(i32, bool)>,
        distinct: i32,
        estimated_cost: u64,
        estimated_rows: i64,
        scan_flags: i32,
        columns_used: u64,
    ) -> (info: IndexInfo)
        requires
            forall|k: int| 0 <= k < constraints.len() ==> is_constraint_op_code(#[trigger] constraints@[k].1),
            0 <= distinct <= 2,
        ensures
            info.spec_version() == version,
            info.spec_constraints().len() == constraints.len(),
            forall|k: int|
                0 <= k < constraints.len() ==> {
                    &&& (#[trigger] info.spec_constraints()[k]).spec_position() == k
                    &&& info.spec_constraints()[k].spec_column() == constraints@[k].0
                    &&& info.spec_constraints()[k].spec_op() == constraint_op_of(constraints@[k].1)
                    &&& info.spec_constraints()[k].spec_usable() == constraints@[k].2
                },
            info.spec_order_by().len() == order_by.len(),
            forall|k: int|
                0 <= k < order_by.len() ==> {
                    &&& (#[trigger] info.spec_order_by()[k]).spec_position() == k
                    &&& info.spec_order_by()[k].spec_column() == order_by@[k].0
                    &&& info.spec_order_by()[k].spec_desc() == order_by@[k].1
                },
            info.spec_argv() == Seq::new(constraints.len() as nat, |k: int| 0i32),
            info.spec_omit() == Seq::new(constraints.len() as nat, |k: int| false),
            info.spec_in_wanted() == Seq::new(constraints.len() as nat, |k: int| None::<bool>),
            info.spec_rhs() == Seq::new(constraints.len() as nat, |k: int| None::<RawValue>),
            info.spec_in_available() == Seq::new(constraints.len() as nat, |k: int| false),
            info.spec_collation() == Seq::new(constraints.len() as nat, |k: int| "BINARY"@),
            info.spec_distinct() == distinct_mode_of(distinct),
            info.spec_index_num() == 0,
            info.spec_index_str() == None::<Seq<char>>,
            !info.spec_order_by_consumed(),
            info.spec_estimated_cost() == estimated_cost,
            info.spec_estimated_rows() == estimated_rows,
            info.spec_scan_flags() == scan_flags,
            info.spec_columns_used() == columns_used,
    {
        let mut cs: Vec<IndexInfoConstraint> = Vec::new();
        let mut us: Vec<ConstraintUsage> = Vec::new();
        let mut ds: Vec<ConstraintDetail> = Vec::new();
        let mut i: usize = 0;
        while i < constraints.len()
            invariant
                i <= constraints.len(),
                cs.len() == i,
                us.len() == i,
                ds.len() == i,
                forall|k: int| 0 <= k < constraints.len() ==> is_constraint_op_code(#[trigger] constraints@[k].1),
                forall|k: int|
                    0 <= k < i ==> {
                        &&& (#[trigger] cs@[k]).position == k
                        &&& cs@[k].column == constraints@[k].0
                        &&& cs@[k].op == constraint_op_of(constraints@[k].1)
                        &&& cs@[k].usable == constraints@[k].2
                    },
                forall|k: int| 0 <= k < i ==> (#[trigger] us@[k]).argv_index == 0 && !us@[k].omit && us@[k].in_wanted is None,
                forall|k: int| 0 <= k < i ==> (#[trigger] ds@[k]).rhs is None && !ds@[k].in_available && ds@[k].collation@ == "BINARY"@,
            decreases constraints.len() - i,
        {
            let (column, code, usable) = constraints[i];
            let op = ConstraintOp::from_sqlite(code);
            cs.push(IndexInfoConstraint { position: i, column, op, usable });
            us.push(ConstraintUsage { argv_index: 0, omit: false, in_wanted: None });
            ds.push(ConstraintDetail { rhs: None, collation: String::from_str("BINARY"), in_available: false });
            i = i + 1;
        }
        let mut os: Vec<IndexInfoOrderBy> = Vec::new();
        let mut j: usize = 0;
        while j < order_by.len()
            invariant
                j <= order_by.len(),
                os.len() == j,
                forall|k: int|
                    0 <= k < j ==> {
                        &&& (#[trigger] os@[k]).position == k
                        &&& os@[k].column == order_by@[k].0
                        &&& os@[k].desc == order_by@[k].1
                    },
            decreases order_by.len() - j,
        {
            let (column, desc) = order_by[j];
            os.push(IndexInfoOrderBy { position: j, column, desc });
            j = j + 1;
        }
        let info = IndexInfo {
            version,
            constraints: cs,
            usage: us,
            details: ds,
            order_by: os,
            distinct: DistinctMode::from_sqlite(distinct),
            index_num: 0,
            index_str: None,
            order_by_consumed: false,
            estimated_cost,
            estimated_rows,
            scan_flags,
            columns_used,
        };
        assert(info.spec_argv() =~= Seq::new(constraints.len() as nat, |k: int| 0i32));
        assert(info.spec_omit() =~= Seq::new(constraints.len() as nat, |k: int| false));
        assert(info.spec_in_wanted() =~= Seq::new(constraints.len() as nat, |k: int| None::<bool>));
        assert(info.spec_rhs() =~= Seq::new(constraints.len() as nat, |k: int| None::<RawValue>));
        assert(info.spec_in_available() =~= Seq::new(constraints.len() as nat, |k: int| false));
        assert(info.spec_collation() =~= Seq::new(constraints.len() as nat, |k: int| "BINARY"@));
        info
    }

    /// Give, for each constraint, what SQLite tells beyond its column and operator: the
    /// value of its right-hand side where known, its collation, and whether all values of
    /// an IN operator can be had at once.
    pub fn set_constraint_details(&mut self, details: Vec<(Option<RawValue>, String, bool)>)
        requires
            details.len() == old(self).spec_constraints().len(),
        ensures
            final(self).spec_version() == old(self).spec_version(),
            final(self).spec_constraints() == old(self).spec_constraints(),
            final(self).spec_order_by() == old(self).spec_order_by(),
            final(self).spec_distinct() == old(self).spec_distinct(),
            final(self).spec_columns_used() == old(self).spec_columns_used(),
            final(self).same_constraint_answers(*old(self)),
            final(self).spec_rhs().len() == details.len(),
            forall|k: int|
                0 <= k < details.len() ==> {
                    &&& #[trigger] final(self).spec_rhs()[k] == details@[k].0
                    &&& final(self).spec_collation()[k] == details@[k].1@
                    &&& final(self).spec_in_available()[k] == details@[k].2
                },
            final(self).spec_index_num() == old(self).spec_index_num(),
            final(self).spec_index_str() == old(self).spec_index_str(),
            final(self).spec_order_by_consumed() == old(self).spec_order_by_consumed(),
            final(self).spec_estimated_cost() == old(self).spec_estimated_cost(),
            final(self).spec_estimated_rows() == old(self).spec_estimated_rows(),
            final(self).spec_scan_flags() == old(self).spec_scan_flags(),
    {
        proof {
            use_type_invariant(&*self);
        }
        let mut ds: Vec<ConstraintDetail> = Vec::new();
        let n = details.len();
        let mut rest = details;
        let ghost all = rest@;
        let mut i: usize = 0;
        while i < n
            invariant
                n == all.len(),
                i <= all.len(),
                ds.len() == i,
                rest@ == all.subrange(i as int, all.len() as int),
                forall|k: int| 0 <= k < i ==> {
                    &&& (match (#[trigger] ds@[k]).rhs {
                        Some(v) => Some(v.spec_value()),
                        None => None,
                    }) == all[k].0
                    &&& ds@[k].collation@ == all[k].1@
                    &&& ds@[k].in_available == all[k].2
                },
            decreases all.len() - i,
        {
            let (rhs, collation, in_available) = rest.remove(0);
            let rhs = match rhs {
                Some(v) => Some(ValueRef::new(v)),
                None => None,
            };
            ds.push(ConstraintDetail { rhs, collation, in_available });
            i = i + 1;
            assert(rest@ =~= all.subrange(i as int, all.len() as int));
        }
        self.details = ds;
    }

    fn usage_at(&self, pos: usize) -> (u: ConstraintUsage)
        requires
            pos < self.spec_argv().len(),
        ensures
            u.argv_index == self.spec_argv()[pos as int],
            u.omit == self.spec_omit()[pos as int],
            u.in_wanted == self.spec_in_wanted()[pos as int],
    {
        self.usage[pos]
    }

    fn set_usage(&mut self, pos: usize, u: ConstraintUsage)
        requires
            pos < old(self).spec_argv().len(),
        ensures
            final(self).spec_argv() == old(self).spec_argv().update(pos as int, u.argv_index),
            final(self).spec_omit() == old(self).spec_omit().update(pos as int, u.omit),
            final(self).spec_in_wanted() == old(self).spec_in_wanted().update(pos as int, u.in_wanted),
            final(self).same_except_usage(*old(self)),
    {
        proof {
            use_type_invariant(&*self);
        }
        let ghost before = *self;
        let ghost target = self.usage@.update(pos as int, u);
        let mut replaced: Vec<ConstraintUsage> = Vec::new();
        let mut i: usize = 0;
        while i < self.usage.len()
            invariant
                i <= self.usage.len(),
                pos < self.usage.len(),
                target == self.usage@.update(pos as int, u),
                replaced@ == target.subrange(0, i as int),
            decreases self.usage.len() - i,
        {
            if i == pos {
                replaced.push(u);
            } else {
                replaced.push(self.usage[i]);
            }
            i = i + 1;
            assert(replaced@ =~= target.subrange(0, i as int));
        }
        assert(replaced@ =~= target);
        self.usage = replaced;
        assert(self.spec_argv() =~= before.spec_argv().update(pos as int, u.argv_index));
        assert(self.spec_omit() =~= before.spec_omit().update(pos as int, u.omit));
        assert(self.spec_in_wanted() =~= before.spec_in_wanted().update(pos as int, u.in_wanted));
    }

    /// The constraints of the query, in SQLite's order.
    pub fn constraints(&self) -> (cs: Vec<IndexInfoConstraint>)
        ensures
            cs@ == self.spec_constraints(),
            forall|k: int| 0 <= k < cs.len() ==> (#[trigger] cs@[k]).spec_position() == k,
            cs.len() == self.spec_argv().len(),
    {
        proof {
            use_type_invariant(self);
        }
        let mut out: Vec<IndexInfoConstraint> = Vec::new();
        let mut i: usize = 0;
        while i < self.constraints.len()
            invariant
                i <= self.constraints.len(),
                out@ == self.constraints@.subrange(0, i as int),
            decreases self.constraints.len() - i,
        {
            out.push(self.constraints[i]);
            i = i + 1;
            assert(out@ =~= self.constraints@.subrange(0, i as int));
        }
        assert(out@ =~= self.constraints@);
        out
    }

    /// The ORDER BY terms of the query, in SQLite's order.
    pub fn order_by(&self) -> (os: Vec<IndexInfoOrderBy>)
        ensures
            os@ == self.spec_order_by(),
            forall|k: int| 0 <= k < os.len() ==> (#[trigger] os@[k]).spec_position() == k,
    {
        proof {
            use_type_invariant(self);
        }
        let mut out: Vec<IndexInfoOrderBy> = Vec::new();
        let mut i: usize = 0;
        while i < self.order_by.len()
            invariant
                i <= self.order_by.len(),
                out@ == self.order_by@.subrange(0, i as int),
            decreases self.order_by.len() - i,
        {
            out.push(self.order_by[i]);
            i = i + 1;
            assert(out@ =~= self.order_by@.subrange(0, i as int));
        }
        assert(out@ =~= self.order_by@);
        out
    }

    /// Whether the query is DISTINCT or GROUP BY; on SQLite before 3.38.0 always
    /// `Ordered`.
    pub fn distinct_mode(&self) -> (m: DistinctMode)
        ensures
            m == (if self.spec_version() >= DISTINCT_VERSION {
                self.spec_distinct()
            } else {
                DistinctMode::Ordered
            }),
    {
        if self.version >= DISTINCT_VERSION {
            self.distinct
        } else {
            DistinctMode::Ordered
        }
    }

    /// The index number set with [set_index_num](Self::set_index_num).
    pub fn index_num(&self) -> (n: i32)
        ensures
            n == self.spec_index_num(),
    {
        self.index_num
    }

    /// Set the index number of this plan, which `VTabCursor::filter` receives.
    pub fn set_index_num(&mut self, val: i32)
        ensures
            final(self).same_inputs(*old(self)),
            final(self).same_constraint_answers(*old(self)),
            final(self).spec_index_num() == val,
            final(self).spec_index_str() == old(self).spec_index_str(),
            final(self).spec_order_by_consumed() == old(self).spec_order_by_consumed(),
            final(self).spec_estimated_cost() == old(self).spec_estimated_cost(),
            final(self).spec_estimated_rows() == old(self).spec_estimated_rows(),
            final(self).spec_scan_flags() == old(self).spec_scan_flags(),
    {
        proof {
            use_type_invariant(&*self);
        }
        self.index_num = val;
    }

    /// The index string set with [set_index_str](Self::set_index_str).
    pub fn index_str(&self) -> (s: Option<&str>)
        ensures
            s is None <==> self.spec_index_str() is None,
            s matches Some(x) ==> self.spec_index_str() == Some(x@),
    {
        match &self.index_str {
            Some(s) => Some(s.as_str()),
            None => None,
        }
    }

    /// Set the index string of this plan, which `VTabCursor::filter` receives. SQLite gets
    /// its own copy of the string when the plan is handed back to it.
    pub fn set_index_str(&mut self, val: Option<&str>) -> (r: Result<()>)
        ensures
            final(self).same_inputs(*old(self)),
            final(self).same_constraint_answers(*old(self)),
            final(self).spec_index_num() == old(self).spec_index_num(),
            r is Ok,
            final(self).spec_index_str() == (match val {
                Some(x) => Some(x@),
                None => None::<Seq<char>>,
            }),
            final(self).spec_order_by_consumed() == old(self).spec_order_by_consumed(),
            final(self).spec_estimated_cost() == old(self).spec_estimated_cost(),
            final(self).spec_estimated_rows() == old(self).spec_estimated_rows(),
            final(self).spec_scan_flags() == old(self).spec_scan_flags(),
    {
        proof {
            use_type_invariant(&*self);
        }
        self.index_str = match val {
            Some(x) => Some(String::from_str(x)),
            None => None,
        };
        Ok(())
    }

    /// Whether the table said it delivers rows in the ORDER BY order.
    pub fn order_by_consumed(&self) -> (b: bool)
        ensures
            b == self.spec_order_by_consumed(),
    {
        self.order_by_consumed
    }

    /// Tell SQLite that the rows come in the order the ORDER BY terms and the
    /// [distinct mode](Self::distinct_mode) ask for, so that SQLite need not sort them.
    pub fn set_order_by_consumed(&mut self, val: bool)
        ensures
            final(self).same_inputs(*old(self)),
            final(self).same_constraint_answers(*old(self)),
            final(self).spec_index_num() == old(self).spec_index_num(),
            final(self).spec_index_str() == old(self).spec_index_str(),
            final(self).spec_order_by_consumed() == val,
            final(self).spec_estimated_cost() == old(self).spec_estimated_cost(),
            final(self).spec_estimated_rows() == old(self).spec_estimated_rows(),
            final(self).spec_scan_flags() == old(self).spec_scan_flags(),
    {
        proof {
            use_type_invariant(&*self);
        }
        self.order_by_consumed = val;
    }

    /// The estimated cost, as the bits of an IEEE-754 double.
    pub fn estimated_cost(&self) -> (c: u64)
        ensures
            c == self.spec_estimated_cost(),
    {
        self.estimated_cost
    }

    /// Set the estimated cost, given as the bits of an IEEE-754 double.
    pub fn set_estimated_cost(&mut self, val: u64)
        ensures
            final(self).same_inputs(*old(self)),
            final(self).same_constraint_answers(*old(self)),
            final(self).spec_index_num() == old(self).spec_index_num(),
            final(self).spec_index_str() == old(self).spec_index_str(),
            final(self).spec_order_by_consumed() == old(self).spec_order_by_consumed(),
            final(self).spec_estimated_cost() == val,
            final(self).spec_estimated_rows() == old(self).spec_estimated_rows(),
            final(self).spec_scan_flags() == old(self).spec_scan_flags(),
    {
        proof {
            use_type_invariant(&*self);
        }
        self.estimated_cost = val;
    }

    /// The estimated number of rows; needs SQLite 3.8.2.
    pub fn estimated_rows(&self) -> (r: Result<i64>)
        ensures
            r == (if self.spec_version() >= ESTIMATED_ROWS_VERSION {
                Ok::<i64, Error>(self.spec_estimated_rows())
            } else {
                Err::<i64, Error>(Error::VersionNotSatisfied(ESTIMATED_ROWS_VERSION))
            }),
    {
        if self.version >= ESTIMATED_ROWS_VERSION {
            Ok(self.estimated_rows)
        } else {
            Err(Error::VersionNotSatisfied(ESTIMATED_ROWS_VERSION))
        }
    }

    /// Set the estimated number of rows; on SQLite before 3.8.2 this does nothing.
    pub fn set_estimated_rows(&mut self, val: i64)
        ensures
            final(self).same_inputs(*old(self)),
            final(self).same_constraint_answers(*old(self)),
            final(self).spec_index_num() == old(self).spec_index_num(),
            final(self).spec_index_str() == old(self).spec_index_str(),
            final(self).spec_order_by_consumed() == old(self).spec_order_by_consumed(),
            final(self).spec_estimated_cost() == old(self).spec_estimated_cost(),
            final(self).spec_estimated_rows() == (if old(self).spec_version()
                >= ESTIMATED_ROWS_VERSION {
                val
            } else {
                old(self).spec_estimated_rows()
            }),
            final(self).spec_scan_flags() == old(self).spec_scan_flags(),
    {
        proof {
            use_type_invariant(&*self);
        }
        if self.version >= ESTIMATED_ROWS_VERSION {
            self.estimated_rows = val;
        }
    }

    /// The scan flags; needs SQLite 3.9.0.
    pub fn scan_flags(&self) -> (r: Result<usize>)
        ensures
            r == (if self.spec_version() >= SCAN_FLAGS_VERSION {
                Ok::<usize, Error>(self.spec_scan_flags() as usize)
            } else {
                Err::<usize, Error>(Error::VersionNotSatisfied(SCAN_FLAGS_VERSION))
            }),
    {
        if self.version >= SCAN_FLAGS_VERSION {
            Ok(#[verifier::truncate] (self.scan_flags as usize))
        } else {
            Err(Error::VersionNotSatisfied(SCAN_FLAGS_VERSION))
        }
    }

    /// Set the scan flags, kept as a C `int`; on SQLite before 3.9.0 this does nothing.
    pub fn set_scan_flags(&mut self, val: usize)
        ensures
            final(self).same_inputs(*old(self)),
            final(self).same_constraint_answers(*old(self)),
            final(self).spec_index_num() == old(self).spec_index_num(),
            final(self).spec_index_str() == old(self).spec_index_str(),
            final(self).spec_order_by_consumed() == old(self).spec_order_by_consumed(),
            final(self).spec_estimated_cost() == old(self).spec_estimated_cost(),
            final(self).spec_estimated_rows() == old(self).spec_estimated_rows(),
            final(self).spec_scan_flags() == (if old(self).spec_version() >= SCAN_FLAGS_VERSION {
                val as i32
            } else {
                old(self).spec_scan_flags()
            }),
    {
        proof {
            use_type_invariant(&*self);
        }
        if self.version >= SCAN_FLAGS_VERSION {
            self.scan_flags = #[verifier::truncate] (val as i32);
        }
    }

    /// The mask of the columns that the query uses; needs SQLite 3.10.0.
    pub fn columns_used(&self) -> (r: Result<u64>)
        ensures
            r == (if self.spec_version() >= COLUMNS_USED_VERSION {
                Ok::<u64, Error>(self.spec_columns_used())
            } else {
                Err::<u64, Error>(Error::VersionNotSatisfied(COLUMNS_USED_VERSION))
            }),
    {
        if self.version >= COLUMNS_USED_VERSION {
            Ok(self.columns_used)
        } else {
            Err(Error::VersionNotSatisfied(COLUMNS_USED_VERSION))
        }
    }
}

} // verus!
