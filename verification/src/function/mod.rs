//! Application-defined functions: their options, the traits that aggregate functions
//! implement, and what a function's return value hands back to SQLite.
use vstd::prelude::*;
use crate::RiskLevel;
use crate::engine;

pub mod context;

pub use context::{raw_eq, Context, FunctionResult, ToContextResult};
use context::error_result;
use crate::types::Error;

verus! {

/// `SQLITE_DETERMINISTIC`: the function always gives the same result for the same inputs.
pub const SQLITE_DETERMINISTIC: i32 = 0x800;

/// `SQLITE_DIRECTONLY`: the function may only be called from top-level SQL.
pub const SQLITE_DIRECTONLY: i32 = 0x80000;

/// `SQLITE_INNOCUOUS`: the function has no side effects and reveals nothing outside the
/// database.
pub const SQLITE_INNOCUOUS: i32 = 0x200000;

/// The SQLite version from which the risk flags exist.
pub const RISK_LEVEL_VERSION: i32 = 3_031_000;

/// Constructor for aggregate functions, from the user data given when the function is
/// registered. Every type with a `Default` has it, ignoring the user data.
pub trait FromUserData<T> {
    /// Construct a new instance based on the provided user data.
    fn from_user_data(data: &T) -> Self where Self: Sized;
}

/// An application-defined aggregate function which cannot be used as a window function.
pub trait LegacyAggregateFunction<UserData>: FromUserData<UserData> {
    /// The output type of the function.
    type Output: ToContextResult;

    /// The value of the aggregate over an empty set of rows: by default, the value of a
    /// fresh instance.
    fn default_value(user_data: &UserData, context: &Context) -> (r: Self::Output) where Self: Sized
        default_ensures
            exists|f: Self| call_ensures(Self::from_user_data, (user_data,), f) && call_ensures(
                Self::value,
                (&f, context),
                r,
            ),
    {
        let f = Self::from_user_data(user_data);
        f.value(context)
    }

    /// Add a new row to the aggregate.
    fn step(&mut self, context: &Context, args: &mut [&mut crate::value::ValueRef]) -> crate::types::Result<()>;

    /// Return the current value of the aggregate function.
    fn value(&self, context: &Context) -> Self::Output;
}

/// An application-defined aggregate window function.
pub trait AggregateFunction<UserData>: FromUserData<UserData> {
    /// The output type of the function.
    type Output: ToContextResult;

    /// The value of the aggregate over an empty set of rows: by default, the value of a
    /// fresh instance.
    fn default_value(user_data: &UserData, context: &Context) -> (r: Self::Output) where Self: Sized
        default_ensures
            exists|f: Self| call_ensures(Self::from_user_data, (user_data,), f) && call_ensures(
                Self::value,
                (&f, context),
                r,
            ),
    {
        let f = Self::from_user_data(user_data);
        f.value(context)
    }

    /// Add a new row to the aggregate.
    fn step(&mut self, context: &Context, args: &mut [&mut crate::value::ValueRef]) -> crate::types::Result<()>;

    /// Return the current value of the aggregate function.
    fn value(&self, context: &Context) -> Self::Output;

    /// Remove the oldest presently aggregated row; the arguments are those that
    /// [step](Self::step) got when the row was added.
    fn inverse(&mut self, context: &Context, args: &mut [&mut crate::value::ValueRef]) -> crate::types::Result<()>;
}

/// Types with a `Default` are built from it, whatever the user data.
impl<U, F: Default> FromUserData<U> for F {
    fn from_user_data(_data: &U) -> (r: F)
        ensures
            call_ensures(F::default, (), r),
    {
        F::default()
    }
}

/// Every aggregate window function is also a legacy aggregate function.
impl<U, T: AggregateFunction<U>> LegacyAggregateFunction<U> for T {
    type Output = T::Output;

    fn default_value(user_data: &U, context: &Context) -> (r: Self::Output)
        ensures
            call_ensures(<T as AggregateFunction<U>>::default_value, (user_data, context), r),
    {
        <T as AggregateFunction<U>>::default_value(user_data, context)
    }

    fn step(&mut self, context: &Context, args: &mut [&mut crate::value::ValueRef]) -> (r: crate::types::Result<()>)
        ensures
            exists|s: &mut T, a: &mut [&mut crate::value::ValueRef]|
                #[trigger] call_ensures(<T as AggregateFunction<U>>::step, (s, context, a), r)
                && *s == *old(self) && *final(s) == *final(self) && a@ == old(args)@
                && final(a)@ == final(args)@,
    {
        let r = <T as AggregateFunction<U>>::step(self, context, args);
        proof {
            assert(exists|s: &mut T, a: &mut [&mut crate::value::ValueRef]|
                #[trigger] call_ensures(<T as AggregateFunction<U>>::step, (s, context, a), r)
                && *s == *old(self) && *final(s) == *final(self) && a@ == old(args)@
                && final(a)@ == final(args)@);
        }
        r
    }

    fn value(&self, context: &Context) -> (r: Self::Output)
        ensures
            call_ensures(<T as AggregateFunction<U>>::value, (self, context), r),
    {
        <T as AggregateFunction<U>>::value(self, context)
    }
}

/// The state of one aggregate in one query: nothing until the first row, then the instance
/// built from the user data, which gathers the rows until the final value is taken.
pub struct AggregateSlot<F> {
    value: Option<F>,
}

impl<F> AggregateSlot<F> {
    /// The instance, if one was built.
    pub closed spec fn spec_value(&self) -> Option<F> {
        self.value
    }

    /// A slot before the first row.
    pub fn new() -> (s: Self)
        ensures
            s.spec_value() is None,
    {
        AggregateSlot { value: None }
    }

    fn take_instance<U>(&mut self, user_data: &U) -> (f: F)
        where F: FromUserData<U>,
        ensures
            old(self).spec_value() matches Some(v) ==> f == v,
            final(self).spec_value() is None,
    {
        match self.value.take() {
            Some(v) => v,
            None => F::from_user_data(user_data),
        }
    }

    /// Add a row: the instance is built from the user data on the first row; an error of
    /// `step` becomes the result of the call.
    pub fn step<U>(&mut self, user_data: &U, ctx: &mut Context, args: &mut [&mut crate::value::ValueRef])
        where F: LegacyAggregateFunction<U>,
        ensures
            final(self).spec_value() is Some,
            final(ctx).spec_result() == old(ctx).spec_result() || (final(ctx).spec_result() matches Some(x)
                && exists|e: Error| #[trigger] error_result(e, x)),
    {
        let mut f = self.take_instance(user_data);
        let r = f.step(&*ctx, args);
        self.value = Some(f);
        if let Err(e) = r {
            let _ = ctx.set_result(e);
        }
    }

    /// Remove the oldest row: the instance is built from the user data if there was none;
    /// an error of `inverse` becomes the result of the call.
    pub fn inverse<U>(&mut self, user_data: &U, ctx: &mut Context, args: &mut [&mut crate::value::ValueRef])
        where F: AggregateFunction<U>,
        ensures
            final(self).spec_value() is Some,
            final(ctx).spec_result() == old(ctx).spec_result() || (final(ctx).spec_result() matches Some(x)
                && exists|e: Error| #[trigger] error_result(e, x)),
    {
        let mut f = self.take_instance(user_data);
        let r = f.inverse(&*ctx, args);
        self.value = Some(f);
        if let Err(e) = r {
            let _ = ctx.set_result(e);
        }
    }

    /// The current value of the aggregate, as the result of the call; the instance stays.
    pub fn current<U>(&mut self, user_data: &U, ctx: &mut Context)
        where F: AggregateFunction<U>,
        ensures
            final(self).spec_value() is Some,
            final(ctx).spec_result() matches Some(x) && exists|out: <F as AggregateFunction<U>>::Output|
                #[trigger] out.describes(x),
    {
        let f = self.take_instance(user_data);
        let out = <F as AggregateFunction<U>>::value(&f, &*ctx);
        self.value = Some(f);
        let _ = ctx.set_result(out);
    }

    /// The final value of the aggregate, as the result of the call: the instance's value,
    /// or the default value where no row came. The instance is dropped.
    pub fn finish<U>(&mut self, user_data: &U, ctx: &mut Context)
        where F: LegacyAggregateFunction<U>,
        ensures
            final(self).spec_value() is None,
            final(ctx).spec_result() matches Some(x) && exists|out: <F as LegacyAggregateFunction<U>>::Output|
                #[trigger] out.describes(x),
    {
        let out = match self.value.take() {
            Some(f) => f.value(&*ctx),
            None => F::default_value(user_data, &*ctx),
        };
        let _ = ctx.set_result(out);
    }
}

/// Call a scalar function and make what it returns the result of the call.
pub fn call_scalar<F, R>(func: &F, ctx: &mut Context, args: &mut [&mut crate::value::ValueRef])
    where F: Fn(&mut Context, &mut [&mut crate::value::ValueRef]) -> R, R: ToContextResult,
    requires
        forall|c: &mut Context, a: &mut [&mut crate::value::ValueRef]| func.requires((c, a)),
    ensures
        final(ctx).spec_result() matches Some(x) && exists|out: R| #[trigger] out.describes(x),
{
    let r = func(ctx, args);
    let _ = ctx.set_result(r);
}

/// The flags word after setting or clearing the deterministic flag.
pub open spec fn deterministic_flags(flags: i32, val: bool) -> i32 {
    if val {
        flags | SQLITE_DETERMINISTIC
    } else {
        flags & !SQLITE_DETERMINISTIC
    }
}

/// The flags word after choosing a risk level: the level's flag set and the other's
/// cleared.
pub open spec fn risk_flags(flags: i32, level: RiskLevel) -> i32 {
    match level {
        RiskLevel::Innocuous => (flags | SQLITE_INNOCUOUS) & !SQLITE_DIRECTONLY,
        RiskLevel::DirectOnly => (flags | SQLITE_DIRECTONLY) & !SQLITE_INNOCUOUS,
    }
}

/// The options with which a function is registered: how many arguments it takes (-1 for
/// any number) and SQLite's function flags.
#[derive(Clone)]
pub struct FunctionOptions {
    n_args: i32,
    flags: i32,
}

impl Default for FunctionOptions {
    /// Any number of arguments, no flags.
    fn default() -> (o: FunctionOptions)
        ensures
            o.spec_n_args() == -1,
            o.spec_flags() == 0,
    {
        FunctionOptions { n_args: -1, flags: 0 }
    }
}

impl FunctionOptions {
    pub closed spec fn spec_n_args(&self) -> i32 {
        self.n_args
    }

    pub closed spec fn spec_flags(&self) -> i32 {
        self.flags
    }

    /// The number of arguments: -1 for any number.
    pub fn n_args(&self) -> (n: i32)
        ensures
            n == self.spec_n_args(),
    {
        self.n_args
    }

    /// SQLite's function flags.
    pub fn flags(&self) -> (f: i32)
        ensures
            f == self.spec_flags(),
    {
        self.flags
    }

    /// Set the number of parameters accepted by this function, -1 for any number. SQLite
    /// allows -1 up to 127.
    pub fn set_n_args(self, n_args: i32) -> (o: Self)
        requires
            -1 <= n_args < 128,
        ensures
            o.spec_n_args() == n_args,
            o.spec_flags() == self.spec_flags(),
    {
        let mut this = self;
        this.n_args = n_args;
        this
    }

    /// Set or clear the deterministic flag, which tells SQLite that the function is pure.
    pub fn set_deterministic(self, val: bool) -> (o: Self)
        ensures
            o.spec_n_args() == self.spec_n_args(),
            o.spec_flags() == deterministic_flags(self.spec_flags(), val),
    {
        let mut this = self;
        if val {
            this.flags = this.flags | SQLITE_DETERMINISTIC;
        } else {
            this.flags = this.flags & !SQLITE_DETERMINISTIC;
        }
        this
    }

    /// Set the risk level on SQLite of the given version: from 3.31.0 the level's flag is
    /// set and the other cleared; on earlier versions nothing changes.
    pub fn set_risk_level_for_version(self, version: i32, level: RiskLevel) -> (o: Self)
        ensures
            o.spec_n_args() == self.spec_n_args(),
            o.spec_flags() == (if version >= RISK_LEVEL_VERSION {
                risk_flags(self.spec_flags(), level)
            } else {
                self.spec_flags()
            }),
    {
        let mut this = self;
        if version >= RISK_LEVEL_VERSION {
            match level {
                RiskLevel::Innocuous => {
                    this.flags = (this.flags | SQLITE_INNOCUOUS) & !SQLITE_DIRECTONLY;
                },
                RiskLevel::DirectOnly => {
                    this.flags = (this.flags | SQLITE_DIRECTONLY) & !SQLITE_INNOCUOUS;
                },
            }
        }
        this
    }

    /// Set the level of risk for this function, on the SQLite in use; before SQLite 3.31.0
    /// this does nothing.
    pub fn set_risk_level(self, level: RiskLevel) -> (o: Self)
        ensures
            o.spec_n_args() == self.spec_n_args(),
            o.spec_flags() == risk_flags(self.spec_flags(), level),
    {
        let version = engine::version_number();
        self.set_risk_level_for_version(version, level)
    }
}

/// The linked SQLite knows both risk levels, so a risk level set on it always takes effect:
/// the level's flag is set, the other level's flag cleared, and no other flag touched.
pub proof fn lemma_risk_level_on_linked_version(flags: i32, level: RiskLevel)
    ensures
        crate::engine::LINKED_VERSION >= RISK_LEVEL_VERSION,
        (risk_flags(flags, level) & SQLITE_DIRECTONLY != 0) == (level == RiskLevel::DirectOnly),
        (risk_flags(flags, level) & SQLITE_INNOCUOUS != 0) == (level == RiskLevel::Innocuous),
        risk_flags(flags, level) & !(SQLITE_INNOCUOUS | SQLITE_DIRECTONLY) == flags & !(
        SQLITE_INNOCUOUS | SQLITE_DIRECTONLY),
{
    lemma_risk_level_last_wins(flags, level, level);
}

/// Setting the deterministic flag touches no other flag, and the last setting is the one
/// that counts.
pub proof fn lemma_deterministic_last_wins(flags: i32, a: bool, b: bool)
    ensures
        deterministic_flags(deterministic_flags(flags, a), b) == deterministic_flags(flags, b),
        deterministic_flags(flags, b) & !SQLITE_DETERMINISTIC == flags & !SQLITE_DETERMINISTIC,
        (deterministic_flags(flags, b) & SQLITE_DETERMINISTIC != 0) == b,
{
    assert(((flags | 0x800i32) | 0x800i32) == (flags | 0x800i32)) by (bit_vector);
    assert(((flags | 0x800i32) & !0x800i32) == (flags & !0x800i32)) by (bit_vector);
    assert(((flags & !0x800i32) | 0x800i32) == (flags | 0x800i32)) by (bit_vector);
    assert(((flags & !0x800i32) & !0x800i32) == (flags & !0x800i32)) by (bit_vector);
    assert(((flags | 0x800i32) & !0x800i32) == (flags & !0x800i32)) by (bit_vector);
    assert(((flags & !0x800i32) & !0x800i32) == (flags & !0x800i32)) by (bit_vector);
    assert(((flags | 0x800i32) & 0x800i32) != 0) by (bit_vector);
    assert(((flags & !0x800i32) & 0x800i32) == 0) by (bit_vector);
}

/// A risk level leaves exactly one of the two risk flags set, touches no other flag, and
/// the last level chosen is the one that counts.
pub proof fn lemma_risk_level_last_wins(flags: i32, a: RiskLevel, b: RiskLevel)
    ensures
        risk_flags(risk_flags(flags, a), b) == risk_flags(flags, b),
        (risk_flags(flags, b) & SQLITE_INNOCUOUS != 0) == (b == RiskLevel::Innocuous),
        (risk_flags(flags, b) & SQLITE_DIRECTONLY != 0) == (b == RiskLevel::DirectOnly),
        risk_flags(flags, b) & !(SQLITE_INNOCUOUS | SQLITE_DIRECTONLY) == flags & !(
        SQLITE_INNOCUOUS | SQLITE_DIRECTONLY),
{
    let i: i32 = 0x200000;
    let d: i32 = 0x80000;
    assert(((((flags | i) & !d) | i) & !d) == ((flags | i) & !d)) by (bit_vector)
        requires i == 0x200000i32, d == 0x80000i32;
    assert(((((flags | d) & !i) | i) & !d) == ((flags | i) & !d)) by (bit_vector)
        requires i == 0x200000i32, d == 0x80000i32;
    assert(((((flags | i) & !d) | d) & !i) == ((flags | d) & !i)) by (bit_vector)
        requires i == 0x200000i32, d == 0x80000i32;
    assert(((((flags | d) & !i) | d) & !i) == ((flags | d) & !i)) by (bit_vector)
        requires i == 0x200000i32, d == 0x80000i32;
    assert((((flags | i) & !d) & i) != 0 && (((flags | i) & !d) & d) == 0) by (bit_vector)
        requires i == 0x200000i32, d == 0x80000i32;
    assert((((flags | d) & !i) & d) != 0 && (((flags | d) & !i) & i) == 0) by (bit_vector)
        requires i == 0x200000i32, d == 0x80000i32;
    assert((((flags | i) & !d) & !(i | d)) == (flags & !(i | d))) by (bit_vector)
        requires i == 0x200000i32, d == 0x80000i32;
    assert((((flags | d) & !i) & !(i | d)) == (flags & !(i | d))) by (bit_vector)
        requires i == 0x200000i32, d == 0x80000i32;
}

/// How a scalar or legacy aggregate function is registered with SQLite.
#[derive(Debug, Eq, PartialEq, Clone, Copy, Structural)]
pub enum FunctionApi {
    /// `sqlite3_create_function_v2`, which frees the function when it is dropped.
    WithDestructor,
    /// `sqlite3_create_function`, on SQLite before 3.7.3, which leaks the function.
    Legacy,
}

/// How an aggregate window function is registered with SQLite.
#[derive(Debug, Eq, PartialEq, Clone, Copy, Structural)]
pub enum AggregateApi {
    /// `sqlite3_create_window_function`, from SQLite 3.25.0.
    Window,
    /// As a legacy aggregate, without window support.
    Plain(FunctionApi),
}

/// The SQLite version from which functions can be given a destructor.
pub const DESTRUCTOR_VERSION: i32 = 3_007_003;

/// The SQLite version from which window functions exist.
pub const WINDOW_VERSION: i32 = 3_025_000;

/// How a scalar or legacy aggregate function is registered on SQLite of the given version.
pub fn function_api(version: i32) -> (api: FunctionApi)
    ensures
        api == (if version >= DESTRUCTOR_VERSION {
            FunctionApi::WithDestructor
        } else {
            FunctionApi::Legacy
        }),
{
    if version >= DESTRUCTOR_VERSION {
        FunctionApi::WithDestructor
    } else {
        FunctionApi::Legacy
    }
}

/// How an aggregate window function is registered on SQLite of the given version: as a
/// window function from 3.25.0, as a legacy aggregate before.
pub fn aggregate_api(version: i32) -> (api: AggregateApi)
    ensures
        api == (if version >= WINDOW_VERSION {
            AggregateApi::Window
        } else {
            AggregateApi::Plain(
                if version >= DESTRUCTOR_VERSION {
                    FunctionApi::WithDestructor
                } else {
                    FunctionApi::Legacy
                },
            )
        }),
{
    if version >= WINDOW_VERSION {
        AggregateApi::Window
    } else {
        AggregateApi::Plain(function_api(version))
    }
}

} // verus!
