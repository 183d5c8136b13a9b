//! The functions that a virtual table overloads, and how an overload is chosen.
use vstd::prelude::*;
use crate::function::Context;
use crate::function::context::error_result;
use crate::types::Result;
use crate::value::ValueRef;
use super::index_info::ConstraintOp;

verus! {

/// The code of an overloaded function: a plain function, or a method that also receives the
/// virtual table.
pub enum Overload<F, M> {
    Function(F),
    Method(M),
}

/// One function overloaded by a virtual table: its name, the number of arguments it takes
/// (-1 for any number), the constraint it stands for in `best_index`, and its code.
pub struct VTabFunction<F, M> {
    n_args: i32,
    name: String,
    constraint: Option<ConstraintOp>,
    func: Overload<F, M>,
}

/// What an overload is known by: its number of arguments, its name and its constraint.
pub struct FunctionKey {
    pub n_args: i32,
    pub name: Seq<char>,
    pub constraint: Option<ConstraintOp>,
}

impl<F, M> VTabFunction<F, M> {
    pub closed spec fn key(&self) -> FunctionKey {
        FunctionKey { n_args: self.n_args, name: self.name@, constraint: self.constraint }
    }

    pub closed spec fn spec_func(&self) -> &Overload<F, M> {
        &self.func
    }

    /// An overload with the given number of arguments, name, constraint and code.
    pub fn new(n_args: i32, name: &str, constraint: Option<ConstraintOp>, func: Overload<F, M>) -> (f: Self)
        ensures
            f.key() == (FunctionKey { n_args, name: name@, constraint }),
            *f.spec_func() == func,
    {
        VTabFunction { n_args, name: String::from_str(name), constraint, func }
    }

    /// The number of arguments, -1 for any number.
    pub fn n_args(&self) -> (n: i32)
        ensures
            n == self.key().n_args,
    {
        self.n_args
    }

    /// The name of the function.
    pub fn name(&self) -> (s: &str)
        ensures
            s@ == self.key().name,
    {
        self.name.as_str()
    }

    /// The constraint that the function stands for in `best_index`, if any.
    pub fn constraint(&self) -> (c: Option<ConstraintOp>)
        ensures
            c == self.key().constraint,
    {
        self.constraint
    }

    /// Call the function with the virtual table, the context of the call and the
    /// arguments. An error that the function returns becomes the result of the call.
    pub fn invoke<T>(&self, vtab: &T, ctx: &mut Context, args: &mut [&mut ValueRef])
        where
            F: Fn(&mut Context, &mut [&mut ValueRef]) -> Result<()>,
            M: Fn(&T, &mut Context, &mut [&mut ValueRef]) -> Result<()>,
        requires
            match self.spec_func() {
                Overload::Function(f) => forall|c: &mut Context, a: &mut [&mut ValueRef]|
                    f.requires((c, a)),
                Overload::Method(m) => forall|c: &mut Context, a: &mut [&mut ValueRef]|
                    m.requires((vtab, c, a)),
            },
        ensures
            match self.spec_func() {
                Overload::Function(f) => exists|c: &mut Context, a: &mut [&mut ValueRef], out: Result<()>|
                    #[trigger] f.ensures((c, a), out) && *c == *old(ctx) && a@ == old(args)@
                    && final(a)@ == final(args)@ && match out {
                        Ok(()) => *final(ctx) == *final(c),
                        Err(e) => final(ctx).spec_result() matches Some(x) && error_result(e, x),
                    },
                Overload::Method(m) => exists|c: &mut Context, a: &mut [&mut ValueRef], out: Result<()>|
                    #[trigger] m.ensures((vtab, c, a), out) && *c == *old(ctx) && a@ == old(args)@
                    && final(a)@ == final(args)@ && match out {
                        Ok(()) => *final(ctx) == *final(c),
                        Err(e) => final(ctx).spec_result() matches Some(x) && error_result(e, x),
                    },
            },
    {
        let r = match &self.func {
            Overload::Function(f) => f(ctx, args),
            Overload::Method(m) => m(vtab, ctx, args),
        };
        if let Err(e) = r {
            let _ = ctx.set_result(e);
        }
    }
}

/// The entry matches the number of arguments and the name.
pub open spec fn key_matches(k: FunctionKey, n_args: i32, name: Seq<char>) -> bool {
    k.n_args == n_args && k.name == name
}

/// Some entry matches.
pub open spec fn has_match(keys: Seq<FunctionKey>, n_args: i32, name: Seq<char>) -> bool {
    exists|k: int| 0 <= k < keys.len() && #[trigger] key_matches(keys[k], n_args, name)
}

/// The entry at `i` is the first that matches.
pub open spec fn is_first_match(keys: Seq<FunctionKey>, i: int, n_args: i32, name: Seq<char>) -> bool {
    &&& 0 <= i < keys.len()
    &&& key_matches(keys[i], n_args, name)
    &&& forall|j: int| 0 <= j < i ==> !#[trigger] key_matches(keys[j], n_args, name)
}

/// The overload chosen for a call with `n_args` arguments: the first with exactly that
/// number, or else the first that takes any number.
pub open spec fn chosen(keys: Seq<FunctionKey>, i: int, n_args: i32, name: Seq<char>) -> bool {
    if has_match(keys, n_args, name) {
        is_first_match(keys, i, n_args, name)
    } else {
        is_first_match(keys, i, -1i32, name)
    }
}

/// A collection of functions overloaded by a virtual table.
pub struct VTabFunctionList<F, M> {
    list: Vec<VTabFunction<F, M>>,
}

impl<F, M> VTabFunctionList<F, M> {
    pub closed spec fn spec_keys(&self) -> Seq<FunctionKey> {
        Seq::new(self.list.len() as nat, |k: int| self.list@[k].key())
    }

    pub closed spec fn spec_funcs(&self) -> Seq<Overload<F, M>> {
        Seq::new(self.list.len() as nat, |k: int| *self.list@[k].spec_func())
    }

    /// An empty list.
    pub fn new() -> (l: Self)
        ensures
            l.spec_keys().len() == 0,
    {
        let l = VTabFunctionList { list: Vec::new() };
        assert(l.spec_keys() =~= Seq::<FunctionKey>::empty());
        l
    }

    fn push_entry(&mut self, n_args: i32, name: &str, constraint: Option<ConstraintOp>, func: Overload<F, M>)
        ensures
            final(self).spec_keys() == old(self).spec_keys().push(
                FunctionKey { n_args, name: name@, constraint },
            ),
            final(self).spec_funcs() == old(self).spec_funcs().push(func),
    {
        let ghost before = *self;
        self.list.push(VTabFunction::new(n_args, name, constraint, func));
        assert(self.spec_keys() =~= before.spec_keys().push(
            FunctionKey { n_args, name: name@, constraint },
        ));
        assert(self.spec_funcs() =~= before.spec_funcs().push(func));
    }

    /// Add a function with the given number of arguments (-1 for any number, up to 127),
    /// name, and constraint, which must be a `Function` operator of 150 or more.
    pub fn add(&mut self, n_args: i32, name: &str, constraint: Option<ConstraintOp>, func: F)
        requires
            -1 <= n_args < 128,
            constraint matches Some(c) ==> c.is_function_constraint(),
        ensures
            final(self).spec_keys() == old(self).spec_keys().push(
                FunctionKey { n_args, name: name@, constraint },
            ),
            final(self).spec_funcs() == old(self).spec_funcs().push(Overload::Function(func)),
    {
        self.push_entry(n_args, name, constraint, Overload::Function(func));
    }

    /// Add a method, which receives the virtual table as its first argument; otherwise as
    /// [add](Self::add).
    pub fn add_method(&mut self, n_args: i32, name: &str, constraint: Option<ConstraintOp>, func: M)
        requires
            -1 <= n_args < 128,
            constraint matches Some(c) ==> c.is_function_constraint(),
        ensures
            final(self).spec_keys() == old(self).spec_keys().push(
                FunctionKey { n_args, name: name@, constraint },
            ),
            final(self).spec_funcs() == old(self).spec_funcs().push(Overload::Method(func)),
    {
        self.push_entry(n_args, name, constraint, Overload::Method(func));
    }

    /// The number of functions in the list.
    pub fn len(&self) -> (n: usize)
        ensures
            n == self.spec_keys().len(),
    {
        self.list.len()
    }

    /// The function at position `i`.
    pub fn get(&self, i: usize) -> (f: &VTabFunction<F, M>)
        requires
            i < self.spec_keys().len(),
        ensures
            f.key() == self.spec_keys()[i as int],
            *f.spec_func() == self.spec_funcs()[i as int],
    {
        &self.list[i]
    }

    fn first_match(&self, n_args: i32, name: &String) -> (r: Option<usize>)
        ensures
            match r {
                Some(i) => is_first_match(self.spec_keys(), i as int, n_args, name@),
                None => !has_match(self.spec_keys(), n_args, name@),
            },
    {
        let mut i: usize = 0;
        while i < self.list.len()
            invariant
                i <= self.list.len(),
                self.spec_keys().len() == self.list.len(),
                forall|j: int| 0 <= j < i ==> !#[trigger] key_matches(self.spec_keys()[j], n_args, name@),
            decreases self.list.len() - i,
        {
            let entry = &self.list[i];
            if entry.n_args == n_args && entry.name == *name {
                assert(key_matches(self.spec_keys()[i as int], n_args, name@));
                return Some(i);
            }
            assert(!key_matches(self.spec_keys()[i as int], n_args, name@));
            i = i + 1;
        }
        None
    }

    /// Find the overload for a call of `name` with `n_args` arguments: the first added with
    /// exactly that number of arguments, or else the first that takes any number.
    pub fn find(&self, n_args: i32, name: &str) -> (r: Option<usize>)
        ensures
            match r {
                Some(i) => chosen(self.spec_keys(), i as int, n_args, name@),
                None => !has_match(self.spec_keys(), n_args, name@) && !has_match(
                    self.spec_keys(),
                    -1i32,
                    name@,
                ),
            },
    {
        let name = String::from_str(name);
        match self.first_match(n_args, &name) {
            Some(i) => Some(i),
            None => self.first_match(-1, &name),
        }
    }
}

/// A function that was added is found afterwards by its name and number of arguments.
pub proof fn lemma_added_is_found(keys: Seq<FunctionKey>, key: FunctionKey)
    ensures
        has_match(keys.push(key), key.n_args, key.name),
{
    assert(key_matches(keys.push(key)[keys.len() as int], key.n_args, key.name));
}

/// The overload chosen for a call always has the name called, and the number of arguments
/// of the call where any overload has it.
pub proof fn lemma_chosen_prefers_exact(keys: Seq<FunctionKey>, i: int, n_args: i32, name: Seq<char>)
    requires
        chosen(keys, i, n_args, name),
    ensures
        keys[i].name == name,
        has_match(keys, n_args, name) ==> keys[i].n_args == n_args,
        !has_match(keys, n_args, name) ==> keys[i].n_args == -1,
{
}

} // verus!
