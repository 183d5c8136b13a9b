//! All values of an IN constraint at once.
use vstd::prelude::*;
use std::marker::PhantomData;
use crate::codes;
use crate::engine;
use crate::function::context::{copy_raw, raw_eq};
use crate::iterator::FallibleIteratorMut;
use crate::types::{code_error, Error, Result};
use crate::value::ValueRef;

verus! {

/// The SQLite version from which the values of an IN constraint can be had at once.
pub const VALUE_LIST_VERSION: i32 = 3_038_000;

/// The values of an IN constraint, handed to `VTabCursor::filter` all at once when the table
/// asked for them with `IndexInfoConstraint::set_value_list_wanted`. Read them with a
/// `while let` loop over [next](FallibleIteratorMut::next), or with
/// [map](FallibleIteratorMut::map).
pub struct ValueList<'list> {
    items: Vec<ValueRef>,
    pos: usize,
    base: PhantomData<&'list mut ValueRef>,
}

/// The linked SQLite reads IN lists at once: it is 3.38.0 or later.
pub proof fn lemma_linked_version_reads_value_lists()
    ensures
        crate::engine::LINKED_VERSION >= VALUE_LIST_VERSION,
{
}

impl<'list> ValueList<'list> {
    /// The values of the list.
    pub closed spec fn spec_items(&self) -> Seq<ValueRef> {
        self.items@
    }

    /// How many values have been handed out.
    pub closed spec fn spec_pos(&self) -> nat {
        self.pos as nat
    }

    /// The list that the value stands for, on SQLite of the given version: before 3.38.0
    /// there is none; a value that stands for no list fails with `SQLITE_ERROR`, as
    /// `sqlite3_vtab_in_first` does.
    pub fn from_value_ref_for_version(version: i32, base: &'list mut ValueRef) -> (r: Result<Self>)
        ensures
            version < VALUE_LIST_VERSION ==> r == Err::<Self, Error>(
                Error::VersionNotSatisfied(VALUE_LIST_VERSION),
            ),
            version >= VALUE_LIST_VERSION && old(base).spec_list() is None ==> r == Err::<
                Self,
                Error,
            >(code_error(codes::SQLITE_ERROR)),
            version >= VALUE_LIST_VERSION && old(base).spec_list() is Some ==> (r matches Ok(l)
                && l.spec_pos() == 0
                && l.spec_items().len() == old(base).spec_list()->0.len()
                && forall|k: int| 0 <= k < l.spec_items().len() ==> raw_eq(
                    #[trigger] l.spec_items()[k].spec_value(),
                    old(base).spec_list()->0[k],
                )),
            *final(base) == *old(base),
    {
        if version < VALUE_LIST_VERSION {
            return Err(Error::VersionNotSatisfied(VALUE_LIST_VERSION));
        }
        match base.list() {
            None => Err(Error::Sqlite(codes::SQLITE_ERROR, None)),
            Some(list) => {
                let mut items: Vec<ValueRef> = Vec::new();
                let mut i: usize = 0;
                while i < list.len()
                    invariant
                        i <= list.len(),
                        items.len() == i,
                        forall|k: int| 0 <= k < i ==> raw_eq(#[trigger] items@[k].spec_value(), list@[k]),
                    decreases list.len() - i,
                {
                    items.push(ValueRef::new(copy_raw(&list[i])));
                    i = i + 1;
                }
                Ok(ValueList { items, pos: 0, base: PhantomData })
            },
        }
    }

    /// The list that the value stands for, on the SQLite in use; needs SQLite 3.38.0, which
    /// the linked SQLite is.
    pub fn from_value_ref(base: &'list mut ValueRef) -> (r: Result<Self>)
        ensures
            r matches Ok(l) ==> old(base).spec_list() is Some && l.spec_pos() == 0
                && l.spec_items().len() == old(base).spec_list()->0.len(),
            r matches Err(e) ==> e == Error::VersionNotSatisfied(VALUE_LIST_VERSION) || e
                == code_error(codes::SQLITE_ERROR),
            old(base).spec_list() is None ==> r == Err::<Self, Error>(code_error(codes::SQLITE_ERROR)),
            old(base).spec_list() is Some ==> (r matches Ok(l) && l.spec_pos() == 0
                && l.spec_items().len() == old(base).spec_list()->0.len()
                && forall|k: int| 0 <= k < l.spec_items().len() ==> raw_eq(
                    #[trigger] l.spec_items()[k].spec_value(),
                    old(base).spec_list()->0[k],
                )),
            *final(base) == *old(base),
    {
        let version = engine::version_number();
        Self::from_value_ref_for_version(version, base)
    }
}

impl<'list> FallibleIteratorMut for ValueList<'list> {
    type Item = ValueRef;
    type Error = Error;

    /// The next value of the list, or `None` after the last.
    fn next(&mut self) -> (r: Result<Option<&mut ValueRef>>)
        ensures
            old(self).spec_pos() < old(self).spec_items().len() ==> {
                &&& r matches Ok(Some(v))
                &&& *v == old(self).spec_items()[old(self).spec_pos() as int]
                &&& final(self).spec_pos() == old(self).spec_pos() + 1
                &&& final(self).spec_items() == old(self).spec_items().update(
                    old(self).spec_pos() as int,
                    *final(v),
                )
            },
            old(self).spec_pos() >= old(self).spec_items().len() ==> {
                &&& r matches Ok(None)
                &&& *final(self) == *old(self)
            },
    {
        if self.pos < self.items.len() {
            let i = self.pos;
            self.pos = i + 1;
            Ok(Some(&mut self.items[i]))
        } else {
            Ok(None)
        }
    }

    /// The number of values left, exactly.
    fn size_hint(&self) -> (r: (usize, Option<usize>))
        ensures
            self.spec_pos() <= self.spec_items().len() ==> r == (
                (self.spec_items().len() - self.spec_pos()) as usize,
                Some((self.spec_items().len() - self.spec_pos()) as usize),
            ),
    {
        if self.pos <= self.items.len() {
            let n = self.items.len() - self.pos;
            (n, Some(n))
        } else {
            (0, Some(0))
        }
    }
}

} // verus!
