//! Iteration over mutable references that can fail.
use vstd::prelude::*;

verus! {

/// An iterator that hands out mutable references and may fail. Use it with a `while let`
/// loop over [next](Self::next), or turn it into an iterator of owned values with
/// [map](Self::map).
pub trait FallibleIteratorMut {
    /// The type of item being iterated.
    type Item;
    /// The type of error that can be returned by this iterator.
    type Error;

    /// The next item, `None` at the end, or an error.
    fn next(&mut self) -> Result<Option<&mut Self::Item>, Self::Error>;

    /// Bounds on the number of items left; by default nothing is known.
    fn size_hint(&self) -> (r: (usize, Option<usize>))
        default_ensures
            r == (0usize, None::<usize>),
    {
        (0, None)
    }

    /// An iterator that applies `f` to each item.
    fn map<F, B>(&mut self, f: F) -> (m: FallibleMap<'_, Self, F>)
        where Self: Sized, F: FnMut(&mut Self::Item) -> Result<B, Self::Error>
        ensures
            m.spec_f() == f,
    {
        FallibleMap { it: self, f }
    }
}

/// The iterator that [FallibleIteratorMut::map] makes: each item of the underlying
/// iterator, passed through a function.
pub struct FallibleMap<'a, I, F> {
    it: &'a mut I,
    f: F,
}

impl<'a, I, F> FallibleMap<'a, I, F> {
    /// The function that is applied.
    pub closed spec fn spec_f(&self) -> F {
        self.f
    }

    /// The underlying iterator.
    pub closed spec fn spec_inner(&self) -> I {
        *self.it
    }
}

impl<'a, I: FallibleIteratorMut, F> FallibleMap<'a, I, F> {
    /// The function applied to the next item of the underlying iterator; `None` at its end;
    /// an error of the iterator or of the function.
    pub fn next<B>(&mut self) -> (r: Result<Option<B>, I::Error>)
        where F: FnMut(&mut I::Item) -> Result<B, I::Error>,
        requires
            forall|v: &mut I::Item| old(self).spec_f().requires((v,)),
        ensures
            exists|s: &mut I, out: Result<Option<&mut I::Item>, I::Error>|
                #[trigger] call_ensures(I::next, (s,), out) && *s == old(self).spec_inner() && {
                    match out {
                        Err(e) => r == Err::<Option<B>, I::Error>(e),
                        Ok(None) => r == Ok::<Option<B>, I::Error>(None),
                        Ok(Some(v)) => exists|w: &mut I::Item, fo: Result<B, I::Error>|
                            #[trigger] old(self).spec_f().ensures((w,), fo) && *w == *v && match fo {
                                Ok(b) => r == Ok::<Option<B>, I::Error>(Some(b)),
                                Err(e) => r == Err::<Option<B>, I::Error>(e),
                            },
                    }
                },
    {
        assert(self.f == old(self).spec_f());
        let next = self.it.next();
        assert(self.f == old(self).spec_f());
        match next {
            Ok(Some(v)) => {
                let ghost gv = v;
                let fo = (self.f)(v);
                proof {
                    broadcast use vstd::function::group_function_axioms;
                    assert(exists|w: &mut I::Item| #[trigger] old(self).spec_f().ensures((w,), fo) && *w == *gv);
                }
                match fo {
                    Ok(b) => Ok(Some(b)),
                    Err(e) => Err(e),
                }
            },
            Ok(None) => Ok(None),
            Err(e) => Err(e),
        }
    }

    /// The bounds of the underlying iterator.
    pub fn size_hint(&self) -> (r: (usize, Option<usize>))
        ensures
            call_ensures(I::size_hint, (&self.spec_inner(),), r),
    {
        self.it.size_hint()
    }
}

} // verus!
