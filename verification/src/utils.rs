//! One of two iterators behind one type, for a function that hands back an
//! iterator of one kind or another.

use vstd::prelude::*;
use vstd::std_specs::iter::IteratorSpec;

verus! {

/// Either of two iterators over the same items.
pub enum EitherIter<L, R> {
    Left(L),
    Right(R),
}

impl<L, R> EitherIter<L, R> {
    /// `v` on the left.
    pub fn left(v: L) -> (e: Self)
        ensures
            e == EitherIter::<L, R>::Left(v),
    {
        EitherIter::Left(v)
    }

    /// `v` on the right.
    pub fn right(v: R) -> (e: Self)
        ensures
            e == EitherIter::<L, R>::Right(v),
    {
        EitherIter::Right(v)
    }
}

impl<L: Iterator, R: Iterator<Item = L::Item>> EitherIter<L, R> {
    /// The next item of the iterator inside, which stays on its side. Of an
    /// iterator that keeps the iterator laws, this is the first of the
    /// items that remained, and none where none remained.
    pub fn next(&mut self) -> (item: Option<L::Item>)
        ensures
            match (*old(self), *final(self)) {
                (EitherIter::Left(before), EitherIter::Left(after)) => {
                    before.obeys_prophetic_iter_laws() ==> if before.remaining().len() > 0 {
                        after.remaining() == before.remaining().drop_first() && item == Some(
                            before.remaining()[0],
                        )
                    } else {
                        after.remaining() == before.remaining() && item is None
                    }
                },
                (EitherIter::Right(before), EitherIter::Right(after)) => {
                    before.obeys_prophetic_iter_laws() ==> if before.remaining().len() > 0 {
                        after.remaining() == before.remaining().drop_first() && item == Some(
                            before.remaining()[0],
                        )
                    } else {
                        after.remaining() == before.remaining() && item is None
                    }
                },
                _ => false,
            },
    {
        match self {
            EitherIter::Left(it) => it.next(),
            EitherIter::Right(it) => it.next(),
        }
    }
}

/// Puts a value on either side of an `EitherIter`.
pub trait IteratorExt: Sized {
    /// `self` on the left.
    fn left<T>(self) -> (e: EitherIter<Self, T>)
        ensures
            e == EitherIter::<Self, T>::Left(self),
    ;

    /// `self` on the right.
    fn right<T>(self) -> (e: EitherIter<T, Self>)
        ensures
            e == EitherIter::<T, Self>::Right(self),
    ;
}

impl<I> IteratorExt for I {
    fn left<T>(self) -> (e: EitherIter<Self, T>) {
        EitherIter::Left(self)
    }

    fn right<T>(self) -> (e: EitherIter<T, Self>) {
        EitherIter::Right(self)
    }
}

} // verus!
