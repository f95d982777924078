//! A toy growable vector with an explicit capacity that doubles when
//! exhausted, supporting borrowing reads, popping, and iteration.

use vstd::prelude::*;

verus! {

/// A growable sequence of `T` with an explicitly tracked capacity.
/// Pushing past the capacity first doubles it (a fresh vector starts
/// over at one slot).
pub struct ToyVec<T> {
    elements: Vec<T>,
    cap: usize,
}

impl<T> View for ToyVec<T> {
    type V = Seq<T>;

    closed spec fn view(&self) -> Seq<T> {
        self.elements@
    }
}

impl<T> ToyVec<T> {
    /// The tracked capacity: how many elements fit before the next growth.
    pub closed spec fn spec_capacity(&self) -> nat {
        self.cap as nat
    }

    /// The length never exceeds the tracked capacity.  Both constructors
    /// establish this and every mutator keeps it, so it holds of every
    /// vector built through this interface.
    pub open spec fn wf(&self) -> bool {
        self@.len() <= self.spec_capacity()
    }

    /// An empty vector with no capacity at all.
    pub fn new() -> (r: Self)
        ensures
            r@ == Seq::<T>::empty(),
            r.spec_capacity() == 0,
            r.wf(),
    {
        Self::with_capacity(0)
    }

    /// An empty vector that can take `capacity` elements before growing.
    pub fn with_capacity(capacity: usize) -> (r: Self)
        ensures
            r@ == Seq::<T>::empty(),
            r.spec_capacity() == capacity,
            r.wf(),
    {
        ToyVec { elements: Vec::new(), cap: capacity }
    }

    /// How many elements the vector holds.
    pub fn len(&self) -> (n: usize)
        ensures
            n == self@.len(),
    {
        self.elements.len()
    }

    /// The tracked capacity; on a well-formed vector, never below the
    /// length.
    pub fn capacity(&self) -> (c: usize)
        ensures
            c == self.spec_capacity(),
            self.wf() ==> self@.len() <= c,
    {
        self.cap
    }

    /// Append `element`, doubling the capacity first when it is used up.
    pub fn push(&mut self, element: T)
        requires
            old(self)@.len() < usize::MAX / 2,
        ensures
            final(self)@ == old(self)@.push(element),
            final(self).spec_capacity() == (if old(self)@.len() == old(self).spec_capacity() {
                if old(self).spec_capacity() == 0 {
                    1nat
                } else {
                    old(self).spec_capacity() * 2
                }
            } else {
                old(self).spec_capacity()
            }),
            old(self).wf() ==> final(self).wf(),
    {
        if self.elements.len() == self.cap {
            self.grow();
        }
        self.elements.push(element);
    }

    /// A borrow of element `index`, `None` past the end.
    pub fn get(&mut self, index: usize) -> (r: Option<&T>)
        ensures
            *final(self) == *old(self),
            match r {
                Some(x) => index < old(self)@.len() && *x == old(self)@[index as int],
                None => index >= old(self)@.len(),
            },
    {
        if index < self.elements.len() {
            Some(&self.elements[index])
        } else {
            None
        }
    }

    /// Element `index`, or `default` where the index is past the end.
    pub fn get_or<'a>(&'a mut self, index: usize, default: &'a T) -> (r: &'a T)
        ensures
            *final(self) == *old(self),
            *r == (if index < old(self)@.len() {
                old(self)@[index as int]
            } else {
                *default
            }),
    {
        match self.get(index) {
            Some(v) => v,
            None => default,
        }
    }

    /// Take the last element out, `None` when the vector is empty.  The
    /// capacity stays as it was.
    pub fn pop(&mut self) -> (r: Option<T>)
        ensures
            final(self).spec_capacity() == old(self).spec_capacity(),
            old(self).wf() ==> final(self).wf(),
            match r {
                Some(x) => {
                    &&& old(self)@.len() > 0
                    &&& x == old(self)@.last()
                    &&& final(self)@ == old(self)@.drop_last()
                },
                None => {
                    &&& old(self)@.len() == 0
                    &&& final(self)@ == old(self)@
                },
            },
    {
        if self.elements.len() == 0 {
            None
        } else {
            self.elements.pop()
        }
    }

    /// Double the capacity; a vector that never had any gets one slot.
    /// The elements are kept as they are.
    pub fn grow(&mut self)
        requires
            old(self).spec_capacity() <= usize::MAX / 2,
        ensures
            final(self)@ == old(self)@,
            final(self).spec_capacity() == (if old(self).spec_capacity() == 0 {
                1nat
            } else {
                old(self).spec_capacity() * 2
            }),
            old(self).wf() ==> final(self).wf(),
    {
        if self.cap == 0 {
            self.cap = 1;
        } else {
            self.cap = self.cap * 2;
        }
    }

    /// A fresh iterator over the elements, from the first.
    pub fn iter<'vec>(&'vec self) -> (it: Iter<'vec, T>)
        ensures
            it.elements() == self@,
            it.limit() == self@.len(),
            it.at() == 0,
    {
        Iter { elements: &self.elements, len: self.elements.len(), pos: 0 }
    }
}

/// A borrowing iterator over a [`ToyVec`]: a cursor over a frozen
/// snapshot of the elements.
pub struct Iter<'vec, T> {
    elements: &'vec Vec<T>,
    len: usize,
    pos: usize,
}

impl<'vec, T> Iter<'vec, T> {
    /// The elements walked over.
    pub closed spec fn elements(&self) -> Seq<T> {
        self.elements@
    }

    /// How many elements the walk covers.
    pub closed spec fn limit(&self) -> int {
        self.len as int
    }

    /// How many elements were already yielded.
    pub closed spec fn at(&self) -> int {
        self.pos as int
    }

    #[verifier::type_invariant]
    spec fn inv(self) -> bool {
        self.pos <= self.len <= self.elements@.len()
    }

    /// A borrow of the next element, `None` forever once the walk is done.
    pub fn next(&mut self) -> (item: Option<&'vec T>)
        ensures
            final(self).elements() == old(self).elements(),
            final(self).limit() == old(self).limit(),
            old(self).at() < old(self).limit() ==> {
                &&& item matches Some(x) && *x == old(self).elements()[old(self).at()]
                &&& final(self).at() == old(self).at() + 1
            },
            old(self).at() >= old(self).limit() ==> {
                &&& item is None
                &&& final(self).at() == old(self).at()
            },
    {
        proof {
            use_type_invariant(&*self);
        }
        if self.pos >= self.len {
            None
        } else {
            let res = Some(&self.elements[self.pos]);
            self.pos = self.pos + 1;
            res
        }
    }
}

} // verus!
