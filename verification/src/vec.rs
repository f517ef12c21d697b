//! A growable, contiguous, indexable array with amortized-constant append.
//!
//! The array tracks how many element slots it has reserved in `capacity`;
//! the occupied elements are the view `self@`. The well-formedness predicate
//! `wf` states the structural invariant: the array never holds more elements
//! than it has capacity for.

use vstd::prelude::*;

verus! {

/// The growth policy: a full array's capacity becomes the larger of 16 and
/// twice the old capacity. Doubling is bounded by the machine word, so the
/// policy stays total; the bound is only reached where the host could not
/// have satisfied the allocation anyway.
pub open spec fn grownCapacity(cap: usize) -> usize {
    if cap < 8 {
        16usize
    } else if cap <= usize::MAX / 2 {
        (2 * (cap as int)) as usize
    } else {
        usize::MAX
    }
}

/// A growable array of `T`: the occupied elements, in push order, are `self@`.
pub struct Vec<T> {
    elements: std::vec::Vec<T>,
    capacity: usize,
}

impl<T> View for Vec<T> {
    type V = Seq<T>;

    closed spec fn view(&self) -> Seq<T> {
        self.elements@
    }
}

impl<T> Vec<T> {
    /// How many element slots the array has reserved.
    pub closed spec fn spec_capacity(&self) -> usize {
        self.capacity
    }

    /// Structural invariant: the occupied count never exceeds the capacity.
    pub open spec fn wf(&self) -> bool {
        self@.len() <= self.spec_capacity()
    }

    /// An empty array holding no reservation at all.
    pub fn new() -> (r: Self)
        ensures
            r@ == Seq::<T>::empty(),
            r.spec_capacity() == 0,
            r.wf(),
    {
        Vec { elements: std::vec::Vec::new(), capacity: 0 }
    }

    /// An empty array pre-sized for `c` elements, so that the first `c`
    /// pushes cause no growth churn.
    pub fn withCapacity(c: usize) -> (r: Self)
        ensures
            r@ == Seq::<T>::empty(),
            r.spec_capacity() == c,
            r.wf(),
    {
        if c == 0 {
            Self::new()
        } else {
            Vec { elements: std::vec::Vec::with_capacity(c), capacity: c }
        }
    }

    /// The number of occupied slots.
    pub fn len(&self) -> (n: usize)
        ensures
            n == self@.len(),
    {
        self.elements.len()
    }

    /// The number of reserved slots.
    pub fn capacity(&self) -> (c: usize)
        ensures
            c == self.spec_capacity(),
    {
        self.capacity
    }

    /// Appends `t` after the last occupied slot, growing the reservation by
    /// the doubling policy when the array is full. Every element already
    /// stored keeps its index.
    pub fn pushBack(&mut self, t: T)
        requires
            old(self).wf(),
        ensures
            final(self)@ == old(self)@.push(t),
            final(self).wf(),
            final(self).spec_capacity() == if old(self)@.len() == old(self).spec_capacity() {
                grownCapacity(old(self).spec_capacity())
            } else {
                old(self).spec_capacity()
            },
    {
        if self.elements.len() == self.capacity {
            self.capacity = if self.capacity < 8 {
                16
            } else if self.capacity <= usize::MAX / 2 {
                self.capacity * 2
            } else {
                usize::MAX
            };
        }
        self.elements.push(t);
        proof {
            vstd::std_specs::vec::axiom_spec_len(&self.elements);
        }
    }

    /// Removes and returns the most recently pushed element, or `None` when
    /// the array is empty; the capacity is untouched either way.
    pub fn pop(&mut self) -> (r: Option<T>)
        ensures
            final(self).spec_capacity() == old(self).spec_capacity(),
            old(self)@.len() == 0 ==> r is None && final(self)@ == old(self)@,
            old(self)@.len() > 0 ==> r == Some(old(self)@.last()) && final(self)@ == old(
                self,
            )@.drop_last(),
    {
        if self.elements.len() == 0 {
            None
        } else {
            self.elements.pop()
        }
    }

    /// Bounds-enforced element access: indexing past the occupied count is
    /// ruled out by the precondition.
    pub fn get(&self, idx: usize) -> (r: &T)
        requires
            idx < self@.len(),
        ensures
            *r == self@[idx as int],
    {
        &self.elements[idx]
    }

    /// Bounds-enforced mutable access to one occupied slot.
    pub fn getMut(&mut self, idx: usize) -> (r: &mut T)
        requires
            idx < old(self)@.len(),
        ensures
            *r == old(self)@[idx as int],
            final(self)@ == old(self)@.update(idx as int, *final(r)),
            final(self).spec_capacity() == old(self).spec_capacity(),
    {
        &mut self.elements[idx]
    }

    /// A view over exactly the occupied range.
    pub fn asArray(&self) -> (r: &[T])
        ensures
            r@ == self@,
    {
        self.elements.as_slice()
    }

    /// A mutable view over exactly the occupied range.
    pub fn asMutArray(&mut self) -> (r: &mut [T])
        ensures
            r@ == old(self)@,
            final(self)@ == final(r)@,
            final(self).spec_capacity() == old(self).spec_capacity(),
    {
        self.elements.as_mut_slice()
    }

    /// The most recently pushed element, if any.
    pub fn last(&self) -> (r: Option<&T>)
        ensures
            self@.len() == 0 ==> r is None,
            self@.len() > 0 ==> r is Some && *r.unwrap() == self@.last(),
    {
        if self.elements.len() == 0 {
            None
        } else {
            Some(&self.elements[self.elements.len() - 1])
        }
    }
}

impl<T: Copy> Vec<T> {
    /// An independent array holding the same elements.
    pub fn clone(&self) -> (r: Self)
        ensures
            r@ == self@,
            r.wf(),
    {
        let mut c = Vec::<T>::new();
        let mut i: usize = 0;
        while i < self.len()
            invariant
                i <= self@.len(),
                c@ == self@.take(i as int),
                c.wf(),
            decreases self@.len() - i,
        {
            let v = self.get(i);
            c.pushBack(*v);
            proof {
                assert(c@ =~= self@.take(i as int + 1));
            }
            i = i + 1;
        }
        proof {
            assert(c@ =~= self@);
        }
        c
    }
}

/// Bulk append of copyable elements, element by element.
pub trait VecAppend<E: Copy>: View<V = Seq<E>> {
    /// Validity of the receiver, as the implementing type defines it.
    spec fn appendOk(&self) -> bool;

    /// Appends every element of `arr`, in order, after the occupied range.
    fn append(&mut self, arr: &[E])
        requires
            old(self).appendOk(),
        ensures
            final(self)@ == old(self)@ + arr@,
            final(self).appendOk(),
    ;
}

impl<T: Copy> VecAppend<T> for Vec<T> {
    open spec fn appendOk(&self) -> bool {
        self.wf()
    }

    fn append(&mut self, arr: &[T]) {
        let mut i: usize = 0;
        while i < arr.len()
            invariant
                i <= arr@.len(),
                self@ == old(self)@ + arr@.take(i as int),
                self.wf(),
            decreases arr@.len() - i,
        {
            self.pushBack(arr[i]);
            proof {
                assert(self@ =~= old(self)@ + arr@.take(i as int + 1));
            }
            i = i + 1;
        }
        proof {
            assert(self@ =~= old(self)@ + arr@);
        }
    }
}

/// The push law over a whole episode: `states` are the successive views of
/// an array that starts empty and receives one push per value of `vals`;
/// after the last push the array holds exactly the pushed values, in push
/// order. With `wf`, the capacity then bounds their number.
pub proof fn lemma_push_episode<T>(states: Seq<Seq<T>>, vals: Seq<T>)
    requires
        states.len() == vals.len() + 1,
        states[0] == Seq::<T>::empty(),
        forall|i: int| 0 <= i < vals.len() ==> states[i + 1] == states[i].push(vals[i]),
    ensures
        states[vals.len() as int] == vals,
    decreases vals.len(),
{
    if vals.len() == 0 {
        assert(states[0] =~= vals);
    } else {
        let n = vals.len() as int;
        lemma_push_episode(states.take(n), vals.drop_last());
        assert(states.take(n)[n - 1] == states[n - 1]);
        assert(states[n - 1] == vals.drop_last());
        assert(states[n] == states[n - 1].push(vals[n - 1]));
        assert(states[n] =~= vals);
    }
}

/// The growth law: a push extends the array by exactly one element, keeps
/// every previously stored element reachable at its original index, places
/// the new element at the end, and leaves the capacity no smaller than the
/// new length.
pub proof fn lemma_push_preserves<T>(pre: Vec<T>, post: Vec<T>, t: T)
    requires
        post@ == pre@.push(t),
        post.wf(),
    ensures
        post@.len() == pre@.len() + 1,
        forall|i: int| 0 <= i < pre@.len() ==> post@[i] == pre@[i],
        post@[pre@.len() as int] == t,
        pre@.len() + 1 <= post.spec_capacity(),
{
}

} // verus!
