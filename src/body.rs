//! The snake's body: an ordered run of cells, head first, tail last.

use std::collections::VecDeque;
use vstd::prelude::*;

use crate::geometry::Vector;

verus! {

pub struct Body {
    segments: VecDeque<Vector>,
}

impl View for Body {
    type V = Seq<Vector>;

    /// The cells from the head (index 0) to the tail (the last index).
    closed spec fn view(&self) -> Seq<Vector> {
        self.segments@
    }
}

impl Body {
    /// A body of the single cell `start`.
    pub fn new(start: Vector) -> (r: Body)
        ensures
            r@ == seq![start],
    {
        let mut segments = VecDeque::new();
        segments.push_back(start);
        Body { segments }
    }

    /// A body made of `cells`, the first of them being the head.
    pub fn from_segments(cells: &Vec<Vector>) -> (r: Body)
        ensures
            r@ == cells@,
    {
        let mut segments = VecDeque::new();
        let mut i: usize = 0;
        while i < cells.len()
            invariant
                i <= cells@.len(),
                segments@ == cells@.subrange(0, i as int),
            decreases cells@.len() - i,
        {
            segments.push_back(cells[i]);
            i = i + 1;
            assert(segments@ =~= cells@.subrange(0, i as int));
        }
        assert(segments@ =~= cells@);
        Body { segments }
    }

    /// The cells from head to tail.
    pub fn segments(&self) -> (r: Vec<Vector>)
        ensures
            r@ == self@,
    {
        let mut out: Vec<Vector> = Vec::new();
        let mut i: usize = 0;
        while i < self.segments.len()
            invariant
                i <= self@.len(),
                self@ == self.segments@,
                out@ == self@.subrange(0, i as int),
            decreases self@.len() - i,
        {
            out.push(self.segments[i]);
            i = i + 1;
            assert(out@ =~= self@.subrange(0, i as int));
        }
        assert(out@ =~= self@);
        out
    }

    /// The front cell, absent for an empty body.
    pub fn head(&self) -> (r: Option<Vector>)
        ensures
            self@.len() == 0 ==> r is None,
            self@.len() > 0 ==> r == Some(self@[0]),
    {
        if self.segments.len() == 0 {
            None
        } else {
            Some(self.segments[0])
        }
    }

    /// The back cell, absent for an empty body.
    pub fn tail(&self) -> (r: Option<Vector>)
        ensures
            self@.len() == 0 ==> r is None,
            self@.len() > 0 ==> r == Some(self@.last()),
    {
        let n = self.segments.len();
        if n == 0 {
            None
        } else {
            Some(self.segments[n - 1])
        }
    }

    /// Whether `p` is one of the body's cells.
    pub fn contains(&self, p: &Vector) -> (r: bool)
        ensures
            r == self@.contains(*p),
    {
        let mut i: usize = 0;
        while i < self.segments.len()
            invariant
                i <= self@.len(),
                self@ == self.segments@,
                forall|j: int| 0 <= j < i ==> self@[j] != *p,
            decreases self@.len() - i,
        {
            if self.segments[i] == *p {
                return true;
            }
            i = i + 1;
        }
        false
    }

    /// Adds `p` as the new head and keeps the tail: the body grows by one.
    pub fn grow_front(&mut self, p: Vector)
        ensures
            final(self)@ == seq![p] + old(self)@,
    {
        self.segments.push_front(p);
    }

    /// Adds `p` as the new head and drops the tail: the body moves one cell
    /// without growing.
    pub fn advance_front(&mut self, p: Vector)
        ensures
            final(self)@ == (seq![p] + old(self)@).drop_last(),
    {
        self.segments.push_front(p);
        let _ = self.segments.pop_back();
    }

    /// The number of cells.
    pub fn length(&self) -> (r: usize)
        ensures
            r == self@.len(),
    {
        self.segments.len()
    }
}

} // verus!

verus! {

/// A cell that is not in a body without repeated cells can be put in front
/// of it, with or without dropping the tail, and still no cell repeats.
pub proof fn lemma_push_front_distinct(s: Seq<Vector>, p: Vector)
    requires
        s.no_duplicates(),
        !s.contains(p),
    ensures
        (seq![p] + s).no_duplicates(),
        (seq![p] + s).drop_last().no_duplicates(),
{
    let t = seq![p] + s;
    assert forall|i: int, j: int| 0 <= i < t.len() && 0 <= j < t.len() && i != j implies t[i]
        != t[j] by {
        if i == 0 {
            assert(t[j] == s[j - 1]);
        } else if j == 0 {
            assert(t[i] == s[i - 1]);
        } else {
            assert(t[i] == s[i - 1] && t[j] == s[j - 1]);
        }
    }
}

} // verus!
