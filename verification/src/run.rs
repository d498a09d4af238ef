//! Runs of syntax in source order.
use vstd::prelude::*;

verus! {

/// Elements in source order, kept as a binary tree: two runs are joined
/// without copying either, and a balanced run is walked in shallow recursion.
#[derive(Debug, PartialEq, Eq)]
pub enum Run<T> {
    Empty,
    One(Box<T>),
    Join(Box<Run<T>>, Box<Run<T>>),
}

/// The elements of a run, first to last.
pub open spec fn run_elements<T>(run: Run<T>) -> Seq<T>
    decreases run,
{
    match run {
        Run::Empty => Seq::empty(),
        Run::One(x) => seq![*x],
        Run::Join(a, b) => run_elements(*a) + run_elements(*b),
    }
}

impl<T> View for Run<T> {
    type V = Seq<T>;

    open spec fn view(&self) -> Seq<T> {
        run_elements(*self)
    }
}

/// What is built from the elements of two sequences, one after the other.
pub(crate) proof fn lemma_flat_map_add<A, B>(a: Seq<A>, b: Seq<A>, f: spec_fn(A) -> Seq<B>)
    ensures
        (a + b).flat_map(f) == a.flat_map(f) + b.flat_map(f),
    decreases b.len(),
{
    if b.len() == 0 {
        assert(a + b == a);
        assert(b.map_values(f).len() == 0);
    } else {
        lemma_flat_map_add(a, b.drop_last(), f);
        b.drop_last().lemma_flat_map_push(f, b.last());
        (a + b.drop_last()).lemma_flat_map_push(f, b.last());
        assert(b.drop_last().push(b.last()) == b);
        assert((a + b.drop_last()).push(b.last()) == a + b);
    }
}

impl<T> Run<T> {
    /// The run of one element.
    pub fn one(x: T) -> (r: Self)
        ensures
            r == Run::One(Box::new(x)),
            r@ == seq![x],
    {
        Run::One(Box::new(x))
    }

    /// The elements of `self` followed by those of `other`.
    pub fn join(self, other: Self) -> (r: Self)
        ensures
            r == Run::Join(Box::new(self), Box::new(other)),
            r@ == self@ + other@,
    {
        Run::Join(Box::new(self), Box::new(other))
    }

    /// A balanced run of the elements of a vector.
    pub fn from_vec(items: Vec<T>) -> (r: Self)
        ensures
            r@ == items@,
        decreases items@.len(),
    {
        let mut items = items;
        if items.len() <= 1 {
            match items.pop() {
                Some(x) => Run::one(x),
                None => Run::Empty,
            }
        } else {
            let ghost all = items@;
            let mid: usize = items.len() / 2;
            let tail = items.split_off(mid);
            assert(items@ + tail@ == all);
            Run::join(Run::from_vec(items), Run::from_vec(tail))
        }
    }

    /// The elements as a vector.
    pub fn into_vec(self) -> (r: Vec<T>)
        ensures
            r@ == self@,
    {
        let mut out: Vec<T> = Vec::new();
        self.append_to(&mut out);
        out
    }

    fn append_to(self, out: &mut Vec<T>)
        ensures
            final(out)@ == old(out)@ + self@,
        decreases self,
    {
        match self {
            Run::Empty => {},
            Run::One(x) => out.push(*x),
            Run::Join(a, b) => {
                a.append_to(out);
                b.append_to(out);
            },
        }
    }

    /// Whether the run has no element.
    pub fn is_empty(&self) -> (r: bool)
        ensures
            r == (self@.len() == 0),
        decreases self,
    {
        match self {
            Run::Empty => true,
            Run::One(_) => false,
            Run::Join(a, b) => a.is_empty() && b.is_empty(),
        }
    }
}

} // verus!
