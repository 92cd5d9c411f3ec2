//! [`Series`]: a sequence of values paired, position by position, with a
//! sequence of axis labels.
use vstd::prelude::*;

verus! {

/// The one way a construction can fail.
#[derive(Debug, Clone, Copy, PartialEq, Eq, Structural)]
pub enum SeriesError {
    /// The value sequence and the label sequence differ in length.
    LengthMismatch,
}

/// One-dimensional array with axis labels: `label[i]` is the label of
/// `data[i]`. Labels need not be unique.
#[derive(Debug, Clone)]
pub struct Series<T: Clone, U: PartialEq> {
    pub data: Vec<T>,
    pub label: Vec<U>,
}

/// `b` holds, position by position, clones of the items of `a`.
pub open spec fn clones_of<A: Clone>(a: Seq<A>, b: Seq<A>) -> bool {
    &&& a.len() == b.len()
    &&& forall|i: int| 0 <= i < a.len() ==> cloned(#[trigger] a[i], b[i])
}

/// The default labels of `n` values: their positions `0, 1, ..., n - 1`.
pub open spec fn default_labels(n: nat) -> Seq<usize> {
    Seq::new(n, |i: int| i as usize)
}

/// Clones each item of `v`, in order.
fn clone_all<A: Clone>(v: &[A]) -> (r: Vec<A>)
    ensures
        clones_of(v@, r@),
{
    let mut r: Vec<A> = Vec::new();
    let mut i: usize = 0;
    while i < v.len()
        invariant
            i <= v@.len(),
            r@.len() == i,
            forall|j: int| 0 <= j < i ==> cloned(#[trigger] v@[j], r@[j]),
        decreases v@.len() - i,
    {
        let x = v[i].clone();
        r.push(x);
        i = i + 1;
    }
    r
}

/// The positions `0..n`, in order.
fn positions(n: usize) -> (r: Vec<usize>)
    ensures
        r@ == default_labels(n as nat),
{
    let mut r: Vec<usize> = Vec::new();
    let mut i: usize = 0;
    while i < n
        invariant
            i <= n,
            r@ == default_labels(i as nat),
        decreases n - i,
    {
        r.push(i);
        i = i + 1;
        assert(r@ =~= default_labels(i as nat));
    }
    r
}

impl<T: Clone, U: PartialEq> Series<T, U> {
    /// Each value has exactly one label.
    pub open spec fn wf(&self) -> bool {
        self.data@.len() == self.label@.len()
    }

    /// The transpose of a one-dimensional array: the array itself.
    pub open spec fn transposed(self) -> Self {
        self
    }

    /// A new [`Series`] holding clones of `v`, labelled by position.
    pub fn from(v: &[T]) -> (r: Series<T, usize>)
        ensures
            r.wf(),
            clones_of(v@, r.data@),
            r.label@ == default_labels(v@.len()),
    {
        Series { data: clone_all(v), label: positions(v.len()) }
    }

    /// A new [`Series`] holding clones of `v`, labelled by clones of `l`;
    /// fails when the two differ in length.
    pub fn from_label(v: &[T], l: &[U]) -> (r: Result<Series<T, U>, SeriesError>)
        where
            U: Clone,
        ensures
            r is Ok <==> v@.len() == l@.len(),
            r matches Ok(s) ==> s.wf() && clones_of(v@, s.data@) && clones_of(l@, s.label@),
            r matches Err(e) ==> e == SeriesError::LengthMismatch,
    {
        if v.len() != l.len() {
            return Err(SeriesError::LengthMismatch);
        }
        Ok(Series { data: clone_all(v), label: clone_all(l) })
    }

    /// A new, independent [`Series`] with clones of the data and labels of `s`.
    pub fn from_self(s: &Series<T, U>) -> (r: Series<T, U>)
        where
            U: Clone,
        ensures
            clones_of(s.data@, r.data@),
            clones_of(s.label@, r.label@),
            s.wf() ==> r.wf(),
    {
        Series { data: clone_all(s.data.as_slice()), label: clone_all(s.label.as_slice()) }
    }

    /// A new [`Series`] with clones of the data of `s`, labelled by position.
    pub fn from_data(s: &Series<T, U>) -> (r: Series<T, usize>)
        ensures
            r.wf(),
            clones_of(s.data@, r.data@),
            r.label@ == default_labels(s.data@.len()),
    {
        Series { data: clone_all(s.data.as_slice()), label: positions(s.data.len()) }
    }

    /// A new [`Series`] with clones of the data of `s`, labelled by clones of
    /// `l`; fails when `l` and the data of `s` differ in length.
    pub fn from_data_new_label<L: PartialEq + Clone>(s: &Series<T, U>, l: &[L]) -> (r: Result<
        Series<T, L>,
        SeriesError,
    >)
        ensures
            r is Ok <==> s.data@.len() == l@.len(),
            r matches Ok(n) ==> n.wf() && clones_of(s.data@, n.data@) && clones_of(l@, n.label@),
            r matches Err(e) ==> e == SeriesError::LengthMismatch,
    {
        if s.data.len() != l.len() {
            return Err(SeriesError::LengthMismatch);
        }
        Ok(Series { data: clone_all(s.data.as_slice()), label: clone_all(l) })
    }

    /// The transpose, which is by definition `self`.
    pub fn t(&self) -> (r: &Self)
        ensures
            *r == (*self).transposed(),
    {
        self
    }
}

/// Transposing is the identity, and so transposing twice changes nothing.
pub proof fn lemma_transpose_identity<T: Clone, U: PartialEq>(s: Series<T, U>)
    ensures
        s.transposed() == s,
        s.transposed().transposed() == s.transposed(),
{
}

} // verus!
