use vstd::prelude::*;

verus! {

/// A closed, totally enumerable domain whose values are numbered densely
/// from `0` to `maximum_index()`.
pub trait Indexable: Sized {
    /// The dense index of a value.
    spec fn spec_to_index(&self) -> u8;

    /// The value that `from_index` yields for an index (total over `u8`).
    spec fn spec_from_index(index: u8) -> Self;

    /// The largest index of the domain: the domain holds `spec_maximum_index() + 1` values.
    spec fn spec_maximum_index() -> u8;

    /// The value of an index.
    fn from_index(index: u8) -> (r: Self)
        ensures
            r == Self::spec_from_index(index),
    ;

    /// The index of a value.
    fn to_index(&self) -> (r: u8)
        ensures
            r == self.spec_to_index(),
    ;

    /// The largest index of the domain.
    fn maximum_index() -> (r: u8)
        ensures
            r == Self::spec_maximum_index(),
    ;

    /// Every value's index lies in `0..=maximum_index`.
    proof fn lemma_index_in_range(v: Self)
        ensures
            v.spec_to_index() <= Self::spec_maximum_index(),
    ;

    /// Converting a value to its index and back gives the value.
    proof fn lemma_from_to_index(v: Self)
        ensures
            Self::spec_from_index(v.spec_to_index()) == v,
    ;

    /// Converting an in-range index to a value and back gives the index.
    proof fn lemma_to_from_index(index: u8)
        requires
            index <= Self::spec_maximum_index(),
        ensures
            Self::spec_from_index(index).spec_to_index() == index,
    ;
}

/// Bijection: converting any value to its index and back gives the value.
pub proof fn lemma_bijection<T: Indexable>(v: T)
    ensures
        T::spec_from_index(v.spec_to_index()) == v,
{
    T::lemma_from_to_index(v);
}

/// Coverage: the indices of the values of a domain are exactly
/// `0..=maximum_index`, and no two values share an index.
pub proof fn lemma_coverage<T: Indexable>()
    ensures
        Set::new(|i: u8| exists|v: T| v.spec_to_index() == i) == Set::new(
            |i: u8| i <= T::spec_maximum_index(),
        ),
        forall|v: T, w: T| #[trigger] v.spec_to_index() == #[trigger] w.spec_to_index() ==> v == w,
{
    assert forall|v: T, w: T| #[trigger] v.spec_to_index() == #[trigger] w.spec_to_index() implies v
        == w by {
        T::lemma_from_to_index(v);
        T::lemma_from_to_index(w);
    }
    let covered = Set::new(|i: u8| exists|v: T| v.spec_to_index() == i);
    let range = Set::new(|i: u8| i <= T::spec_maximum_index());
    assert forall|i: u8| #[trigger] covered.contains(i) <==> range.contains(i) by {
        if i <= T::spec_maximum_index() {
            T::lemma_to_from_index(i);
            assert(T::spec_from_index(i).spec_to_index() == i);
        }
        if exists|v: T| v.spec_to_index() == i {
            let v = choose|v: T| v.spec_to_index() == i;
            T::lemma_index_in_range(v);
        }
    }
    assert(covered =~= range);
}

} // verus!
