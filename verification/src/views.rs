//! Views of sequences of viewable values.

use vstd::prelude::*;

verus! {

/// The sequence of the views of `s`'s elements.
pub open spec fn of<T: View>(s: Seq<T>) -> Seq<T::V> {
    Seq::new(s.len(), |i: int| s[i]@)
}

/// The view of an optional value.
pub open spec fn opt<T: View>(o: Option<T>) -> Option<T::V> {
    match o {
        Some(t) => Some(t@),
        None => None,
    }
}

/// Viewing commutes with appending an element.
pub broadcast proof fn lemma_views_push<T: View>(s: Seq<T>, t: T)
    ensures
        #[trigger] of(s.push(t)) == of(s).push(t@),
{
    assert(of(s.push(t)) =~= of(s).push(t@));
}

/// Viewing commutes with concatenation.
pub broadcast proof fn lemma_views_add<T: View>(a: Seq<T>, b: Seq<T>)
    ensures
        #[trigger] of(a + b) == of(a) + of(b),
{
    assert(of(a + b) =~= of(a) + of(b));
}

/// The view of an empty sequence is empty.
pub broadcast proof fn lemma_views_empty<T: View>()
    ensures
        #[trigger] of(Seq::<T>::empty()) == Seq::<T::V>::empty(),
{
    assert(of(Seq::<T>::empty()) =~= Seq::<T::V>::empty());
}

pub broadcast group group_views {
    lemma_views_push,
    lemma_views_add,
    lemma_views_empty,
}

} // verus!
