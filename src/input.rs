use std::ops::Range;
use vstd::prelude::*;

verus! {

/// What a parser combinator needs of its input: a length, sub-range slicing,
/// forward iteration, a predicate search and a fixed-count boundary.
///
/// Only `slice` is primitive; the prefix, suffix and full shapes are built on
/// it. Indices are relative to the visible items.
pub trait ParseInput: Sized {
    type Item;

    /// The input is well formed.
    spec fn valid(&self) -> bool;

    /// The visible items, in order.
    spec fn items(&self) -> Seq<Self::Item>;

    fn input_len(&self) -> (r: usize)
        requires
            self.valid(),
        ensures
            r == self.items().len(),
    ;

    fn slice(&self, range: Range<usize>) -> (r: Self)
        requires
            self.valid(),
            range.start <= range.end <= self.items().len(),
        ensures
            r.valid(),
            r.items() == self.items().subrange(range.start as int, range.end as int),
    ;

    fn slice_to(&self, end: usize) -> (r: Self)
        requires
            self.valid(),
            end <= self.items().len(),
        ensures
            r.valid(),
            r.items() == self.items().take(end as int),
    {
        let r = self.slice(0..end);
        assert(r.items() =~= self.items().take(end as int));
        r
    }

    fn slice_from(&self, start: usize) -> (r: Self)
        requires
            self.valid(),
            start <= self.items().len(),
        ensures
            r.valid(),
            r.items() == self.items().skip(start as int),
    {
        let len = self.input_len();
        let r = self.slice(start..len);
        assert(r.items() =~= self.items().skip(start as int));
        r
    }

    fn slice_full(&self) -> (r: Self)
        requires
            self.valid(),
        ensures
            r.valid(),
            r.items() == self.items(),
    {
        let len = self.input_len();
        let r = self.slice(0..len);
        assert(r.items() =~= self.items());
        r
    }

    fn iter_indices(&self) -> (r: Vec<(usize, &Self::Item)>)
        requires
            self.valid(),
        ensures
            r@.len() == self.items().len(),
            forall|i: int|
                0 <= i < r@.len() ==> (#[trigger] r@[i]).0 == i && *r@[i].1 == self.items()[i],
    ;

    fn iter_elements(&self) -> (r: Vec<&Self::Item>)
        requires
            self.valid(),
        ensures
            r@.len() == self.items().len(),
            forall|i: int| 0 <= i < r@.len() ==> *(#[trigger] r@[i]) == self.items()[i],
    ;

    fn position<P: Fn(&Self::Item) -> bool>(&self, predicate: P) -> (r: Option<usize>)
        requires
            self.valid(),
            forall|t: &Self::Item| #[trigger] predicate.requires((t,)),
        ensures
            self.items().len() == 0 ==> r is None,
            match r {
                Some(i) => {
                    &&& i < self.items().len()
                    &&& predicate.ensures((&self.items()[i as int],), true)
                    &&& forall|j: int|
                        0 <= j < i ==> predicate.ensures((&self.items()[j],), false)
                },
                None => forall|j: int|
                    0 <= j < self.items().len() ==> predicate.ensures((&self.items()[j],), false),
            },
    ;

    fn slice_index(&self, count: usize) -> (r: Option<usize>)
        requires
            self.valid(),
        ensures
            count <= self.items().len() ==> r == Some(count),
            count > self.items().len() ==> r is None,
    ;
}

} // verus!
