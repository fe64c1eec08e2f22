use crate::input::ParseInput;
use crate::token::Token;
use std::ops::Range;
use vstd::prelude::*;

verus! {

/// A window `[start, end)` over a shared, immutable token buffer.
///
/// The offsets are absolute positions in `tok`; every operation takes its
/// indices relative to `start`. Narrowing yields a new window over the same
/// buffer, so nothing is copied and an old window stays valid for
/// backtracking.
#[derive(Clone, Copy, Debug)]
pub struct Tokens<'a> {
    pub tok: &'a [Token],
    pub start: usize,
    pub end: usize,
}

impl<'a> View for Tokens<'a> {
    type V = Seq<Token>;

    /// The tokens visible through the window, in order.
    open spec fn view(&self) -> Seq<Token> {
        self.tok@.subrange(self.start as int, self.end as int)
    }
}

impl<'a> Tokens<'a> {
    /// The bounds lie inside the buffer and do not cross.
    pub open spec fn wf(&self) -> bool {
        self.start <= self.end <= self.tok@.len()
    }

    /// The window over `[from, to)` of this one, in its own coordinates.
    pub open spec fn sliced(&self, from: int, to: int) -> Tokens<'a> {
        Tokens { tok: self.tok, start: (self.start + from) as usize, end: (self.start + to) as usize }
    }

    /// The window over the whole of `tok`.
    pub open spec fn over(tok: &'a [Token]) -> Tokens<'a> {
        Tokens { tok, start: 0, end: tok@.len() as usize }
    }

    /// A window over the whole buffer.
    pub fn new(tok: &'a [Token]) -> (r: Tokens<'a>)
        ensures
            r == Tokens::over(tok),
            r.wf(),
            r@ == tok@,
            r@.len() == tok@.len(),
    {
        let r = Tokens { tok, start: 0, end: tok.len() };
        assert(r@ =~= tok@);
        r
    }

    /// The number of visible tokens.
    pub fn input_len(&self) -> (r: usize)
        requires
            self.wf(),
        ensures
            r == self@.len(),
    {
        self.end - self.start
    }

    /// The visible token at relative index `i`.
    pub fn get(&self, i: usize) -> (r: &'a Token)
        requires
            self.wf(),
            i < self@.len(),
        ensures
            *r == self@[i as int],
    {
        &self.tok[self.start + i]
    }

    /// The window over the relative range `range`.
    pub fn slice(&self, range: Range<usize>) -> (r: Tokens<'a>)
        requires
            self.wf(),
            range.start <= range.end <= self@.len(),
        ensures
            r == self.sliced(range.start as int, range.end as int),
            r.wf(),
            r@ == self@.subrange(range.start as int, range.end as int),
    {
        let r = Tokens { tok: self.tok, start: self.start + range.start, end: self.start + range.end };
        assert(r@ =~= self@.subrange(range.start as int, range.end as int));
        r
    }

    /// The first `end` visible tokens.
    pub fn slice_to(&self, end: usize) -> (r: Tokens<'a>)
        requires
            self.wf(),
            end <= self@.len(),
        ensures
            r == self.sliced(0, end as int),
            r.wf(),
            r@ == self@.take(end as int),
    {
        self.slice(0..end)
    }

    /// The visible tokens from relative index `start` on; the window keeps its
    /// end.
    pub fn slice_from(&self, start: usize) -> (r: Tokens<'a>)
        requires
            self.wf(),
            start <= self@.len(),
        ensures
            r == self.sliced(start as int, self@.len() as int),
            r.wf(),
            r.end == self.end,
            r@ == self@.skip(start as int),
    {
        let len = self.input_len();
        self.slice(start..len)
    }

    /// A fresh window with the same bounds.
    pub fn slice_full(&self) -> (r: Tokens<'a>)
        requires
            self.wf(),
        ensures
            r == self.sliced(0, self@.len() as int),
            r == *self,
            r@ == self@,
    {
        let len = self.input_len();
        self.slice(0..len)
    }

    /// The visible tokens in order, each with its relative index.
    pub fn iter_indices(&self) -> (r: Vec<(usize, &'a Token)>)
        requires
            self.wf(),
        ensures
            r@.len() == self@.len(),
            forall|i: int| 0 <= i < r@.len() ==> (#[trigger] r@[i]).0 == i && *r@[i].1 == self@[i],
    {
        let len = self.input_len();
        let mut r: Vec<(usize, &'a Token)> = Vec::new();
        let mut i: usize = 0;
        while i < len
            invariant
                self.wf(),
                len == self@.len(),
                i <= len,
                r@.len() == i,
                forall|j: int| 0 <= j < i ==> (#[trigger] r@[j]).0 == j && *r@[j].1 == self@[j],
            decreases len - i,
        {
            r.push((i, self.get(i)));
            i = i + 1;
        }
        r
    }

    /// The visible tokens in order.
    pub fn iter_elements(&self) -> (r: Vec<&'a Token>)
        requires
            self.wf(),
        ensures
            r@.len() == self@.len(),
            forall|i: int| 0 <= i < r@.len() ==> *(#[trigger] r@[i]) == self@[i],
    {
        let len = self.input_len();
        let mut r: Vec<&'a Token> = Vec::new();
        let mut i: usize = 0;
        while i < len
            invariant
                self.wf(),
                len == self@.len(),
                i <= len,
                r@.len() == i,
                forall|j: int| 0 <= j < i ==> *(#[trigger] r@[j]) == self@[j],
            decreases len - i,
        {
            r.push(self.get(i));
            i = i + 1;
        }
        r
    }

    /// The relative index of the first visible token on which `predicate`
    /// holds, or `None` where it holds on none.
    pub fn position<P: Fn(&Token) -> bool>(&self, predicate: P) -> (r: Option<usize>)
        requires
            self.wf(),
            forall|t: &Token| #[trigger] predicate.requires((t,)),
        ensures
            self@.len() == 0 ==> r is None,
            match r {
                Some(i) => {
                    &&& i < self@.len()
                    &&& predicate.ensures((&self@[i as int],), true)
                    &&& forall|j: int| 0 <= j < i ==> predicate.ensures((&self@[j],), false)
                },
                None => forall|j: int| 0 <= j < self@.len() ==> predicate.ensures((&self@[j],), false),
            },
    {
        let len = self.input_len();
        let mut i: usize = 0;
        while i < len
            invariant
                self.wf(),
                len == self@.len(),
                i <= len,
                forall|t: &Token| #[trigger] predicate.requires((t,)),
                forall|j: int| 0 <= j < i ==> predicate.ensures((&self@[j],), false),
            decreases len - i,
        {
            if predicate(self.get(i)) {
                return Some(i);
            }
            i = i + 1;
        }
        None
    }

    /// The relative boundary after `count` tokens, or `None` where fewer than
    /// `count` are visible.
    pub fn slice_index(&self, count: usize) -> (r: Option<usize>)
        requires
            self.wf(),
        ensures
            count <= self@.len() ==> r == Some(count),
            count > self@.len() ==> r is None,
    {
        if self.input_len() >= count {
            Some(count)
        } else {
            None
        }
    }
}

impl<'a> ParseInput for Tokens<'a> {
    type Item = Token;

    open spec fn valid(&self) -> bool {
        self.wf()
    }

    open spec fn items(&self) -> Seq<Token> {
        self@
    }

    fn input_len(&self) -> (r: usize) {
        Tokens::input_len(self)
    }

    fn slice(&self, range: Range<usize>) -> (r: Tokens<'a>)
        ensures
            r == self.sliced(range.start as int, range.end as int),
    {
        Tokens::slice(self, range)
    }

    fn iter_indices(&self) -> (r: Vec<(usize, &Token)>) {
        Tokens::iter_indices(self)
    }

    fn iter_elements(&self) -> (r: Vec<&Token>) {
        Tokens::iter_elements(self)
    }

    fn position<P: Fn(&Token) -> bool>(&self, predicate: P) -> (r: Option<usize>) {
        Tokens::position(self, predicate)
    }

    fn slice_index(&self, count: usize) -> (r: Option<usize>) {
        Tokens::slice_index(self, count)
    }
}

} // verus!
