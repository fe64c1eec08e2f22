use crate::cursor::Tokens;
use crate::token::Token;
use vstd::prelude::*;

verus! {

/// Taking the prefix `[0, k)` of a whole-buffer window shows the same tokens
/// as taking that prefix and then a full slice of it: the first `k` tokens of
/// the buffer.
pub proof fn lemma_prefix_then_full(tok: &[Token], k: int)
    requires
        0 <= k <= tok@.len(),
    ensures
        ({
            let prefix = Tokens::over(tok).sliced(0, k);
            &&& prefix.wf()
            &&& prefix.sliced(0, prefix@.len() as int)@ == prefix@
            &&& prefix@ == tok@.take(k)
        }),
{
    assert(tok.len() == tok@.len());
    let prefix = Tokens::over(tok).sliced(0, k);
    assert(prefix@ =~= tok@.take(k));
    assert(prefix.sliced(0, prefix@.len() as int) == prefix);
}

/// When `count` tokens are visible, the boundary `count` splits the window
/// into a prefix of exactly `count` tokens followed by the exact remainder.
pub proof fn lemma_slice_index_splits(c: Tokens, count: int)
    requires
        c.wf(),
        0 <= count <= c@.len(),
    ensures
        c.sliced(0, count).wf(),
        c.sliced(count, c@.len() as int).wf(),
        c.sliced(0, count)@.len() == count,
        c.sliced(0, count)@ == c@.take(count),
        c.sliced(count, c@.len() as int)@ == c@.skip(count),
        c.sliced(0, count)@ + c.sliced(count, c@.len() as int)@ == c@,
{
    let len = c@.len() as int;
    assert(c.sliced(0, count)@ =~= c@.take(count));
    assert(c.sliced(count, len)@ =~= c@.skip(count));
    assert(c@.take(count) + c@.skip(count) =~= c@);
}

/// Two suffix slices in a row are one suffix slice by the sum of their
/// offsets; the window keeps its end throughout.
pub proof fn lemma_slice_from_twice(c: Tokens, n: int, m: int)
    requires
        c.wf(),
        0 <= n <= c@.len(),
        0 <= m <= c@.len() - n,
    ensures
        ({
            let first = c.sliced(n, c@.len() as int);
            &&& first.wf()
            &&& first.sliced(m, first@.len() as int) == c.sliced(n + m, c@.len() as int)
            &&& first.sliced(m, first@.len() as int)@ == c@.skip(n + m)
            &&& first.sliced(m, first@.len() as int).end == c.end
        }),
{
    let len = c@.len() as int;
    let first = c.sliced(n, len);
    assert(first@.len() == len - n);
    assert(c.sliced(n + m, len)@ =~= c@.skip(n + m));
}

} // verus!
