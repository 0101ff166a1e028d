//! The token batcher.
//!
//! A proof script arrives as one ordered sequence of token codes. The batcher
//! splits it into a caller-chosen number of ordered batches sized to fit the
//! guest program's per-session capacity; concatenating the batches in order
//! reproduces the original sequence exactly. A run that restores a checkpoint
//! is constrained to exactly two batches: the already-consumed prefix and the
//! remaining suffix.

use vstd::prelude::*;

use crate::errors::RunError;

verus! {

/// The concatenation, in order, of a sequence of batches.
pub open spec fn concat_batches(bs: Seq<Seq<u16>>) -> Seq<u16>
    decreases bs.len(),
{
    if bs.len() == 0 {
        Seq::empty()
    } else {
        concat_batches(bs.drop_last()) + bs.last()
    }
}

/// The views of a vector of batches.
pub open spec fn views_of(bs: Seq<Vec<u16>>) -> Seq<Seq<u16>> {
    bs.map_values(|b: Vec<u16>| b@)
}

/// The length of batch `i` when `len` tokens are split into `n` batches: the
/// first `len % n` batches take one token more than the others.
pub open spec fn batch_size_spec(len: int, n: int, i: int) -> int {
    len / n + if i < len % n { 1int } else { 0int }
}

/// The offset of the first token of batch `i` when `len` tokens are split
/// into `n` batches.
pub open spec fn batch_start_spec(len: int, n: int, i: int) -> int {
    i * (len / n) + if i <= len % n { i } else { len % n }
}

proof fn lemma_concat_push(bs: Seq<Seq<u16>>, b: Seq<u16>)
    ensures
        concat_batches(bs.push(b)) == concat_batches(bs) + b,
{
    assert(bs.push(b).drop_last() =~= bs);
    assert(bs.push(b).last() == b);
}

proof fn lemma_batch_start_step(len: int, n: int, i: int)
    requires
        0 < n,
        0 <= len,
        0 <= i < n,
    ensures
        batch_start_spec(len, n, i) + batch_size_spec(len, n, i) == batch_start_spec(len, n, i + 1),
{
    assert((i + 1) * (len / n) == i * (len / n) + len / n) by (nonlinear_arith);
}

proof fn lemma_batch_start_end(len: int, n: int)
    requires
        0 < n,
        0 <= len,
    ensures
        batch_start_spec(len, n, n) == len,
{
    assert(n * (len / n) + len % n == len) by (nonlinear_arith)
        requires
            0 < n,
            0 <= len,
    ;
    assert(len % n < n) by (nonlinear_arith)
        requires
            0 < n,
            0 <= len,
    ;
}

proof fn lemma_batch_start_bounds(len: int, n: int, i: int)
    requires
        0 < n,
        0 <= len,
        0 <= i <= n,
    ensures
        0 <= batch_start_spec(len, n, i) <= len,
    decreases n - i,
{
    if i == n {
        lemma_batch_start_end(len, n);
    } else {
        lemma_batch_start_bounds(len, n, i + 1);
        lemma_batch_start_step(len, n, i);
        assert(0 <= len / n && 0 <= len % n) by (nonlinear_arith)
            requires
                0 < n,
                0 <= len,
        ;
        assert(0 <= i * (len / n)) by (nonlinear_arith)
            requires
                0 < n,
                0 <= len,
                0 <= i,
        ;
    }
}

/// Splits `tokens` into exactly `n` ordered batches.
///
/// The batch lengths are fixed by [`batch_size_spec`] and the concatenation
/// of the batches, in order, is `tokens` itself; together these determine
/// every batch exactly.
pub fn split_into_batches(tokens: &Vec<u16>, n: usize) -> (r: Vec<Vec<u16>>)
    requires
        1 <= n,
    ensures
        r@.len() == n,
        concat_batches(views_of(r@)) == tokens@,
        forall|i: int|
            0 <= i < n ==> (#[trigger] r@[i])@.len()
                == batch_size_spec(tokens@.len() as int, n as int, i),
{
    let len: usize = tokens.len();
    let base: usize = len / n;
    let rem: usize = len % n;
    let mut out: Vec<Vec<u16>> = Vec::new();
    let mut used: usize = 0;
    proof {
        assert(views_of(out@) =~= Seq::<Seq<u16>>::empty());
        assert(tokens@.subrange(0, 0) =~= Seq::<u16>::empty());
    }
    for k in 0..n
        invariant
            1 <= n,
            len == tokens@.len(),
            base == len as int / n as int,
            rem == len as int % n as int,
            out@.len() == k,
            used == batch_start_spec(len as int, n as int, k as int),
            used <= len,
            concat_batches(views_of(out@)) == tokens@.subrange(0, used as int),
            forall|i: int|
                0 <= i < k ==> (#[trigger] out@[i])@.len()
                    == batch_size_spec(len as int, n as int, i),
    {
        let extra: usize = if k < rem { 1 } else { 0 };
        proof {
            lemma_batch_start_step(len as int, n as int, k as int);
            lemma_batch_start_bounds(len as int, n as int, k as int + 1);
        }
        let size: usize = base + extra;
        let mut b: Vec<u16> = Vec::new();
        proof {
            assert(b@ =~= tokens@.subrange(used as int, used as int));
        }
        for j in 0..size
            invariant
                used + size <= len,
                len == tokens@.len(),
                b@ == tokens@.subrange(used as int, used as int + j as int),
        {
            b.push(tokens[used + j]);
            proof {
                assert(b@ =~= tokens@.subrange(used as int, used as int + j as int + 1));
            }
        }
        proof {
            lemma_concat_push(views_of(out@), b@);
            assert(views_of(out@.push(b)) =~= views_of(out@).push(b@));
            assert(tokens@.subrange(0, used as int) + tokens@.subrange(
                used as int,
                used as int + size as int,
            ) =~= tokens@.subrange(0, used as int + size as int));
        }
        out.push(b);
        used = used + size;
    }
    proof {
        lemma_batch_start_end(len as int, n as int);
        assert(tokens@.subrange(0, len as int) =~= tokens@);
    }
    out
}

/// Splits `tokens` at a checkpoint's recorded progress into the consumed
/// prefix and the suffix still to execute; rejects progress that lies beyond
/// the end of the stream.
pub fn split_for_resume(tokens: &Vec<u16>, consumed: usize) -> (r: Result<
    (Vec<u16>, Vec<u16>),
    RunError,
>)
    ensures
        r is Ok <==> consumed <= tokens@.len(),
        r matches Ok(p) ==> p.0@ == tokens@.subrange(0, consumed as int) && p.1@
            == tokens@.subrange(consumed as int, tokens@.len() as int),
        r is Err ==> r == Err::<(Vec<u16>, Vec<u16>), RunError>(RunError::InvalidSplit),
{
    let len: usize = tokens.len();
    if consumed > len {
        return Err(RunError::InvalidSplit);
    }
    let mut prefix: Vec<u16> = Vec::new();
    proof {
        assert(prefix@ =~= tokens@.subrange(0, 0));
    }
    for j in 0..consumed
        invariant
            consumed <= len,
            len == tokens@.len(),
            prefix@ == tokens@.subrange(0, j as int),
    {
        prefix.push(tokens[j]);
        proof {
            assert(prefix@ =~= tokens@.subrange(0, j as int + 1));
        }
    }
    let mut suffix: Vec<u16> = Vec::new();
    proof {
        assert(suffix@ =~= tokens@.subrange(consumed as int, consumed as int));
    }
    for j in consumed..len
        invariant
            consumed <= len,
            len == tokens@.len(),
            suffix@ == tokens@.subrange(consumed as int, j as int),
    {
        suffix.push(tokens[j]);
        proof {
            assert(suffix@ =~= tokens@.subrange(consumed as int, j as int + 1));
        }
    }
    Ok((prefix, suffix))
}

/// Checks a requested batching against a prior checkpoint's recorded
/// progress: a restoring run must use exactly two batches, the consumed
/// prefix and the remaining suffix.
pub fn check_restore_split(restoring: bool, batches: usize) -> (r: Result<(), RunError>)
    ensures
        r is Ok <==> (!restoring || batches == 2),
        r is Err ==> r == Err::<(), RunError>(RunError::InvalidSplit),
{
    if restoring && batches != 2 {
        Err(RunError::InvalidSplit)
    } else {
        Ok(())
    }
}

/// Split invariance: however the token stream of a fixed proof script is cut
/// into batches, the concatenation of the batches is the script's stream
/// itself, so the deterministic guest program consumes the same tokens and
/// reaches the same verdict whatever the batch count.
pub proof fn lemma_split_invariance(t: Seq<u16>, b1: Seq<Seq<u16>>, b2: Seq<Seq<u16>>)
    requires
        concat_batches(b1) == t,
        concat_batches(b2) == t,
    ensures
        concat_batches(b1) == concat_batches(b2),
{
}

} // verus!
