use vstd::prelude::*;

verus! {

/// First index of slice `index` when `len` words are cut for `threads` workers.
pub open spec fn slice_start(len: nat, threads: nat, index: nat) -> nat {
    (len / threads) * index
}

/// End (exclusive) of slice `index`: every slice holds `len / threads` words,
/// and the last one also takes what is left over.
pub open spec fn slice_end(len: nat, threads: nat, index: nat) -> nat {
    if index + 1 == threads {
        len
    } else {
        (len / threads) * (index + 1)
    }
}

/// Whether word `k` lies in slice `index`.
pub open spec fn in_slice(len: nat, threads: nat, index: nat, k: nat) -> bool {
    slice_start(len, threads, index) <= k < slice_end(len, threads, index)
}

/// The slice that holds word `k`.
pub open spec fn slice_of(len: nat, threads: nat, k: nat) -> nat {
    let size = len / threads;
    if size == 0 || k / size >= threads {
        (threads - 1) as nat
    } else {
        k / size
    }
}

/// The words of slices `0 .. count`, one slice after the other.
pub open spec fn slices_concat<T>(words: Seq<T>, threads: nat, count: nat) -> Seq<T>
    decreases count,
{
    if count == 0 {
        Seq::empty()
    } else {
        slices_concat(words, threads, (count - 1) as nat) + words.subrange(
            slice_start(words.len(), threads, (count - 1) as nat) as int,
            slice_end(words.len(), threads, (count - 1) as nat) as int,
        )
    }
}

/// A slice lies within the list, and starts where the one before it ends.
pub proof fn lemma_slice_bounds(len: nat, threads: nat, index: nat)
    requires
        index < threads,
    ensures
        slice_start(len, threads, index) <= slice_end(len, threads, index) <= len,
        slice_start(len, threads, 0) == 0,
        index + 1 < threads ==> slice_end(len, threads, index) == slice_start(
            len,
            threads,
            index + 1,
        ),
        index + 1 == threads ==> slice_end(len, threads, index) == len,
{
    let size = len / threads;
    assert(size * threads <= len) by (nonlinear_arith)
        requires
            size == len / threads,
            threads > 0,
    ;
    assert(size * index <= size * (index + 1) <= size * threads) by (nonlinear_arith)
        requires
            index < threads,
    ;
}

/// Slices come in order: a later slice starts no earlier than an earlier one ends.
pub proof fn lemma_slices_ordered(len: nat, threads: nat, i: nat, j: nat)
    requires
        i < j < threads,
    ensures
        slice_end(len, threads, i) <= slice_start(len, threads, j),
{
    let size = len / threads;
    assert(size * (i + 1) <= size * j) by (nonlinear_arith)
        requires
            i + 1 <= j,
    ;
}

/// The slices partition the word list: every word lies in the slice that
/// `slice_of` names and in no other, so no word is left out and none is
/// taken twice.
pub proof fn lemma_slices_partition(len: nat, threads: nat)
    requires
        threads >= 1,
    ensures
        forall|k: nat|
            k < len ==> slice_of(len, threads, k) < threads && #[trigger] in_slice(
                len,
                threads,
                slice_of(len, threads, k),
                k,
            ),
        forall|i: nat, j: nat, k: nat|
            i < threads && j < threads && #[trigger] in_slice(len, threads, i, k) && #[trigger] in_slice(
                len,
                threads,
                j,
                k,
            ) ==> i == j,
        forall|i: nat, k: nat| i < threads && #[trigger] in_slice(len, threads, i, k) ==> k < len,
{
    let size = len / threads;
    assert forall|k: nat| k < len implies slice_of(len, threads, k) < threads && #[trigger] in_slice(
        len,
        threads,
        slice_of(len, threads, k),
        k,
    ) by {
        let s = slice_of(len, threads, k);
        lemma_slice_bounds(len, threads, s);
        if size == 0 {
            assert(size * s == 0) by (nonlinear_arith)
                requires
                    size == 0,
            ;
        } else if k / size >= threads {
            assert(size * s <= k) by (nonlinear_arith)
                requires
                    k / size >= threads,
                    s == threads - 1,
                    size > 0,
            ;
        } else {
            assert(size * (k / size) <= k < size * (k / size + 1)) by (nonlinear_arith)
                requires
                    size > 0,
            ;
        }
    }
    assert forall|i: nat, j: nat, k: nat|
        i < threads && j < threads && #[trigger] in_slice(len, threads, i, k) && #[trigger] in_slice(
            len,
            threads,
            j,
            k,
        ) implies i == j by {
        if i < j {
            lemma_slices_ordered(len, threads, i, j);
        } else if j < i {
            lemma_slices_ordered(len, threads, j, i);
        }
    }
    assert forall|i: nat, k: nat| i < threads && #[trigger] in_slice(len, threads, i, k) implies k
        < len by {
        lemma_slice_bounds(len, threads, i);
    }
}

/// The first `count` slices, put together, are the words before the start of
/// slice `count`.
pub proof fn lemma_slices_concat_prefix<T>(words: Seq<T>, threads: nat, count: nat)
    requires
        threads >= 1,
        count <= threads,
    ensures
        slices_concat(words, threads, count) =~= words.subrange(
            0,
            if count == threads {
                words.len() as int
            } else {
                slice_start(words.len(), threads, count) as int
            },
        ),
        count < threads ==> slice_start(words.len(), threads, count) <= words.len(),
    decreases count,
{
    let len = words.len();
    if count == 0 {
        lemma_slice_bounds(len, threads, 0);
    } else {
        let prev = (count - 1) as nat;
        lemma_slices_concat_prefix(words, threads, prev);
        lemma_slice_bounds(len, threads, prev);
        if count < threads {
            lemma_slice_bounds(len, threads, count);
        }
    }
}

/// The slices, one after the other, are the word list itself: nothing is
/// left out, nothing comes twice, and the order is kept.
pub proof fn lemma_slices_cover<T>(words: Seq<T>, threads: nat)
    requires
        threads >= 1,
    ensures
        slices_concat(words, threads, threads) =~= words,
{
    lemma_slices_concat_prefix(words, threads, threads);
}

/// The bounds of slice `index`, as indices into a list of `len` words.
pub fn slice_bounds(len: usize, threads: usize, index: usize) -> (bounds: (usize, usize))
    requires
        index < threads,
    ensures
        bounds.0 == slice_start(len as nat, threads as nat, index as nat),
        bounds.1 == slice_end(len as nat, threads as nat, index as nat),
        bounds.0 <= bounds.1 <= len,
{
    let size: usize = len / threads;
    proof {
        lemma_slice_bounds(len as nat, threads as nat, index as nat);
        assert(size * (index + 1) <= size * threads <= len) by (nonlinear_arith)
            requires
                size == len / threads,
                index < threads,
        ;
    }
    let start: usize = size * index;
    let end: usize = if index + 1 == threads {
        len
    } else {
        size * (index + 1)
    };
    (start, end)
}

/// Cuts a list of `len` words for a pool of `threads` workers: one slice for
/// each worker, each given by its first index and the index behind its last.
pub fn slice_plan(len: usize, threads: usize) -> (slices: Vec<(usize, usize)>)
    ensures
        slices@.len() == threads,
        forall|i: int|
            0 <= i < slices@.len() ==> (#[trigger] slices@[i]).0 == slice_start(
                len as nat,
                threads as nat,
                i as nat,
            ) && slices@[i].1 == slice_end(len as nat, threads as nat, i as nat) && slices@[i].0
                <= slices@[i].1 <= len,
{
    let mut slices: Vec<(usize, usize)> = Vec::new();
    let mut index: usize = 0;
    while index < threads
        invariant
            index <= threads,
            slices@.len() == index,
            forall|i: int|
                0 <= i < slices@.len() ==> (#[trigger] slices@[i]).0 == slice_start(
                    len as nat,
                    threads as nat,
                    i as nat,
                ) && slices@[i].1 == slice_end(len as nat, threads as nat, i as nat)
                    && slices@[i].0 <= slices@[i].1 <= len,
        decreases threads - index,
    {
        slices.push(slice_bounds(len, threads, index));
        index = index + 1;
    }
    slices
}

} // verus!
