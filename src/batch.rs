use vstd::prelude::*;

verus! {

/// The row indices `0, 1, ..., n - 1` in their natural order.
pub open spec fn all_rows(n: nat) -> Seq<usize> {
    Seq::new(n, |i: int| i as usize)
}

/// True when a requested batch size means "every row": zero, or more rows
/// than the data has.
pub open spec fn uses_all_rows(n_samples: nat, batch_size: nat) -> bool {
    batch_size == 0 || batch_size > n_samples
}

/// The number of rows a batch really holds once the requested size is
/// resolved against the number of samples.
pub open spec fn effective_batch_size(n_samples: nat, batch_size: nat) -> nat {
    if uses_all_rows(n_samples, batch_size) {
        n_samples
    } else {
        batch_size
    }
}

/// The rows of a batch: all of them in natural order when the size means
/// "every row", else the first `batch_size` entries of the given row order.
pub open spec fn batch_rows(n_samples: nat, batch_size: nat, order: Seq<usize>) -> Seq<usize> {
    if uses_all_rows(n_samples, batch_size) {
        all_rows(n_samples)
    } else {
        order.take(batch_size as int)
    }
}

/// A sequence of distinct row indices, each below `n_samples`.
pub open spec fn distinct_rows(rows: Seq<usize>, n_samples: nat) -> bool {
    &&& rows.no_duplicates()
    &&& forall|k: int| 0 <= k < rows.len() ==> (#[trigger] rows[k] as nat) < n_samples
}

/// Relies on `rand::seq::SliceRandom::shuffle` with the thread-local
/// generator: it only swaps entries, so the result holds the same entries.
#[verifier::external_body]
fn shuffle_in_place(v: &mut Vec<usize>)
    ensures
        final(v)@.len() == old(v)@.len(),
        final(v)@.to_multiset() == old(v)@.to_multiset(),
{
    rand::seq::SliceRandom::shuffle(v.as_mut_slice(), &mut rand::thread_rng());
}

/// The row indices `0..n_samples` in natural order.
pub fn row_indices(n_samples: usize) -> (r: Vec<usize>)
    ensures
        r@ == all_rows(n_samples as nat),
{
    let mut r: Vec<usize> = Vec::new();
    let mut i: usize = 0;
    while i < n_samples
        invariant
            i <= n_samples,
            r@ == all_rows(i as nat),
        decreases n_samples - i,
    {
        r.push(i);
        i = i + 1;
        assert(r@ =~= all_rows(i as nat));
    }
    r
}

/// Resolves a batch from a row order supplied by the caller, so that the
/// same order always gives the same batch.
pub fn select_batch(n_samples: usize, batch_size: usize, order: &Vec<usize>) -> (r: Vec<usize>)
    requires
        order@.len() == n_samples,
    ensures
        r@ == batch_rows(n_samples as nat, batch_size as nat, order@),
        r@.len() == effective_batch_size(n_samples as nat, batch_size as nat),
{
    if batch_size == 0 || batch_size > n_samples {
        row_indices(n_samples)
    } else {
        let mut r: Vec<usize> = Vec::new();
        let mut i: usize = 0;
        while i < batch_size
            invariant
                i <= batch_size <= order@.len(),
                r@ == order@.take(i as int),
            decreases batch_size - i,
        {
            r.push(order[i]);
            i = i + 1;
            assert(r@ =~= order@.take(i as int));
        }
        r
    }
}

proof fn lemma_all_rows_distinct(n: nat)
    requires
        n <= usize::MAX,
    ensures
        distinct_rows(all_rows(n), n),
{
    let s = all_rows(n);
    assert forall|a: int, b: int| 0 <= a < s.len() && 0 <= b < s.len() && a != b implies s[a]
        != s[b] by {
        assert(s[a] as int == a && s[b] as int == b);
    }
}

/// A reordering of `0..n` holds each index below `n` exactly once.
proof fn lemma_permutation_distinct(order: Seq<usize>, n: nat)
    requires
        n <= usize::MAX,
        order.to_multiset() == all_rows(n).to_multiset(),
    ensures
        distinct_rows(order, n),
{
    let ident = all_rows(n);
    lemma_all_rows_distinct(n);
    ident.lemma_multiset_has_no_duplicates();
    assert forall|x: usize| order.to_multiset().contains(x) implies order.to_multiset().count(x)
        == 1 by {
        assert(ident.to_multiset().contains(x));
    }
    order.lemma_multiset_has_no_duplicates_conv();
    assert forall|k: int| 0 <= k < order.len() implies (#[trigger] order[k] as nat) < n by {
        order.to_multiset_ensures();
        ident.to_multiset_ensures();
        assert(order.contains(order[k]));
        assert(order.to_multiset().count(order[k]) > 0);
        assert(ident.to_multiset().count(order[k]) > 0);
        assert(ident.contains(order[k]));
        let i = choose|i: int| 0 <= i < ident.len() && ident[i] == order[k];
        assert(ident[i] as int == i);
    }
}

/// Draws `k` distinct rows out of `0..n_samples` uniformly at random,
/// without replacement.
pub fn sample_rows(n_samples: usize, k: usize) -> (r: Vec<usize>)
    requires
        k <= n_samples,
    ensures
        r@.len() == k,
        distinct_rows(r@, n_samples as nat),
{
    if k == 0 {
        return Vec::new();
    }
    let mut order = row_indices(n_samples);
    shuffle_in_place(&mut order);
    proof {
        lemma_permutation_distinct(order@, n_samples as nat);
    }
    let r = select_batch(n_samples, k, &order);
    proof {
        assert forall|a: int, b: int| 0 <= a < b < r@.len() implies r@[a] != r@[b] by {
            assert(r@[a] == order@[a] && r@[b] == order@[b]);
        }
        assert forall|a: int| 0 <= a < r@.len() implies (#[trigger] r@[a] as nat) < n_samples by {
            assert(r@[a] == order@[a]);
        }
    }
    r
}

/// Draws the fixed batch of one training run: every row when the size means
/// "every row", else `batch_size` distinct rows picked at random.
pub fn draw_batch(n_samples: usize, batch_size: usize) -> (r: Vec<usize>)
    ensures
        r@.len() == effective_batch_size(n_samples as nat, batch_size as nat),
        distinct_rows(r@, n_samples as nat),
        uses_all_rows(n_samples as nat, batch_size as nat) ==> r@ == all_rows(n_samples as nat),
{
    if batch_size == 0 || batch_size > n_samples {
        proof {
            lemma_all_rows_distinct(n_samples as nat);
        }
        row_indices(n_samples)
    } else {
        sample_rows(n_samples, batch_size)
    }
}

} // verus!
