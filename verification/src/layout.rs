//! Row-major layout of dense matrices and the scans that report the first
//! offending entry of a vector.
//!
//! Cost matrices, Gibbs kernels and transport plans are stored flat in
//! row-major order: entry `(i, j)` of an `n_rows x n_cols` matrix sits at
//! `i * n_cols + j`.

use vstd::prelude::*;

verus! {

/// Position of entry `(i, j)` in a flat row-major matrix with `n_cols`
/// columns.
pub open spec fn flat_index(i: int, j: int, n_cols: int) -> int {
    i * n_cols + j
}

proof fn lemma_flat_index_bounds(i: int, j: int, n_rows: int, n_cols: int)
    requires
        0 <= i < n_rows,
        0 <= j < n_cols,
    ensures
        0 <= i * n_cols + j < n_rows * n_cols,
        i * n_cols <= i * n_cols + j,
{
    assert(0 <= i * n_cols) by (nonlinear_arith)
        requires
            0 <= i,
            0 <= j < n_cols,
    ;
    assert(i * n_cols + n_cols <= n_rows * n_cols) by (nonlinear_arith)
        requires
            0 <= i < n_rows,
            0 <= j < n_cols,
    ;
}

proof fn lemma_row_before(p: int, q: int, i: int, n_cols: int)
    requires
        0 <= p < i,
        0 <= q < n_cols,
    ensures
        0 <= p * n_cols + q < i * n_cols,
{
    assert(0 <= p * n_cols + q < i * n_cols) by (nonlinear_arith)
        requires
            0 <= p < i,
            0 <= q < n_cols,
    ;
}

/// Distinct entries of an `n_rows x n_cols` matrix sit at distinct
/// positions, all inside the flat storage, and consecutive columns of a row
/// sit next to each other.
pub proof fn lemma_flat_index_layout(i: int, j: int, p: int, q: int, n_rows: int, n_cols: int)
    requires
        0 <= i < n_rows,
        0 <= j < n_cols,
        0 <= p < n_rows,
        0 <= q < n_cols,
    ensures
        0 <= flat_index(i, j, n_cols) < n_rows * n_cols,
        flat_index(i, j, n_cols) == flat_index(p, q, n_cols) ==> i == p && j == q,
        j + 1 < n_cols ==> flat_index(i, j + 1, n_cols) == flat_index(i, j, n_cols) + 1,
{
    lemma_flat_index_bounds(i, j, n_rows, n_cols);
    if i < p {
        lemma_row_before(i, j, p, n_cols);
        assert(p * n_cols <= p * n_cols + q);
    } else if p < i {
        lemma_row_before(p, q, i, n_cols);
        assert(i * n_cols <= i * n_cols + j);
    }
}

/// Builds the flat row-major `n_rows x n_cols` matrix whose entry `(i, j)` is
/// what `entry` returns for `(i, j)`; entries are computed row by row.
pub fn row_major_from_fn<U, F: Fn(usize, usize) -> U>(n_rows: usize, n_cols: usize, entry: F) -> (m:
    Vec<U>)
    requires
        n_rows * n_cols <= usize::MAX,
        forall|i: usize, j: usize| i < n_rows && j < n_cols ==> #[trigger] entry.requires((i, j)),
    ensures
        m@.len() == n_rows * n_cols,
        forall|i: int, j: int|
            0 <= i < n_rows && 0 <= j < n_cols ==> entry.ensures(
                (i as usize, j as usize),
                #[trigger] m@[flat_index(i, j, n_cols as int)],
            ),
        forall|i: int, j: int|
            0 <= i < n_rows && 0 <= j < n_cols ==> entry.ensures(
                (i as usize, j as usize),
                #[trigger] m@[i * (n_cols as int) + j],
            ),
{
    let mut m: Vec<U> = Vec::new();
    let mut i: usize = 0;
    while i < n_rows
        invariant
            i <= n_rows,
            n_rows * n_cols <= usize::MAX,
            m@.len() == i * n_cols,
            forall|i: usize, j: usize| i < n_rows && j < n_cols ==> #[trigger] entry.requires((i, j)),
            forall|p: int, q: int|
                0 <= p < i && 0 <= q < n_cols ==> entry.ensures(
                    (p as usize, q as usize),
                    #[trigger] m@[flat_index(p, q, n_cols as int)],
                ),
        decreases n_rows - i,
    {
        let mut j: usize = 0;
        while j < n_cols
            invariant
                i < n_rows,
                j <= n_cols,
                n_rows * n_cols <= usize::MAX,
                m@.len() == i * n_cols + j,
                forall|i: usize, j: usize|
                    i < n_rows && j < n_cols ==> #[trigger] entry.requires((i, j)),
                forall|p: int, q: int|
                    (0 <= p < i && 0 <= q < n_cols) || (p == i && 0 <= q < j) ==> entry.ensures(
                        (p as usize, q as usize),
                        #[trigger] m@[flat_index(p, q, n_cols as int)],
                    ),
            decreases n_cols - j,
        {
            proof {
                lemma_flat_index_bounds(i as int, j as int, n_rows as int, n_cols as int);
            }
            let ghost before = m@;
            let v = entry(i, j);
            m.push(v);
            assert forall|p: int, q: int|
                (0 <= p < i && 0 <= q < n_cols) || (p == i && 0 <= q < j + 1) implies entry.ensures(
                (p as usize, q as usize),
                #[trigger] m@[flat_index(p, q, n_cols as int)],
            ) by {
                if p < i {
                    lemma_row_before(p, q, i as int, n_cols as int);
                    assert(m@[flat_index(p, q, n_cols as int)] == before[flat_index(p, q, n_cols as int)]);
                } else if q < j {
                    assert(m@[flat_index(p, q, n_cols as int)] == before[flat_index(p, q, n_cols as int)]);
                }
            }
            j = j + 1;
        }
        assert((i + 1) * n_cols == i * n_cols + n_cols) by (nonlinear_arith);
        i = i + 1;
    }
    assert forall|i: int, j: int| 0 <= i < n_rows && 0 <= j < n_cols implies entry.ensures(
        (i as usize, j as usize),
        #[trigger] m@[i * (n_cols as int) + j],
    ) by {
        assert(m@[flat_index(i, j, n_cols as int)] == m@[i * (n_cols as int) + j]);
    }
    m
}

/// Scans `v` from the front and reports the first entry that `classify`
/// flags, with its index and the flag; `None` when no entry is flagged.
pub fn first_flagged<T, E, F: Fn(&T) -> Option<E>>(v: &[T], classify: F) -> (r: Option<
    (usize, E),
>)
    requires
        forall|k: int| 0 <= k < v@.len() ==> #[trigger] classify.requires((&v@[k],)),
    ensures
        r is None ==> forall|k: int|
            0 <= k < v@.len() ==> #[trigger] classify.ensures((&v@[k],), None::<E>),
        r matches Some((i, e)) ==> {
            &&& i < v@.len()
            &&& classify.ensures((&v@[i as int],), Some(e))
            &&& forall|k: int| 0 <= k < i ==> #[trigger] classify.ensures((&v@[k],), None::<E>)
        },
{
    let mut i: usize = 0;
    while i < v.len()
        invariant
            i <= v@.len(),
            forall|k: int| 0 <= k < v@.len() ==> #[trigger] classify.requires((&v@[k],)),
            forall|k: int| 0 <= k < i ==> #[trigger] classify.ensures((&v@[k],), None::<E>),
        decreases v@.len() - i,
    {
        match classify(&v[i]) {
            Some(e) => {
                return Some((i, e));
            },
            None => {},
        }
        i = i + 1;
    }
    None
}

} // verus!
