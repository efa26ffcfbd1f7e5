//! Shape checks that the solvers run on their inputs before any arithmetic:
//! sizes of cost matrices and point clouds, supports against their weights,
//! and the stack of distributions of a barycenter problem.
//!
//! Every check is generic over the element type: it reads lengths only.

use vstd::prelude::*;

verus! {

/// A malformed input, described by the sizes that gave it away.
#[derive(Debug, Clone, Copy, PartialEq, Eq)]
pub enum InputError {
    /// A point cloud is not a two-dimensional array.
    NotTwoDimensional,
    /// The two point clouds have points of different dimensions.
    DimensionMismatch { x_dim: usize, y_dim: usize },
    /// A flat cost matrix does not hold `n_rows * n_cols` entries.
    CostMatrixSize { len: usize, n_rows: usize, n_cols: usize },
    /// The flat cloud `x` does not hold `count * dim` coordinates.
    XCloudSize { len: usize, count: usize, dim: usize },
    /// The flat cloud `y` does not hold `count * dim` coordinates.
    YCloudSize { len: usize, count: usize, dim: usize },
    /// The support `x_a` and the weights `a` differ in length.
    SupportALength { points: usize, weights: usize },
    /// The support `x_b` and the weights `b` differ in length.
    SupportBLength { points: usize, weights: usize },
    /// A barycenter was asked of no distribution at all.
    NoDistributions,
    /// Distribution `index` has `len` entries where the first has `expected`.
    DistributionLength { index: usize, len: usize, expected: usize },
    /// There are `len` weights for `expected` distributions.
    WeightsLength { len: usize, expected: usize },
}

/// Checks that a flat row-major cost matrix has `n_rows * n_cols` entries.
pub fn validate_cost_matrix_shape<T>(m: &[T], n_rows: usize, n_cols: usize) -> (r: Result<
    (),
    InputError,
>)
    requires
        n_rows * n_cols <= usize::MAX,
    ensures
        r is Ok <==> m@.len() == n_rows * n_cols,
        r is Err ==> r == Err::<(), InputError>(
            InputError::CostMatrixSize { len: m@.len() as usize, n_rows, n_cols },
        ),
{
    let expected: usize = n_rows * n_cols;
    if m.len() != expected {
        return Err(InputError::CostMatrixSize { len: m.len(), n_rows, n_cols });
    }
    Ok(())
}

/// Checks that the flat point clouds `x` and `y` hold one point of `dim`
/// coordinates per weight of `a` and of `b` respectively; `x` is checked
/// first.
pub fn validate_point_clouds<T>(x: &[T], y: &[T], a: &[T], b: &[T], dim: usize) -> (r: Result<
    (),
    InputError,
>)
    requires
        a@.len() * dim <= usize::MAX,
        x@.len() == a@.len() * dim ==> b@.len() * dim <= usize::MAX,
    ensures
        r is Ok <==> (x@.len() == a@.len() * dim && y@.len() == b@.len() * dim),
        x@.len() != a@.len() * dim ==> r == Err::<(), InputError>(
            InputError::XCloudSize { len: x@.len() as usize, count: a@.len() as usize, dim },
        ),
        x@.len() == a@.len() * dim && y@.len() != b@.len() * dim ==> r == Err::<(), InputError>(
            InputError::YCloudSize { len: y@.len() as usize, count: b@.len() as usize, dim },
        ),
{
    let n: usize = a.len();
    let m: usize = b.len();
    if x.len() != n * dim {
        return Err(InputError::XCloudSize { len: x.len(), count: n, dim });
    }
    if y.len() != m * dim {
        return Err(InputError::YCloudSize { len: y.len(), count: m, dim });
    }
    Ok(())
}

/// Checks that each support has one point per weight; `a` is checked first.
pub fn validate_support_lengths<T>(x_a: &[T], a: &[T], x_b: &[T], b: &[T]) -> (r: Result<
    (),
    InputError,
>)
    ensures
        r is Ok <==> (x_a@.len() == a@.len() && x_b@.len() == b@.len()),
        x_a@.len() != a@.len() ==> r == Err::<(), InputError>(
            InputError::SupportALength { points: x_a@.len() as usize, weights: a@.len() as usize },
        ),
        x_a@.len() == a@.len() && x_b@.len() != b@.len() ==> r == Err::<(), InputError>(
            InputError::SupportBLength { points: x_b@.len() as usize, weights: b@.len() as usize },
        ),
{
    if x_a.len() != a.len() {
        return Err(InputError::SupportALength { points: x_a.len(), weights: a.len() });
    }
    if x_b.len() != b.len() {
        return Err(InputError::SupportBLength { points: x_b.len(), weights: b.len() });
    }
    Ok(())
}

/// Whether every distribution of the stack has as many entries as the first.
pub open spec fn same_lengths<T>(distributions: Seq<&[T]>) -> bool {
    forall|i: int| 0 <= i < distributions.len() ==> #[trigger] distributions[i]@.len()
        == distributions[0]@.len()
}

/// Every distribution of a stack with equal lengths, the last included, has
/// the length of the first; and a stack in which some distribution differs
/// from the first does not have equal lengths.
pub proof fn lemma_same_lengths_every_member<T>(distributions: Seq<&[T]>, i: int)
    requires
        0 <= i < distributions.len(),
    ensures
        same_lengths(distributions) ==> distributions[i]@.len() == distributions[0]@.len(),
        distributions[i]@.len() != distributions[0]@.len() ==> !same_lengths(distributions),
{
}

/// Checks a stack of distributions on one support and their weights, and
/// returns the size of the support.
///
/// The stack must not be empty; the first distribution whose length differs
/// from that of the first is reported; then there must be one weight per
/// distribution.
pub fn validate_barycenter_inputs<T>(distributions: &[&[T]], weights: &[T]) -> (r: Result<
    usize,
    InputError,
>)
    ensures
        distributions@.len() == 0 ==> r == Err::<usize, InputError>(InputError::NoDistributions),
        r is Ok <==> (distributions@.len() > 0 && same_lengths(distributions@) && weights@.len()
            == distributions@.len()),
        r is Ok ==> r == Ok::<usize, InputError>(distributions@[0]@.len() as usize),
        r is Ok ==> forall|i: int|
            0 <= i < distributions@.len() ==> #[trigger] distributions@[i]@.len()
                == distributions@[0]@.len(),
        r is Ok ==> weights@.len() == distributions@.len(),
        (exists|i: int|
            0 <= i < distributions@.len() && #[trigger] distributions@[i]@.len()
                != distributions@[0]@.len()) ==> (r matches Err(
            InputError::DistributionLength { index, len, expected },
        ) && 0 < index < distributions@.len() && len == distributions@[index as int]@.len()
            && expected == distributions@[0]@.len() && len != expected && forall|j: int|
            0 <= j < index ==> #[trigger] distributions@[j]@.len() == expected),
        distributions@.len() > 0 && same_lengths(distributions@) && weights@.len()
            != distributions@.len() ==> r == Err::<usize, InputError>(
            InputError::WeightsLength {
                len: weights@.len() as usize,
                expected: distributions@.len() as usize,
            },
        ),
        distributions@.len() > 0 && !same_lengths(distributions@) ==> (r matches Err(
            InputError::DistributionLength { index, len, expected },
        ) && 0 < index < distributions@.len() && len == distributions@[index as int]@.len()
            && expected == distributions@[0]@.len() && len != expected && forall|j: int|
            0 <= j < index ==> #[trigger] distributions@[j]@.len() == expected),
{
    let k: usize = distributions.len();
    if k == 0 {
        return Err(InputError::NoDistributions);
    }
    let n: usize = distributions[0].len();
    let mut i: usize = 0;
    while i < k
        invariant
            k == distributions@.len(),
            n == distributions@[0]@.len(),
            i <= k,
            forall|j: int| 0 <= j < i ==> #[trigger] distributions@[j]@.len() == n,
        decreases k - i,
    {
        let len: usize = distributions[i].len();
        if len != n {
            return Err(InputError::DistributionLength { index: i, len, expected: n });
        }
        i = i + 1;
    }
    if weights.len() != k {
        return Err(InputError::WeightsLength { len: weights.len(), expected: k });
    }
    Ok(n)
}

/// Reads the shapes of two point-cloud arrays: both must be two-dimensional
/// with points of one dimension. Returns the number of points of each and
/// their dimension.
pub fn point_cloud_shape(x_shape: &[usize], y_shape: &[usize]) -> (r: Result<
    (usize, usize, usize),
    InputError,
>)
    ensures
        (x_shape@.len() != 2 || y_shape@.len() != 2) ==> r == Err::<
            (usize, usize, usize),
            InputError,
        >(InputError::NotTwoDimensional),
        (x_shape@.len() == 2 && y_shape@.len() == 2 && x_shape@[1] != y_shape@[1]) ==> r == Err::<
            (usize, usize, usize),
            InputError,
        >(InputError::DimensionMismatch { x_dim: x_shape@[1], y_dim: y_shape@[1] }),
        (x_shape@.len() == 2 && y_shape@.len() == 2 && x_shape@[1] == y_shape@[1]) ==> r == Ok::<
            (usize, usize, usize),
            InputError,
        >((x_shape@[0], y_shape@[0], x_shape@[1])),
{
    if x_shape.len() != 2 || y_shape.len() != 2 {
        return Err(InputError::NotTwoDimensional);
    }
    if x_shape[1] != y_shape[1] {
        return Err(InputError::DimensionMismatch { x_dim: x_shape[1], y_dim: y_shape[1] });
    }
    Ok((x_shape[0], y_shape[0], x_shape[1]))
}

} // verus!
