//! Names of the options that the public entry points accept: the Sinkhorn
//! variant and the ground metric of a cost matrix.

use vstd::prelude::*;

verus! {

/// Variant of the Sinkhorn iteration.
#[derive(Debug, Clone, Copy, PartialEq, Eq)]
pub enum SinkhornMethod {
    /// Scaling of the Gibbs kernel in the linear domain (fast).
    Standard,
    /// Dual potentials updated with log-sum-exp (stable for small regularization).
    Log,
}

/// Ground metric of a cost matrix between two point clouds.
#[derive(Debug, Clone, Copy, PartialEq, Eq)]
pub enum Metric {
    /// Squared Euclidean distance.
    SqEuclidean,
    /// Euclidean distance.
    Euclidean,
    /// One minus the cosine similarity.
    Cosine,
}

/// Whether two strings hold the same characters.
pub fn str_equal(s: &str, t: &str) -> (b: bool)
    ensures
        b == (s@ == t@),
{
    let n: usize = s.unicode_len();
    if n != t.unicode_len() {
        return false;
    }
    let mut i: usize = 0;
    while i < n
        invariant
            n == s@.len(),
            n == t@.len(),
            i <= n,
            forall|k: int| 0 <= k < i ==> s@[k] == t@[k],
        decreases n - i,
    {
        if s.get_char(i) != t.get_char(i) {
            return false;
        }
        i = i + 1;
    }
    assert(s@ =~= t@);
    true
}

/// Reads the name of a Sinkhorn variant: `"standard"` or `"log"`; any other
/// name is refused with `None`.
pub fn parse_sinkhorn_method(method: &str) -> (r: Option<SinkhornMethod>)
    ensures
        r == Some(SinkhornMethod::Standard) <==> method@ == "standard"@,
        r == Some(SinkhornMethod::Log) <==> method@ == "log"@,
        r is None <==> (method@ != "standard"@ && method@ != "log"@),
{
    proof {
        reveal_strlit("standard");
        reveal_strlit("log");
        assert("standard"@.len() != "log"@.len());
    }
    if str_equal(method, "standard") {
        Some(SinkhornMethod::Standard)
    } else if str_equal(method, "log") {
        Some(SinkhornMethod::Log)
    } else {
        None
    }
}

/// Reads the name of a ground metric: `"sqeuclidean"`, `"euclidean"` or
/// `"cosine"`; any other name is refused with `None`.
pub fn parse_metric(metric: &str) -> (r: Option<Metric>)
    ensures
        r == Some(Metric::SqEuclidean) <==> metric@ == "sqeuclidean"@,
        r == Some(Metric::Euclidean) <==> metric@ == "euclidean"@,
        r == Some(Metric::Cosine) <==> metric@ == "cosine"@,
        r is None <==> (metric@ != "sqeuclidean"@ && metric@ != "euclidean"@ && metric@
            != "cosine"@),
{
    proof {
        reveal_strlit("sqeuclidean");
        reveal_strlit("euclidean");
        reveal_strlit("cosine");
        assert("sqeuclidean"@.len() != "euclidean"@.len());
        assert("sqeuclidean"@.len() != "cosine"@.len());
        assert("euclidean"@.len() != "cosine"@.len());
    }
    if str_equal(metric, "sqeuclidean") {
        Some(Metric::SqEuclidean)
    } else if str_equal(metric, "euclidean") {
        Some(Metric::Euclidean)
    } else if str_equal(metric, "cosine") {
        Some(Metric::Cosine)
    } else {
        None
    }
}

} // verus!
