# kantorovich

Optimal transport between discrete distributions: entropic (Sinkhorn) and
unbalanced transport, Sinkhorn divergences, fixed-support barycenters, exact
1D Wasserstein distances and sliced Wasserstein distances, with Python
bindings.

## Layout

- `src/` is the Verus-verified core, everything that is not floating-point
  arithmetic:
  - `rng.rs`: the xorshift64 generator that seeds the random projections,
    with its laws (zero is a fixed point, nonzero states stay nonzero, a step
    is injective, steps compose), the seeding that keeps every draw nonzero,
    and the draws of the random directions;
  - `shape.rs`: the size checks of cost matrices, point clouds, supports and
    barycenter inputs, with the error each one reports;
  - `layout.rs`: the row-major layout of flat matrices and the scan that
    reports the first offending entry of a vector;
  - `options.rs`: the names of the Sinkhorn variants and ground metrics;
  - `schedule.rs`: the iteration schedule of the fixed-point solvers (at
    most `max_iter` iterations, a convergence test every tenth one for
    Sinkhorn and every one for barycenters, the reported iteration count),
    driven by the outcome of each floating-point test as a `bool`.
- `app/` holds the floating-point solvers (Sinkhorn in the linear and log
  domains, unbalanced Sinkhorn, barycenters, cost matrices, 1D and sliced
  Wasserstein) and the Python bindings. They call the core for the size
  checks, the option names, the scan for the first invalid entry, the random
  draws of the sliced distance, and the layout of transport plans and of
  cost matrices built sequentially. What stays in `app/` besides the
  arithmetic: the rayon-parallel branch of the cost matrices (from 100
  rows), which lays rows out itself; the row-major reads of faer's
  `Mat::from_fn`; and the floating-point tests whose outcomes drive the
  iteration schedule, including the comparison that turns a run into a
  convergence error.
