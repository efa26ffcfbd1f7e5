use kantorovich::schedule::{IterationSchedule, SINKHORN_CHECK_EVERY};

/// Runs a schedule where the test at iteration `pass_at` (if any) passes.
fn run(max_iter: usize, every: usize, pass_at: Option<usize>) -> (Vec<usize>, usize, bool) {
    let mut schedule = IterationSchedule::new(max_iter, every);
    let mut seen = Vec::new();
    while let Some(iter) = schedule.next_iteration() {
        seen.push(iter);
        schedule.finish_iteration(Some(iter) == pass_at);
    }
    (seen, schedule.iterations(), schedule.exhausted())
}

#[test]
fn sinkhorn_checks_every_tenth_iteration() {
    let schedule = IterationSchedule::new(100, SINKHORN_CHECK_EVERY);
    let checks: Vec<usize> = (0..35).filter(|&i| schedule.is_checkpoint(i)).collect();
    assert_eq!(checks, vec![0, 10, 20, 30]);
}

#[test]
fn schedule_runs_all_iterations_without_convergence() {
    let (seen, iterations, exhausted) = run(25, 10, None);
    assert_eq!(seen, (0..25).collect::<Vec<_>>());
    assert_eq!(iterations, 25);
    assert!(exhausted);
}

#[test]
fn schedule_stops_after_passing_checkpoint() {
    let (seen, iterations, exhausted) = run(1000, 10, Some(20));
    assert_eq!(seen.len(), 21);
    assert_eq!(iterations, 21);
    assert!(!exhausted);
}

#[test]
fn schedule_ignores_pass_between_checkpoints() {
    let (_, iterations, exhausted) = run(50, 10, Some(15));
    assert_eq!(iterations, 50);
    assert!(exhausted);
}

#[test]
fn schedule_first_iteration_is_checked() {
    let (_, iterations, _) = run(1000, 10, Some(0));
    assert_eq!(iterations, 1);
}

#[test]
fn schedule_with_no_iterations() {
    let (seen, iterations, exhausted) = run(0, 10, None);
    assert!(seen.is_empty());
    assert_eq!(iterations, 0);
    assert!(exhausted);
}

#[test]
fn barycenter_schedule_checks_every_iteration() {
    let (_, iterations, exhausted) = run(100, 1, Some(7));
    assert_eq!(iterations, 8);
    assert!(!exhausted);
}

#[test]
fn converged_on_last_iteration_is_exhausted() {
    let (_, iterations, exhausted) = run(11, 10, Some(10));
    assert_eq!(iterations, 11);
    assert!(exhausted);
}
