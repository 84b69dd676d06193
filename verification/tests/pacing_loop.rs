use padme_frontend::pacing::{IterationCommand, PacingController, NANOS_PER_SECOND};

#[test]
fn sixty_fps_interval() {
    let c = PacingController::new(60);
    // 1/60 s in whole nanoseconds.
    assert_eq!(c.sleep_budget(0), NANOS_PER_SECOND / 60);
}

#[test]
fn fast_iteration_sleeps_exactly_the_remainder() {
    let c = PacingController::new(60);
    let interval = NANOS_PER_SECOND / 60; // 16_666_666 ns
    assert_eq!(c.sleep_budget(10_000_000), interval - 10_000_000);
}

#[test]
fn slow_iteration_never_sleeps() {
    let c = PacingController::new(60);
    // Elapsed at or past the minimum frame interval: no sleep, the lag
    // stays observable instead of being absorbed.
    assert_eq!(c.sleep_budget(16_666_666), 0);
    assert_eq!(c.sleep_budget(16_666_667), 0);
    assert_eq!(c.sleep_budget(u64::MAX), 0);
}

#[test]
fn one_step_per_iteration_regardless_of_lag() {
    let mut c = PacingController::new(60);
    let mut steps = 0u32;
    // Ten iterations with wildly different measured costs: each one still
    // commands exactly one step.
    let elapsed = [0u64, 1, 16_666_666, 100_000_000, 5, 7, u64::MAX, 3, 12, 40_000_000];
    for e in elapsed {
        match c.begin_iteration(false) {
            IterationCommand::RunStep => steps += 1,
            IterationCommand::Shutdown => panic!("no close signal was given"),
        }
        let _ = c.sleep_budget(e);
    }
    assert_eq!(steps, 10);
}

#[test]
fn close_signal_stops_stepping_for_good() {
    let mut c = PacingController::new(60);
    assert!(matches!(c.begin_iteration(false), IterationCommand::RunStep));
    assert!(matches!(c.begin_iteration(false), IterationCommand::RunStep));
    // Close observed: this iteration must shut down without stepping.
    assert!(matches!(c.begin_iteration(true), IterationCommand::Shutdown));
    assert!(c.has_terminated());
    // Even if the signal goes away, the terminated state is absorbing.
    assert!(matches!(c.begin_iteration(false), IterationCommand::Shutdown));
    assert!(matches!(c.begin_iteration(true), IterationCommand::Shutdown));
    assert!(c.has_terminated());
}

#[test]
fn controller_starts_running() {
    let c = PacingController::new(1);
    assert!(!c.has_terminated());
}

#[test]
fn one_fps_interval_is_one_second() {
    let c = PacingController::new(1);
    assert_eq!(c.sleep_budget(0), NANOS_PER_SECOND);
    assert_eq!(c.sleep_budget(NANOS_PER_SECOND), 0);
}
