use klox::interp::Progress;
use klox::lifespan::Lifespan;
use klox::target::ClockTarget;

fn full() -> Progress {
    Progress { num: 1, den: 1 }
}

#[test]
fn pending_duration_is_kept() {
    let l = Lifespan::from_millis(750);
    assert_eq!(l, Lifespan::Pending(750));
}

#[test]
fn first_update_resolves_deadline() {
    let l = Lifespan::from_millis(400).update(1_000);
    assert_eq!(l, Lifespan::Active { start: 1_000, current: 1_000, deadline: 1_400 });
}

#[test]
fn finished_is_terminal() {
    let l = Lifespan::Finished.update(5).update(1_000_000);
    assert_eq!(l, Lifespan::Finished);
}

#[test]
fn deadline_reached_means_finished_and_full_progress() {
    // Several durations, including the degenerate zero: advancing at
    // start + d always finishes with full progress.
    for d in [0u64, 1, 5, 1_000, 123_456] {
        let mut t = ClockTarget::default();
        t.lifespan = Lifespan::from_millis(d);
        let (t, _) = t.update(10_000);
        let (t, _) = t.update(10_000 + d);
        assert!(t.is_finished());
        assert_eq!(t.progress(), full());
    }
}

#[test]
fn zero_length_finishes_on_first_update() {
    let mut t = ClockTarget::default();
    t.lifespan = Lifespan::from_millis(0);
    let (t, _) = t.update(77);
    assert!(t.is_finished());
    assert_eq!(t.progress(), full());
}

#[test]
fn progress_is_exact_elapsed_over_total() {
    let mut t = ClockTarget::default();
    t.lifespan = Lifespan::from_millis(1_000);
    let (t, _) = t.update(500);
    assert_eq!(t.progress(), Progress { num: 0, den: 1_000 });
    let (t, _) = t.update(750);
    assert!(!t.is_finished());
    assert_eq!(t.progress(), Progress { num: 250, den: 1_000 });
}

#[test]
fn pending_progress_is_zero() {
    let mut t = ClockTarget::default();
    t.lifespan = Lifespan::from_millis(9);
    assert_eq!(t.progress(), Progress { num: 0, den: 1 });
}

#[test]
fn zero_length_active_progress_is_full() {
    let mut t = ClockTarget::default();
    t.lifespan = Lifespan::Active { start: 40, current: 40, deadline: 40 };
    assert_eq!(t.progress(), full());
}

#[test]
fn extra_turns_are_taken_exactly_once() {
    let t = ClockTarget::random_millis(3_000);
    let (t, first) = t.update(100);
    let extra = first.expect("first update must hand out the perturbation");
    assert_eq!(extra.len(), 24);
    assert!(extra.iter().all(|&e| e == 3_000_000));
    let (_, second) = t.update(200);
    assert!(second.is_none());
}

#[test]
fn plain_targets_never_hand_out_extra_turns() {
    let t = ClockTarget::default();
    let (t, first) = t.update(10);
    assert!(first.is_none());
    let (_, second) = t.update(20);
    assert!(second.is_none());
}
