use std::collections::VecDeque;

use klox::board::Clock;
use klox::clocklet::Clocklet;
use klox::glyphs::Digit;
use klox::lifespan::Lifespan;
use klox::target::ClockTarget;

fn c(h: i64, m: i64) -> Clocklet {
    Clocklet::from_turns(h, m)
}

fn uniform_grid(v: i64) -> Vec<Clocklet> {
    vec![c(v, v); 24]
}

fn plain_target(grid: Vec<Clocklet>, millis: u64) -> ClockTarget {
    ClockTarget { clocklets: grid, extra_turns: None, lifespan: Lifespan::from_millis(millis) }
}

fn board_with_grid(grid: Vec<Clocklet>) -> Clock {
    Clock { clocklets: grid, targets: VecDeque::new() }
}

#[test]
fn lerp_at_zero_progress_is_the_committed_grid() {
    let board = board_with_grid(uniform_grid(900_000));
    let target = plain_target(uniform_grid(100_000), 500);
    assert_eq!(board.lerp(&target), uniform_grid(900_000));
}

#[test]
fn lerp_at_full_progress_is_the_target_grid() {
    let board = board_with_grid(uniform_grid(900_000));
    let mut target = plain_target(uniform_grid(100_000), 500);
    target.lifespan = Lifespan::Finished;
    assert_eq!(board.lerp(&target), uniform_grid(100_000));
}

#[test]
fn lerp_sweeps_the_long_way_across_the_turn_boundary() {
    // From 0.9 of a turn to 0.1 of a turn, half way: the straight numeric
    // sweep passes through 0.5, not through the 0/1 boundary.
    let board = board_with_grid(uniform_grid(900_000));
    let mut target = plain_target(uniform_grid(100_000), 0);
    target.lifespan = Lifespan::Active { start: 0, current: 500, deadline: 1_000 };
    assert_eq!(board.lerp(&target), uniform_grid(500_000));
}

#[test]
fn lerp_is_exact_at_rational_progress() {
    let board = board_with_grid(uniform_grid(0));
    let mut target = plain_target(uniform_grid(1_000_000), 0);
    target.lifespan = Lifespan::Active { start: 0, current: 250, deadline: 1_000 };
    assert_eq!(board.lerp(&target), uniform_grid(250_000));
}

#[test]
fn lerp_truncates_toward_zero_progress_thirds() {
    let board = board_with_grid(uniform_grid(0));
    let mut target = plain_target(uniform_grid(1_000_000), 0);
    target.lifespan = Lifespan::Active { start: 0, current: 1, deadline: 3 };
    assert_eq!(board.lerp(&target), uniform_grid(333_333));
}

#[test]
fn lerp_handles_a_downward_sweep() {
    let board = board_with_grid(uniform_grid(100_000));
    let mut target = plain_target(uniform_grid(-200_000), 0);
    target.lifespan = Lifespan::Active { start: 0, current: 500, deadline: 1_000 };
    assert_eq!(board.lerp(&target), uniform_grid(-50_000));
}

#[test]
fn render_without_targets_is_the_committed_grid() {
    let board = board_with_grid(uniform_grid(123_456));
    assert_eq!(board.interpolated_clocklets(), uniform_grid(123_456));
}

#[test]
fn targets_retire_in_fifo_order_and_leave_the_last_grid() {
    let mut board = board_with_grid(uniform_grid(0));
    board.push_target(plain_target(uniform_grid(100_000), 100));
    board.push_target(plain_target(uniform_grid(200_000), 100));
    board.push_target(plain_target(uniform_grid(300_000), 100));
    assert_eq!(board.targets.len(), 3);

    // Frame 0 starts the first target; nothing retires yet.
    board.update(0);
    assert_eq!(board.targets.len(), 3);
    assert_eq!(board.clocklets, uniform_grid(0));

    // Each later frame is past the front deadline: one target retires per
    // frame, committing its grid, strictly in the order they were pushed.
    board.update(200);
    assert_eq!(board.targets.len(), 2);
    assert_eq!(board.clocklets, uniform_grid(100_000));

    board.update(400);
    assert_eq!(board.targets.len(), 1);
    assert_eq!(board.clocklets, uniform_grid(200_000));

    board.update(600);
    assert_eq!(board.targets.len(), 0);
    assert_eq!(board.clocklets, uniform_grid(300_000));
}

#[test]
fn zero_length_targets_all_retire_in_one_frame() {
    let mut board = board_with_grid(uniform_grid(7));
    board.push_target(plain_target(uniform_grid(100_000), 0));
    board.push_target(plain_target(uniform_grid(200_000), 0));
    board.update(50);
    assert_eq!(board.targets.len(), 0);
    assert_eq!(board.clocklets, uniform_grid(200_000));
}

#[test]
fn update_with_an_empty_queue_changes_nothing() {
    let mut board = board_with_grid(uniform_grid(42));
    board.update(1_000);
    assert_eq!(board.targets.len(), 0);
    assert_eq!(board.clocklets, uniform_grid(42));
}

#[test]
fn clobber_mid_animation_keeps_the_rendered_grid() {
    let mut board = board_with_grid(uniform_grid(0));
    board.push_target(plain_target(uniform_grid(1_000_000), 1_000));
    board.update(0); // start the transition
    board.update(400); // part way through
    let rendered_before = board.interpolated_clocklets();
    assert_eq!(rendered_before, uniform_grid(400_000));

    board.clobber_targets(plain_target(uniform_grid(555), 200));
    assert_eq!(board.clocklets, rendered_before);
    assert_eq!(board.targets.len(), 1);
}

#[test]
fn clobber_with_idle_board_keeps_the_committed_grid() {
    let mut board = board_with_grid(uniform_grid(31_415));
    board.clobber_targets(plain_target(uniform_grid(100), 200));
    assert_eq!(board.clocklets, uniform_grid(31_415));
    assert_eq!(board.targets.len(), 1);
}

#[test]
fn scramble_decays_the_committed_grid_once() {
    let mut board = board_with_grid(uniform_grid(250_000));
    board.push_target(ClockTarget::random_millis(1_000));
    board.update(10);
    // The one-shot perturbation of three turns has been subtracted from
    // every committed cell; the target itself is still in flight.
    assert_eq!(board.clocklets, uniform_grid(250_000 - 3_000_000));
    assert_eq!(board.targets.len(), 1);

    // A later frame while the same target is still running must not decay
    // the committed grid again.
    board.update(20);
    assert_eq!(board.clocklets, uniform_grid(250_000 - 3_000_000));
}

#[test]
fn set_digit_touches_only_its_slot() {
    let mut target = plain_target(uniform_grid(11_111), 100);
    let glyph = Digit::from_value(8);
    target.set_digit(&glyph, 1);
    for i in 0..24 {
        if (6..12).contains(&i) {
            assert_eq!(target.clocklets[i], glyph.cells[i - 6]);
        } else {
            assert_eq!(target.clocklets[i], c(11_111, 11_111));
        }
    }
}

#[test]
fn set_digit_wraps_the_slot_index() {
    let glyph = Digit::from_value(2);
    let mut direct = plain_target(uniform_grid(5), 100);
    direct.set_digit(&glyph, 3);
    let mut wrapped = plain_target(uniform_grid(5), 100);
    wrapped.set_digit(&glyph, 7);
    assert_eq!(direct.clocklets, wrapped.clocklets);
}

#[test]
fn target_digit_queues_an_edit_of_the_committed_grid() {
    let mut board = board_with_grid(uniform_grid(77));
    let glyph = Digit::from_value(5);
    board.target_digit(&glyph, 2);
    assert_eq!(board.targets.len(), 1);
    assert_eq!(board.clocklets, uniform_grid(77));

    let queued = &board.targets[0];
    assert_eq!(queued.lifespan, Lifespan::Pending(1_000));
    assert!(queued.extra_turns.is_none());
    for i in 0..24 {
        if (12..18).contains(&i) {
            assert_eq!(queued.clocklets[i], glyph.cells[i - 12]);
        } else {
            assert_eq!(queued.clocklets[i], c(77, 77));
        }
    }
}

#[test]
fn default_board_is_idle_noise() {
    let board = Clock::default();
    assert_eq!(board.targets.len(), 0);
    assert_eq!(board.clocklets.len(), 24);
    assert!(board.clocklets.iter().all(|cell| {
        (0..1_000_000).contains(&cell.hour_turns) && (0..1_000_000).contains(&cell.minute_turns)
    }));
}
