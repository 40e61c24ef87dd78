use klox::glyphs::Digit;
use klox::lifespan::Lifespan;
use klox::target::ClockTarget;
use klox::trigger::{TriggerTime, LEAD_TIME_SECONDS, TRIGGER_TIME_SECONDS};

#[test]
fn trigger_constants_complement_each_other() {
    assert_eq!(LEAD_TIME_SECONDS, 5);
    assert_eq!(TRIGGER_TIME_SECONDS, 55);
}

#[test]
fn time_display_slots_encode_hours_then_minutes() {
    // 14:07 on the wall clock: slot 0 shows 1, slot 1 shows 4, slot 2
    // shows 0 and slot 3 shows 7.
    let time_millis = (14 * 3600 + 7 * 60) * 1000;
    let t = ClockTarget::from_time(time_millis, Lifespan::from_millis(5_000));
    let expected = [1u64, 4, 0, 7];
    for (slot, &digit) in expected.iter().enumerate() {
        let glyph = Digit::from_value(digit);
        for k in 0..6 {
            assert_eq!(t.clocklets[slot * 6 + k], glyph.cells[k]);
        }
    }
    assert_eq!(t.lifespan, Lifespan::Pending(5_000));
    assert!(t.extra_turns.is_none());
}

#[test]
fn time_display_wraps_minutes_and_hours() {
    // 23:59 one millisecond before midnight still reads 23:59.
    let time_millis = (23 * 3600 + 59 * 60) * 1000 + 59_999;
    let t = ClockTarget::from_time(time_millis, Lifespan::from_millis(1));
    let expected = [2u64, 3, 5, 9];
    for (slot, &digit) in expected.iter().enumerate() {
        let glyph = Digit::from_value(digit);
        for k in 0..6 {
            assert_eq!(t.clocklets[slot * 6 + k], glyph.cells[k]);
        }
    }
}

#[test]
fn trigger_fires_once_per_minute_window() {
    let mut tt = TriggerTime::default();
    assert!(!tt.armed);
    let minute = 120_000u64; // an exact minute boundary

    // Second 54: one second short of the window; nothing happens.
    assert!(tt.trigger(minute + 54_000).is_none());
    assert!(!tt.armed);

    // Second 55: the window opens; exactly one emission, and it arms.
    let emitted = tt.trigger(minute + 55_000);
    assert!(tt.armed);
    let target = emitted.expect("the first poll in the window must emit");
    let shown = ClockTarget::from_time(minute + 55_000 + 5_000, Lifespan::from_millis(5_000));
    assert_eq!(target.clocklets, shown.clocklets);
    assert_eq!(target.lifespan, Lifespan::Pending(5_000));
    assert!(target.extra_turns.is_none());

    // Seconds 55..60 while armed: silence.
    for s in [55_000u64, 57_500, 59_999] {
        assert!(tt.trigger(minute + s).is_none());
        assert!(tt.armed);
    }

    // Second 2 of the next minute: re-arms without emitting.
    assert!(tt.trigger(minute + 62_000).is_none());
    assert!(!tt.armed);

    // And the next window fires again.
    assert!(tt.trigger(minute + 60_000 + 55_000).is_some());
    assert!(tt.armed);
}

#[test]
fn emitted_display_is_five_seconds_ahead() {
    // Polling at second 55 of minute 0 of hour 0: the emitted grid shows
    // 00:01, the time when the transition will have completed.
    let mut tt = TriggerTime::default();
    let target = tt.trigger(55_000).expect("window open");
    let expected = [0u64, 0, 0, 1];
    for (slot, &digit) in expected.iter().enumerate() {
        let glyph = Digit::from_value(digit);
        for k in 0..6 {
            assert_eq!(target.clocklets[slot * 6 + k], glyph.cells[k]);
        }
    }
}
