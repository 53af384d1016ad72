use pomo::countdown::{render_final, render_tick, snapshot, BAR_WIDTH};

#[test]
fn remaining_is_total_minus_elapsed() {
    for elapsed in 0..=100 {
        let snap = snapshot(elapsed, 100);
        assert_eq!(snap.remaining, 100 - elapsed);
    }
}

#[test]
fn fresh_countdown_shows_everything_left() {
    let snap = snapshot(0, 100);
    assert_eq!(snap.remaining, 100);
    assert_eq!(snap.minutes, 1);
    assert_eq!(snap.seconds, 40);
    assert_eq!(snap.percent, 0);
    assert_eq!(snap.filled, 0);
    assert!(!snap.done);
}

#[test]
fn halfway_shows_half() {
    let snap = snapshot(50, 100);
    assert_eq!(snap.remaining, 50);
    assert_eq!(snap.percent, 50);
    assert_eq!(snap.filled, 10);
    assert!(!snap.done);
}

#[test]
fn percentage_is_floored() {
    let snap = snapshot(1, 3);
    assert_eq!(snap.percent, 33);
    assert_eq!(snap.filled, 6);
}

#[test]
fn completion_shows_zero_remaining_and_full_bar() {
    let snap = snapshot(100, 100);
    assert_eq!(snap.remaining, 0);
    assert_eq!(snap.percent, 100);
    assert_eq!(snap.filled, BAR_WIDTH);
    assert!(snap.done);
}

#[test]
fn slippage_past_total_still_shows_zero_remaining() {
    let snap = snapshot(137, 100);
    assert_eq!(snap.remaining, 0);
    assert_eq!(snap.percent, 100);
    assert_eq!(snap.filled, BAR_WIDTH);
    assert!(snap.done);
}

#[test]
fn percentage_never_decreases_across_ticks() {
    let total: u64 = 97;
    let mut last: u64 = 0;
    for elapsed in 0..=(total + 5) {
        let snap = snapshot(elapsed, total);
        assert!(snap.percent >= last);
        last = snap.percent;
    }
    assert_eq!(last, 100);
}

#[test]
fn tick_line_shows_clock_bar_and_percentage() {
    let snap = snapshot(25, 100);
    assert_eq!(
        render_tick(&snap),
        "01:15 remaining [█████░░░░░░░░░░░░░░░] 25%"
    );
}

#[test]
fn final_line_shows_zero_and_full_bar() {
    assert_eq!(render_final(), "00:00 - Time's up! [████████████████████] 100%");
}
