use clock_divider::{divide_clock_ticks, InputGateStage};

#[test]
fn basic_sanity() {
    let (out, ticks, tocks) = divide_clock_ticks(
        0,
        2,
        2,
        3,
        4,
        1,
        1,
        InputGateStage::Opening,
        InputGateStage::Closed,
    );
    assert_eq!(out, 1, "output");
    assert_eq!(ticks, 0, "ticks");
    assert_eq!(tocks, 2, "tocks");
}

#[test]
fn reset_and_tick_simultaneously() {
    let (out, ticks, tocks) = divide_clock_ticks(
        0,
        0,
        0,
        3,
        1,
        2,
        0,
        InputGateStage::Opening,
        InputGateStage::Opening,
    );
    assert_eq!(out, 1, "output");
    assert_eq!(ticks, 0, "ticks");
    assert_eq!(tocks, 0, "tocks");
}

#[test]
fn just_after_reset() {
    let (out, ticks, tocks) = divide_clock_ticks(
        1,
        0,
        0,
        3,
        1,
        2,
        0,
        InputGateStage::Open,
        InputGateStage::Open,
    );
    assert_eq!(out, 1, "output");
    assert_eq!(ticks, 0, "ticks");
    assert_eq!(tocks, 0, "tocks");
}

#[test]
fn tick_below_threshold_is_only_counted() {
    let r = divide_clock_ticks(0, 1, 1, 3, 3, 0, 0, InputGateStage::Opening, InputGateStage::Closed);
    assert_eq!(r, (0, 2, 1));
}

#[test]
fn tock_below_threshold_is_only_counted() {
    let r = divide_clock_ticks(1, 1, 1, 3, 3, 0, 0, InputGateStage::Closing, InputGateStage::Closed);
    assert_eq!(r, (1, 1, 2));
}

#[test]
fn opening_keeps_the_ticks_beyond_the_threshold() {
    let r = divide_clock_ticks(0, 7, 0, 3, 1, 0, 0, InputGateStage::Opening, InputGateStage::Closed);
    assert_eq!(r, (1, 5, 0));
}

#[test]
fn closing_keeps_the_tocks_beyond_the_threshold() {
    let r = divide_clock_ticks(1, 0, 5, 1, 4, 0, 0, InputGateStage::Closing, InputGateStage::Closed);
    assert_eq!(r, (0, 0, 2));
}

#[test]
fn reset_alone_shuts_the_gate_and_reloads_both_counters() {
    let r = divide_clock_ticks(1, 4, 4, 2, 2, 9, -3, InputGateStage::Closed, InputGateStage::Opening);
    assert_eq!(r, (0, 9, -3));
}

#[test]
fn reset_is_applied_only_on_its_rising_edge() {
    for reset in [InputGateStage::Open, InputGateStage::Closing, InputGateStage::Closed] {
        let r = divide_clock_ticks(1, 4, 4, 2, 2, 9, -3, InputGateStage::Closed, reset);
        assert_eq!(r, (1, 4, 4));
    }
}

#[test]
fn rising_edge_is_not_counted_while_the_gate_is_open() {
    let r = divide_clock_ticks(1, 0, 0, 5, 5, 0, 0, InputGateStage::Opening, InputGateStage::Closed);
    assert_eq!(r, (1, 0, 0));
}

#[test]
fn falling_edge_is_not_counted_while_the_gate_is_shut() {
    let r = divide_clock_ticks(0, 0, 0, 5, 5, 0, 0, InputGateStage::Closing, InputGateStage::Closed);
    assert_eq!(r, (0, 0, 0));
}

#[test]
fn reset_on_a_falling_clock_edge_counts_no_tock() {
    // The output was open, but the reset shuts it before the clock is looked at.
    let r = divide_clock_ticks(1, 0, 0, 3, 1, 2, 1, InputGateStage::Closing, InputGateStage::Opening);
    assert_eq!(r, (0, 2, 1));
}

#[test]
fn reset_on_a_rising_clock_edge_counts_the_tick_on_the_reloaded_ticks() {
    // Whatever the output and the counters were, the result is the same.
    for (out, ticks, tocks) in [(0, 0, 0), (1, 0, 0), (1, 17, -4), (0, -8, 30)] {
        let r = divide_clock_ticks(
            out,
            ticks,
            tocks,
            5,
            2,
            2,
            7,
            InputGateStage::Opening,
            InputGateStage::Opening,
        );
        assert_eq!(r, (0, 3, 7));
    }
}

#[test]
fn gate_opens_on_the_fourth_rising_edge_of_four() {
    let stages = [
        InputGateStage::Opening,
        InputGateStage::Open,
        InputGateStage::Open,
        InputGateStage::Closing,
        InputGateStage::Closed,
        InputGateStage::Opening,
        InputGateStage::Closing,
        InputGateStage::Opening,
        InputGateStage::Open,
        InputGateStage::Closing,
        InputGateStage::Closed,
        InputGateStage::Closed,
    ];
    let (mut out, mut ticks, mut tocks) = (0, 0, 0);
    let mut edges = 0;
    for stage in stages {
        (out, ticks, tocks) =
            divide_clock_ticks(out, ticks, tocks, 4, 1, 0, 0, stage, InputGateStage::Closed);
        if stage == InputGateStage::Opening {
            edges += 1;
        }
        assert_eq!((out, ticks, tocks), (0, edges, 0));
    }
    assert_eq!(edges, 3);
    let r = divide_clock_ticks(out, ticks, tocks, 4, 1, 0, 0, InputGateStage::Opening, InputGateStage::Closed);
    assert_eq!(r, (1, 0, 0));
}

#[test]
fn output_is_zero_or_one_for_every_pair_of_stages() {
    let stages = [
        InputGateStage::Opening,
        InputGateStage::Open,
        InputGateStage::Closing,
        InputGateStage::Closed,
    ];
    for out in [0, 1] {
        for clock in stages {
            for reset in stages {
                for ticks in [-2, 0, 1, 2] {
                    let (next, _, _) = divide_clock_ticks(out, ticks, ticks, 2, 2, 1, 1, clock, reset);
                    assert!(next == 0 || next == 1);
                }
            }
        }
    }
}

#[test]
fn counters_at_the_ends_of_the_range_do_not_overflow() {
    let r = divide_clock_ticks(
        0,
        i64::MAX,
        i64::MIN,
        1,
        1,
        0,
        0,
        InputGateStage::Opening,
        InputGateStage::Closed,
    );
    assert_eq!(r, (1, i64::MAX, i64::MIN));
    let r = divide_clock_ticks(
        1,
        i64::MIN,
        i64::MAX,
        i64::MAX,
        i64::MAX,
        0,
        0,
        InputGateStage::Closing,
        InputGateStage::Closed,
    );
    assert_eq!(r, (0, i64::MIN, 1));
}
