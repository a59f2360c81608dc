//! The divider rule: how one sample moves the tick and tock counters and the
//! output gate.

use vstd::prelude::*;
use crate::gate::InputGateStage;

verus! {

/// The output gate and the two counters after a reset, if this sample is the
/// reset input's rising edge: the output is forced shut and both counters
/// are reloaded. Any other sample leaves the three as they are.
pub open spec fn after_reset(
    output_value: int,
    ticks: int,
    tocks: int,
    ticks_on_reset: int,
    tocks_on_reset: int,
    reset_stage: InputGateStage,
) -> (int, int, int) {
    if reset_stage is Opening {
        (0, ticks_on_reset, tocks_on_reset)
    } else {
        (output_value, ticks, tocks)
    }
}

/// The output gate and the two counters after the clock has been counted.
///
/// A rising clock edge counts one tick while the output is shut; the output
/// opens once `open_after_ticks` are reached, and that many leave the
/// counter. A falling clock edge counts one tock while the output is open;
/// the output shuts once `close_after_tocks` are reached, and that many leave
/// the counter.
pub open spec fn after_clock(
    output_value: int,
    ticks: int,
    tocks: int,
    open_after_ticks: int,
    close_after_tocks: int,
    clock_stage: InputGateStage,
) -> (int, int, int) {
    if clock_stage is Opening && output_value <= 0 {
        if ticks + 1 >= open_after_ticks {
            (1, ticks + 1 - open_after_ticks, tocks)
        } else {
            (output_value, ticks + 1, tocks)
        }
    } else if clock_stage is Closing && output_value > 0 {
        if tocks + 1 >= close_after_tocks {
            (0, ticks, tocks + 1 - close_after_tocks)
        } else {
            (output_value, ticks, tocks + 1)
        }
    } else {
        (output_value, ticks, tocks)
    }
}

/// One sample of the divider: the reset is applied first, the clock is
/// counted on what the reset left. The result is the output gate, the ticks
/// and the tocks, in that order.
pub open spec fn divided(
    output_value: int,
    ticks: int,
    tocks: int,
    open_after_ticks: int,
    close_after_tocks: int,
    ticks_on_reset: int,
    tocks_on_reset: int,
    clock_stage: InputGateStage,
    reset_stage: InputGateStage,
) -> (int, int, int) {
    let (output_value, ticks, tocks) = after_reset(
        output_value,
        ticks,
        tocks,
        ticks_on_reset,
        tocks_on_reset,
        reset_stage,
    );
    after_clock(output_value, ticks, tocks, open_after_ticks, close_after_tocks, clock_stage)
}

/// Runs the divider for one sample, given the stages that the two inputs
/// reached on it. Returns the output gate, the ticks and the tocks.
pub fn divide_clock_ticks(
    output_value: i64,
    ticks: i64,
    tocks: i64,
    open_after_ticks: i64,
    close_after_tocks: i64,
    ticks_on_reset: i64,
    tocks_on_reset: i64,
    clock_stage: InputGateStage,
    reset_stage: InputGateStage,
) -> (r: (i64, i64, i64))
    requires
        open_after_ticks >= 1,
        close_after_tocks >= 1,
    ensures
        (r.0 as int, r.1 as int, r.2 as int) == divided(
            output_value as int,
            ticks as int,
            tocks as int,
            open_after_ticks as int,
            close_after_tocks as int,
            ticks_on_reset as int,
            tocks_on_reset as int,
            clock_stage,
            reset_stage,
        ),
{
    let mut output_value = output_value;
    let mut ticks = ticks;
    let mut tocks = tocks;
    if reset_stage == InputGateStage::Opening {
        output_value = 0;
        ticks = ticks_on_reset;
        tocks = tocks_on_reset;
    }
    if clock_stage == InputGateStage::Opening && output_value <= 0 {
        // One short of the threshold is where the next tick reaches it.
        if ticks >= open_after_ticks - 1 {
            output_value = 1;
            ticks = ticks - (open_after_ticks - 1);
        } else {
            ticks = ticks + 1;
        }
    }
    if clock_stage == InputGateStage::Closing && output_value > 0 {
        if tocks >= close_after_tocks - 1 {
            output_value = 0;
            tocks = tocks - (close_after_tocks - 1);
        } else {
            tocks = tocks + 1;
        }
    }
    (output_value, ticks, tocks)
}

/// The divider never sets the output gate to anything but 0 or 1: it leaves
/// it as it was, shuts it or opens it. So an output gate that is 0 or 1
/// stays 0 or 1.
pub proof fn lemma_output_is_gate_level(
    output_value: int,
    ticks: int,
    tocks: int,
    open_after_ticks: int,
    close_after_tocks: int,
    ticks_on_reset: int,
    tocks_on_reset: int,
    clock_stage: InputGateStage,
    reset_stage: InputGateStage,
)
    ensures
        ({
            let r = divided(
                output_value,
                ticks,
                tocks,
                open_after_ticks,
                close_after_tocks,
                ticks_on_reset,
                tocks_on_reset,
                clock_stage,
                reset_stage,
            );
            &&& r.0 == 0 || r.0 == 1 || r.0 == output_value
            &&& output_value == 0 || output_value == 1 ==> r.0 == 0 || r.0 == 1
        }),
{
}

/// Counters that start within `limit` of zero stay there, as long as the
/// thresholds are at least 1 and at most `limit` and the values loaded on a
/// reset are within `limit` of zero.
pub proof fn lemma_counters_stay_in_range(
    limit: int,
    output_value: int,
    ticks: int,
    tocks: int,
    open_after_ticks: int,
    close_after_tocks: int,
    ticks_on_reset: int,
    tocks_on_reset: int,
    clock_stage: InputGateStage,
    reset_stage: InputGateStage,
)
    requires
        -limit <= ticks <= limit,
        -limit <= tocks <= limit,
        1 <= open_after_ticks <= limit,
        1 <= close_after_tocks <= limit,
        -limit <= ticks_on_reset <= limit,
        -limit <= tocks_on_reset <= limit,
    ensures
        ({
            let r = divided(
                output_value,
                ticks,
                tocks,
                open_after_ticks,
                close_after_tocks,
                ticks_on_reset,
                tocks_on_reset,
                clock_stage,
                reset_stage,
            );
            &&& -limit <= r.1 <= limit
            &&& -limit <= r.2 <= limit
        }),
{
}

/// A reset comes before the clock. On the reset input's rising edge nothing
/// of the output gate and the counters before the sample is left: the clock
/// is counted on a shut output and on the reloaded counters. Where that sample is
/// a rising clock edge too, the tick is counted on top of `ticks_on_reset`.
pub proof fn lemma_reset_comes_first(
    output_value: int,
    ticks: int,
    tocks: int,
    open_after_ticks: int,
    close_after_tocks: int,
    ticks_on_reset: int,
    tocks_on_reset: int,
    clock_stage: InputGateStage,
)
    ensures
        divided(
            output_value,
            ticks,
            tocks,
            open_after_ticks,
            close_after_tocks,
            ticks_on_reset,
            tocks_on_reset,
            clock_stage,
            InputGateStage::Opening,
        ) == after_clock(
            0,
            ticks_on_reset,
            tocks_on_reset,
            open_after_ticks,
            close_after_tocks,
            clock_stage,
        ),
        divided(
            output_value,
            ticks,
            tocks,
            open_after_ticks,
            close_after_tocks,
            ticks_on_reset,
            tocks_on_reset,
            InputGateStage::Opening,
            InputGateStage::Opening,
        ) == if ticks_on_reset + 1 >= open_after_ticks {
            (1int, ticks_on_reset + 1 - open_after_ticks, tocks_on_reset)
        } else {
            (0int, ticks_on_reset + 1, tocks_on_reset)
        },
{
}

/// Without a rising edge of the reset input a sample is the clock's alone.
pub proof fn lemma_clock_alone_without_reset(
    output_value: int,
    ticks: int,
    tocks: int,
    open_after_ticks: int,
    close_after_tocks: int,
    ticks_on_reset: int,
    tocks_on_reset: int,
    clock_stage: InputGateStage,
    reset_stage: InputGateStage,
)
    requires
        !(reset_stage is Opening),
    ensures
        divided(
            output_value,
            ticks,
            tocks,
            open_after_ticks,
            close_after_tocks,
            ticks_on_reset,
            tocks_on_reset,
            clock_stage,
            reset_stage,
        ) == after_clock(
            output_value,
            ticks,
            tocks,
            open_after_ticks,
            close_after_tocks,
            clock_stage,
        ),
{
}

/// The number of rising edges among the stages that a clock went through.
pub open spec fn rising_edges(clock_stages: Seq<InputGateStage>) -> nat
    decreases clock_stages.len(),
{
    if clock_stages.len() == 0 {
        0
    } else {
        rising_edges(clock_stages.drop_last()) + if clock_stages.last() is Opening {
            1nat
        } else {
            0nat
        }
    }
}

/// The output gate and the counters after the clock has gone through
/// `clock_stages`, one sample each, with no reset and the same thresholds
/// throughout.
pub open spec fn after_clock_stages(
    output_value: int,
    ticks: int,
    tocks: int,
    open_after_ticks: int,
    close_after_tocks: int,
    clock_stages: Seq<InputGateStage>,
) -> (int, int, int)
    decreases clock_stages.len(),
{
    if clock_stages.len() == 0 {
        (output_value, ticks, tocks)
    } else {
        let (output_value, ticks, tocks) = after_clock_stages(
            output_value,
            ticks,
            tocks,
            open_after_ticks,
            close_after_tocks,
            clock_stages.drop_last(),
        );
        after_clock(
            output_value,
            ticks,
            tocks,
            open_after_ticks,
            close_after_tocks,
            clock_stages.last(),
        )
    }
}

/// A shut output with no ticks counted opens on the rising clock edge that
/// is the `open_after_ticks`-th, however many samples pass meanwhile: as long
/// as fewer rising edges have come the output is shut and the ticks are
/// their number, and the edge that completes the count opens the output and
/// leaves no tick over.
pub proof fn lemma_opens_on_the_last_tick(
    tocks: int,
    open_after_ticks: int,
    close_after_tocks: int,
    clock_stages: Seq<InputGateStage>,
)
    requires
        rising_edges(clock_stages) < open_after_ticks,
    ensures
        after_clock_stages(0, 0, tocks, open_after_ticks, close_after_tocks, clock_stages) == (
            0int,
            rising_edges(clock_stages) as int,
            tocks,
        ),
        rising_edges(clock_stages) + 1 == open_after_ticks ==> after_clock_stages(
            0,
            0,
            tocks,
            open_after_ticks,
            close_after_tocks,
            clock_stages.push(InputGateStage::Opening),
        ) == (1int, 0int, tocks),
    decreases clock_stages.len(),
{
    if clock_stages.len() > 0 {
        lemma_opens_on_the_last_tick(
            tocks,
            open_after_ticks,
            close_after_tocks,
            clock_stages.drop_last(),
        );
    }
    let longer = clock_stages.push(InputGateStage::Opening);
    assert(longer.drop_last() =~= clock_stages);
}

} // verus!
