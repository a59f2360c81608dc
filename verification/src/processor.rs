//! The clock divider itself: six parameter buffers, the two edge detectors,
//! the counters, and the loop that processes one block of samples.

use vstd::prelude::*;
use crate::divider::{
    divide_clock_ticks, divided, lemma_counters_stay_in_range, lemma_output_is_gate_level,
};
use crate::gate::InputGateStage;
use crate::parameter::{
    fits_quantum, get_parameter, lemma_clamped_in_range, parameter_value, raw_parameter,
    MIN_THRESHOLD, PARAMETER_LIMIT,
};

verus! {

/// One of the two gate inputs.
#[derive(Copy, Clone, PartialEq, Eq, Debug, Structural)]
pub enum GateInput {
    Clock,
    Reset,
}

/// A change of level on a gate input: `active` is the level it changed to.
#[derive(Copy, Clone, PartialEq, Eq, Debug, Structural)]
pub struct GateEdge {
    pub input: GateInput,
    pub active: bool,
}

/// One of the six parameters that are given per block.
#[derive(Copy, Clone, PartialEq, Eq, Debug, Structural)]
pub enum Parameter {
    ClockGate,
    ResetGate,
    OpenAfterTicks,
    CloseAfterTocks,
    TicksOnReset,
    TocksOnReset,
}

/// A clock divider for blocks of a fixed number of samples.
pub struct ClockDivider {
    clock_gate: Vec<i64>,
    reset_gate: Vec<i64>,
    open_after_ticks: Vec<i64>,
    close_after_tocks: Vec<i64>,
    ticks_on_reset: Vec<i64>,
    tocks_on_reset: Vec<i64>,
    render_quantum_samples: usize,
    output: Vec<i64>,
    ticks: i64,
    tocks: i64,
    clock_gate_stage: InputGateStage,
    reset_gate_stage: InputGateStage,
    output_gate: i64,
    edges: Vec<GateEdge>,
}

/// What a [`ClockDivider`] holds, as mathematical values.
pub ghost struct ClockDividerView {
    pub clock_gate: Seq<i64>,
    pub reset_gate: Seq<i64>,
    pub open_after_ticks: Seq<i64>,
    pub close_after_tocks: Seq<i64>,
    pub ticks_on_reset: Seq<i64>,
    pub tocks_on_reset: Seq<i64>,
    pub render_quantum_samples: nat,
    pub output: Seq<int>,
    pub ticks: int,
    pub tocks: int,
    pub clock_gate_stage: InputGateStage,
    pub reset_gate_stage: InputGateStage,
    pub output_gate: int,
    pub edges: Seq<GateEdge>,
}

/// The values of a buffer of samples.
pub open spec fn sample_values(samples: Seq<i64>) -> Seq<int> {
    samples.map_values(|value: i64| value as int)
}

/// Whether `level` is one that the output gate takes: 0, shut, or 1, open.
pub open spec fn is_gate_level(level: int) -> bool {
    level == 0 || level == 1
}

/// The edges that one sample raises on one input: the one notification, if
/// there is one.
pub open spec fn edges_raised(input: GateInput, notification: Option<bool>) -> Seq<GateEdge> {
    match notification {
        Some(active) => seq![GateEdge { input, active }],
        None => Seq::empty(),
    }
}

impl ClockDividerView {
    /// The state of a divider that has processed nothing yet.
    pub open spec fn initial(render_quantum_samples: nat) -> ClockDividerView {
        ClockDividerView {
            clock_gate: Seq::empty(),
            reset_gate: Seq::empty(),
            open_after_ticks: Seq::empty(),
            close_after_tocks: Seq::empty(),
            ticks_on_reset: Seq::empty(),
            tocks_on_reset: Seq::empty(),
            render_quantum_samples,
            output: Seq::new(render_quantum_samples, |i: int| 0int),
            ticks: 0,
            tocks: 0,
            clock_gate_stage: InputGateStage::Closed,
            reset_gate_stage: InputGateStage::Closed,
            output_gate: 0,
            edges: Seq::empty(),
        }
    }

    /// The invariant of a divider: each parameter buffer can be read at every
    /// sample of a block, the output holds one gate level for each sample,
    /// and the counters are within the limit of the parameters.
    pub open spec fn wf(self) -> bool {
        &&& fits_quantum(self.clock_gate.len(), self.render_quantum_samples)
        &&& fits_quantum(self.reset_gate.len(), self.render_quantum_samples)
        &&& fits_quantum(self.open_after_ticks.len(), self.render_quantum_samples)
        &&& fits_quantum(self.close_after_tocks.len(), self.render_quantum_samples)
        &&& fits_quantum(self.ticks_on_reset.len(), self.render_quantum_samples)
        &&& fits_quantum(self.tocks_on_reset.len(), self.render_quantum_samples)
        &&& self.output.len() == self.render_quantum_samples
        &&& forall|i: int| 0 <= i < self.output.len() ==> is_gate_level(#[trigger] self.output[i])
        &&& is_gate_level(self.output_gate)
        &&& -PARAMETER_LIMIT <= self.ticks <= PARAMETER_LIMIT
        &&& -PARAMETER_LIMIT <= self.tocks <= PARAMETER_LIMIT
    }

    /// The buffer of one parameter.
    pub open spec fn parameter(self, parameter: Parameter) -> Seq<i64> {
        match parameter {
            Parameter::ClockGate => self.clock_gate,
            Parameter::ResetGate => self.reset_gate,
            Parameter::OpenAfterTicks => self.open_after_ticks,
            Parameter::CloseAfterTocks => self.close_after_tocks,
            Parameter::TicksOnReset => self.ticks_on_reset,
            Parameter::TocksOnReset => self.tocks_on_reset,
        }
    }

    /// This state with the buffer of one parameter replaced.
    pub open spec fn with_parameter(self, parameter: Parameter, values: Seq<i64>) -> ClockDividerView {
        match parameter {
            Parameter::ClockGate => ClockDividerView { clock_gate: values, ..self },
            Parameter::ResetGate => ClockDividerView { reset_gate: values, ..self },
            Parameter::OpenAfterTicks => ClockDividerView { open_after_ticks: values, ..self },
            Parameter::CloseAfterTocks => ClockDividerView { close_after_tocks: values, ..self },
            Parameter::TicksOnReset => ClockDividerView { ticks_on_reset: values, ..self },
            Parameter::TocksOnReset => ClockDividerView { tocks_on_reset: values, ..self },
        }
    }

    /// This state with no edge recorded.
    pub open spec fn without_edges(self) -> ClockDividerView {
        ClockDividerView { edges: Seq::empty(), ..self }
    }

    /// The least value that a parameter is clamped to.
    pub open spec fn lower_bound(parameter: Parameter) -> int {
        match parameter {
            Parameter::OpenAfterTicks | Parameter::CloseAfterTocks => MIN_THRESHOLD as int,
            _ => -PARAMETER_LIMIT,
        }
    }

    /// The value of a parameter at one sample of the block.
    pub open spec fn value_at(self, parameter: Parameter, index: int) -> int {
        parameter_value(
            self.parameter(parameter),
            Self::lower_bound(parameter),
            PARAMETER_LIMIT as int,
            index,
        )
    }

    /// The state after the sample at `index` has been processed: both edge
    /// detectors have seen their sample, the edges that they raised are
    /// recorded, the clock's before the reset's, and the divider has run on
    /// the stages that they reached.
    pub open spec fn step(self, index: int) -> ClockDividerView {
        let clock_active = self.value_at(Parameter::ClockGate, index) > 0;
        let reset_active = self.value_at(Parameter::ResetGate, index) > 0;
        let clock_gate_stage = self.clock_gate_stage.next(clock_active);
        let reset_gate_stage = self.reset_gate_stage.next(reset_active);
        let (output_gate, ticks, tocks) = divided(
            self.output_gate,
            self.ticks,
            self.tocks,
            self.value_at(Parameter::OpenAfterTicks, index),
            self.value_at(Parameter::CloseAfterTocks, index),
            self.value_at(Parameter::TicksOnReset, index),
            self.value_at(Parameter::TocksOnReset, index),
            clock_gate_stage,
            reset_gate_stage,
        );
        ClockDividerView {
            output: self.output.update(index, output_gate),
            ticks,
            tocks,
            clock_gate_stage,
            reset_gate_stage,
            output_gate,
            edges: self.edges + edges_raised(
                GateInput::Clock,
                self.clock_gate_stage.edge(clock_active),
            ) + edges_raised(GateInput::Reset, self.reset_gate_stage.edge(reset_active)),
            ..self
        }
    }

    /// The state after the first `samples` samples of the block have been
    /// processed, in order.
    pub open spec fn run(self, samples: nat) -> ClockDividerView
        decreases samples,
    {
        if samples == 0 {
            self
        } else {
            self.run((samples - 1) as nat).step(samples - 1)
        }
    }

    /// One sample keeps the invariant.
    pub proof fn lemma_step_keeps_wf(self, index: int)
        requires
            self.wf(),
            0 <= index < self.render_quantum_samples,
        ensures
            self.step(index).wf(),
    {
        let next = self.step(index);
        let open_after_ticks = self.value_at(Parameter::OpenAfterTicks, index);
        let close_after_tocks = self.value_at(Parameter::CloseAfterTocks, index);
        let ticks_on_reset = self.value_at(Parameter::TicksOnReset, index);
        let tocks_on_reset = self.value_at(Parameter::TocksOnReset, index);
        lemma_output_is_gate_level(
            self.output_gate,
            self.ticks,
            self.tocks,
            open_after_ticks,
            close_after_tocks,
            ticks_on_reset,
            tocks_on_reset,
            next.clock_gate_stage,
            next.reset_gate_stage,
        );
        lemma_counters_stay_in_range(
            PARAMETER_LIMIT as int,
            self.output_gate,
            self.ticks,
            self.tocks,
            open_after_ticks,
            close_after_tocks,
            ticks_on_reset,
            tocks_on_reset,
            next.clock_gate_stage,
            next.reset_gate_stage,
        );
        assert forall|i: int| 0 <= i < next.output.len() implies is_gate_level(
            #[trigger] next.output[i],
        ) by {
            if i != index {
                assert(next.output[i] == self.output[i]);
            }
        }
    }

    /// Any number of samples of a block keeps the invariant: in particular
    /// the output gate, and the output at every sample, is 0 or 1 throughout.
    pub proof fn lemma_run_keeps_wf(self, samples: nat)
        requires
            self.wf(),
            samples <= self.render_quantum_samples,
        ensures
            self.run(samples).wf(),
            self.run(samples).render_quantum_samples == self.render_quantum_samples,
        decreases samples,
    {
        if samples > 0 {
            self.lemma_run_keeps_wf((samples - 1) as nat);
            self.run((samples - 1) as nat).lemma_step_keeps_wf(samples - 1);
        }
    }

    /// A block overwrites the output in full: after `samples` samples the
    /// output at each of them is the level that the output gate had when that
    /// sample had been processed.
    pub proof fn lemma_output_holds_each_level(self, samples: nat, index: int)
        requires
            self.wf(),
            samples <= self.render_quantum_samples,
            0 <= index < samples,
        ensures
            self.run(samples).output[index] == self.run((index + 1) as nat).output_gate,
        decreases samples,
    {
        self.lemma_run_keeps_wf((samples - 1) as nat);
        if index < samples - 1 {
            self.lemma_output_holds_each_level((samples - 1) as nat, index);
        }
    }

    /// Processing samples leaves the parameter buffers and the block size as
    /// they are.
    pub proof fn lemma_run_keeps_parameters(self, samples: nat)
        ensures
            ({
                let end = self.run(samples);
                &&& end.render_quantum_samples == self.render_quantum_samples
                &&& forall|parameter: Parameter| #[trigger]
                    end.parameter(parameter) == self.parameter(parameter)
            }),
        decreases samples,
    {
        if samples > 0 {
            self.lemma_run_keeps_parameters((samples - 1) as nat);
            let before = self.run((samples - 1) as nat);
            assert forall|parameter: Parameter| #[trigger]
                self.run(samples).parameter(parameter) == self.parameter(parameter) by {
                assert(before.parameter(parameter) == self.parameter(parameter));
            }
        }
    }

    /// Whether the edges recorded from position `from` on include none of
    /// `input` at the level `active`.
    pub open spec fn raised_no(self, from: int, input: GateInput, active: bool) -> bool {
        forall|j: int|
            from <= j < self.edges.len() ==> #[trigger] self.edges[j] != (GateEdge { input, active })
    }

    /// A clock that is held active is silent and counts nothing. Where the
    /// clock input is active and each of the next `samples` samples of the
    /// clock is greater than zero, the clock input is still active afterwards
    /// and none of the edges raised meanwhile is the clock's. If none of them
    /// is a rising edge of the reset either, the output gate, the ticks and
    /// the tocks are what they were.
    pub proof fn lemma_held_clock_counts_nothing(self, samples: nat)
        requires
            self.wf(),
            samples <= self.render_quantum_samples,
            self.clock_gate_stage.is_active(),
            forall|i: int| 0 <= i < samples ==> self.value_at(Parameter::ClockGate, i) > 0,
        ensures
            ({
                let end = self.run(samples);
                let from = self.edges.len() as int;
                &&& end.clock_gate_stage.is_active()
                &&& samples > 0 ==> end.clock_gate_stage is Open
                &&& from <= end.edges.len()
                &&& end.edges.subrange(0, from) == self.edges
                &&& end.raised_no(from, GateInput::Clock, true)
                &&& end.raised_no(from, GateInput::Clock, false)
                &&& end.raised_no(from, GateInput::Reset, true) ==> {
                    &&& end.output_gate == self.output_gate
                    &&& end.ticks == self.ticks
                    &&& end.tocks == self.tocks
                }
            }),
        decreases samples,
    {
        let from = self.edges.len() as int;
        if samples == 0 {
            assert(self.edges.subrange(0, from) =~= self.edges);
        } else {
            let before = self.run((samples - 1) as nat);
            let end = self.run(samples);
            self.lemma_held_clock_counts_nothing((samples - 1) as nat);
            assert(before.clock_gate == self.clock_gate) by {
                self.lemma_run_keeps_parameters((samples - 1) as nat);
            }
            assert(before.value_at(Parameter::ClockGate, samples - 1) == self.value_at(
                Parameter::ClockGate,
                samples - 1,
            ));
            assert(end.edges.subrange(0, from) =~= self.edges) by {
                assert(before.edges.subrange(0, from) == self.edges);
            }
            assert forall|j: int| from <= j < before.edges.len() implies end.edges[j]
                == before.edges[j] by {}
            if end.raised_no(from, GateInput::Reset, true) {
                assert forall|j: int| from <= j < before.edges.len() implies #[trigger] before.edges[j]
                    != (GateEdge { input: GateInput::Reset, active: true }) by {
                    assert(end.edges[j] == before.edges[j]);
                }
                if end.reset_gate_stage is Opening {
                    let last = end.edges.len() - 1;
                    assert(end.edges[last] == GateEdge { input: GateInput::Reset, active: true });
                }
            }
        }
    }
}

impl View for ClockDivider {
    type V = ClockDividerView;

    closed spec fn view(&self) -> ClockDividerView {
        ClockDividerView {
            clock_gate: self.clock_gate@,
            reset_gate: self.reset_gate@,
            open_after_ticks: self.open_after_ticks@,
            close_after_tocks: self.close_after_tocks@,
            ticks_on_reset: self.ticks_on_reset@,
            tocks_on_reset: self.tocks_on_reset@,
            render_quantum_samples: self.render_quantum_samples as nat,
            output: sample_values(self.output@),
            ticks: self.ticks as int,
            tocks: self.tocks as int,
            clock_gate_stage: self.clock_gate_stage,
            reset_gate_stage: self.reset_gate_stage,
            output_gate: self.output_gate as int,
            edges: self.edges@,
        }
    }
}

/// Replaces what `buffer` holds by `values`, in place.
fn load(buffer: &mut Vec<i64>, values: &[i64])
    ensures
        final(buffer)@ == values@,
{
    buffer.clear();
    let mut index: usize = 0;
    while index < values.len()
        invariant
            index <= values.len(),
            buffer@ == values@.subrange(0, index as int),
        decreases values.len() - index,
    {
        buffer.push(values[index]);
        index = index + 1;
        assert(buffer@ =~= values@.subrange(0, index as int));
    }
    assert(values@.subrange(0, index as int) =~= values@);
}

impl ClockDivider {
    /// A divider for blocks of `render_quantum_samples` samples: both inputs
    /// closed, the counters at zero, the output gate shut and no parameter
    /// given yet.
    pub fn new(render_quantum_samples: usize) -> (r: ClockDivider)
        ensures
            r@ == ClockDividerView::initial(render_quantum_samples as nat),
            r@.wf(),
    {
        let mut output: Vec<i64> = Vec::with_capacity(render_quantum_samples);
        output.resize(render_quantum_samples, 0);
        let r = ClockDivider {
            clock_gate: Vec::with_capacity(render_quantum_samples),
            reset_gate: Vec::with_capacity(render_quantum_samples),
            open_after_ticks: Vec::with_capacity(render_quantum_samples),
            close_after_tocks: Vec::with_capacity(render_quantum_samples),
            ticks_on_reset: Vec::with_capacity(render_quantum_samples),
            tocks_on_reset: Vec::with_capacity(render_quantum_samples),
            render_quantum_samples,
            output,
            ticks: 0,
            tocks: 0,
            clock_gate_stage: InputGateStage::Closed,
            reset_gate_stage: InputGateStage::Closed,
            output_gate: 0,
            edges: Vec::new(),
        };
        assert(r@.output =~= ClockDividerView::initial(render_quantum_samples as nat).output);
        r
    }

    /// Gives one parameter its values for the next block: none, one for the
    /// whole block, or one for each sample.
    pub fn write_parameter(&mut self, parameter: Parameter, values: &[i64])
        requires
            old(self)@.wf(),
            fits_quantum(values@.len(), old(self)@.render_quantum_samples),
        ensures
            final(self)@ == old(self)@.with_parameter(parameter, values@),
            final(self)@.wf(),
    {
        match parameter {
            Parameter::ClockGate => load(&mut self.clock_gate, values),
            Parameter::ResetGate => load(&mut self.reset_gate, values),
            Parameter::OpenAfterTicks => load(&mut self.open_after_ticks, values),
            Parameter::CloseAfterTocks => load(&mut self.close_after_tocks, values),
            Parameter::TicksOnReset => load(&mut self.ticks_on_reset, values),
            Parameter::TocksOnReset => load(&mut self.tocks_on_reset, values),
        }
    }

    /// Processes one block: every sample in order, each as
    /// [`ClockDividerView::step`] says. Afterwards the output holds one level
    /// for each sample, and the edges are those that this block raised.
    pub fn process(&mut self)
        requires
            old(self)@.wf(),
        ensures
            final(self)@ == old(self)@.without_edges().run(old(self)@.render_quantum_samples),
            final(self)@.wf(),
    {
        self.edges.clear();
        let ghost start = self@;
        let mut sample_index: usize = 0;
        while sample_index < self.render_quantum_samples
            invariant
                start.wf(),
                start.render_quantum_samples == self.render_quantum_samples,
                sample_index <= self.render_quantum_samples,
                self@ == start.run(sample_index as nat),
                self@.wf(),
            decreases self.render_quantum_samples - sample_index,
        {
            let ghost before = self@;
            proof {
                before.lemma_step_keeps_wf(sample_index as int);
            }
            let clock_gate_value = get_parameter(
                &self.clock_gate,
                -PARAMETER_LIMIT,
                PARAMETER_LIMIT,
                sample_index,
            );
            let reset_gate_value = get_parameter(
                &self.reset_gate,
                -PARAMETER_LIMIT,
                PARAMETER_LIMIT,
                sample_index,
            );
            let (clock_gate_stage, clock_gate_changed) = self.clock_gate_stage.advance(
                clock_gate_value,
            );
            self.clock_gate_stage = clock_gate_stage;
            if let Some(active) = clock_gate_changed {
                self.edges.push(GateEdge { input: GateInput::Clock, active });
            }
            let (reset_gate_stage, reset_gate_changed) = self.reset_gate_stage.advance(
                reset_gate_value,
            );
            self.reset_gate_stage = reset_gate_stage;
            if let Some(active) = reset_gate_changed {
                self.edges.push(GateEdge { input: GateInput::Reset, active });
            }
            let open_after_ticks = get_parameter(
                &self.open_after_ticks,
                MIN_THRESHOLD,
                PARAMETER_LIMIT,
                sample_index,
            );
            let close_after_tocks = get_parameter(
                &self.close_after_tocks,
                MIN_THRESHOLD,
                PARAMETER_LIMIT,
                sample_index,
            );
            proof {
                lemma_clamped_in_range(
                    MIN_THRESHOLD as int,
                    PARAMETER_LIMIT as int,
                    raw_parameter(self.open_after_ticks@, sample_index as int),
                );
                lemma_clamped_in_range(
                    MIN_THRESHOLD as int,
                    PARAMETER_LIMIT as int,
                    raw_parameter(self.close_after_tocks@, sample_index as int),
                );
            }
            let (output, ticks, tocks) = divide_clock_ticks(
                self.output_gate,
                self.ticks,
                self.tocks,
                open_after_ticks,
                close_after_tocks,
                get_parameter(&self.ticks_on_reset, -PARAMETER_LIMIT, PARAMETER_LIMIT, sample_index),
                get_parameter(&self.tocks_on_reset, -PARAMETER_LIMIT, PARAMETER_LIMIT, sample_index),
                self.clock_gate_stage,
                self.reset_gate_stage,
            );
            self.output_gate = output;
            self.output.set(sample_index, output);
            self.ticks = ticks;
            self.tocks = tocks;
            assert(self@.edges =~= before.step(sample_index as int).edges);
            assert(self@.output =~= before.step(sample_index as int).output);
            sample_index = sample_index + 1;
        }
    }

    /// The number of samples in a block.
    pub fn render_quantum_samples(&self) -> (r: usize)
        ensures
            r == self@.render_quantum_samples,
    {
        self.render_quantum_samples
    }

    /// The output gate at each sample of the block processed last.
    pub fn output(&self) -> (r: &Vec<i64>)
        ensures
            sample_values(r@) == self@.output,
    {
        &self.output
    }

    /// The edges that the block processed last raised, in the order in which
    /// they were raised.
    pub fn edges(&self) -> (r: &Vec<GateEdge>)
        ensures
            r@ == self@.edges,
    {
        &self.edges
    }

    /// The ticks counted so far towards opening the output.
    pub fn ticks(&self) -> (r: i64)
        ensures
            r == self@.ticks,
    {
        self.ticks
    }

    /// The tocks counted so far towards shutting the output.
    pub fn tocks(&self) -> (r: i64)
        ensures
            r == self@.tocks,
    {
        self.tocks
    }

    /// The output gate after the latest sample.
    pub fn output_gate(&self) -> (r: i64)
        ensures
            r == self@.output_gate,
    {
        self.output_gate
    }

    /// The stage of the clock input after the latest sample.
    pub fn clock_gate_stage(&self) -> (r: InputGateStage)
        ensures
            r == self@.clock_gate_stage,
    {
        self.clock_gate_stage
    }

    /// The stage of the reset input after the latest sample.
    pub fn reset_gate_stage(&self) -> (r: InputGateStage)
        ensures
            r == self@.reset_gate_stage,
    {
        self.reset_gate_stage
    }
}

} // verus!
