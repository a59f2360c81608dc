//! A per-sample clock divider: a gate that opens after a number of rising
//! edges of a clock input and closes after a number of its falling edges,
//! with counters that a reset input can reload.
//!
//! All sample values are whole numbers (`i64`). A gate input is active while
//! its sample is greater than zero.

pub mod divider;
pub mod gate;
pub mod parameter;
pub mod processor;

pub use divider::divide_clock_ticks;
pub use gate::InputGateStage;
pub use parameter::{clamp, get_parameter};
pub use processor::{ClockDivider, ClockDividerView, GateEdge, GateInput, Parameter};
