//! Edge detection on a gate input.

use vstd::prelude::*;

verus! {

/// Where a gate input stands in its lifecycle, as of the latest sample.
///
/// `Opening` and `Closing` last for exactly the one sample on which the
/// input's level changed; `Open` and `Closed` are the steady levels.
#[derive(Copy, Clone, PartialEq, Eq, Debug, Structural)]
pub enum InputGateStage {
    Opening,
    Open,
    Closing,
    Closed,
}

impl InputGateStage {
    /// The level of the input at the latest sample: active for `Opening` and
    /// `Open`, inactive for `Closing` and `Closed`.
    pub open spec fn is_active(self) -> bool {
        self is Opening || self is Open
    }

    /// The stage after a sample whose level is `active`.
    pub open spec fn next(self, active: bool) -> InputGateStage {
        match (self.is_active(), active) {
            (false, true) => InputGateStage::Opening,
            (true, true) => InputGateStage::Open,
            (true, false) => InputGateStage::Closing,
            (false, false) => InputGateStage::Closed,
        }
    }

    /// The notification that a sample whose level is `active` raises: the new
    /// level where it differs from the level before, nothing otherwise.
    pub open spec fn edge(self, active: bool) -> Option<bool> {
        if self.is_active() != active {
            Some(active)
        } else {
            None
        }
    }

    /// Feeds one sample to the detector. Returns the stage after it and the
    /// edge notification that it raises, if any.
    pub fn advance(self, value: i64) -> (r: (InputGateStage, Option<bool>))
        ensures
            r.0 == self.next(value > 0),
            r.1 == self.edge(value > 0),
    {
        let was_active = match self {
            InputGateStage::Opening | InputGateStage::Open => true,
            InputGateStage::Closing | InputGateStage::Closed => false,
        };
        if value > 0 {
            if was_active {
                (InputGateStage::Open, None)
            } else {
                (InputGateStage::Opening, Some(true))
            }
        } else {
            if was_active {
                (InputGateStage::Closing, Some(false))
            } else {
                (InputGateStage::Closed, None)
            }
        }
    }
}

/// After any sample the stage tells the level of that sample.
pub proof fn lemma_stage_follows_level(stage: InputGateStage, active: bool)
    ensures
        stage.next(active).is_active() == active,
{
}

/// One notification for each change of level, and none while the level is
/// held: of two samples in a row the second raises an edge exactly if its
/// level differs from the first's, and the edge tells the new level. The
/// second sample's stage is `Opening` or `Closing` on a change, `Open` or
/// `Closed` while the level is held.
pub proof fn lemma_one_edge_per_change(stage: InputGateStage, previous: bool, current: bool)
    ensures
        stage.next(previous).edge(current) == if previous != current {
            Some(current)
        } else {
            None::<bool>
        },
        stage.next(previous).next(current) == match (previous, current) {
            (false, true) => InputGateStage::Opening,
            (true, true) => InputGateStage::Open,
            (true, false) => InputGateStage::Closing,
            (false, false) => InputGateStage::Closed,
        },
{
}

/// No stage is skipped: an inactive input does not reach `Open` in one
/// sample, nor an active one `Closed`; and an edge is raised exactly on the
/// samples that reach `Opening` or `Closing`.
pub proof fn lemma_no_stage_skipped(stage: InputGateStage, active: bool)
    ensures
        !stage.is_active() ==> !(stage.next(active) is Open),
        stage.is_active() ==> !(stage.next(active) is Closed),
        stage.next(active) is Opening <==> stage.edge(active) == Some(true),
        stage.next(active) is Closing <==> stage.edge(active) == Some(false),
{
}

} // verus!
