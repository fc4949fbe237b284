//! Bend flow on a six-string roll: where a guitar part's pitch motion is
//! drawn, and how consecutive notes on one string are joined.
use vstd::prelude::*;

verus! {

/// Where the pitch motion of a guitar part gets drawn.
#[derive(Clone, Copy, Debug, PartialEq, Eq, Structural)]
pub enum BendFlow {
    /// On the string row: the line lifts off its string and comes back.
    OnRow,
    /// In a dedicated strip under the roll, on an absolute semitone
    /// axis. The roll stays a clean grid of fret numbers.
    Lane,
    /// Both at once.
    Both,
}

impl Default for BendFlow {
    fn default() -> (b: Self)
        ensures
            b == BendFlow::OnRow,
    {
        BendFlow::OnRow
    }
}

impl BendFlow {
    /// Whether the flow is drawn on the string rows.
    pub fn on_row(self) -> (b: bool)
        ensures
            b == (self == BendFlow::OnRow || self == BendFlow::Both),
    {
        matches!(self, BendFlow::OnRow | BendFlow::Both)
    }

    /// Whether the flow is drawn in the strip under the roll.
    pub fn draws_in_lane(self) -> (b: bool)
        ensures
            b == (self == BendFlow::Lane || self == BendFlow::Both),
    {
        matches!(self, BendFlow::Lane | BendFlow::Both)
    }
}

/// Every variant draws the flow somewhere, and only `Both` draws it twice.
pub proof fn every_flow_is_drawn(f: BendFlow)
    ensures
        (f == BendFlow::OnRow || f == BendFlow::Both) || (f == BendFlow::Lane || f == BendFlow::Both),
        ((f == BendFlow::OnRow || f == BendFlow::Both) && (f == BendFlow::Lane || f == BendFlow::Both))
            == (f == BendFlow::Both),
{
}

/// How two consecutive notes on one string are joined.
#[derive(Clone, Copy, Debug, PartialEq, Eq)]
pub enum JoinKind {
    /// Hammer-on / pull-off: an arc plus a letter, the way tab writes it.
    Hopo(&'static str),
    /// Slide: real, continuous, audible pitch motion between two frets.
    Slide,
}

} // verus!
