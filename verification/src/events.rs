//! Messages between the core and its surroundings: reveal requests going
//! out, transition-completed reports coming back, and judged match results.

use vstd::prelude::*;

verus! {

/// Request that the card at a cell be flipped face up or face down.
#[derive(Debug, Clone, Copy, PartialEq, Eq, Structural)]
pub struct CardFlipRequested {
    pub entity: usize,
    pub target_face_up: bool,
}

/// The reveal transition of one cell has finished.
#[derive(Debug, Clone, Copy, PartialEq, Eq, Structural)]
pub struct FlipAnimationComplete {
    pub entity: usize,
}

/// The judged outcome of two revealed cells.
#[derive(Debug, Clone, Copy, PartialEq, Eq, Structural)]
pub struct MatchResult {
    pub matched: bool,
    pub first: usize,
    pub second: usize,
}

/// What resolving a judged pair led to.
#[derive(Debug, Clone, Copy, PartialEq, Eq, Structural)]
pub enum MatchOutcome {
    /// The result did not belong to the current judging cycle; nothing
    /// changed.
    Rejected,
    /// A pair was matched and the same owner keeps the turn.
    Continue,
    /// A pair was matched and it was the last one: the round is over.
    RoundEnded { human_score: u32, cpu_score: u32 },
    /// No match: both cards are being hidden again before the turn
    /// passes.
    Mismatch(CardFlipRequested, CardFlipRequested),
}

} // verus!
