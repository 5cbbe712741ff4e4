use vstd::prelude::*;

verus! {

/// The shape of a batched rank-3 activation tensor: `batch` sequences of
/// `time` positions, each carrying `channels` features.
#[derive(Clone, Copy, PartialEq, Eq, Structural, Debug)]
pub struct Shape3 {
    pub batch: usize,
    pub time: usize,
    pub channels: usize,
}

/// The dimension faults a forward call or a construction can raise. All of
/// them are shape mismatches; none is a recoverable runtime fault.
#[derive(Clone, Copy, PartialEq, Eq, Structural, Debug)]
pub enum ShapeError {
    /// The input's channel dimension differs from the configured embedding
    /// width, so the query/key/value projections do not apply.
    ChannelMismatch,
    /// The input's time dimension exceeds the configured block size, so the
    /// precomputed causal mask is too small.
    TimeExceedsBlock,
    /// The width of the concatenated head outputs differs from the input
    /// width of the output projection (a construction-time misconfiguration).
    HeadWidthMismatch,
}

} // verus!
