use vstd::prelude::*;

use crate::mask::CausalMask;
use crate::shape::Shape3;
use crate::shape::ShapeError;

verus! {

/// Dropout probabilities are carried as parts per million of this scale, so
/// that the core never touches floating point; the probability itself only
/// configures the (external) dropout primitive and never enters the logic.
pub const PPM_SCALE: u32 = 1_000_000;

/// Configuration of one attention head, fixed before construction.
pub struct HeadConfig {
    /// The batch dimension the precomputed mask is broadcast over.
    pub batch_size: usize,
    /// Context size: the largest time dimension a forward call may carry.
    pub block_size: usize,
    /// Embedding width of the input (its channel dimension).
    pub n_embd: usize,
    /// Width of the query, key and value projections.
    pub head_size: usize,
    /// Dropout probability, in parts per million.
    pub dropout_ppm: u32,
}

impl HeadConfig {
    /// A usable configuration: the head has positive width and the dropout
    /// probability is at most one.
    pub open spec fn wf(&self) -> bool {
        &&& self.head_size > 0
        &&& self.dropout_ppm <= PPM_SCALE
    }

    /// Build the head: derive the causal mask for `block_size` positions and
    /// record the projection widths the forward pass is checked against.
    pub fn init(&self) -> (h: Head)
        requires
            self.wf(),
        ensures
            h.wf(),
            h.matches_config(*self),
    {
        let mask = CausalMask::new(self.block_size);
        Head {
            batch_size: self.batch_size,
            block_size: self.block_size,
            n_embd: self.n_embd,
            head_size: self.head_size,
            dropout_ppm: self.dropout_ppm,
            mask,
        }
    }
}

/// One head of causal self-attention: query, key and value projections of
/// width `head_size` over inputs of width `n_embd`, with a causal mask over
/// `block_size` positions. The projections' weights live with the tensor
/// engine; the head owns the widths, the mask and the dropout probability,
/// which is everything its masking and shape logic reads.
pub struct Head {
    pub batch_size: usize,
    pub block_size: usize,
    pub n_embd: usize,
    pub head_size: usize,
    pub dropout_ppm: u32,
    pub mask: CausalMask,
}

impl Head {
    /// Well-formed: positive head width, a causal mask of exactly
    /// `block_size` positions, and a dropout probability of at most one.
    pub open spec fn wf(&self) -> bool {
        &&& self.head_size > 0
        &&& self.dropout_ppm <= PPM_SCALE
        &&& self.mask.wf()
        &&& self.mask.spec_size() == self.block_size
    }

    /// The head carries exactly the widths and probability of `cfg`.
    pub open spec fn matches_config(&self, cfg: HeadConfig) -> bool {
        &&& self.batch_size == cfg.batch_size
        &&& self.block_size == cfg.block_size
        &&& self.n_embd == cfg.n_embd
        &&& self.head_size == cfg.head_size
        &&& self.dropout_ppm == cfg.dropout_ppm
    }

    /// What a forward call returns on an input of shape `x`: the channel
    /// dimension must match the embedding width (else the projections fail),
    /// the time dimension must fit the mask (else masking fails), and the
    /// output then has the head's width in place of the channels.
    pub open spec fn spec_forward(&self, x: Shape3) -> Result<Shape3, ShapeError> {
        if x.channels != self.n_embd {
            Err(ShapeError::ChannelMismatch)
        } else if x.time > self.block_size {
            Err(ShapeError::TimeExceedsBlock)
        } else {
            Ok(Shape3 { batch: x.batch, time: x.time, channels: self.head_size })
        }
    }

    /// The shape half of the head's forward pass: accept exactly the inputs
    /// whose projections and masking are defined, and say what comes out.
    /// The arithmetic on the accepted inputs is the tensor engine's.
    pub fn forward(&self, x: Shape3) -> (r: Result<Shape3, ShapeError>)
        ensures
            r == self.spec_forward(x),
            r is Ok <==> (x.channels == self.n_embd && x.time <= self.block_size),
            r is Ok ==> r->Ok_0 == (Shape3 {
                batch: x.batch,
                time: x.time,
                channels: self.head_size,
            }),
            x.channels != self.n_embd ==> r == Err::<Shape3, ShapeError>(
                ShapeError::ChannelMismatch,
            ),
            x.channels == self.n_embd && x.time > self.block_size ==> r == Err::<
                Shape3,
                ShapeError,
            >(ShapeError::TimeExceedsBlock),
    {
        if x.channels != self.n_embd {
            Err(ShapeError::ChannelMismatch)
        } else if x.time > self.block_size {
            Err(ShapeError::TimeExceedsBlock)
        } else {
            Ok(Shape3 { batch: x.batch, time: x.time, channels: self.head_size })
        }
    }

    /// Whether, in a sequence of `time` positions, query position `i` draws
    /// on key position `j`: the position must exist and not be masked.
    pub open spec fn spec_attends(&self, time: int, i: int, j: int) -> bool {
        &&& 0 <= j < time
        &&& !self.mask.spec_masked(i, j)
    }

    /// The square of the pre-softmax scaling divisor: raw scores are divided
    /// by the square root of the head width, so doubling `head_size` moves
    /// the divisor from the root of `h` to the root of `2 h`.
    pub fn scale_divisor_squared(&self) -> (s: usize)
        ensures
            s == self.head_size,
    {
        self.head_size
    }
}

/// Two heads that differ at most in their dropout probability.
pub open spec fn same_but_dropout(a: Head, b: Head) -> bool {
    &&& a.batch_size == b.batch_size
    &&& a.block_size == b.block_size
    &&& a.n_embd == b.n_embd
    &&& a.head_size == b.head_size
    &&& a.mask == b.mask
}

/// Dropout does not enter the head's checked logic: two heads that differ
/// only in their dropout probability accept the same inputs, return the same
/// shapes, and attend to the same positions. The stochastic zeroing itself
/// lives in the external dropout primitive, a pass-through at inference.
pub proof fn lemma_head_dropout_no_op(a: &Head, b: &Head, x: Shape3)
    requires
        same_but_dropout(*a, *b),
    ensures
        a.spec_forward(x) == b.spec_forward(x),
        forall|time: int, i: int, j: int|
            a.spec_attends(time, i, j) <==> b.spec_attends(time, i, j),
{
}

/// Causality: in any valid sequence, no query position draws on a key
/// position strictly in its future, so a perturbation at position `j` cannot
/// reach the attention output at any position `i < j`.
pub proof fn lemma_causality(h: &Head, time: int, i: int, j: int)
    requires
        h.wf(),
        0 <= i < time <= h.block_size,
        i < j,
    ensures
        !h.spec_attends(time, i, j),
{
}

/// Row support: in a sequence of `time` positions, query position `i` draws
/// on exactly the key positions `0 ..= i` — and so on exactly `i + 1` of
/// them. These are the positions the softmax row is normalized over, so its
/// weights sum to one over them.
pub proof fn lemma_row_support(h: &Head, time: int, i: int)
    requires
        h.wf(),
        0 <= i < time <= h.block_size,
    ensures
        forall|j: int| h.spec_attends(time, i, j) <==> 0 <= j <= i,
        Set::new(|j: int| h.spec_attends(time, i, j)).finite(),
        Set::new(|j: int| h.spec_attends(time, i, j)).len() == i + 1,
{
    vstd::set_lib::lemma_int_range(0, i + 1);
    assert(Set::new(|j: int| h.spec_attends(time, i, j)) =~= vstd::set_lib::set_int_range(
        0,
        i + 1,
    ));
}

/// A single position attends only to itself: with `time == 1`, position `0`
/// draws on position `0` and nothing else, so the sole attention weight is
/// the whole softmax mass and the output is that position's value vector.
pub proof fn lemma_single_position(h: &Head, j: int)
    requires
        h.wf(),
        h.block_size >= 1,
    ensures
        h.spec_attends(1, 0, j) <==> j == 0,
{
    lemma_row_support(h, 1, 0);
}

} // verus!
