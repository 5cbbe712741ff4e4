use vstd::prelude::*;

use crate::attention::Head;
use crate::attention::HeadConfig;
use crate::attention::PPM_SCALE;
use crate::attention::same_but_dropout;
use crate::shape::Shape3;
use crate::shape::ShapeError;

verus! {

/// Configuration of the multi-head unit, fixed before construction.
pub struct MultiHeadAttentionConfig {
    /// Number of heads to build.
    pub n_layer: usize,
    /// Expected head count: it fixes the input width of the output
    /// projection at `head_size * n_head`.
    pub n_head: usize,
    /// Width each head contributes to the concatenated features.
    pub head_size: usize,
    /// Embedding width the output projection maps back to.
    pub n_embd: usize,
    /// Dropout probability, in parts per million.
    pub dropout_ppm: u32,
}

impl MultiHeadAttentionConfig {
    /// A usable configuration: at least one head, a dropout probability of at
    /// most one, and a projection input width that fits the machine.
    pub open spec fn wf(&self) -> bool {
        &&& self.n_layer >= 1
        &&& self.dropout_ppm <= PPM_SCALE
        &&& self.head_size * self.n_head <= usize::MAX
    }

    /// Build `n_layer` independent heads from `head_config` and fix the
    /// output projection at `head_size * n_head` input features. Fails, at
    /// construction and before any forward call, exactly when the width of
    /// the concatenated head outputs would miss that input width.
    pub fn init(&self, head_config: &HeadConfig) -> (r: Result<MultiHeadAttention, ShapeError>)
        requires
            self.wf(),
            head_config.wf(),
            head_config.n_embd == self.n_embd,
            head_config.head_size * self.n_layer <= usize::MAX,
        ensures
            r is Ok <==> head_config.head_size * self.n_layer == self.head_size * self.n_head,
            r is Err ==> r->Err_0 == ShapeError::HeadWidthMismatch,
            r is Ok ==> ({
                let m = r->Ok_0;
                &&& m.wf()
                &&& m.heads@.len() == self.n_layer
                &&& forall|k: int|
                    0 <= k < self.n_layer ==> (#[trigger] m.heads@[k]).matches_config(*head_config)
                &&& m.n_embd == self.n_embd
                &&& m.proj_in == self.head_size * self.n_head
                &&& m.dropout_ppm == self.dropout_ppm
            }),
    {
        let proj_in = self.head_size * self.n_head;
        let concat_width = head_config.head_size * self.n_layer;
        if concat_width != proj_in {
            return Err(ShapeError::HeadWidthMismatch);
        }
        let mut heads: Vec<Head> = Vec::new();
        let mut k: usize = 0;
        while k < self.n_layer
            invariant
                k <= self.n_layer,
                heads@.len() == k,
                head_config.wf(),
                forall|t: int| 0 <= t < k ==> (#[trigger] heads@[t]).wf(),
                forall|t: int| 0 <= t < k ==> (#[trigger] heads@[t]).matches_config(*head_config),
            decreases self.n_layer - k,
        {
            heads.push(head_config.init());
            k = k + 1;
        }
        let m = MultiHeadAttention {
            heads,
            proj_in,
            n_embd: self.n_embd,
            dropout_ppm: self.dropout_ppm,
        };
        proof {
            assert(m.heads@[0].matches_config(*head_config));
            assert(m.heads@.len() * m.heads@[0].head_size == head_config.head_size
                * self.n_layer) by (nonlinear_arith)
                requires
                    m.heads@.len() == self.n_layer,
                    m.heads@[0].head_size == head_config.head_size,
            ;
        }
        Ok(m)
    }
}

/// The multi-head unit: an ordered collection of independent attention
/// heads, an output projection from the concatenated head outputs back to
/// the embedding width, and a dropout probability. The projection's weights
/// live with the tensor engine; the unit owns the head collection and the
/// widths the forward pass is checked against.
pub struct MultiHeadAttention {
    pub heads: Vec<Head>,
    /// Input width of the output projection, fixed at construction.
    pub proj_in: usize,
    /// Output width of the output projection: the embedding width.
    pub n_embd: usize,
    /// Dropout probability, in parts per million.
    pub dropout_ppm: u32,
}

impl MultiHeadAttention {
    /// Well-formed: at least one head; every head well-formed, reading the
    /// unit's embedding width and agreeing with its fellows on width and
    /// context size; and the concatenated width equal to the projection's
    /// input width — the construction-time invariant that makes every
    /// accepted forward call fit the projection.
    pub open spec fn wf(&self) -> bool {
        &&& self.heads@.len() >= 1
        &&& forall|k: int| 0 <= k < self.heads@.len() ==> (#[trigger] self.heads@[k]).wf()
        &&& forall|k: int|
            0 <= k < self.heads@.len() ==> (#[trigger] self.heads@[k]).n_embd == self.n_embd
        &&& forall|k: int|
            0 <= k < self.heads@.len() ==> (#[trigger] self.heads@[k]).head_size
                == self.heads@[0].head_size
        &&& forall|k: int|
            0 <= k < self.heads@.len() ==> (#[trigger] self.heads@[k]).block_size
                == self.heads@[0].block_size
        &&& self.proj_in == self.heads@.len() * self.heads@[0].head_size
    }

    /// The number of heads whose outputs are concatenated.
    pub fn head_count(&self) -> (n: usize)
        ensures
            n == self.heads@.len(),
    {
        self.heads.len()
    }

    /// What a forward call returns on an input of shape `x`: the verdict of
    /// the heads (they all share one configuration), then the projection
    /// back to the embedding width.
    pub open spec fn spec_forward(&self, x: Shape3) -> Result<Shape3, ShapeError> {
        match self.heads@[0].spec_forward(x) {
            Ok(_) => Ok(Shape3 { batch: x.batch, time: x.time, channels: self.n_embd }),
            Err(e) => Err(e),
        }
    }

    /// The shape half of the unit's forward pass: every head sees the same
    /// input; their outputs, concatenated, fill exactly the projection's
    /// input width; and the projection returns the input shape unchanged —
    /// shape preservation, which is what lets an enclosing block add the
    /// result back onto its input.
    pub fn forward(&self, x: Shape3) -> (r: Result<Shape3, ShapeError>)
        requires
            self.wf(),
        ensures
            r == self.spec_forward(x),
            r is Ok <==> (x.channels == self.n_embd && x.time <= self.heads@[0].block_size),
            r is Ok ==> r->Ok_0 == x,
            x.channels != self.n_embd ==> r == Err::<Shape3, ShapeError>(
                ShapeError::ChannelMismatch,
            ),
            x.channels == self.n_embd && x.time > self.heads@[0].block_size ==> r == Err::<
                Shape3,
                ShapeError,
            >(ShapeError::TimeExceedsBlock),
    {
        let mut concat_width: usize = 0;
        let mut k: usize = 0;
        while k < self.heads.len()
            invariant
                self.wf(),
                k <= self.heads@.len(),
                concat_width == k * self.heads@[0].head_size,
                k > 0 ==> (x.channels == self.n_embd && x.time <= self.heads@[0].block_size),
            decreases self.heads@.len() - k,
        {
            let s = match self.heads[k].forward(x) {
                Ok(s) => s,
                Err(e) => {
                    proof {
                        assert(self.heads@[k as int].spec_forward(x) == self.heads@[0].spec_forward(
                            x,
                        ));
                    }
                    return Err(e);
                },
            };
            proof {
                assert(concat_width + s.channels == (k + 1) * self.heads@[0].head_size
                    && (k + 1) * self.heads@[0].head_size <= self.heads@.len()
                    * self.heads@[0].head_size) by (nonlinear_arith)
                    requires
                        concat_width == k * self.heads@[0].head_size,
                        s.channels == self.heads@[0].head_size,
                        k + 1 <= self.heads@.len(),
                        self.heads@[0].head_size >= 0,
                ;
            }
            concat_width = concat_width + s.channels;
            k = k + 1;
        }
        // the construction-time invariant pays off: the concatenation fills
        // the projection's input width exactly, on every accepted input
        assert(concat_width == self.proj_in);
        Ok(Shape3 { batch: x.batch, time: x.time, channels: self.n_embd })
    }
}

/// Dropout inference no-op, as far as the core's own logic reaches: a unit
/// with dropout probability `p > 0` accepts the same inputs and computes the
/// same forward result as the same unit with `p == 0`. The stochastic
/// zeroing itself lives in the external dropout primitive, which is a
/// pass-through at inference.
pub proof fn lemma_dropout_no_op(a: &MultiHeadAttention, b: &MultiHeadAttention, x: Shape3)
    requires
        a.heads@.len() >= 1,
        a.heads@.len() == b.heads@.len(),
        forall|k: int|
            0 <= k < a.heads@.len() ==> same_but_dropout(
                #[trigger] a.heads@[k],
                #[trigger] b.heads@[k],
            ),
        a.n_embd == b.n_embd,
        a.proj_in == b.proj_in,
    ensures
        a.spec_forward(x) == b.spec_forward(x),
{
    assert(same_but_dropout(a.heads@[0], b.heads@[0]));
}

/// Head independence: a unit whose heads are the same heads in another order
/// is itself well-formed and computes the same forward result. The matching
/// permutation of the output projection's input weights is the tensor
/// engine's side of the property; the width it must respect is pinned by
/// `proj_in`.
pub proof fn lemma_head_order_irrelevant(a: &MultiHeadAttention, b: &MultiHeadAttention, x: Shape3)
    requires
        a.wf(),
        a.heads@.to_multiset() == b.heads@.to_multiset(),
        a.n_embd == b.n_embd,
        a.proj_in == b.proj_in,
        a.dropout_ppm == b.dropout_ppm,
    ensures
        b.wf(),
        a.spec_forward(x) == b.spec_forward(x),
{
    broadcast use vstd::seq_lib::group_to_multiset_ensures;

    a.heads@.to_multiset_ensures();
    b.heads@.to_multiset_ensures();
    assert(b.heads@.len() == a.heads@.len());
    assert forall|k: int| 0 <= k < b.heads@.len() implies {
        &&& (#[trigger] b.heads@[k]).wf()
        &&& b.heads@[k].n_embd == b.n_embd
        &&& b.heads@[k].head_size == a.heads@[0].head_size
        &&& b.heads@[k].block_size == a.heads@[0].block_size
    } by {
        assert(b.heads@.to_multiset().count(b.heads@[k]) > 0);
        assert(a.heads@.contains(b.heads@[k]));
        let i = choose|i: int| 0 <= i < a.heads@.len() && a.heads@[i] == b.heads@[k];
        assert(a.heads@[i].wf());
    }
    assert(b.heads@[0].head_size == a.heads@[0].head_size);
    assert(b.proj_in == b.heads@.len() * b.heads@[0].head_size);
    assert(b.heads@[0].spec_forward(x) == a.heads@[0].spec_forward(x));
}

} // verus!
