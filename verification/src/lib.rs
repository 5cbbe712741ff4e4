mod attention;
mod mask;
mod multihead;
mod shape;

pub use attention::Head;
pub use attention::HeadConfig;
pub use attention::PPM_SCALE;
pub use attention::lemma_causality;
pub use attention::lemma_head_dropout_no_op;
pub use attention::lemma_row_support;
pub use attention::lemma_single_position;
pub use attention::same_but_dropout;
pub use mask::CausalMask;
pub use multihead::MultiHeadAttention;
pub use multihead::MultiHeadAttentionConfig;
pub use multihead::lemma_dropout_no_op;
pub use multihead::lemma_head_order_irrelevant;
pub use shape::Shape3;
pub use shape::ShapeError;
