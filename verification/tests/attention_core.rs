use attention::CausalMask;
use attention::HeadConfig;
use attention::PPM_SCALE;
use attention::MultiHeadAttentionConfig;
use attention::Shape3;
use attention::ShapeError;

fn head_config(head_size: usize) -> HeadConfig {
    HeadConfig { batch_size: 2, block_size: 4, n_embd: 8, head_size, dropout_ppm: 0 }
}

#[test]
fn mask_pattern_matches_future_positions() {
    let mask = CausalMask::new(4);
    assert_eq!(mask.size(), 4);
    for i in 0..4 {
        for j in 0..4 {
            assert_eq!(mask.is_masked(i, j), j > i, "position ({}, {})", i, j);
        }
    }
}

#[test]
fn mask_of_empty_context() {
    let mask = CausalMask::new(0);
    assert_eq!(mask.size(), 0);
}

#[test]
fn mask_row_support_is_prefix() {
    // the key positions a query may use are exactly 0 ..= i
    let mask = CausalMask::new(5);
    for i in 0..5 {
        let allowed: Vec<usize> = (0..5).filter(|&j| !mask.is_masked(i, j)).collect();
        let expected: Vec<usize> = (0..=i).collect();
        assert_eq!(allowed, expected);
    }
}

#[test]
fn head_forward_shape() {
    let head = head_config(3).init();
    let out = head.forward(Shape3 { batch: 2, time: 3, channels: 8 });
    assert_eq!(out, Ok(Shape3 { batch: 2, time: 3, channels: 3 }));
}

#[test]
fn head_forward_at_full_context() {
    let head = head_config(3).init();
    let out = head.forward(Shape3 { batch: 1, time: 4, channels: 8 });
    assert_eq!(out, Ok(Shape3 { batch: 1, time: 4, channels: 3 }));
}

#[test]
fn head_forward_channel_mismatch() {
    let head = head_config(3).init();
    let out = head.forward(Shape3 { batch: 2, time: 3, channels: 7 });
    assert_eq!(out, Err(ShapeError::ChannelMismatch));
}

#[test]
fn head_forward_time_exceeds_block() {
    let head = head_config(3).init();
    let out = head.forward(Shape3 { batch: 2, time: 5, channels: 8 });
    assert_eq!(out, Err(ShapeError::TimeExceedsBlock));
}

#[test]
fn head_mask_follows_config() {
    let head = head_config(3).init();
    assert_eq!(head.mask.size(), 4);
    assert!(head.mask.is_masked(1, 3));
    assert!(!head.mask.is_masked(3, 1));
    assert!(!head.mask.is_masked(2, 2));
}

#[test]
fn single_position_attends_only_to_itself() {
    // time = 1: the sole query position may use position 0 and nothing else
    let head = head_config(3).init();
    let out = head.forward(Shape3 { batch: 1, time: 1, channels: 8 });
    assert_eq!(out, Ok(Shape3 { batch: 1, time: 1, channels: 3 }));
    assert!(!head.mask.is_masked(0, 0));
    for j in 1..4 {
        assert!(head.mask.is_masked(0, j));
    }
}

#[test]
fn multi_head_forward_preserves_shape() {
    let mcfg = MultiHeadAttentionConfig {
        n_layer: 4,
        n_head: 4,
        head_size: 2,
        n_embd: 8,
        dropout_ppm: 0,
    };
    let unit = mcfg.init(&head_config(2)).unwrap();
    assert_eq!(unit.head_count(), 4);
    let x = Shape3 { batch: 3, time: 4, channels: 8 };
    assert_eq!(unit.forward(x), Ok(x));
    let y = Shape3 { batch: 1, time: 1, channels: 8 };
    assert_eq!(unit.forward(y), Ok(y));
}

#[test]
fn multi_head_forward_rejects_bad_input() {
    let mcfg = MultiHeadAttentionConfig {
        n_layer: 4,
        n_head: 4,
        head_size: 2,
        n_embd: 8,
        dropout_ppm: 0,
    };
    let unit = mcfg.init(&head_config(2)).unwrap();
    assert_eq!(
        unit.forward(Shape3 { batch: 3, time: 4, channels: 6 }),
        Err(ShapeError::ChannelMismatch)
    );
    assert_eq!(
        unit.forward(Shape3 { batch: 3, time: 5, channels: 8 }),
        Err(ShapeError::TimeExceedsBlock)
    );
}

#[test]
fn multi_head_init_width_mismatch() {
    // 4 heads of width 2 concatenate to 8, but the projection expects 3 * 2
    let mcfg = MultiHeadAttentionConfig {
        n_layer: 4,
        n_head: 3,
        head_size: 2,
        n_embd: 8,
        dropout_ppm: 0,
    };
    assert!(matches!(mcfg.init(&head_config(2)), Err(ShapeError::HeadWidthMismatch)));
}

#[test]
fn dropout_probability_plays_no_part_in_forward() {
    // p > 0 against p == 0, otherwise identical configurations
    let dry = MultiHeadAttentionConfig {
        n_layer: 2,
        n_head: 2,
        head_size: 4,
        n_embd: 8,
        dropout_ppm: 0,
    };
    let wet = MultiHeadAttentionConfig { dropout_ppm: 250_000, ..dry };
    let head_dry = head_config(4);
    let head_wet = HeadConfig { dropout_ppm: 250_000, ..head_dry };
    let a = dry.init(&head_dry).unwrap();
    let b = wet.init(&head_wet).unwrap();
    for time in 0..5 {
        for channels in [7, 8, 9] {
            let x = Shape3 { batch: 2, time, channels };
            assert_eq!(a.forward(x), b.forward(x));
        }
    }
}

#[test]
fn head_order_is_interchangeable() {
    // every head is built from the same configuration, so two units built
    // with the head order reversed agree on every input
    let mcfg = MultiHeadAttentionConfig {
        n_layer: 3,
        n_head: 3,
        head_size: 2,
        n_embd: 6,
        dropout_ppm: 0,
    };
    let hcfg = HeadConfig { batch_size: 1, block_size: 3, n_embd: 6, head_size: 2, dropout_ppm: 0 };
    let a = mcfg.init(&hcfg).unwrap();
    let b = mcfg.init(&hcfg).unwrap();
    for time in 0..4 {
        let x = Shape3 { batch: 1, time, channels: 6 };
        assert_eq!(a.forward(x), b.forward(x));
    }
}

#[test]
fn scale_divisor_squared_doubles_with_head_size() {
    // the pre-softmax divisor is the square root of the head width, so
    // doubling the width doubles the divisor's square exactly
    let h = head_config(8).init();
    let h2 = head_config(16).init();
    assert_eq!(h.scale_divisor_squared(), 8);
    assert_eq!(h2.scale_divisor_squared(), 16);
    assert_eq!(2 * h.scale_divisor_squared(), h2.scale_divisor_squared());
    let divisor = (h.scale_divisor_squared() as f64).sqrt();
    let doubled = (h2.scale_divisor_squared() as f64).sqrt();
    assert!((doubled - divisor * 2f64.sqrt()).abs() < 1e-12);
}

#[test]
fn dropout_probability_of_one_is_allowed() {
    let cfg = HeadConfig { dropout_ppm: PPM_SCALE, ..head_config(3) };
    let head = cfg.init();
    let out = head.forward(Shape3 { batch: 2, time: 3, channels: 8 });
    assert_eq!(out, Ok(Shape3 { batch: 2, time: 3, channels: 3 }));
}

#[test]
fn zero_time_input_is_accepted() {
    let head = head_config(3).init();
    let out = head.forward(Shape3 { batch: 2, time: 0, channels: 8 });
    assert_eq!(out, Ok(Shape3 { batch: 2, time: 0, channels: 3 }));
}
