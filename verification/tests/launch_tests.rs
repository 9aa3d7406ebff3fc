use llmrs::launch::{
    adamw_config, attention_backward_config, attention_forward_config, div_ceil, encoder_backward_config,
    encoder_forward_config, fused_classifier_config, gelu_backward_config, gelu_forward_config,
    layernorm_backward_config, layernorm_forward_config, linear_config, matmul_backward_bias_config,
    matmul_forward_config, residual_forward_config, softmax_autoregressive_backward_config,
    softmax_forward_config, LaunchConfig,
};

fn linear(grid: u32, block: u32) -> LaunchConfig {
    LaunchConfig { grid_x: grid, grid_y: 1, grid_z: 1, block_x: block, block_y: 1, block_z: 1, shared_mem: 0 }
}

#[test]
fn div_ceil_rounds_up() {
    assert_eq!(div_ceil(0, 4), 0);
    assert_eq!(div_ceil(8, 4), 2);
    assert_eq!(div_ceil(9, 4), 3);
    assert_eq!(div_ceil(usize::MAX, 2), usize::MAX / 2 + 1);
}

#[test]
fn linear_config_truncates_grid_to_u32() {
    assert_eq!(linear_config(1 << 40, 1).grid_x, 0);
    assert_eq!(linear_config(1000, 256), linear(4, 256));
}

#[test]
fn encoder_launches() {
    // B=4, T=64, C=768: 196608 elements, one thread per four, 512 per block
    assert_eq!(encoder_forward_config(4, 64, 768), linear(96, 512));
    assert_eq!(encoder_backward_config(4, 64, 768), linear(768, 256));
}

#[test]
fn layernorm_launches() {
    assert_eq!(layernorm_forward_config(4, 64), linear(16, 512));
    let c = layernorm_backward_config(4, 64, 768);
    assert_eq!(c, LaunchConfig { shared_mem: 6144, ..linear(16, 512) });
}

#[test]
fn matmul_launches() {
    let c = matmul_forward_config(4, 64, 2304);
    assert_eq!(c, LaunchConfig { grid_x: 2, grid_y: 18, grid_z: 1, block_x: 16, block_y: 16, block_z: 1, shared_mem: 0 });
    assert_eq!(matmul_backward_bias_config(2304), LaunchConfig { shared_mem: 4096, ..linear(72, 1024) });
    assert_eq!(matmul_backward_bias_config(100).grid_x, 4);
}

#[test]
fn attention_launches() {
    let f = attention_forward_config(4, 64, 768, 12);
    assert_eq!(f.head_size, 64);
    assert_eq!(f.permute, linear(768, 256));
    assert_eq!(f.softmax, linear(384, 256));
    assert_eq!(f.unpermute, linear(768, 256));
    let b = attention_backward_config(4, 64, 768, 12);
    assert_eq!(b.head_size, 64);
    assert_eq!(b.unpermute, linear(768, 256));
    assert_eq!(b.softmax, LaunchConfig { grid_x: 16, grid_y: 48, grid_z: 1, block_x: 256, block_y: 1, block_z: 1, shared_mem: 0 });
    assert_eq!(b.permute, linear(768, 256));
}

#[test]
fn elementwise_launches() {
    assert_eq!(residual_forward_config(257), linear(2, 256));
    assert_eq!(gelu_forward_config(129), linear(2, 128));
    assert_eq!(gelu_backward_config(128), linear(1, 128));
    assert_eq!(adamw_config(124475904), linear(243117, 512));
}

#[test]
fn classifier_and_softmax_launches() {
    assert_eq!(fused_classifier_config(4, 64), linear(256, 1024));
    assert_eq!(softmax_forward_config(4, 64, 12), linear(384, 256));
    assert_eq!(
        softmax_autoregressive_backward_config(4, 64),
        LaunchConfig { grid_x: 16, grid_y: 4, grid_z: 1, block_x: 256, block_y: 1, block_z: 1, shared_mem: 0 }
    );
}

#[test]
fn linear_launches_cover_exactly() {
    for &(n, b) in &[(1usize, 256usize), (255, 256), (256, 256), (257, 256), (1000, 128), (7, 1)] {
        let g = div_ceil(n, b);
        assert!(g * b >= n);
        assert!((g - 1) * b < n);
    }
    assert_eq!(div_ceil(0, 512), 0);
}
