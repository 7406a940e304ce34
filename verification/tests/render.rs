use liquid_glass::render::{
    check_node_count, check_target_size, pack_background_rgba8, reference_shader, uniform_stride,
    GpuError, GpuSize, ReferencePass, GLASS_UNIFORM_SIZE, MAX_GLASS_NODES,
};

#[test]
fn padded_backdrop_rows_are_packed_tightly() {
    // Two 2-pixel rows, each padded from 8 to 12 bytes.
    let mut frame = vec![0_u8; 12 * 2];
    for (i, byte) in frame.iter_mut().enumerate() {
        *byte = i as u8;
    }
    let packed = pack_background_rgba8(2, 2, 12, &frame).expect("padded RGBA8 backdrop upload");
    assert_eq!(
        packed,
        Some(vec![0, 1, 2, 3, 4, 5, 6, 7, 12, 13, 14, 15, 16, 17, 18, 19])
    );
}

#[test]
fn tight_backdrop_needs_no_copy() {
    let frame = vec![7_u8; 4 * 3 * 2];
    assert_eq!(pack_background_rgba8(3, 2, 12, &frame), Ok(None));
}

#[test]
fn invalid_backdrop_frames_are_rejected() {
    let frame = vec![0_u8; 24];
    let invalid = |width, height, stride, byte_len| GpuError::InvalidBackgroundFrame {
        width,
        height,
        stride,
        byte_len,
    };
    // Stride smaller than a tight row.
    assert_eq!(pack_background_rgba8(4, 2, 12, &frame), Err(invalid(4, 2, 12, 24)));
    // Wrong byte count.
    assert_eq!(pack_background_rgba8(2, 3, 12, &frame), Err(invalid(2, 3, 12, 24)));
    // Empty dimensions.
    assert_eq!(pack_background_rgba8(0, 2, 12, &frame), Err(invalid(0, 2, 12, 24)));
    assert_eq!(pack_background_rgba8(2, 0, 12, &frame), Err(invalid(2, 0, 12, 24)));
    // A tight row that does not fit in 32 bits.
    assert_eq!(
        pack_background_rgba8(u32::MAX, 1, 12, &frame),
        Err(invalid(u32::MAX, 1, 12, 24))
    );
}

#[test]
fn gpu_sizes_need_both_dimensions() {
    assert!(GpuSize::new(64, 48).is_valid());
    assert!(!GpuSize::new(0, 48).is_valid());
    assert!(!GpuSize::new(64, 0).is_valid());
    assert_eq!(GpuSize::new(64, 48), GpuSize { width: 64, height: 48 });
    assert_eq!(check_target_size(GpuSize::new(64, 48)), Ok(()));
    assert_eq!(check_target_size(GpuSize::new(0, 0)), Err(GpuError::InvalidSize));
}

#[test]
fn scene_node_limit_is_enforced() {
    assert_eq!(check_node_count(MAX_GLASS_NODES), Ok(()));
    assert_eq!(check_node_count(0), Ok(()));
    assert_eq!(
        check_node_count(MAX_GLASS_NODES + 1),
        Err(GpuError::SceneNodeLimitExceeded { limit: 64 })
    );
}

#[test]
fn uniform_stride_rounds_up_to_the_alignment() {
    assert_eq!(GLASS_UNIFORM_SIZE, 368);
    assert_eq!(uniform_stride(256), 512);
    assert_eq!(uniform_stride(16), 368);
    assert_eq!(uniform_stride(0), 368);
    assert_eq!(uniform_stride(1), 368);
    assert_eq!(uniform_stride(1000), 1000);
    assert_eq!(uniform_stride(u32::MAX), u32::MAX);
}

#[test]
fn gpu_errors_describe_themselves() {
    assert_eq!(GpuError::InvalidSize.message(), "offscreen target dimensions must be non-zero");
    assert_eq!(
        GpuError::InvalidBackgroundFrame { width: 2, height: 2, stride: 6, byte_len: 10 }.message(),
        "invalid RGBA8 backdrop frame (2x2, stride 6, 10 bytes)"
    );
    assert_eq!(
        GpuError::AdapterUnavailable("none".to_string()).message(),
        "no suitable GPU adapter: none"
    );
    assert_eq!(
        GpuError::DeviceUnavailable("lost".to_string()).message(),
        "failed to create GPU device: lost"
    );
    assert_eq!(
        GpuError::SceneNodeLimitExceeded { limit: 64 }.message(),
        "scene contains more than 64 glass nodes"
    );
}

#[test]
fn reference_shader_rebinds_each_pass() {
    let main = "@binding(0) var<uniform> u: Uniforms;\n@binding(2) var u_bg: texture_2d<f32>;\n@binding(3) var u_sampler: sampler;";
    assert_eq!(
        reference_shader("VERTEX", main, ReferencePass::Main),
        "VERTEX\n@binding(3) var<uniform> u: Uniforms;\n@binding(0) var u_bg: texture_2d<f32>;\n@binding(2) var u_sampler: sampler;"
    );
    let background = "@binding(0) var<uniform> u: Uniforms; @binding(1) var u_bgTexture";
    assert_eq!(
        reference_shader("v", background, ReferencePass::Background),
        "v\n@binding(3) var<uniform> u: Uniforms; @binding(0) var u_bgTexture"
    );
    let blur = "@binding(0) var<uniform> u: BlurUniforms @binding(1) var u_prevPassTexture @binding(3) var<storage, read> u_blurWeights";
    assert_eq!(
        reference_shader("", blur, ReferencePass::Blur),
        "\n@binding(3) var<uniform> u: BlurUniforms @binding(0) var u_prevPassTexture @binding(4) var<storage, read> u_blurWeights"
    );
}
