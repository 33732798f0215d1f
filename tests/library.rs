use wgpu_types::TextureFormat;
use textured_quad::frame::{
    frame_commands, AnimationState, FrameStep, PassCommand, State, SurfaceFault, QUAD_INSTANCES,
    QUAD_VERTICES, RATE_X, RATE_Y,
};
use textured_quad::surface::{choose_capabilities, choose_surface, InitError, Size, SurfaceChoice, SurfaceConfig};
use textured_quad::texture::{check_image, texture_layout, TextureLayout};
use textured_quad::uniform::{bytes_to_words, matrix_bytes, UniformBuffer, UNIFORM_BYTES};

fn matrix() -> Vec<u32> {
    (0..16u32).map(|i| i * 0x0101_0101).collect()
}

fn config_at(width: u32, height: u32) -> SurfaceConfig {
    let choice = SurfaceChoice { format: 1, present_mode: 0, alpha_mode: 0 };
    SurfaceConfig::new(choice, Size::new(width, height))
}

#[test]
fn resize_to_nonzero_size_is_stored() {
    let mut config = config_at(800, 600);
    assert!(config.reconfigure(Size::new(1024, 768)));
    assert_eq!(config.current_size(), Size::new(1024, 768));
    assert_eq!(config.format, 1);
    assert_eq!(config.max_frame_latency, 2);
}

#[test]
fn resize_with_zero_dimension_is_ignored() {
    for size in [Size::new(0, 600), Size::new(800, 0), Size::new(0, 0)] {
        let mut config = config_at(800, 600);
        let before = config;
        assert!(!config.reconfigure(size));
        assert_eq!(config, before);
    }
}

#[test]
fn state_resize_keeps_animation() {
    let mut state = State::new(config_at(800, 600));
    state.update(&matrix());
    assert!(state.resize(Size::new(400, 300)));
    assert_eq!(state.config.current_size(), Size::new(400, 300));
    assert_eq!(state.animation.rotation_x, RATE_X);
    assert!(!state.resize(Size::new(0, 300)));
    assert_eq!(state.config.current_size(), Size::new(400, 300));
}

#[test]
fn updates_accumulate_exactly() {
    let mut state = State::new(config_at(800, 600));
    let n: u64 = 1_000_000;
    for _ in 0..n {
        state.update(&matrix());
    }
    assert_eq!(state.animation.rotation_x, n * RATE_X);
    assert_eq!(state.animation.rotation_y, n * RATE_Y);
    assert_eq!(state.animation.rotation_y, 3 * state.animation.rotation_x);
}

#[test]
fn animation_starts_at_zero_and_advances() {
    let mut a = AnimationState::new();
    assert_eq!((a.rotation_x, a.rotation_y), (0, 0));
    a.advance();
    a.advance();
    assert_eq!((a.rotation_x, a.rotation_y), (2, 6));
}

#[test]
fn lost_surface_reconfigures_at_current_size() {
    for fault in [SurfaceFault::Lost, SurfaceFault::Outdated] {
        let mut state = State::new(config_at(800, 600));
        state.update(&matrix());
        let before = state.clone();
        assert_eq!(state.finish_frame(Some(fault)), FrameStep::Reconfigure(Size::new(800, 600)));
        assert_eq!(state, before);
    }
}

#[test]
fn lost_surface_of_zero_size_drops_frame() {
    let mut state = State::new(config_at(0, 0));
    assert_eq!(state.finish_frame(Some(SurfaceFault::Lost)), FrameStep::DropFrame);
}

#[test]
fn out_of_memory_exits() {
    let mut state = State::new(config_at(800, 600));
    assert_eq!(state.finish_frame(Some(SurfaceFault::OutOfMemory)), FrameStep::Exit);
}

#[test]
fn timeout_drops_frame_and_keeps_state() {
    let mut state = State::new(config_at(800, 600));
    state.update(&matrix());
    let before = state.clone();
    assert_eq!(state.finish_frame(Some(SurfaceFault::Timeout)), FrameStep::DropFrame);
    assert_eq!(state, before);
}

#[test]
fn presented_frame_continues() {
    let mut state = State::new(config_at(800, 600));
    assert_eq!(state.finish_frame(None), FrameStep::Continue);
}

#[test]
fn aspect_size_guards_zero_height() {
    let state = State::new(config_at(800, 0));
    assert_eq!(state.aspect_size(), Size::new(800, 1));
    let state = State::new(config_at(800, 600));
    assert_eq!(state.aspect_size(), Size::new(800, 600));
}

#[test]
fn surface_prefers_first_srgb_format() {
    let r = choose_surface(&vec![false, true, true], 2, 3);
    assert_eq!(r, Ok(SurfaceChoice { format: 1, present_mode: 0, alpha_mode: 0 }));
}

#[test]
fn surface_falls_back_to_first_format() {
    let r = choose_surface(&vec![false, false], 1, 1);
    assert_eq!(r, Ok(SurfaceChoice { format: 0, present_mode: 0, alpha_mode: 0 }));
}

#[test]
fn surface_without_capabilities_is_refused() {
    assert_eq!(choose_surface(&vec![], 1, 1), Err(InitError::NoCompatibleAdapter));
    assert_eq!(choose_surface(&vec![true], 0, 1), Err(InitError::NoCompatibleAdapter));
    assert_eq!(choose_surface(&vec![true], 1, 0), Err(InitError::NoCompatibleAdapter));
}

#[test]
fn image_layout_of_tight_rgba() {
    assert_eq!(
        texture_layout(3, 2, 24),
        Ok(TextureLayout { width: 3, height: 2, bytes_per_row: 12 })
    );
    assert_eq!(texture_layout(0, 0, 0), Ok(TextureLayout { width: 0, height: 0, bytes_per_row: 0 }));
}

#[test]
fn image_of_wrong_length_is_invalid() {
    assert_eq!(texture_layout(2, 2, 15), Err(InitError::InvalidImageData));
    assert_eq!(texture_layout(2, 2, 17), Err(InitError::InvalidImageData));
    assert_eq!(check_image(1, 1, &vec![255, 0, 0]), Err(InitError::InvalidImageData));
}

#[test]
fn image_too_wide_for_row_stride_cannot_be_uploaded() {
    assert_eq!(texture_layout(0x4000_0000, 0, 0), Err(InitError::ResourceCreationFailed));
    assert_eq!(texture_layout(0x4000_0000, 0, 4), Err(InitError::InvalidImageData));
    assert_eq!(
        texture_layout(0x3fff_ffff, 0, 0),
        Ok(TextureLayout { width: 0x3fff_ffff, height: 0, bytes_per_row: 0xffff_fffc })
    );
}

#[test]
fn matrix_bytes_are_little_endian_column_major() {
    let words: Vec<u32> = (0..16u32).map(|i| 0x0403_0201u32.wrapping_add(i << 24)).collect();
    let bytes = matrix_bytes(&words);
    assert_eq!(bytes.len(), 64);
    assert_eq!(&bytes[0..4], &[1, 2, 3, 4]);
    assert_eq!(&bytes[60..64], &[1, 2, 3, 19]);
    assert_eq!(bytes_to_words(&bytes), words);
}

#[test]
fn uniform_buffer_round_trip() {
    let identity: [f32; 16] = [
        1.0, 0.0, 0.0, 0.0, 0.0, 1.0, 0.0, 0.0, 0.0, 0.0, 1.0, 0.0, 0.5, -2.0, 0.25, 1.0,
    ];
    let words: Vec<u32> = identity.iter().map(|f| f.to_bits()).collect();
    let mut buffer = UniformBuffer::new();
    assert_eq!(buffer.contents(), vec![0u8; UNIFORM_BYTES]);
    let written = buffer.write_matrix(&words);
    let mut expected: Vec<u8> = Vec::new();
    for f in identity.iter() {
        expected.extend_from_slice(&f.to_le_bytes());
    }
    assert_eq!(written, expected);
    assert_eq!(buffer.contents(), expected);
    let back: Vec<f32> = buffer.read_matrix().iter().map(|w| f32::from_bits(*w)).collect();
    assert_eq!(back, identity.to_vec());
}

#[test]
fn red_image_frame_draws_quad_once() {
    let pixels: Vec<u8> = [255u8, 0, 0, 255].repeat(4);
    assert_eq!(
        check_image(2, 2, &pixels),
        Ok(TextureLayout { width: 2, height: 2, bytes_per_row: 8 })
    );
    let choice = choose_surface(&vec![true], 1, 1).unwrap();
    let mut state = State::new(SurfaceConfig::new(choice, Size::new(800, 600)));
    state.update(&matrix());
    assert_eq!((state.animation.rotation_x, state.animation.rotation_y), (RATE_X, RATE_Y));
    let commands = frame_commands();
    let draws: Vec<&PassCommand> =
        commands.iter().filter(|c| matches!(c, PassCommand::Draw { .. })).collect();
    assert_eq!(draws, vec![&PassCommand::Draw { vertices: QUAD_VERTICES, instances: QUAD_INSTANCES }]);
    assert_eq!(QUAD_VERTICES, 6);
    assert_eq!(QUAD_INSTANCES, 1);
    assert_eq!(
        commands,
        vec![
            PassCommand::SetPipeline,
            PassCommand::SetBindGroup(0),
            PassCommand::Draw { vertices: 6, instances: 1 },
        ]
    );
    assert_eq!(state.finish_frame(None), FrameStep::Continue);
}

#[test]
fn capabilities_prefer_srgb_format() {
    let formats = vec![TextureFormat::Rgba8Unorm, TextureFormat::Bgra8UnormSrgb, TextureFormat::Rgba8UnormSrgb];
    assert_eq!(
        choose_capabilities(&formats, 3, 2),
        Ok(SurfaceChoice { format: 1, present_mode: 0, alpha_mode: 0 })
    );
}

#[test]
fn capabilities_without_srgb_take_first_format() {
    let formats = vec![TextureFormat::Bgra8Unorm, TextureFormat::Rgba16Float];
    assert_eq!(
        choose_capabilities(&formats, 1, 1),
        Ok(SurfaceChoice { format: 0, present_mode: 0, alpha_mode: 0 })
    );
    assert_eq!(choose_capabilities(&vec![], 1, 1), Err(InitError::NoCompatibleAdapter));
}

#[test]
fn update_writes_matrix_into_uniform_buffer() {
    let m: [f32; 16] = [
        2.0, 0.0, 0.0, 0.0, 0.0, -1.5, 0.0, 0.0, 0.0, 0.0, 0.125, -1.0, 0.0, 0.0, 1.75, 3.0,
    ];
    let words: Vec<u32> = m.iter().map(|f| f.to_bits()).collect();
    let mut state = State::new(config_at(800, 600));
    assert_eq!(state.uniform.contents(), vec![0u8; UNIFORM_BYTES]);
    let written = state.update(&words);
    let mut expected: Vec<u8> = Vec::new();
    for f in m.iter() {
        expected.extend_from_slice(&f.to_le_bytes());
    }
    assert_eq!(written, expected);
    assert_eq!(state.uniform.contents(), expected);
    let back: Vec<f32> = state.uniform.read_matrix().iter().map(|w| f32::from_bits(*w)).collect();
    assert_eq!(back, m.to_vec());
    assert_eq!((state.animation.rotation_x, state.animation.rotation_y), (RATE_X, RATE_Y));
}

#[test]
fn capabilities_recognise_astc_srgb() {
    let formats = vec![
        TextureFormat::Astc { block: wgpu_types::AstcBlock::B4x4, channel: wgpu_types::AstcChannel::Unorm },
        TextureFormat::Rgba16Float,
        TextureFormat::Astc { block: wgpu_types::AstcBlock::B8x8, channel: wgpu_types::AstcChannel::UnormSrgb },
    ];
    assert_eq!(
        choose_capabilities(&formats, 1, 1),
        Ok(SurfaceChoice { format: 2, present_mode: 0, alpha_mode: 0 })
    );
}
