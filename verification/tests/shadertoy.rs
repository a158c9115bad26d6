use bevy_shadertoy::FULLSCREEN_TRIANGLE_SHADER;
use bevy_shadertoy::ShadertoyPlugin;
use bevy_shadertoy::node::{RenderCommand, ShadertoyNode};
use bevy_shadertoy::pipeline::{RenderPipelineCache, ShadertoyPipeline, compile_pipeline};
use bevy_shadertoy::scalar::{clamp_i64, single_bits_of_u32};
use bevy_shadertoy::shadertoy_bindings::{
    ExtractedTime, MouseButtonSample, MouseState, ShadertoyBindings, extract_time, mouse_state,
    write_shadertoy_buffer, STD140_SIZE,
};

fn no_buttons() -> MouseButtonSample {
    MouseButtonSample {
        primary_pressed: false,
        secondary_pressed: false,
        primary_just_pressed: false,
        secondary_just_pressed: false,
    }
}

#[test]
fn std140_size_is_fixed() {
    assert_eq!(ShadertoyBindings::std140_size_static(), 48);
    assert_eq!(STD140_SIZE, 48);
}

#[test]
fn single_bits_match_hardware_casts() {
    let samples: [u32; 16] = [
        0, 1, 2, 3, 5, 7, 100, 225, 400, 450, 800, 1023, 1024, 123456, 16777215, 8388608,
    ];
    for v in samples {
        assert_eq!(single_bits_of_u32(v), (v as f32).to_bits(), "value {v}");
    }
}

#[test]
fn clamp_matches_endpoints() {
    assert_eq!(clamp_i64(-5, 0, 800), 0);
    assert_eq!(clamp_i64(801, 0, 800), 800);
    assert_eq!(clamp_i64(400, 0, 800), 400);
    assert_eq!(clamp_i64(0, 0, 800), 0);
    assert_eq!(clamp_i64(800, 0, 800), 800);
}

#[test]
fn serialization_is_deterministic_with_fixed_size() {
    let block = ShadertoyBindings {
        resolution_x: 0x4448_0000,
        resolution_y: 0x43E1_0000,
        resolution_z: 0,
        time: 0x4148_0000,
        mouse_x: 0x43C8_0000,
        mouse_y: 0x4361_0000,
        mouse_down: 0x3F80_0000,
        mouse_just_down: 0,
        time_delta: 0x3C83_126F,
    };
    let twin = ShadertoyBindings {
        resolution_x: 0x4448_0000,
        resolution_y: 0x43E1_0000,
        resolution_z: 0,
        time: 0x4148_0000,
        mouse_x: 0x43C8_0000,
        mouse_y: 0x4361_0000,
        mouse_down: 0x3F80_0000,
        mouse_just_down: 0,
        time_delta: 0x3C83_126F,
    };
    let a = block.as_std140_bytes();
    let b = twin.as_std140_bytes();
    assert_eq!(a, b);
    assert_eq!(a.len(), 48);

    let odd = ShadertoyBindings {
        resolution_x: u32::MAX,
        resolution_y: 1,
        resolution_z: 2,
        time: 3,
        mouse_x: 4,
        mouse_y: 5,
        mouse_down: 6,
        mouse_just_down: 7,
        time_delta: 8,
    };
    assert_eq!(odd.as_std140_bytes().len(), 48);
}

#[test]
fn layout_scenario_places_each_field_at_its_offset() {
    let time = extract_time(12.5f32.to_bits(), 0.016f32.to_bits());
    let mouse = MouseState { x: 400, y: 225, down: true, just_down: false };
    let bytes = write_shadertoy_buffer(800, 450, &time, &mouse);
    assert_eq!(bytes.len(), 48);
    assert_eq!(&bytes[0..4], &800.0f32.to_le_bytes());
    assert_eq!(&bytes[4..8], &450.0f32.to_le_bytes());
    assert_eq!(&bytes[8..12], &0.0f32.to_le_bytes());
    assert_eq!(&bytes[12..16], &12.5f32.to_le_bytes());
    assert_eq!(&bytes[16..20], &400.0f32.to_le_bytes());
    assert_eq!(&bytes[20..24], &225.0f32.to_le_bytes());
    assert_eq!(&bytes[24..28], &1.0f32.to_le_bytes());
    assert_eq!(&bytes[28..32], &0.0f32.to_le_bytes());
    assert_eq!(&bytes[32..36], &0.016f32.to_le_bytes());
    assert_eq!(&bytes[36..48], &[0u8; 12]);
    // reproducible across calls
    let again = write_shadertoy_buffer(800, 450, &time, &mouse);
    assert_eq!(bytes, again);
}

#[test]
fn out_of_bounds_cursor_is_clamped_into_the_window() {
    let time = extract_time(0, 0);
    let mouse = MouseState { x: -50, y: 10_000_000, down: false, just_down: false };
    let bytes = write_shadertoy_buffer(800, 450, &time, &mouse);
    assert_eq!(&bytes[16..20], &0.0f32.to_le_bytes());
    assert_eq!(&bytes[20..24], &450.0f32.to_le_bytes());

    let far = MouseState { x: 4096, y: -1, down: false, just_down: false };
    let bytes = write_shadertoy_buffer(1920, 1080, &time, &far);
    assert_eq!(&bytes[16..20], &1920.0f32.to_le_bytes());
    assert_eq!(&bytes[20..24], &0.0f32.to_le_bytes());
}

#[test]
fn missing_cursor_keeps_tracked_position() {
    let mut state = MouseState { x: 123, y: 456, down: false, just_down: false };
    mouse_state(&mut state, None, no_buttons());
    assert_eq!(state.x, 123);
    assert_eq!(state.y, 456);
    mouse_state(&mut state, Some((7, 9)), no_buttons());
    assert_eq!(state.x, 7);
    assert_eq!(state.y, 9);
}

#[test]
fn down_and_just_down_follow_the_tracked_buttons() {
    let mut state = MouseState::default();
    mouse_state(
        &mut state,
        None,
        MouseButtonSample {
            primary_pressed: false,
            secondary_pressed: true,
            primary_just_pressed: false,
            secondary_just_pressed: false,
        },
    );
    assert!(state.down);
    assert!(!state.just_down);
    mouse_state(
        &mut state,
        None,
        MouseButtonSample {
            primary_pressed: true,
            secondary_pressed: false,
            primary_just_pressed: true,
            secondary_just_pressed: false,
        },
    );
    assert!(state.down);
    assert!(state.just_down);
    mouse_state(&mut state, None, no_buttons());
    assert!(!state.down);
    assert!(!state.just_down);
}

#[test]
fn end_to_end_three_ticks() {
    let mut state = MouseState::default();
    // tick 1: cursor at (100, 100), no buttons held
    mouse_state(&mut state, Some((100, 100)), no_buttons());
    assert_eq!((state.x, state.y), (100, 100));
    assert!(!state.down && !state.just_down);
    // tick 2: left button now held
    mouse_state(
        &mut state,
        None,
        MouseButtonSample {
            primary_pressed: true,
            secondary_pressed: false,
            primary_just_pressed: true,
            secondary_just_pressed: false,
        },
    );
    assert_eq!((state.x, state.y), (100, 100));
    assert!(state.down && state.just_down);
    // tick 3: left button still held
    mouse_state(
        &mut state,
        None,
        MouseButtonSample {
            primary_pressed: true,
            secondary_pressed: false,
            primary_just_pressed: false,
            secondary_just_pressed: false,
        },
    );
    assert!(state.down && !state.just_down);
}

#[test]
fn extract_time_copies_both_words() {
    let t = extract_time(0x4148_0000, 0x3C83_126F);
    assert_eq!(t.seconds_since_startup, 0x4148_0000);
    assert_eq!(t.delta, 0x3C83_126F);
}

#[test]
fn resource_descriptors_match_the_block() {
    let pipeline = ShadertoyPipeline::new(42);
    assert_eq!(pipeline.shader, 42);
    assert_eq!(pipeline.shadertoy_bindings.size, 48);
    assert!(pipeline.shadertoy_bindings.usage_uniform);
    assert!(pipeline.shadertoy_bindings.usage_copy_dst);
    assert!(!pipeline.shadertoy_bindings.mapped_at_creation);
    let layout = pipeline.shadertoy_bindings_bind_group_layout;
    assert_eq!(layout.binding, 0);
    assert!(layout.visibility_fragment);
    assert!(layout.uniform_buffer_type);
    assert!(!layout.has_dynamic_offset);
    assert_eq!(layout.min_binding_size, 48);
    assert_eq!(pipeline.shadertoy_bindings_bind_group.binding, 0);
    assert!(pipeline.shadertoy_bindings_bind_group.entire_buffer);
}

#[test]
fn compile_is_cached_and_resolution_is_stable() {
    let pipeline = ShadertoyPipeline::new(42);
    let mut cache = RenderPipelineCache::new();
    let first = compile_pipeline(&pipeline, &mut cache);
    assert_eq!(first.0, 0);
    // before completion: unresolved, not an error
    assert!(cache.get(first.0).is_none());
    // a second compile resolves from the look-aside cache: same handle
    let second = compile_pipeline(&pipeline, &mut cache);
    assert_eq!(second.0, first.0);
    cache.mark_ready(first.0);
    {
        let resolved = cache.get(first.0).expect("compiled pipeline");
        assert_eq!(resolved.vertex_shader, FULLSCREEN_TRIANGLE_SHADER);
        assert_eq!(resolved.vertex_entry_point, "vs_main");
        assert_eq!(resolved.vertex_buffer_count, 0);
        assert_eq!(resolved.fragment_shader, 42);
        assert_eq!(resolved.fragment_entry_point, "main");
        assert_eq!(resolved.color_target_count, 1);
        assert!(!resolved.has_depth_stencil);
        assert_eq!(resolved.sample_count, 1);
    }
    // resolving again and again yields the same pipeline, no recompilation
    let third = compile_pipeline(&pipeline, &mut cache);
    assert_eq!(third.0, first.0);
    let once_more = cache.get(first.0).expect("still resolved");
    assert_eq!(once_more.fragment_shader, 42);
}

#[test]
fn frame_is_skipped_without_view_or_pipeline() {
    let pipeline = ShadertoyPipeline::new(42);
    let mut cache = RenderPipelineCache::new();
    let compiled = compile_pipeline(&pipeline, &mut cache);
    let node = ShadertoyNode;
    // pipeline queued but not yet compiled: skip, even with a view
    assert_eq!(node.run(&cache, &compiled, Some(11), 5), vec![]);
    cache.mark_ready(compiled.0);
    // compiled but no output view acquired: skip
    assert_eq!(node.run(&cache, &compiled, None, 5), vec![]);
}

#[test]
fn rendered_frame_is_one_pass_with_one_draw() {
    let pipeline = ShadertoyPipeline::new(42);
    let mut cache = RenderPipelineCache::new();
    let compiled = compile_pipeline(&pipeline, &mut cache);
    cache.mark_ready(compiled.0);
    let node = ShadertoyNode;
    let commands = node.run(&cache, &compiled, Some(11), 5);
    assert_eq!(
        commands,
        vec![
            RenderCommand::BeginRenderPass {
                view: 11,
                clear_load: true,
                store: true,
                has_depth_stencil: false,
            },
            RenderCommand::SetRenderPipeline { id: compiled.0 },
            RenderCommand::SetBindGroup { index: 0, bind_group: 5, dynamic_offset_count: 0 },
            RenderCommand::Draw {
                first_vertex: 0,
                vertex_count: 3,
                first_instance: 0,
                instance_count: 1,
            },
            RenderCommand::EndRenderPass,
        ]
    );
}

#[test]
fn plugin_runs_the_three_phases_in_order() {
    let mut plugin = ShadertoyPlugin::new(42);
    let mouse = MouseState { x: 400, y: 225, down: true, just_down: false };
    let time = extract_time(12.5f32.to_bits(), 0.016f32.to_bits());
    plugin.on_extract(&mouse, &time);
    let bytes = plugin.on_prepare(800, 450);
    assert_eq!(bytes, write_shadertoy_buffer(800, 450, &time, &mouse));
    // not resolved yet: the frame is skipped
    assert_eq!(plugin.on_render(Some(11), 5).len(), 0);
    plugin.mark_pipeline_ready();
    let commands = plugin.on_render(Some(11), 5);
    assert_eq!(commands.len(), 5);
    assert!(matches!(commands[3], RenderCommand::Draw { .. }));
    // later frames reuse the compiled pipeline
    let bytes2 = plugin.on_prepare(800, 450);
    assert_eq!(bytes, bytes2);
    assert_eq!(plugin.on_render(None, 5).len(), 0);
    assert_eq!(plugin.on_render(Some(11), 5).len(), 5);
}

#[test]
fn default_mouse_state_is_origin_and_released() {
    let state = MouseState::default();
    assert_eq!(state, MouseState { x: 0, y: 0, down: false, just_down: false });
}
