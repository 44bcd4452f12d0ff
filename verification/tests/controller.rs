use old_tv_pass::executor;
use old_tv_pass::executor::{BindGroup, ColorTarget, DrawCommand, PassAction, SkipReason};
use old_tv_pass::frame::{run_frame, FrameCamera};
use old_tv_pass::pipeline::{BindingKind, GraphicsDevice, PipelineCache, PipelineError};
use old_tv_pass::schedule::{StageGraph, StageLabel};
use old_tv_pass::upload::{prepare_uniforms, ExtractedCamera, UNIFORM_STRIDE};
use old_tv_pass::{OldTvPlugin, OldTvSettings};

fn settings_from_floats(
    screen_shape_factor: f32,
    rows: f32,
    brightness: f32,
    edges_transition_size: f32,
    channels_mask_min: f32,
) -> OldTvSettings {
    OldTvSettings::new(
        screen_shape_factor.to_bits(),
        rows.to_bits(),
        brightness.to_bits(),
        edges_transition_size.to_bits(),
        channels_mask_min.to_bits(),
    )
}

fn ready_cache() -> PipelineCache {
    let mut cache = PipelineCache::new();
    let mut device = GraphicsDevice { next_id: 0, shader_compiles: true };
    cache.get_or_create(&mut device).unwrap();
    cache
}

#[test]
fn settings_new_and_default() {
    let s = OldTvSettings::new(1, 2, 3, 4, 5);
    assert_eq!(s.screen_shape_factor, 1);
    assert_eq!(s.rows, 2);
    assert_eq!(s.brightness, 3);
    assert_eq!(s.edges_transition_size, 4);
    assert_eq!(s.channels_mask_min, 5);
    let d = OldTvSettings::default();
    assert_eq!(d, OldTvSettings::new(0, 0, 0, 0, 0));
    assert_eq!(d.rows, 0.0f32.to_bits());
}

#[test]
fn effect_layout_fixed_order() {
    let layout = old_tv_pass::pipeline::effect_layout();
    assert_eq!(
        layout,
        vec![
            BindingKind::FilterableColorTexture,
            BindingKind::FilteringSampler,
            BindingKind::DynamicSettingsUniform,
        ]
    );
}

#[test]
fn pipeline_cache_idempotent() {
    let mut cache = PipelineCache::new();
    let mut device = GraphicsDevice { next_id: 0, shader_compiles: true };
    let first = cache.get_or_create(&mut device).unwrap();
    assert_eq!(cache.compiles, 1);
    assert_eq!(device.next_id, 2);
    let second = cache.get_or_create(&mut device).unwrap();
    assert_eq!(second, first);
    assert_eq!(cache.compiles, 1);
    assert_eq!(device.next_id, 2);
}

#[test]
fn shader_failure_is_fatal_and_latched() {
    let mut cache = PipelineCache::new();
    let mut device = GraphicsDevice { next_id: 0, shader_compiles: false };
    let r = cache.get_or_create(&mut device);
    assert_eq!(r, Err(PipelineError::ShaderCompileFailure));
    assert_eq!(cache.compiles, 1);
    // The failure is latched: even a device that would now accept the
    // shader gets the error back, and nothing is recompiled.
    let mut accepting = GraphicsDevice { next_id: 10, shader_compiles: true };
    let again = cache.get_or_create(&mut accepting);
    assert_eq!(again, Err(PipelineError::ShaderCompileFailure));
    assert_eq!(cache.compiles, 1);
    assert_eq!(accepting.next_id, 10);
}

#[test]
fn pipeline_lookup_waits_for_compile() {
    let cache = ready_cache();
    assert_eq!(cache.lookup(false), None);
    let handle = cache.lookup(true).unwrap();
    assert_eq!(cache.lookup(true), Some(handle));
    let empty = PipelineCache::new();
    assert_eq!(empty.lookup(true), None);
}

#[test]
fn upload_offsets_distinct_and_faithful() {
    let a = settings_from_floats(0.2, 64.0, 3.0, 0.025, 0.1);
    let b = settings_from_floats(0.0, 128.0, 4.0, 0.05, 0.2);
    let c = OldTvSettings::default();
    let cameras = vec![
        ExtractedCamera { camera: 11, settings: a },
        ExtractedCamera { camera: 22, settings: b },
        ExtractedCamera { camera: 33, settings: c },
    ];
    let uniforms = prepare_uniforms(&cameras);
    assert_eq!(uniforms.records, vec![a, b, c]);
    assert_eq!(uniforms.offsets, vec![0, UNIFORM_STRIDE, 2 * UNIFORM_STRIDE]);
}

#[test]
fn upload_empty_produces_nothing() {
    let uniforms = prepare_uniforms(&Vec::new());
    assert!(uniforms.records.is_empty());
    assert!(uniforms.offsets.is_empty());
}

#[test]
fn pass_skips_without_pipeline() {
    let target = ColorTarget { source: 1, destination: 2 };
    let action = executor::run(&target, None, 7, Some(0));
    assert_eq!(action, PassAction::Skip(SkipReason::PipelineNotReady));
}

#[test]
fn pass_skips_without_uniform_binding() {
    let cache = ready_cache();
    let handle = cache.lookup(true).unwrap();
    let target = ColorTarget { source: 1, destination: 2 };
    let action = executor::run(&target, Some(handle), 7, None);
    assert_eq!(action, PassAction::Skip(SkipReason::MissingUniformBinding));
}

#[test]
fn pass_draws_fullscreen_triangle() {
    let cache = ready_cache();
    let handle = cache.lookup(true).unwrap();
    let target = ColorTarget { source: 1, destination: 2 };
    let action = executor::run(&target, Some(handle), 7, Some(32));
    assert_eq!(
        action,
        PassAction::Draw(DrawCommand {
            pipeline: handle,
            bind_group: BindGroup { texture: 1, sampler: 7, uniform_offset: 32 },
            target: 2,
            vertices: 3,
            instances: 1,
        })
    );
}

#[test]
fn frame_identity_without_settings() {
    let cache = ready_cache();
    let cameras = vec![FrameCamera {
        camera: 1,
        settings: None,
        target: ColorTarget { source: 100, destination: 101 },
    }];
    let r = run_frame(&cameras, &cache, true);
    assert_eq!(r.actions, vec![None]);
    assert_eq!(r.outputs[0].image, 100);
    assert_eq!(r.outputs[0].base, 100);
    assert_eq!(r.outputs[0].effect, None);
    assert!(r.uniforms.records.is_empty());
}

#[test]
fn frame_rerun_deterministic() {
    let cache = ready_cache();
    let cameras = vec![
        FrameCamera {
            camera: 1,
            settings: Some(settings_from_floats(0.2, 64.0, 3.0, 0.025, 0.1)),
            target: ColorTarget { source: 100, destination: 101 },
        },
        FrameCamera {
            camera: 2,
            settings: None,
            target: ColorTarget { source: 200, destination: 201 },
        },
    ];
    let first = run_frame(&cameras, &cache, true);
    let second = run_frame(&cameras, &cache, true);
    assert_eq!(first.outputs, second.outputs);
    assert_eq!(first.actions, second.actions);
    assert_eq!(first.uniforms.records, second.uniforms.records);
    assert_eq!(first.uniforms.offsets, second.uniforms.offsets);
}

#[test]
fn frame_detach_leaves_no_residual() {
    let cache = ready_cache();
    let target = ColorTarget { source: 100, destination: 101 };
    let mut camera = FrameCamera { camera: 1, settings: None, target };
    camera.attach(settings_from_floats(0.2, 64.0, 3.0, 0.025, 0.1));
    assert!(camera.has_effect());
    let effected = run_frame(&vec![camera], &cache, true);
    assert!(effected.outputs[0].effect.is_some());
    assert_eq!(effected.outputs[0].image, 101);
    // The settings were removed between frames: the next frame's output for
    // the same camera is exactly the pre-effect image again.
    camera.detach();
    assert!(!camera.has_effect());
    let plain = run_frame(&vec![camera], &cache, true);
    assert_eq!(plain.actions, vec![None]);
    assert_eq!(plain.outputs[0].image, 100);
    assert_eq!(plain.outputs[0].effect, None);
}

#[test]
fn frame_skips_while_pipeline_compiles() {
    let cache = ready_cache();
    let cameras = vec![FrameCamera {
        camera: 1,
        settings: Some(settings_from_floats(0.2, 64.0, 3.0, 0.025, 0.1)),
        target: ColorTarget { source: 100, destination: 101 },
    }];
    // The compilation has not finished by this frame: the pass is skipped
    // and the un-transformed image passes through, with the upload done.
    let r = run_frame(&cameras, &cache, false);
    assert_eq!(r.actions, vec![Some(PassAction::Skip(SkipReason::PipelineNotReady))]);
    assert_eq!(r.outputs[0].image, 100);
    assert_eq!(r.outputs[0].effect, None);
    assert_eq!(r.uniforms.records.len(), 1);
}

#[test]
fn frame_two_cameras_get_own_offsets_and_settings() {
    let cache = ready_cache();
    let handle = cache.lookup(true).unwrap();
    let a = settings_from_floats(0.2, 64.0, 3.0, 0.025, 0.1);
    let b = settings_from_floats(0.2, 128.0, 3.0, 0.025, 0.1);
    let cameras = vec![
        FrameCamera {
            camera: 1,
            settings: Some(a),
            target: ColorTarget { source: 100, destination: 101 },
        },
        FrameCamera {
            camera: 2,
            settings: Some(b),
            target: ColorTarget { source: 200, destination: 201 },
        },
    ];
    let r = run_frame(&cameras, &cache, true);
    // Each camera's record sits in the shared buffer under its own distinct
    // offset, and each draw binds its own offset: no cross-contamination.
    assert_eq!(r.uniforms.records, vec![a, b]);
    let (off_a, off_b) = match (&r.actions[0], &r.actions[1]) {
        (Some(PassAction::Draw(ca)), Some(PassAction::Draw(cb))) => {
            assert_eq!(ca.pipeline, handle);
            assert_eq!(cb.pipeline, handle);
            assert_eq!(ca.bind_group.texture, 100);
            assert_eq!(cb.bind_group.texture, 200);
            assert_eq!(ca.target, 101);
            assert_eq!(cb.target, 201);
            (ca.bind_group.uniform_offset, cb.bind_group.uniform_offset)
        }
        other => panic!("both cameras must draw, got {:?}", other),
    };
    assert_ne!(off_a, off_b);
    assert_eq!(r.uniforms.records[(off_a / UNIFORM_STRIDE) as usize], a);
    assert_eq!(r.uniforms.records[(off_b / UNIFORM_STRIDE) as usize], b);
    assert_eq!(r.outputs[0].effect, Some(a));
    assert_eq!(r.outputs[1].effect, Some(b));
}

#[test]
fn frame_scenario_solid_white_camera() {
    // The scenario record: 64 rows, brightness 3, rounded corners 0.2,
    // edge transition 0.025, channel-mask floor 0.1. The shader work on the
    // 400x400 white image happens on the GPU; what the controller owes the
    // scenario is that exactly this record, bit for bit, reaches the one
    // draw made for the camera, at a valid offset of the frame's buffer.
    let cache = ready_cache();
    let s = settings_from_floats(0.2, 64.0, 3.0, 0.025, 0.1);
    let cameras = vec![FrameCamera {
        camera: 1,
        settings: Some(s),
        target: ColorTarget { source: 400, destination: 401 },
    }];
    let r = run_frame(&cameras, &cache, true);
    match &r.actions[0] {
        Some(PassAction::Draw(c)) => {
            let record = r.uniforms.records[(c.bind_group.uniform_offset / UNIFORM_STRIDE) as usize];
            assert_eq!(record, s);
            assert_eq!(f32::from_bits(record.rows), 64.0);
            assert_eq!(f32::from_bits(record.brightness), 3.0);
            assert_eq!(f32::from_bits(record.screen_shape_factor), 0.2);
            assert_eq!(f32::from_bits(record.edges_transition_size), 0.025);
            assert_eq!(f32::from_bits(record.channels_mask_min), 0.1);
            assert_eq!(c.vertices, 3);
            assert_eq!(c.instances, 1);
        }
        other => panic!("the camera must draw, got {:?}", other),
    }
    assert_eq!(r.outputs[0].image, 401);
    assert_eq!(r.outputs[0].effect, Some(s));
}

#[test]
fn plugin_registers_ordering_edges() {
    let plugin = OldTvPlugin;
    let mut graph = StageGraph {
        nodes: vec![
            StageLabel::Other(5),
            StageLabel::Tonemapping,
            StageLabel::EndPostProcessing,
        ],
        edges: vec![(StageLabel::Other(5), StageLabel::Tonemapping)],
    };
    plugin.build(&mut graph);
    assert_eq!(graph.nodes.last(), Some(&StageLabel::OldTvPass));
    assert_eq!(
        graph.edges,
        vec![
            (StageLabel::Other(5), StageLabel::Tonemapping),
            (StageLabel::Tonemapping, StageLabel::OldTvPass),
            (StageLabel::OldTvPass, StageLabel::EndPostProcessing),
        ]
    );
}

#[test]
fn plugin_finish_constructs_pipeline_once() {
    let plugin = OldTvPlugin;
    let mut cache = PipelineCache::new();
    let mut device = GraphicsDevice { next_id: 0, shader_compiles: true };
    let first = plugin.finish(&mut cache, &mut device).unwrap();
    let second = plugin.finish(&mut cache, &mut device).unwrap();
    assert_eq!(first, second);
    assert_eq!(cache.compiles, 1);
}
