//! Per-frame uniform synchronization and pipeline-compilation core for a
//! full-screen ("Shadertoy"-style) fragment shader rendered by a host engine.
//!
//! The host GPU API consumes 32-bit scalars; this crate manipulates their
//! IEEE-754 binary32 bit patterns as plain `u32` words, so the uniform-buffer
//! layout, the mouse clamping and the serialization are exact integer logic.
//! The host-engine glue (device calls, windowing, asset loading) lives outside
//! this crate and hands plain values in and out.

use vstd::prelude::*;

pub mod scalar;
pub mod shadertoy_bindings;
pub mod pipeline;
pub mod node;

use crate::node::{RenderCommand, ShadertoyNode, spec_frame_commands};
use crate::pipeline::{CompiledShadertoyPipeline, RenderPipelineCache, ShadertoyPipeline,
    compile_pipeline};
use crate::scalar::EXACT_LIMIT;
use crate::shadertoy_bindings::{ExtractedTime, MouseState, STD140_SIZE, spec_shadertoy_bindings,
    std140_bytes, write_shadertoy_buffer};

verus! {

/// Weak handle id of the built-in full-screen-triangle vertex shader module.
pub const FULLSCREEN_TRIANGLE_SHADER: u64 = 5055891631612190481;

/// Weak handle id of the shared binding-declaration shader module.
pub const SHADERTOY_BINDINGS: u64 = 993833722855091815;

/// Weak handle id of the built-in fragment entry shader module.
pub const SHADERTOY_MAIN: u64 = 8820494265073802242;

/// One plugin instance: the pipeline resources, the compile cache, and the
/// render-side copies of the application-stage snapshots.
///
/// The host driver calls the three phase methods in fixed order every frame:
/// `on_extract` copies the snapshots across the stage boundary, `on_prepare`
/// compiles (once) and produces the frame's uniform bytes, `on_render`
/// records the frame's draw commands.
pub struct ShadertoyPlugin {
    pub pipeline: ShadertoyPipeline,
    pub pipeline_cache: RenderPipelineCache,
    pub compiled: Option<CompiledShadertoyPipeline>,
    pub mouse: MouseState,
    pub time: ExtractedTime,
}

impl ShadertoyPlugin {
    /// The cache is well formed and the stored handle, once there, is the
    /// look-aside entry for the unit specialization key.
    pub open spec fn wf(self) -> bool {
        &&& self.pipeline_cache@.wf()
        &&& match self.compiled {
            Some(c) => self.pipeline_cache@.unit_key == Some(c.0 as int),
            None => true,
        }
    }

    /// A fresh plugin instance for one user fragment shader: resource
    /// descriptors built, nothing compiled yet, tracking state at its
    /// defaults.
    pub fn new(shader: u64) -> (r: Self)
        ensures
            r.wf(),
            r.pipeline.shader == shader,
            r.compiled is None,
            r.pipeline_cache@.descriptors.len() == 0,
            r.mouse == (MouseState { x: 0, y: 0, down: false, just_down: false }),
            r.time == (ExtractedTime { seconds_since_startup: 0, delta: 0 }),
    {
        ShadertoyPlugin {
            pipeline: ShadertoyPipeline::new(shader),
            pipeline_cache: RenderPipelineCache::new(),
            compiled: None,
            mouse: MouseState { x: 0, y: 0, down: false, just_down: false },
            time: ExtractedTime { seconds_since_startup: 0, delta: 0 },
        }
    }

    /// Extract phase: full value copies of the application-stage snapshots
    /// into render-side storage, so the render stage never observes a
    /// partially updated snapshot. Nothing else changes.
    pub fn on_extract(&mut self, mouse: &MouseState, time: &ExtractedTime)
        ensures
            final(self).mouse == *mouse,
            final(self).time == *time,
            final(self).pipeline == old(self).pipeline,
            final(self).pipeline_cache@ == old(self).pipeline_cache@,
            final(self).compiled == old(self).compiled,
    {
        self.mouse = *mouse;
        self.time = *time;
    }

    /// Prepare phase: compiles the pipeline through the cache — queued once,
    /// answered from the look-aside entry every frame after — and returns
    /// the frame's uniform bytes, built from the extracted snapshots and the
    /// window's pixel size.
    pub fn on_prepare(&mut self, width: u32, height: u32) -> (bytes: Vec<u8>)
        requires
            old(self).wf(),
            width < EXACT_LIMIT,
            height < EXACT_LIMIT,
        ensures
            final(self).wf(),
            final(self).compiled is Some,
            bytes@ == std140_bytes(
                spec_shadertoy_bindings(width, height, old(self).time, old(self).mouse),
            ),
            bytes@.len() == STD140_SIZE,
            final(self).mouse == old(self).mouse,
            final(self).time == old(self).time,
            final(self).pipeline == old(self).pipeline,
            old(self).compiled is Some ==> final(self).compiled == old(self).compiled
                && final(self).pipeline_cache@ == old(self).pipeline_cache@,
    {
        let compiled = compile_pipeline(&self.pipeline, &mut self.pipeline_cache);
        self.compiled = Some(compiled);
        write_shadertoy_buffer(width, height, &self.time, &self.mouse)
    }

    /// Render phase: records the frame's command stream. With no compiled
    /// handle yet, no resolved pipeline, or no output view, the frame is
    /// skipped and the stream is empty.
    pub fn on_render(&self, swap_chain_texture: Option<u64>, bind_group: u64) -> (commands: Vec<
        RenderCommand,
    >)
        ensures
            commands@ == match self.compiled {
                Some(c) => spec_frame_commands(
                    self.pipeline_cache@,
                    c.0 as int,
                    swap_chain_texture,
                    bind_group,
                ),
                None => Seq::<RenderCommand>::empty(),
            },
    {
        match &self.compiled {
            Some(compiled) => {
                let node = ShadertoyNode;
                node.run(&self.pipeline_cache, compiled, swap_chain_texture, bind_group)
            },
            None => Vec::new(),
        }
    }

    /// The host's background compiler reports that the compiled pipeline is
    /// ready to use; from then on the render phase resolves it.
    pub fn mark_pipeline_ready(&mut self)
        requires
            old(self).wf(),
            old(self).compiled is Some,
        ensures
            final(self).wf(),
            final(self).compiled == old(self).compiled,
            final(self).mouse == old(self).mouse,
            final(self).time == old(self).time,
            final(self).pipeline == old(self).pipeline,
            final(self).pipeline_cache@.descriptors == old(self).pipeline_cache@.descriptors,
            final(self).pipeline_cache@.unit_key == old(self).pipeline_cache@.unit_key,
            final(self).pipeline_cache@.ready == old(self).pipeline_cache@.ready.update(
                old(self).compiled->Some_0.0 as int,
                true,
            ),
    {
        match &self.compiled {
            Some(compiled) => {
                let id = compiled.0;
                self.pipeline_cache.mark_ready(id);
            },
            None => {},
        }
    }
}

} // verus!
