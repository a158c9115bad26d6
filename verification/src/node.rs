//! The render-graph node that draws the full-screen triangle once per frame.
//!
//! The node itself decides what the frame's command stream is; the host's
//! command encoder replays it against the GPU. Skipping a frame — no output
//! view acquired, or the pipeline not resolved yet — is an expected state
//! and produces an empty stream, never an error.

use vstd::prelude::*;
use crate::pipeline::{CacheModel, CompiledShadertoyPipeline, RenderPipelineCache, spec_resolve};

verus! {

/// One command recorded for the host's command encoder. View and bind-group
/// GPU objects appear as opaque `u64` ids.
#[derive(Clone, Copy, PartialEq, Eq, Structural, Debug)]
pub enum RenderCommand {
    /// Opens the frame's one render pass targeting the output view:
    /// clear-on-load, store-on-finish, no depth/stencil attachment.
    BeginRenderPass { view: u64, clear_load: bool, store: bool, has_depth_stencil: bool },
    /// Selects the resolved pipeline by its cache handle.
    SetRenderPipeline { id: usize },
    /// Binds the uniform bind group with no dynamic offsets.
    SetBindGroup { index: u32, bind_group: u64, dynamic_offset_count: usize },
    /// Issues the draw over a vertex range and an instance range.
    Draw { first_vertex: u32, vertex_count: u32, first_instance: u32, instance_count: u32 },
    /// Closes the render pass.
    EndRenderPass,
}

/// The command stream owed for a frame: empty when the pipeline is not
/// resolved or no output view is available; otherwise exactly one render
/// pass holding the bind at index 0 and the 3-vertex, 1-instance draw.
pub open spec fn spec_frame_commands(
    cache: CacheModel,
    id: int,
    view: Option<u64>,
    bind_group: u64,
) -> Seq<RenderCommand> {
    if spec_resolve(cache, id) is None || view is None {
        Seq::empty()
    } else {
        seq![
            RenderCommand::BeginRenderPass {
                view: view->Some_0,
                clear_load: true,
                store: true,
                has_depth_stencil: false,
            },
            RenderCommand::SetRenderPipeline { id: id as usize },
            RenderCommand::SetBindGroup { index: 0, bind_group, dynamic_offset_count: 0 },
            RenderCommand::Draw {
                first_vertex: 0,
                vertex_count: 3,
                first_instance: 0,
                instance_count: 1,
            },
            RenderCommand::EndRenderPass,
        ]
    }
}

/// The node registered into the host's render graph.
pub struct ShadertoyNode;

impl ShadertoyNode {
    /// One frame: resolve the compiled pipeline, look up the output view,
    /// and either record one render pass with one draw, or record nothing.
    /// `swap_chain_texture` is the frame's output view, when the host
    /// acquired one; `bind_group` is the uniform bind group created from the
    /// descriptors at startup.
    pub fn run(
        &self,
        pipeline_cache: &RenderPipelineCache,
        compiled: &CompiledShadertoyPipeline,
        swap_chain_texture: Option<u64>,
        bind_group: u64,
    ) -> (commands: Vec<RenderCommand>)
        ensures
            commands@ == spec_frame_commands(
                pipeline_cache@,
                compiled.0 as int,
                swap_chain_texture,
                bind_group,
            ),
    {
        let mut commands: Vec<RenderCommand> = Vec::new();
        let pipeline = match pipeline_cache.get(compiled.0) {
            Some(pipeline) => pipeline,
            None => {
                return commands;
            },
        };
        let view = match swap_chain_texture {
            Some(view) => view,
            None => {
                return commands;
            },
        };
        commands.push(
            RenderCommand::BeginRenderPass {
                view,
                clear_load: true,
                store: true,
                has_depth_stencil: false,
            },
        );
        commands.push(RenderCommand::SetRenderPipeline { id: compiled.0 });
        commands.push(RenderCommand::SetBindGroup { index: 0, bind_group, dynamic_offset_count: 0 });
        commands.push(
            RenderCommand::Draw {
                first_vertex: 0,
                vertex_count: 3,
                first_instance: 0,
                instance_count: 1,
            },
        );
        commands.push(RenderCommand::EndRenderPass);
        proof {
            assert(commands@ =~= spec_frame_commands(
                pipeline_cache@,
                compiled.0 as int,
                swap_chain_texture,
                bind_group,
            ));
        }
        commands
    }
}

/// Number of draw commands in a stream.
pub open spec fn draw_count(s: Seq<RenderCommand>) -> nat
    decreases s.len(),
{
    if s.len() == 0 {
        0
    } else {
        draw_count(s.drop_last()) + if s.last() is Draw {
            1nat
        } else {
            0nat
        }
    }
}

/// Number of render passes opened in a stream.
pub open spec fn pass_count(s: Seq<RenderCommand>) -> nat
    decreases s.len(),
{
    if s.len() == 0 {
        0
    } else {
        pass_count(s.drop_last()) + if s.last() is BeginRenderPass {
            1nat
        } else {
            0nat
        }
    }
}

/// Law: when no output view is available, or the pipeline has not resolved
/// (still compiling, failed to compile, or unknown handle), the frame issues
/// zero draw commands and opens zero render passes.
pub proof fn lemma_skipped_frame_draws_nothing(
    cache: CacheModel,
    id: int,
    view: Option<u64>,
    bind_group: u64,
)
    requires
        view is None || spec_resolve(cache, id) is None,
    ensures
        spec_frame_commands(cache, id, view, bind_group).len() == 0,
        draw_count(spec_frame_commands(cache, id, view, bind_group)) == 0,
        pass_count(spec_frame_commands(cache, id, view, bind_group)) == 0,
{
}

/// Law: when the view is present and the pipeline resolved, the frame issues
/// exactly one render pass containing exactly one draw, covering vertices
/// `[0, 3)` and instances `[0, 1)`.
pub proof fn lemma_rendered_frame_draws_once(
    cache: CacheModel,
    id: int,
    view: Option<u64>,
    bind_group: u64,
)
    requires
        view is Some,
        spec_resolve(cache, id) is Some,
    ensures
        draw_count(spec_frame_commands(cache, id, view, bind_group)) == 1,
        pass_count(spec_frame_commands(cache, id, view, bind_group)) == 1,
        spec_frame_commands(cache, id, view, bind_group)[3] == (RenderCommand::Draw {
            first_vertex: 0,
            vertex_count: 3,
            first_instance: 0,
            instance_count: 1,
        }),
{
    let s = spec_frame_commands(cache, id, view, bind_group);
    assert(s.len() == 5);
    let s4 = s.drop_last();
    let s3 = s4.drop_last();
    let s2 = s3.drop_last();
    let s1 = s2.drop_last();
    let s0 = s1.drop_last();
    assert(s0.len() == 0);
    assert(s1.last() == s[0] && s2.last() == s[1] && s3.last() == s[2] && s4.last() == s[3]
        && s.last() == s[4]);
    assert(draw_count(s0) == 0 && pass_count(s0) == 0);
    assert(draw_count(s1) == 0 && pass_count(s1) == 1);
    assert(draw_count(s2) == 0 && pass_count(s2) == 1);
    assert(draw_count(s3) == 0 && pass_count(s3) == 1);
    assert(draw_count(s4) == 1 && pass_count(s4) == 1);
    assert(draw_count(s) == 1 && pass_count(s) == 1);
}

} // verus!
