//! GPU resource descriptors for the uniform buffer and its bind group, the
//! specialized render-pipeline description, and the pipeline cache.
//!
//! The library computes every descriptor as plain verified data; the host's
//! render device consumes them to create the actual GPU objects, and reports
//! back through `mark_ready` when a queued pipeline's background compilation
//! has finished. Shader modules and GPU objects appear here only as opaque
//! `u64` handle ids.

use vstd::prelude::*;
use vstd::string::StringExecFns;
use crate::shadertoy_bindings::STD140_SIZE;
use crate::FULLSCREEN_TRIANGLE_SHADER;

verus! {

/// Descriptor of the uniform buffer: sized exactly to the serialized block,
/// GPU-side uniform reads plus CPU-side writes, not mapped at creation.
#[derive(Clone, Copy, PartialEq, Eq, Structural, Debug)]
pub struct BufferDescriptor {
    pub size: u64,
    pub usage_uniform: bool,
    pub usage_copy_dst: bool,
    pub mapped_at_creation: bool,
}

/// Descriptor of the single-entry bind-group layout: binding 0, visible to
/// the fragment stage, uniform-buffer type, no dynamic offset, minimum size
/// equal to the block size.
#[derive(Clone, Copy, PartialEq, Eq, Structural, Debug)]
pub struct BindGroupLayoutDescriptor {
    pub binding: u32,
    pub visibility_fragment: bool,
    pub uniform_buffer_type: bool,
    pub has_dynamic_offset: bool,
    pub min_binding_size: u64,
}

/// Descriptor of the bind group attaching the whole uniform buffer to
/// binding 0 of that layout.
#[derive(Clone, Copy, PartialEq, Eq, Structural, Debug)]
pub struct BindGroupDescriptor {
    pub binding: u32,
    pub entire_buffer: bool,
}

/// The resources owned by the plugin: the user fragment shader's handle id
/// and the three descriptors the host device realizes once at startup.
pub struct ShadertoyPipeline {
    pub shader: u64,
    pub shadertoy_bindings: BufferDescriptor,
    pub shadertoy_bindings_bind_group: BindGroupDescriptor,
    pub shadertoy_bindings_bind_group_layout: BindGroupLayoutDescriptor,
}

impl ShadertoyPipeline {
    /// Builds the resource descriptors for one plugin instance: a uniform
    /// buffer sized exactly to the serialized block, a fragment-visible
    /// uniform binding at index 0 with that size as minimum, and a bind
    /// group attaching the entire buffer to it.
    pub fn new(shader: u64) -> (r: Self)
        ensures
            r.shader == shader,
            r.shadertoy_bindings.size == STD140_SIZE as u64,
            r.shadertoy_bindings.usage_uniform,
            r.shadertoy_bindings.usage_copy_dst,
            !r.shadertoy_bindings.mapped_at_creation,
            r.shadertoy_bindings_bind_group_layout.binding == 0,
            r.shadertoy_bindings_bind_group_layout.visibility_fragment,
            r.shadertoy_bindings_bind_group_layout.uniform_buffer_type,
            !r.shadertoy_bindings_bind_group_layout.has_dynamic_offset,
            r.shadertoy_bindings_bind_group_layout.min_binding_size == STD140_SIZE as u64,
            r.shadertoy_bindings_bind_group.binding == 0,
            r.shadertoy_bindings_bind_group.entire_buffer,
    {
        ShadertoyPipeline {
            shader,
            shadertoy_bindings: BufferDescriptor {
                size: STD140_SIZE as u64,
                usage_uniform: true,
                usage_copy_dst: true,
                mapped_at_creation: false,
            },
            shadertoy_bindings_bind_group: BindGroupDescriptor { binding: 0, entire_buffer: true },
            shadertoy_bindings_bind_group_layout: BindGroupLayoutDescriptor {
                binding: 0,
                visibility_fragment: true,
                uniform_buffer_type: true,
                has_dynamic_offset: false,
                min_binding_size: STD140_SIZE as u64,
            },
        }
    }
}

/// Description of the specialized graphics pipeline: the built-in
/// full-screen-triangle vertex stage, the user fragment stage, one bind-group
/// layout, one color target, no vertex buffers, no depth/stencil, default
/// single-sample state.
pub struct RenderPipelineDescriptor {
    pub layout: BindGroupLayoutDescriptor,
    pub vertex_shader: u64,
    pub vertex_entry_point: String,
    pub vertex_buffer_count: usize,
    pub fragment_shader: u64,
    pub fragment_entry_point: String,
    pub color_target_count: usize,
    pub has_depth_stencil: bool,
    pub sample_count: u32,
}

/// What `specialize` owes for a pipeline value: the specialization key space
/// is a unit, so this is the one and only descriptor ever produced for it.
pub open spec fn spec_matches_specialize(d: RenderPipelineDescriptor, p: ShadertoyPipeline) -> bool {
    &&& d.layout == p.shadertoy_bindings_bind_group_layout
    &&& d.vertex_shader == FULLSCREEN_TRIANGLE_SHADER
    &&& d.vertex_entry_point@ == "vs_main"@
    &&& d.vertex_buffer_count == 0
    &&& d.fragment_shader == p.shader
    &&& d.fragment_entry_point@ == "main"@
    &&& d.color_target_count == 1
    &&& !d.has_depth_stencil
    &&& d.sample_count == 1
}

impl ShadertoyPipeline {
    /// Builds the pipeline description for the unit specialization key.
    pub fn specialize(&self, _key: ()) -> (r: RenderPipelineDescriptor)
        ensures
            spec_matches_specialize(r, *self),
    {
        RenderPipelineDescriptor {
            layout: self.shadertoy_bindings_bind_group_layout,
            vertex_shader: FULLSCREEN_TRIANGLE_SHADER,
            vertex_entry_point: String::from_str("vs_main"),
            vertex_buffer_count: 0,
            fragment_shader: self.shader,
            fragment_entry_point: String::from_str("main"),
            color_target_count: 1,
            has_depth_stencil: false,
            sample_count: 1,
        }
    }
}

/// Abstract state of the pipeline cache: the queued descriptors in
/// submission order, which of them background compilation has finished, and
/// the look-aside entry for the unit specialization key.
pub struct CacheModel {
    pub descriptors: Seq<RenderPipelineDescriptor>,
    pub ready: Seq<bool>,
    pub unit_key: Option<int>,
}

impl CacheModel {
    /// One slot of bookkeeping per queued descriptor, and the look-aside
    /// entry, when set, names a queued pipeline.
    pub open spec fn wf(self) -> bool {
        &&& self.ready.len() == self.descriptors.len()
        &&& match self.unit_key {
            Some(i) => 0 <= i < self.descriptors.len(),
            None => true,
        }
    }
}

/// The resolved pipeline for a handle: the queued descriptor once its
/// background compilation has finished, and nothing before that (or for a
/// handle the cache never issued).
pub open spec fn spec_resolve(c: CacheModel, id: int) -> Option<RenderPipelineDescriptor> {
    if 0 <= id < c.descriptors.len() && id < c.ready.len() && c.ready[id] {
        Some(c.descriptors[id])
    } else {
        None
    }
}

/// The pipeline cache: descriptors are queued for asynchronous background
/// compilation, the host marks each finished, and lookups resolve only
/// finished ones. A look-aside entry keyed by the unit specialization key
/// makes compilation happen once, not per frame.
pub struct RenderPipelineCache {
    descriptors: Vec<RenderPipelineDescriptor>,
    ready: Vec<bool>,
    unit_key: Option<usize>,
}

impl View for RenderPipelineCache {
    type V = CacheModel;

    closed spec fn view(&self) -> CacheModel {
        CacheModel {
            descriptors: self.descriptors@,
            ready: self.ready@,
            unit_key: match self.unit_key {
                Some(i) => Some(i as int),
                None => None,
            },
        }
    }
}

impl RenderPipelineCache {
    /// An empty cache: nothing queued, nothing compiled.
    pub fn new() -> (r: Self)
        ensures
            r@.wf(),
            r@.descriptors.len() == 0,
            r@.unit_key is None,
    {
        RenderPipelineCache { descriptors: Vec::new(), ready: Vec::new(), unit_key: None }
    }

    /// Submits a descriptor for background compilation and returns its
    /// handle at once; the new entry is not yet resolved.
    pub fn queue(&mut self, descriptor: RenderPipelineDescriptor) -> (id: usize)
        requires
            old(self)@.wf(),
        ensures
            final(self)@.wf(),
            id == old(self)@.descriptors.len(),
            final(self)@.descriptors == old(self)@.descriptors.push(descriptor),
            final(self)@.ready == old(self)@.ready.push(false),
            final(self)@.unit_key == old(self)@.unit_key,
    {
        let id = self.descriptors.len();
        self.descriptors.push(descriptor);
        self.ready.push(false);
        id
    }

    /// The host signals that background compilation of a queued pipeline has
    /// finished; only that entry's status changes.
    pub fn mark_ready(&mut self, id: usize)
        requires
            old(self)@.wf(),
            id < old(self)@.descriptors.len(),
        ensures
            final(self)@.wf(),
            final(self)@.descriptors == old(self)@.descriptors,
            final(self)@.ready == old(self)@.ready.update(id as int, true),
            final(self)@.unit_key == old(self)@.unit_key,
    {
        self.ready.set(id, true);
    }

    /// Resolves a handle: the compiled pipeline's descriptor once ready,
    /// `None` while compilation is pending, has failed, or the handle is
    /// unknown. Never an error, and the cache is not changed.
    pub fn get(&self, id: usize) -> (r: Option<&RenderPipelineDescriptor>)
        ensures
            match r {
                Some(d) => spec_resolve(self@, id as int) == Some(*d),
                None => spec_resolve(self@, id as int) is None,
            },
    {
        if id < self.descriptors.len() && id < self.ready.len() {
            if self.ready[id] {
                Some(&self.descriptors[id])
            } else {
                None
            }
        } else {
            None
        }
    }

    /// The look-aside entry for the unit specialization key, if a pipeline
    /// was already compiled for it.
    pub fn unit_key_entry(&self) -> (r: Option<usize>)
        ensures
            match r {
                Some(i) => self@.unit_key == Some(i as int),
                None => self@.unit_key is None,
            },
    {
        self.unit_key
    }

    /// Records the handle compiled for the unit specialization key.
    fn set_unit_key(&mut self, id: usize)
        requires
            old(self)@.wf(),
            id < old(self)@.descriptors.len(),
        ensures
            final(self)@.wf(),
            final(self)@.descriptors == old(self)@.descriptors,
            final(self)@.ready == old(self)@.ready,
            final(self)@.unit_key == Some(id as int),
    {
        self.unit_key = Some(id);
    }
}

/// The handle of the pipeline compiled for this plugin's one specialization.
pub struct CompiledShadertoyPipeline(pub usize);

/// Compiles the plugin's pipeline through the cache: on the first call the
/// specialized descriptor is queued for background compilation and the
/// look-aside entry is set; on every later call the cache is left untouched
/// and the same handle comes back, so compilation happens once even though
/// the prepare phase runs every frame.
pub fn compile_pipeline(pipeline: &ShadertoyPipeline, pipeline_cache: &mut RenderPipelineCache) -> (r:
    CompiledShadertoyPipeline)
    requires
        old(pipeline_cache)@.wf(),
    ensures
        final(pipeline_cache)@.wf(),
        final(pipeline_cache)@.unit_key == Some(r.0 as int),
        match old(pipeline_cache)@.unit_key {
            Some(i) => r.0 == i && final(pipeline_cache)@ == old(pipeline_cache)@,
            None => {
                &&& r.0 == old(pipeline_cache)@.descriptors.len()
                &&& final(pipeline_cache)@.descriptors.len() == old(
                    pipeline_cache,
                )@.descriptors.len() + 1
                &&& spec_matches_specialize(final(pipeline_cache)@.descriptors.last(), *pipeline)
                &&& final(pipeline_cache)@.descriptors.drop_last() == old(
                    pipeline_cache,
                )@.descriptors
                &&& final(pipeline_cache)@.ready == old(pipeline_cache)@.ready.push(false)
            },
        },
{
    match pipeline_cache.unit_key_entry() {
        Some(id) => {
            proof {
                assert(final(pipeline_cache)@ =~= old(pipeline_cache)@);
            }
            CompiledShadertoyPipeline(id)
        },
        None => {
            let descriptor = pipeline.specialize(());
            let id = pipeline_cache.queue(descriptor);
            pipeline_cache.set_unit_key(id);
            proof {
                assert(pipeline_cache@.descriptors.drop_last() =~= old(pipeline_cache)@.descriptors);
            }
            CompiledShadertoyPipeline(id)
        },
    }
}

/// Law: queuing leaves every earlier handle's resolution unchanged, and the
/// new entry starts unresolved — "not yet compiled" is a state, not an error.
pub proof fn lemma_queue_preserves_resolution(c: CacheModel, d: RenderPipelineDescriptor, id: int)
    requires
        c.wf(),
    ensures
        id < c.descriptors.len() ==> spec_resolve(
            CacheModel { descriptors: c.descriptors.push(d), ready: c.ready.push(false), ..c },
            id,
        ) == spec_resolve(c, id),
        spec_resolve(
            CacheModel { descriptors: c.descriptors.push(d), ready: c.ready.push(false), ..c },
            c.descriptors.len() as int,
        ) is None,
{
}

/// Law: once a queued pipeline's compilation finishes, its handle resolves
/// to exactly the descriptor that was queued, and keeps resolving to it: the
/// resolved pipeline is a function of the cache value, so resolving many
/// times without recompilation always yields the same pipeline.
pub proof fn lemma_compile_then_resolve(c: CacheModel, d: RenderPipelineDescriptor)
    requires
        c.wf(),
    ensures
        ({
            let queued = CacheModel {
                descriptors: c.descriptors.push(d),
                ready: c.ready.push(false),
                ..c
            };
            let id = c.descriptors.len() as int;
            let done = CacheModel { ready: queued.ready.update(id, true), ..queued };
            spec_resolve(queued, id) is None && spec_resolve(done, id) == Some(d)
        }),
{
}

} // verus!
