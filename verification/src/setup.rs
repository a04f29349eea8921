//! Startup decisions: how the GPU context is acquired and what the
//! pipeline resources are built from.
//!
//! Acquiring an adapter, a device and a configured surface is asynchronous
//! work done outside the library; the library fixes the policy of each
//! request, classifies each outcome, and orders the steps. Every failure
//! on this path is fatal: the environment cannot render and no retry
//! applies. The pipeline resources are described here as plain descriptor
//! values the surrounding program hands to the GPU unchanged.

use vstd::prelude::*;

use crate::uniform;

verus! {

/// The fatal startup failures; each aborts the process, since the
/// environment is presumed unusable.
#[derive(Clone, Copy, PartialEq, Eq, Structural, Debug)]
pub enum FatalError {
    /// No compatible physical adapter was found.
    NoAdapterAvailable,
    /// The logical device and queue could not be created.
    DeviceCreationFailed,
    /// The surface rejected its initial configuration.
    SurfaceConfigurationFailed,
    /// The shading program or the render pipeline could not be built.
    PipelineCreationFailed,
}

/// Where the startup protocol stands: which acquisition is pending, or
/// how it ended.
#[derive(Clone, Copy, PartialEq, Eq, Structural, Debug)]
pub enum StartupStage {
    /// Waiting for the adapter request to complete.
    NeedAdapter,
    /// Waiting for the device and queue request to complete.
    NeedDevice,
    /// Waiting for the initial surface configuration to be applied.
    NeedSurfaceConfig,
    /// Waiting for the pipeline resources to be built.
    NeedPipeline,
    /// The context and pipeline are usable; steady-state rendering may begin.
    Ready,
    /// Startup failed; the process must report the error and exit.
    Failed(FatalError),
}

/// The outcome of one startup step, reported from outside.
#[derive(Clone, Copy, PartialEq, Eq, Structural, Debug)]
pub enum StartupOutcome {
    AdapterFound,
    AdapterUnavailable,
    DeviceReady,
    DeviceFailed,
    SurfaceConfigured,
    SurfaceRejected,
    PipelineBuilt,
    PipelineFailed,
}

/// How the adapter is requested: prefer the high-performance power class,
/// require compatibility with the presentable surface, and permit no
/// software fallback adapter.
#[derive(Clone, Copy, PartialEq, Eq, Structural, Debug)]
pub struct AdapterRequest {
    pub high_performance: bool,
    pub must_support_surface: bool,
    pub allow_fallback: bool,
}

/// How the device is requested: ask for every feature the adapter
/// advertises, with limits from the lowest common baseline raised only to
/// what the adapter actually supports.
#[derive(Clone, Copy, PartialEq, Eq, Structural, Debug)]
pub struct DeviceRequest {
    pub all_adapter_features: bool,
    pub baseline_limits_capped_to_adapter: bool,
}

/// The uniform buffer: sized exactly to the wire layout of the per-frame
/// uniform value, usable as a uniform-binding target and a copy
/// destination, not mappable for read.
#[derive(Clone, Copy, PartialEq, Eq, Structural, Debug)]
pub struct BufferPlan {
    pub size: u64,
    pub usable_as_uniform: bool,
    pub usable_as_copy_destination: bool,
    pub mapped_at_creation: bool,
}

/// The one binding of the binding-set layout: the uniform buffer at a
/// fixed slot, visible to both shader stages, with no dynamic offset.
#[derive(Clone, Copy, PartialEq, Eq, Structural, Debug)]
pub struct BindingPlan {
    pub slot: u32,
    pub visible_to_vertex: bool,
    pub visible_to_fragment: bool,
    pub dynamic_offset: bool,
}

/// The render pipeline's fixed-function shape: no vertex buffers, one
/// color target in the surface's negotiated format, no depth/stencil, no
/// multisampling.
#[derive(Clone, Copy, PartialEq, Eq, Structural, Debug)]
pub struct PipelinePlan {
    pub vertex_buffer_count: u32,
    pub color_target_count: u32,
    pub color_target_format: u32,
    pub depth_stencil: bool,
    pub sample_count: u32,
}

/// Advances the startup protocol by one reported outcome. The order is
/// fixed: adapter, then device, then the initial surface configuration,
/// then the pipeline resources; the first failure ends the protocol with
/// the matching fatal error, and a finished protocol no longer moves.
pub fn startup_step(stage: StartupStage, outcome: StartupOutcome) -> (next: StartupStage)
    ensures
        stage is NeedAdapter && outcome is AdapterFound ==> next is NeedDevice,
        stage is NeedAdapter && outcome is AdapterUnavailable
            ==> next == StartupStage::Failed(FatalError::NoAdapterAvailable),
        stage is NeedDevice && outcome is DeviceReady ==> next is NeedSurfaceConfig,
        stage is NeedDevice && outcome is DeviceFailed
            ==> next == StartupStage::Failed(FatalError::DeviceCreationFailed),
        stage is NeedSurfaceConfig && outcome is SurfaceConfigured ==> next is NeedPipeline,
        stage is NeedSurfaceConfig && outcome is SurfaceRejected
            ==> next == StartupStage::Failed(FatalError::SurfaceConfigurationFailed),
        stage is NeedPipeline && outcome is PipelineBuilt ==> next is Ready,
        stage is NeedPipeline && outcome is PipelineFailed
            ==> next == StartupStage::Failed(FatalError::PipelineCreationFailed),
        stage is Ready ==> next == stage,
        stage is Failed ==> next == stage,
        next is Failed ==> stage is Failed || outcome is AdapterUnavailable
            || outcome is DeviceFailed || outcome is SurfaceRejected
            || outcome is PipelineFailed,
{
    match stage {
        StartupStage::NeedAdapter => match outcome {
            StartupOutcome::AdapterFound => StartupStage::NeedDevice,
            StartupOutcome::AdapterUnavailable => StartupStage::Failed(FatalError::NoAdapterAvailable),
            _ => stage,
        },
        StartupStage::NeedDevice => match outcome {
            StartupOutcome::DeviceReady => StartupStage::NeedSurfaceConfig,
            StartupOutcome::DeviceFailed => StartupStage::Failed(FatalError::DeviceCreationFailed),
            _ => stage,
        },
        StartupStage::NeedSurfaceConfig => match outcome {
            StartupOutcome::SurfaceConfigured => StartupStage::NeedPipeline,
            StartupOutcome::SurfaceRejected => StartupStage::Failed(FatalError::SurfaceConfigurationFailed),
            _ => stage,
        },
        StartupStage::NeedPipeline => match outcome {
            StartupOutcome::PipelineBuilt => StartupStage::Ready,
            StartupOutcome::PipelineFailed => StartupStage::Failed(FatalError::PipelineCreationFailed),
            _ => stage,
        },
        StartupStage::Ready => stage,
        StartupStage::Failed(_) => stage,
    }
}

/// The fixed adapter policy of this renderer.
pub fn adapter_request() -> (r: AdapterRequest)
    ensures
        r.high_performance,
        r.must_support_surface,
        !r.allow_fallback,
{
    AdapterRequest { high_performance: true, must_support_surface: true, allow_fallback: false }
}

/// The fixed device policy of this renderer.
pub fn device_request() -> (r: DeviceRequest)
    ensures
        r.all_adapter_features,
        r.baseline_limits_capped_to_adapter,
{
    DeviceRequest { all_adapter_features: true, baseline_limits_capped_to_adapter: true }
}

/// The uniform buffer descriptor: its size is exactly the wire size of
/// the per-frame uniform value.
pub fn uniform_buffer_plan() -> (r: BufferPlan)
    ensures
        r.size == uniform::WIRE_SIZE,
        r.usable_as_uniform,
        r.usable_as_copy_destination,
        !r.mapped_at_creation,
{
    BufferPlan {
        size: uniform::WIRE_SIZE as u64,
        usable_as_uniform: true,
        usable_as_copy_destination: true,
        mapped_at_creation: false,
    }
}

/// The binding-set layout's one entry: slot 0, both stages, no dynamic
/// offset.
pub fn uniform_binding_plan() -> (r: BindingPlan)
    ensures
        r.slot == 0,
        r.visible_to_vertex,
        r.visible_to_fragment,
        !r.dynamic_offset,
{
    BindingPlan { slot: 0, visible_to_vertex: true, visible_to_fragment: true, dynamic_offset: false }
}

/// Picks the surface format the pipeline is built against: the first
/// format the surface reports as supported, and nothing when it reports
/// none.
pub fn select_surface_format(formats: &Vec<u32>) -> (r: Option<u32>)
    ensures
        formats@.len() > 0 ==> r == Some(formats@[0]),
        formats@.len() == 0 ==> r is None,
{
    if formats.len() > 0 {
        Some(formats[0])
    } else {
        None
    }
}

/// The render pipeline descriptor for a surface of the given negotiated
/// format: procedurally generated vertices (no vertex buffers), a single
/// color target in exactly that format, no depth/stencil, no
/// multisampling.
pub fn pipeline_plan(surface_format: u32) -> (r: PipelinePlan)
    ensures
        r.vertex_buffer_count == 0,
        r.color_target_count == 1,
        r.color_target_format == surface_format,
        !r.depth_stencil,
        r.sample_count == 1,
{
    PipelinePlan {
        vertex_buffer_count: 0,
        color_target_count: 1,
        color_target_format: surface_format,
        depth_stencil: false,
        sample_count: 1,
    }
}

} // verus!
