use shaded_quad::setup::{
    adapter_request, device_request, pipeline_plan, select_surface_format, startup_step,
    uniform_binding_plan, uniform_buffer_plan, FatalError, StartupOutcome, StartupStage,
};
use shaded_quad::uniform::WIRE_SIZE;

#[test]
fn startup_happy_path_reaches_ready() {
    let mut stage = StartupStage::NeedAdapter;
    stage = startup_step(stage, StartupOutcome::AdapterFound);
    assert_eq!(stage, StartupStage::NeedDevice);
    stage = startup_step(stage, StartupOutcome::DeviceReady);
    assert_eq!(stage, StartupStage::NeedSurfaceConfig);
    stage = startup_step(stage, StartupOutcome::SurfaceConfigured);
    assert_eq!(stage, StartupStage::NeedPipeline);
    stage = startup_step(stage, StartupOutcome::PipelineBuilt);
    assert_eq!(stage, StartupStage::Ready);
    stage = startup_step(stage, StartupOutcome::AdapterUnavailable);
    assert_eq!(stage, StartupStage::Ready);
}

#[test]
fn missing_adapter_is_fatal() {
    let stage = startup_step(StartupStage::NeedAdapter, StartupOutcome::AdapterUnavailable);
    assert_eq!(stage, StartupStage::Failed(FatalError::NoAdapterAvailable));
    let stuck = startup_step(stage, StartupOutcome::AdapterFound);
    assert_eq!(stuck, stage);
}

#[test]
fn device_failure_is_fatal() {
    let stage = startup_step(StartupStage::NeedDevice, StartupOutcome::DeviceFailed);
    assert_eq!(stage, StartupStage::Failed(FatalError::DeviceCreationFailed));
}

#[test]
fn surface_rejection_is_fatal() {
    let stage = startup_step(StartupStage::NeedSurfaceConfig, StartupOutcome::SurfaceRejected);
    assert_eq!(stage, StartupStage::Failed(FatalError::SurfaceConfigurationFailed));
}

#[test]
fn pipeline_failure_is_fatal() {
    let stage = startup_step(StartupStage::NeedPipeline, StartupOutcome::PipelineFailed);
    assert_eq!(stage, StartupStage::Failed(FatalError::PipelineCreationFailed));
}

#[test]
fn adapter_policy_is_high_performance_no_fallback() {
    let request = adapter_request();
    assert!(request.high_performance);
    assert!(request.must_support_surface);
    assert!(!request.allow_fallback);
}

#[test]
fn device_policy_uses_adapter_features_and_baseline_limits() {
    let request = device_request();
    assert!(request.all_adapter_features);
    assert!(request.baseline_limits_capped_to_adapter);
}

#[test]
fn uniform_buffer_is_sized_to_wire_layout() {
    let plan = uniform_buffer_plan();
    assert_eq!(plan.size, WIRE_SIZE as u64);
    assert!(plan.usable_as_uniform);
    assert!(plan.usable_as_copy_destination);
    assert!(!plan.mapped_at_creation);
}

#[test]
fn binding_is_slot_zero_both_stages() {
    let plan = uniform_binding_plan();
    assert_eq!(plan.slot, 0);
    assert!(plan.visible_to_vertex);
    assert!(plan.visible_to_fragment);
    assert!(!plan.dynamic_offset);
}

#[test]
fn first_supported_format_is_selected() {
    assert_eq!(select_surface_format(&vec![5, 2, 9]), Some(5));
    assert_eq!(select_surface_format(&Vec::new()), None);
}

#[test]
fn pipeline_targets_the_negotiated_format() {
    let plan = pipeline_plan(42);
    assert_eq!(plan.color_target_format, 42);
    assert_eq!(plan.color_target_count, 1);
    assert_eq!(plan.vertex_buffer_count, 0);
    assert!(!plan.depth_stencil);
    assert_eq!(plan.sample_count, 1);
}
