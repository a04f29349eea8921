use shaded_quad::driver::{FramePlan, LoopAction, LoopEvent, Phase, RenderLoop};

fn resized(width: u32, height: u32) -> LoopEvent {
    LoopEvent::Resized {
        width,
        height,
        aspect_bits: (width as f32 / height as f32).to_bits(),
    }
}

fn submitted_plans(actions: &[LoopAction]) -> Vec<&FramePlan> {
    actions
        .iter()
        .filter_map(|a| match a {
            LoopAction::SubmitFrame(plan) => Some(plan),
            _ => None,
        })
        .collect()
}

fn start_800_600() -> RenderLoop {
    let aspect = (800.0f32 / 600.0f32).to_bits();
    RenderLoop::init(800, 600, 0, 0, aspect)
}

#[test]
fn initial_aspect_is_window_ratio() {
    let s = start_800_600();
    let aspect = f32::from_bits(s.uniform.aspect_bits);
    assert!((aspect - 1.3333334).abs() < 1e-6);
    assert!(matches!(s.phase, Phase::Idle));
}

#[test]
fn aspect_tracks_last_resize_only() {
    let mut s = start_800_600();
    for (w, h) in [(1024u32, 768u32), (300, 900), (1920, 1080), (400, 800)] {
        s.handle_event(resized(w, h));
        assert_eq!(s.config.width, w);
        assert_eq!(s.config.height, h);
        assert_eq!(
            f32::from_bits(s.uniform.aspect_bits),
            w as f32 / h as f32
        );
    }
    assert_eq!(f32::from_bits(s.uniform.aspect_bits), 0.5);
}

#[test]
fn reconfigure_comes_before_next_redraw_request() {
    let mut s = start_800_600();
    let actions = s.handle_event(resized(640, 480));
    assert_eq!(actions.len(), 2);
    assert!(matches!(
        actions[0],
        LoopAction::Reconfigure { width: 640, height: 480 }
    ));
    assert!(matches!(actions[1], LoopAction::RequestRedraw));
    assert!(submitted_plans(&actions).is_empty());
}

#[test]
fn redraw_after_resize_acquires_new_size() {
    let mut s = start_800_600();
    s.handle_event(resized(400, 800));
    let actions = s.handle_event(LoopEvent::RedrawRequested);
    let plans = submitted_plans(&actions);
    assert_eq!(plans.len(), 1);
    assert_eq!(plans[0].acquire_width, 400);
    assert_eq!(plans[0].acquire_height, 800);
}

#[test]
fn resize_to_current_size_changes_nothing() {
    let mut s = start_800_600();
    let before_aspect = s.uniform.aspect_bits;
    let actions = s.handle_event(resized(800, 600));
    assert_eq!(s.config.width, 800);
    assert_eq!(s.config.height, 600);
    assert_eq!(s.uniform.aspect_bits, before_aspect);
    assert_eq!(actions.len(), 2);
    assert!(matches!(s.phase, Phase::Idle));
}

#[test]
fn one_submit_one_pass_one_draw_per_redraw() {
    let mut s = start_800_600();
    let actions = s.handle_event(LoopEvent::RedrawRequested);
    let plans = submitted_plans(&actions);
    assert_eq!(plans.len(), 1);
    let plan = plans[0];
    assert_eq!(plan.passes.len(), 1);
    assert_eq!(plan.passes[0].draws.len(), 1);
    let draw = &plan.passes[0].draws[0];
    assert_eq!(draw.first_vertex, 0);
    assert_eq!(draw.vertex_count, 6);
    assert_eq!(draw.first_instance, 0);
    assert_eq!(draw.instance_count, 1);
    assert!(matches!(actions[0], LoopAction::RequestRedraw));
}

#[test]
fn frame_uploads_zero_time_and_current_aspect() {
    let mut s = start_800_600();
    s.handle_event(resized(400, 800));
    let actions = s.handle_event(LoopEvent::RedrawRequested);
    let plans = submitted_plans(&actions);
    let mut expected = Vec::new();
    expected.extend_from_slice(&0.0f32.to_le_bytes());
    expected.extend_from_slice(&0.5f32.to_le_bytes());
    assert_eq!(plans[0].uniform_offset, 0);
    assert_eq!(plans[0].uniform_bytes, expected);
}

#[test]
fn close_terminates_and_no_further_frame_is_issued() {
    let mut s = start_800_600();
    s.handle_event(LoopEvent::RedrawRequested);
    let actions = s.handle_event(LoopEvent::CloseRequested);
    assert_eq!(actions.len(), 1);
    assert!(matches!(actions[0], LoopAction::Exit));
    assert!(matches!(s.phase, Phase::Terminated));
    let after = s.handle_event(LoopEvent::RedrawRequested);
    assert!(after.is_empty());
    let after_resize = s.handle_event(resized(100, 100));
    assert!(after_resize.is_empty());
    assert_eq!(s.config.width, 800);
}

#[test]
fn unrecognized_events_are_ignored() {
    let mut s = start_800_600();
    let before_width = s.config.width;
    let actions = s.handle_event(LoopEvent::Other);
    assert!(actions.is_empty());
    assert_eq!(s.config.width, before_width);
    assert!(matches!(s.phase, Phase::Idle));
}

#[test]
fn format_and_present_mode_survive_resize() {
    let aspect = (800.0f32 / 600.0f32).to_bits();
    let mut s = RenderLoop::init(800, 600, 37, 2, aspect);
    s.handle_event(resized(1024, 768));
    assert_eq!(s.config.format, 37);
    assert_eq!(s.config.present_mode, 2);
}
