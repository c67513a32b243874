use render_loop::size::WindowSize;
use render_loop::surface::{FramePlan, PresentMode, SurfaceCaps, SurfaceState};

fn caps(formats: Vec<u32>, alpha_modes: Vec<u32>) -> SurfaceCaps {
    SurfaceCaps { formats, alpha_modes }
}

#[test]
fn new_picks_first_format_and_fifo() {
    let st = SurfaceState::new(
        WindowSize::new(800, 600),
        &caps(vec![7, 8, 11], vec![9, 12]),
    );
    assert_eq!(st.size, WindowSize::new(800, 600));
    assert!(!st.size_changed);
    assert_eq!(st.config.width, 800);
    assert_eq!(st.config.height, 600);
    assert_eq!(st.config.format, 7);
    assert_eq!(st.config.alpha_mode, 9);
    assert_eq!(st.config.present_mode, PresentMode::Fifo);
    assert_eq!(st.config.desired_maximum_frame_latency, 2);
}

#[test]
fn new_clamps_zero_dimensions_to_one() {
    let st = SurfaceState::new(WindowSize::new(0, 0), &caps(vec![1], vec![2]));
    assert_eq!(st.size, WindowSize::new(1, 1));
    assert_eq!(st.config.width, 1);
    assert_eq!(st.config.height, 1);

    let st2 = SurfaceState::new(WindowSize::new(0, 480), &caps(vec![1], vec![2]));
    assert_eq!(st2.size, WindowSize::new(1, 480));
}

#[test]
fn set_window_size_with_size_in_effect_is_a_no_op() {
    let mut st = SurfaceState::new(WindowSize::new(640, 480), &caps(vec![1], vec![2]));
    st.set_window_size(WindowSize::new(640, 480));
    assert!(!st.size_changed);
    assert_eq!(st.size, WindowSize::new(640, 480));
}

#[test]
fn set_window_size_twice_with_identical_size_is_idempotent() {
    let mut st = SurfaceState::new(WindowSize::new(640, 480), &caps(vec![1], vec![2]));
    st.set_window_size(WindowSize::new(320, 240));
    let after_first = st;
    st.set_window_size(WindowSize::new(320, 240));
    assert_eq!(st, after_first);
    assert!(st.size_changed);
    assert_eq!(st.size, WindowSize::new(320, 240));
}

#[test]
fn render_on_zero_area_surface_skips_and_keeps_state() {
    let mut st = SurfaceState::new(WindowSize::new(800, 600), &caps(vec![1], vec![2]));
    st.set_window_size(WindowSize::new(0, 400));
    assert!(st.size_changed);
    let before = st;
    let plan = st.begin_frame();
    assert_eq!(plan, FramePlan::Skip);
    // no reconfiguration, no frame acquisition: the state is untouched
    assert_eq!(st, before);
    assert!(st.size_changed);
    assert_eq!(st.config.width, 800);
    assert_eq!(st.config.height, 600);
}

#[test]
fn resize_then_render_reconfigures_exactly_once() {
    let mut st = SurfaceState::new(WindowSize::new(800, 600), &caps(vec![1], vec![2]));
    st.set_window_size(WindowSize::new(1024, 768));

    let plan = st.begin_frame();
    assert_eq!(
        plan,
        FramePlan::Draw { reconfigure: Some(WindowSize::new(1024, 768)) }
    );
    assert_eq!(st.config.width, 1024);
    assert_eq!(st.config.height, 768);
    assert!(!st.size_changed);

    // the next render has nothing left to reconfigure
    let plan2 = st.begin_frame();
    assert_eq!(plan2, FramePlan::Draw { reconfigure: None });
    assert_eq!(st.config.width, 1024);
    assert_eq!(st.config.height, 768);
}

#[test]
fn resize_applies_pending_size_only_when_dirty() {
    let mut st = SurfaceState::new(WindowSize::new(800, 600), &caps(vec![1], vec![2]));
    assert_eq!(st.resize(), None);

    st.set_window_size(WindowSize::new(400, 300));
    assert_eq!(st.resize(), Some(WindowSize::new(400, 300)));
    assert!(!st.size_changed);
    assert_eq!(st.config.width, 400);
    assert_eq!(st.config.height, 300);
    assert_eq!(st.resize(), None);
}

#[test]
fn get_size_returns_configured_size() {
    let mut st = SurfaceState::new(WindowSize::new(800, 600), &caps(vec![1], vec![2]));
    assert_eq!(st.get_size(), WindowSize::new(800, 600));
    // a recorded but not yet applied resize does not show up
    st.set_window_size(WindowSize::new(123, 45));
    assert_eq!(st.get_size(), WindowSize::new(800, 600));
    st.begin_frame();
    assert_eq!(st.get_size(), WindowSize::new(123, 45));
}
