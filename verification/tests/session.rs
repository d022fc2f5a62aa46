use bbsl::Rect;
use bbsl::buffer::FrameBuffer;
use bbsl::session::{AppState, GlobalKind, RenderStep, pong_serial};

#[test]
fn ping_is_answered_with_its_own_serial() {
    assert_eq!(pong_serial(42), 42);
    assert_eq!(pong_serial(0), 0);
}

#[test]
fn registry_binds_each_required_interface() {
    let mut st = AppState::new();
    assert_eq!(
        st.on_global(&String::from("wl_compositor")),
        Some(GlobalKind::Compositor)
    );
    assert_eq!(st.on_global(&String::from("wl_shm")), Some(GlobalKind::Shm));
    assert_eq!(st.on_global(&String::from("wl_seat")), Some(GlobalKind::Seat));
    assert_eq!(
        st.on_global(&String::from("xdg_wm_base")),
        Some(GlobalKind::WmBase)
    );
    assert!(st.bootstrap_ok());
}

#[test]
fn unknown_interfaces_are_ignored() {
    let mut st = AppState::new();
    assert_eq!(st.on_global(&String::from("wl_output")), None);
    assert_eq!(st.on_global(&String::from("zwlr_layer_shell_v1")), None);
    assert!(!st.bootstrap_ok());
}

#[test]
fn bootstrap_fails_while_any_capability_is_missing() {
    let mut st = AppState::new();
    st.on_global(&String::from("wl_compositor"));
    st.on_global(&String::from("wl_shm"));
    st.on_global(&String::from("wl_seat"));
    assert!(!st.bootstrap_ok());
    st.on_global(&String::from("xdg_wm_base"));
    assert!(st.bootstrap_ok());
}

#[test]
fn surface_configure_acks_its_own_serial() {
    let mut st = AppState::new();
    let (ack, step) = st.on_surface_configure(99);
    assert_eq!(ack, 99);
    assert_eq!(step, RenderStep::Skip);
    st.on_toplevel_configure(20, 20);
    let (ack, step) = st.on_surface_configure(100);
    assert_eq!(ack, 100);
    assert_eq!(
        step,
        RenderStep::Allocate { dimension: Rect { width: 20, height: 20 } }
    );
}

#[test]
fn close_sets_the_termination_flag() {
    let mut st = AppState::new();
    assert!(!st.quit);
    st.on_close();
    assert!(st.quit);
}

#[test]
fn frames_skip_until_a_dimension_is_known() {
    let mut st = AppState::new();
    assert_eq!(st.next_render_step(), RenderStep::Skip);
}

#[test]
fn same_dimension_configure_keeps_the_pool() {
    let mut st = AppState::new();
    st.on_toplevel_configure(100, 100);
    let fb = FrameBuffer::new(Rect { width: 100, height: 100 }, 1).unwrap();
    st.finish_allocate(fb);
    let released = st.on_toplevel_configure(100, 100);
    assert!(released.is_empty());
    assert_eq!(st.pool.len(), 1);
}

#[test]
fn bootstrap_and_reconfigure_scenario() {
    // Registry advertises the four required globals; bootstrap succeeds.
    let mut st = AppState::new();
    st.on_global(&String::from("wl_compositor"));
    st.on_global(&String::from("wl_shm"));
    st.on_global(&String::from("wl_seat"));
    st.on_global(&String::from("xdg_wm_base"));
    assert!(st.bootstrap_ok());

    // First configure arrives with a zero width: effective dimension 1 x 300.
    let released = st.on_toplevel_configure(0, 300);
    assert!(released.is_empty());

    // The first frame needs an allocation of exactly that dimension.
    let step = st.next_render_step();
    assert_eq!(
        step,
        RenderStep::Allocate { dimension: Rect { width: 1, height: 300 } }
    );
    let fb = FrameBuffer::new(Rect { width: 1, height: 300 }, 7).unwrap();
    assert_eq!(fb.map_len, 300 * (1 * 4));
    st.finish_allocate(fb);
    assert_eq!(st.pool.len(), 1);

    // A configure with a new dimension releases every pool buffer before
    // the next draw.
    let released = st.on_toplevel_configure(400, 300);
    assert_eq!(released.len(), 1);
    assert_eq!(released[0].handle, 7);
    assert_eq!(st.pool.len(), 0);
    let step = st.next_render_step();
    assert_eq!(
        step,
        RenderStep::Allocate { dimension: Rect { width: 400, height: 300 } }
    );
}

#[test]
fn full_pool_draws_into_the_unpresented_buffer() {
    let mut st = AppState::new();
    st.on_toplevel_configure(10, 10);
    let dim = Rect { width: 10, height: 10 };
    st.finish_allocate(FrameBuffer::new(dim, 1).unwrap());
    st.finish_allocate(FrameBuffer::new(dim, 2).unwrap());
    // Buffer 2 is presented, so the draw targets buffer 1.
    let step = st.next_render_step();
    assert_eq!(step, RenderStep::Draw { index: 1 });
    assert_eq!(st.pool.get(1).handle, 1);
    // And the frame after that swings back to buffer 2.
    let step = st.next_render_step();
    assert_eq!(step, RenderStep::Draw { index: 1 });
    assert_eq!(st.pool.get(1).handle, 2);
}
