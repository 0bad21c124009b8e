use quad_demo::frame::clear_color;
use quad_demo::frame::frame_ops;
use quad_demo::frame::loop_step;
use quad_demo::frame::run_frames;
use quad_demo::frame::IndexKind;
use quad_demo::frame::LoopState;
use quad_demo::frame::PrimitiveTopology;
use quad_demo::frame::RenderOp;
use quad_demo::input::process_input;
use quad_demo::input::Key;
use quad_demo::input::KeyAction;
use quad_demo::input::KeyEvent;
use quad_demo::viewport::framebuffer_size_callback;
use quad_demo::viewport::initial_viewport;
use quad_demo::viewport::Viewport;
use quad_demo::window::context_hints;
use quad_demo::window::default_window_config;
use quad_demo::window::window_title;
use quad_demo::window::WindowState;

fn press(key: Key) -> KeyEvent {
    KeyEvent {
        key,
        action: KeyAction::Press,
    }
}

#[test]
fn escape_press_requests_closure() {
    let mut w = WindowState::new();
    assert!(!w.should_close());
    process_input(&mut w, press(Key::Escape));
    assert!(w.should_close());
}

#[test]
fn other_key_press_leaves_the_flag_clear() {
    let mut w = WindowState::new();
    process_input(&mut w, press(Key::Other));
    assert!(!w.should_close());
}

#[test]
fn escape_release_or_repeat_leaves_the_flag_clear() {
    let mut w = WindowState::new();
    process_input(
        &mut w,
        KeyEvent {
            key: Key::Escape,
            action: KeyAction::Release,
        },
    );
    assert!(!w.should_close());
    process_input(
        &mut w,
        KeyEvent {
            key: Key::Escape,
            action: KeyAction::Repeat,
        },
    );
    assert!(!w.should_close());
}

#[test]
fn closure_once_requested_is_never_withdrawn_by_input() {
    let mut w = WindowState::new();
    w.set_should_close(true);
    process_input(&mut w, press(Key::Other));
    assert!(w.should_close());
}

#[test]
fn viewport_follows_a_resize() {
    let mut vp = initial_viewport(800, 600);
    assert_eq!(
        vp,
        Viewport {
            x: 0,
            y: 0,
            width: 800,
            height: 600
        }
    );
    framebuffer_size_callback(&mut vp, 1024, 768);
    assert_eq!(
        vp,
        Viewport {
            x: 0,
            y: 0,
            width: 1024,
            height: 768
        }
    );
    framebuffer_size_callback(&mut vp, 1, 1);
    assert_eq!(
        vp,
        Viewport {
            x: 0,
            y: 0,
            width: 1,
            height: 1
        }
    );
}

#[test]
fn loop_state_machine_closes_on_the_flag_and_stays_closed() {
    assert_eq!(loop_step(LoopState::Running, false), LoopState::Running);
    assert_eq!(loop_step(LoopState::Running, true), LoopState::Closing);
    assert_eq!(loop_step(LoopState::Closing, false), LoopState::Closing);
    assert_eq!(loop_step(LoopState::Closing, true), LoopState::Closing);
}

#[test]
fn one_frame_cycle_is_clear_draw_present() {
    let ops = frame_ops();
    assert_eq!(
        ops,
        vec![
            RenderOp::SetClearColor {
                red: 200,
                green: 300,
                blue: 300,
                alpha: 1000
            },
            RenderOp::ClearColorBuffer,
            RenderOp::UseProgram,
            RenderOp::BindLayout,
            RenderOp::DrawIndexed {
                index_count: 6,
                topology: PrimitiveTopology::Triangles,
                index_kind: IndexKind::UnsignedInt,
            },
            RenderOp::SwapBuffers,
            RenderOp::PollEvents,
        ]
    );
}

#[test]
fn clear_color_is_dark_teal() {
    let c = clear_color();
    assert_eq!(c.red, 200);
    assert_eq!(c.green, 300);
    assert_eq!(c.blue, 300);
    assert_eq!(c.alpha, 1000);
    // As real numbers: (0.2, 0.3, 0.3, 1.0).
    assert_eq!(c.red as f32 / 1000.0, 0.2);
    assert_eq!(c.green as f32 / 1000.0, 0.3);
    assert_eq!(c.alpha as f32 / 1000.0, 1.0);
}

#[test]
fn forcing_closure_after_one_iteration_runs_exactly_one_cycle() {
    let mut w = WindowState::new();
    let events = vec![press(Key::Escape)];
    let (frames, ops) = run_frames(&mut w, &events);
    assert_eq!(frames, 1);
    assert_eq!(ops, frame_ops());
    assert!(w.should_close());
}

#[test]
fn frames_run_until_escape_is_seen() {
    let mut w = WindowState::new();
    let events = vec![
        press(Key::Other),
        KeyEvent {
            key: Key::Escape,
            action: KeyAction::Release,
        },
        press(Key::Escape),
        press(Key::Other),
    ];
    let (frames, ops) = run_frames(&mut w, &events);
    assert_eq!(frames, 3);
    assert_eq!(ops.len(), 3 * frame_ops().len());
    let one_cycle = frame_ops();
    for (i, op) in ops.iter().enumerate() {
        assert_eq!(*op, one_cycle[i % one_cycle.len()]);
    }
    assert!(w.should_close());
}

#[test]
fn no_cycle_runs_when_closure_was_already_requested() {
    let mut w = WindowState::new();
    w.set_should_close(true);
    let events = vec![press(Key::Escape)];
    let (frames, ops) = run_frames(&mut w, &events);
    assert_eq!(frames, 0);
    assert!(ops.is_empty());
    assert!(w.should_close());
}

#[test]
fn requested_window_is_800_by_600_under_a_4_1_core_context() {
    let c = default_window_config();
    assert_eq!(c.width, 800);
    assert_eq!(c.height, 600);
    let h = context_hints();
    assert_eq!(h.version_major, 4);
    assert_eq!(h.version_minor, 1);
    assert!(h.forward_compat);
    assert!(h.core_profile);
    assert_eq!(window_title(), "Hello this is window");
}
