use pathtracer::camera::CameraUniforms;
use pathtracer::events::{
    Action, CameraOp, Key, LoopEvent, LoopPhase, RenderLoop, KEY_STEP_BACK_BITS, KEY_STEP_BITS,
};
use pathtracer::render::{PathTracer, Uniforms};

fn running() -> RenderLoop {
    RenderLoop::new(PathTracer::new(1920, 1080))
}

fn camera(seed: u32) -> CameraUniforms {
    CameraUniforms { origin: [seed, 0, 0], u: [0, seed, 0], v: [0, 0, seed], w: [seed, seed, seed] }
}

fn redraw(seed: u32) -> LoopEvent {
    LoopEvent::RedrawRequested { camera: camera(seed) }
}

#[test]
fn new_loop_is_running_with_the_tracer_it_was_given() {
    let render_loop = running();
    assert_eq!(render_loop.phase(), LoopPhase::Running);
    assert_eq!(render_loop.tracer(), PathTracer::new(1920, 1080));
}

#[test]
fn key_steps_are_a_tenth_either_way() {
    assert_eq!(KEY_STEP_BITS, 0.1f32.to_bits());
    assert_eq!(KEY_STEP_BACK_BITS, (-0.1f32).to_bits());
}

#[test]
fn keys_map_to_camera_steps() {
    let step = 0.1f32.to_bits();
    let back = (-0.1f32).to_bits();
    let cases = [
        (Key::Z, CameraOp::Zoom { delta: step }),
        (Key::X, CameraOp::Zoom { delta: back }),
        (Key::W, CameraOp::MoveAlongW { delta: step }),
        (Key::S, CameraOp::MoveAlongW { delta: back }),
        (Key::A, CameraOp::MoveAlongU { delta: step }),
        (Key::D, CameraOp::MoveAlongU { delta: back }),
    ];
    for (key, op) in cases {
        let mut render_loop = running();
        assert_eq!(render_loop.handle_event(LoopEvent::KeyboardInput(key)), Action::Mutate(op));
        assert_eq!(render_loop.phase(), LoopPhase::Running);
    }
}

#[test]
fn wheel_and_pointer_hand_their_amounts_on() {
    let mut render_loop = running();
    let delta = 0.002f32.to_bits();
    assert_eq!(
        render_loop.handle_event(LoopEvent::MouseWheel { delta }),
        Action::Mutate(CameraOp::Zoom { delta })
    );
    let dx = 0.03f32.to_bits();
    let dy = (-0.015f32).to_bits();
    assert_eq!(
        render_loop.handle_event(LoopEvent::MouseMotion { dx, dy }),
        Action::Mutate(CameraOp::Rotate { dx, dy })
    );
}

#[test]
fn unmapped_input_is_ignored() {
    let mut render_loop = running();
    render_loop.handle_event(redraw(1));
    let before = render_loop;
    assert_eq!(render_loop.handle_event(LoopEvent::KeyboardInput(Key::Other)), Action::Idle);
    assert_eq!(render_loop.handle_event(LoopEvent::Other), Action::Idle);
    assert_eq!(render_loop, before);
    assert_eq!(render_loop.tracer().frame_count(), 1);
}

#[test]
fn redraw_counts_a_frame_and_returns_its_block() {
    let mut render_loop = running();
    let action = render_loop.handle_event(redraw(5));
    let expected = Uniforms { width: 1920, height: 1080, frame_count: 1, camera: camera(5) };
    assert_eq!(action, Action::Render { block: expected.to_bytes() });
    assert_eq!(render_loop.tracer().uniforms(), expected);
}

#[test]
fn every_camera_event_resets_the_count() {
    let events = [
        LoopEvent::KeyboardInput(Key::Z),
        LoopEvent::KeyboardInput(Key::X),
        LoopEvent::KeyboardInput(Key::W),
        LoopEvent::KeyboardInput(Key::S),
        LoopEvent::KeyboardInput(Key::A),
        LoopEvent::KeyboardInput(Key::D),
        LoopEvent::MouseWheel { delta: 1 },
        LoopEvent::MouseMotion { dx: 2, dy: 3 },
    ];
    for event in events {
        let mut render_loop = running();
        for n in 1..=4 {
            render_loop.handle_event(redraw(n));
        }
        assert_eq!(render_loop.tracer().frame_count(), 4);
        render_loop.handle_event(event);
        assert_eq!(render_loop.tracer().frame_count(), 0);
        assert_eq!(
            render_loop.tracer().uniforms(),
            Uniforms { width: 1920, height: 1080, frame_count: 0, camera: camera(4) }
        );
        for n in 1..=3 {
            render_loop.handle_event(redraw(n));
            assert_eq!(render_loop.tracer().frame_count(), n);
        }
    }
}

#[test]
fn close_request_ends_the_loop() {
    let mut render_loop = running();
    render_loop.handle_event(redraw(1));
    render_loop.handle_event(redraw(2));
    assert_eq!(render_loop.handle_event(LoopEvent::CloseRequested), Action::Exit);
    assert_eq!(render_loop.phase(), LoopPhase::Terminating);
    assert_eq!(render_loop.tracer().frame_count(), 2);
}

#[test]
fn terminating_loop_answers_idle_and_keeps_its_state() {
    let mut render_loop = running();
    render_loop.handle_event(redraw(1));
    render_loop.handle_event(LoopEvent::CloseRequested);
    let closed = render_loop;
    let events = [
        redraw(9),
        LoopEvent::KeyboardInput(Key::Z),
        LoopEvent::MouseWheel { delta: 4 },
        LoopEvent::MouseMotion { dx: 5, dy: 6 },
        LoopEvent::CloseRequested,
        LoopEvent::Other,
    ];
    for event in events {
        assert_eq!(render_loop.handle_event(event), Action::Idle);
        assert_eq!(render_loop, closed);
    }
}
