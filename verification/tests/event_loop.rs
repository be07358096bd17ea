use wgpu_01::event::ElementState;
use wgpu_01::event::Event;
use wgpu_01::event::KeyboardInput;
use wgpu_01::event::VirtualKeyCode;
use wgpu_01::event::WindowEvent;
use wgpu_01::event::WindowId;
use wgpu_01::event_loop::dispatch;
use wgpu_01::event_loop::run;
use wgpu_01::event_loop::Action;
use wgpu_01::frame::Frame;
use wgpu_01::surface::CompositeAlphaMode;
use wgpu_01::surface::PhysicalSize;
use wgpu_01::surface::State;
use wgpu_01::surface::SurfaceCapabilities;
use wgpu_01::surface::SurfaceError;
use wgpu_01::texture::RgbaImage;
use wgpu_01::wasm;

const WINDOW: WindowId = WindowId(7);
const ELSEWHERE: WindowId = WindowId(8);

fn size(width: u32, height: u32) -> PhysicalSize {
    PhysicalSize { width, height }
}

fn state() -> State {
    let caps = SurfaceCapabilities {
        formats: vec![wgpu::TextureFormat::Bgra8UnormSrgb],
        alpha_modes: vec![CompositeAlphaMode::Opaque],
    };
    let image = RgbaImage { width: 1, height: 1, pixels: vec![9, 9, 9, 255] };
    State::with_image(size(800, 600), &caps, image).unwrap()
}

fn resized(width: u32, height: u32) -> State {
    let mut state = state();
    state.resize(size(width, height));
    state
}

fn window_event(event: WindowEvent) -> Event {
    Event::WindowEvent { window_id: WINDOW, event }
}

fn key(state: ElementState, virtual_keycode: Option<VirtualKeyCode>) -> WindowEvent {
    WindowEvent::KeyboardInput { input: KeyboardInput { state, virtual_keycode } }
}

fn lost() -> Event {
    Event::FrameAcquired(Err(SurfaceError::Lost))
}

fn out_of_memory() -> Event {
    Event::FrameAcquired(Err(SurfaceError::OutOfMemory))
}

#[test]
fn exit_is_requested_by_closing_and_by_pressing_escape() {
    assert!(WindowEvent::CloseRequested.is_exit_request());
    assert!(key(ElementState::Pressed, Some(VirtualKeyCode::Escape)).is_exit_request());
    assert!(!key(ElementState::Released, Some(VirtualKeyCode::Escape)).is_exit_request());
    assert!(!key(ElementState::Pressed, Some(VirtualKeyCode::Other)).is_exit_request());
    assert!(!key(ElementState::Pressed, None).is_exit_request());
    assert!(!WindowEvent::Resized(size(1, 1)).is_exit_request());
    assert!(!WindowEvent::CursorMoved.is_exit_request());
    assert!(!WindowEvent::Other.is_exit_request());
}

#[test]
fn a_new_size_comes_with_resizing_and_with_a_new_scale_factor() {
    assert_eq!(WindowEvent::Resized(size(3, 4)).new_size(), Some(size(3, 4)));
    assert_eq!(
        WindowEvent::ScaleFactorChanged { new_inner_size: size(5, 6) }.new_size(),
        Some(size(5, 6))
    );
    assert_eq!(WindowEvent::Resized(size(0, 0)).new_size(), Some(size(0, 0)));
    assert_eq!(WindowEvent::CloseRequested.new_size(), None);
    assert_eq!(WindowEvent::CursorMoved.new_size(), None);
    assert_eq!(WindowEvent::Other.new_size(), None);
}

#[test]
fn dispatch_exits_when_the_window_is_closed() {
    let mut current = state();
    assert_eq!(
        dispatch(&mut current, WINDOW, &window_event(WindowEvent::CloseRequested)),
        Action::Exit
    );
    assert_eq!(current, state());
}

#[test]
fn dispatch_exits_when_escape_goes_down() {
    let mut current = state();
    let pressed = key(ElementState::Pressed, Some(VirtualKeyCode::Escape));
    assert_eq!(dispatch(&mut current, WINDOW, &window_event(pressed)), Action::Exit);
    assert_eq!(current, state());
}

#[test]
fn dispatch_waits_on_other_keys() {
    let mut current = state();
    let released = key(ElementState::Released, Some(VirtualKeyCode::Escape));
    assert_eq!(dispatch(&mut current, WINDOW, &window_event(released)), Action::Wait);
    let other = key(ElementState::Pressed, Some(VirtualKeyCode::Other));
    assert_eq!(dispatch(&mut current, WINDOW, &window_event(other)), Action::Wait);
    let unknown = key(ElementState::Pressed, None);
    assert_eq!(dispatch(&mut current, WINDOW, &window_event(unknown)), Action::Wait);
    assert_eq!(current, state());
}

#[test]
fn dispatch_takes_over_a_new_size_and_configures() {
    let mut current = state();
    let event = window_event(WindowEvent::Resized(size(1024, 768)));
    assert_eq!(dispatch(&mut current, WINDOW, &event), Action::Configure);
    assert_eq!(current, resized(1024, 768));
    assert_eq!(current.config.width, 1024);
    assert_eq!(current.config.height, 768);
}

#[test]
fn dispatch_takes_over_the_size_of_a_new_scale_factor() {
    let mut current = state();
    let event = window_event(WindowEvent::ScaleFactorChanged { new_inner_size: size(1600, 1200) });
    assert_eq!(dispatch(&mut current, WINDOW, &event), Action::Configure);
    assert_eq!(current, resized(1600, 1200));
}

#[test]
fn dispatch_ignores_a_size_without_pixels() {
    for empty in [size(0, 600), size(800, 0), size(0, 0)] {
        let mut current = state();
        assert_eq!(
            dispatch(&mut current, WINDOW, &window_event(WindowEvent::Resized(empty))),
            Action::Wait
        );
        assert_eq!(current, state());
        let scaled = WindowEvent::ScaleFactorChanged { new_inner_size: empty };
        assert_eq!(dispatch(&mut current, WINDOW, &window_event(scaled)), Action::Wait);
        assert_eq!(current, state());
    }
}

#[test]
fn dispatch_ignores_the_events_of_other_windows() {
    let events = [
        Event::WindowEvent { window_id: ELSEWHERE, event: WindowEvent::CloseRequested },
        Event::WindowEvent { window_id: ELSEWHERE, event: WindowEvent::Resized(size(1, 1)) },
        Event::RedrawRequested(ELSEWHERE),
    ];
    for event in &events {
        let mut current = state();
        assert_eq!(dispatch(&mut current, WINDOW, event), Action::Wait);
        assert_eq!(current, state());
    }
}

#[test]
fn dispatch_waits_on_what_it_does_not_know() {
    let mut current = state();
    assert_eq!(dispatch(&mut current, WINDOW, &Event::Other), Action::Wait);
    assert_eq!(dispatch(&mut current, WINDOW, &window_event(WindowEvent::Other)), Action::Wait);
    assert_eq!(dispatch(&mut current, WINDOW, &window_event(WindowEvent::CursorMoved)), Action::Wait);
    assert_eq!(current, state());
}

#[test]
fn dispatch_asks_for_a_frame_when_a_redraw_is_requested() {
    let mut current = state();
    assert_eq!(dispatch(&mut current, WINDOW, &Event::RedrawRequested(WINDOW)), Action::AcquireFrame);
    assert_eq!(current, state());
}

#[test]
fn dispatch_presents_the_frame_once_its_texture_is_there() {
    let mut current = state();
    assert_eq!(
        dispatch(&mut current, WINDOW, &Event::FrameAcquired(Ok(()))),
        Action::Present(Frame::mesh(9))
    );
    assert_eq!(current, state());
}

#[test]
fn dispatch_configures_a_lost_surface_to_its_last_size() {
    let mut current = resized(1024, 768);
    assert_eq!(dispatch(&mut current, WINDOW, &lost()), Action::Configure);
    assert_eq!(current.size, size(1024, 768));
    assert_eq!(current.config.width, 1024);
    assert_eq!(current.config.height, 768);
    assert_eq!(current, resized(1024, 768));
}

#[test]
fn dispatch_exits_when_the_surface_is_out_of_memory() {
    let mut current = state();
    assert_eq!(dispatch(&mut current, WINDOW, &out_of_memory()), Action::Exit);
    assert_eq!(current, state());
}

#[test]
fn dispatch_reports_passing_surface_errors() {
    let mut current = state();
    assert_eq!(
        dispatch(&mut current, WINDOW, &Event::FrameAcquired(Err(SurfaceError::Timeout))),
        Action::Report(SurfaceError::Timeout)
    );
    assert_eq!(
        dispatch(&mut current, WINDOW, &Event::FrameAcquired(Err(SurfaceError::Outdated))),
        Action::Report(SurfaceError::Outdated)
    );
    assert_eq!(current, state());
}

#[test]
fn run_of_no_events_does_nothing() {
    let mut current = state();
    assert_eq!(run(&mut current, WINDOW, &[]), Vec::<Action>::new());
    assert_eq!(current, state());
}

#[test]
fn run_answers_every_event_in_order() {
    let mut current = state();
    let events = [
        Event::Other,
        Event::RedrawRequested(WINDOW),
        Event::FrameAcquired(Ok(())),
        window_event(WindowEvent::Resized(size(640, 480))),
        Event::RedrawRequested(WINDOW),
        Event::FrameAcquired(Err(SurfaceError::Timeout)),
    ];
    assert_eq!(
        run(&mut current, WINDOW, &events),
        vec![
            Action::Wait,
            Action::AcquireFrame,
            Action::Present(Frame::mesh(9)),
            Action::Configure,
            Action::AcquireFrame,
            Action::Report(SurfaceError::Timeout),
        ]
    );
    assert_eq!(current, resized(640, 480));
}

#[test]
fn run_configures_a_lost_surface_once_before_the_next_frame() {
    let mut current = resized(320, 200);
    let events = [
        Event::RedrawRequested(WINDOW),
        lost(),
        Event::RedrawRequested(WINDOW),
        Event::FrameAcquired(Ok(())),
    ];
    let actions = run(&mut current, WINDOW, &events);
    assert_eq!(
        actions,
        vec![
            Action::AcquireFrame,
            Action::Configure,
            Action::AcquireFrame,
            Action::Present(Frame::mesh(9)),
        ]
    );
    assert_eq!(actions.iter().filter(|action| **action == Action::Configure).count(), 1);
    assert_eq!(current, resized(320, 200));
}

#[test]
fn run_stops_when_the_surface_is_out_of_memory() {
    let mut current = state();
    let events = [
        Event::RedrawRequested(WINDOW),
        out_of_memory(),
        Event::RedrawRequested(WINDOW),
        Event::FrameAcquired(Ok(())),
        window_event(WindowEvent::Resized(size(1, 1))),
    ];
    assert_eq!(run(&mut current, WINDOW, &events), vec![Action::AcquireFrame, Action::Exit]);
    assert_eq!(current, state());
}

#[test]
fn run_stops_at_the_first_request_to_exit() {
    let mut current = state();
    let events = [
        window_event(WindowEvent::Resized(size(10, 20))),
        window_event(WindowEvent::CloseRequested),
        window_event(WindowEvent::Resized(size(30, 40))),
        window_event(WindowEvent::CloseRequested),
    ];
    assert_eq!(run(&mut current, WINDOW, &events), vec![Action::Configure, Action::Exit]);
    assert_eq!(current, resized(10, 20));
}

#[test]
fn run_goes_on_after_passing_errors() {
    let mut current = state();
    let events = [
        Event::FrameAcquired(Err(SurfaceError::Outdated)),
        Event::FrameAcquired(Err(SurfaceError::Timeout)),
        Event::FrameAcquired(Ok(())),
    ];
    assert_eq!(
        run(&mut current, WINDOW, &events),
        vec![
            Action::Report(SurfaceError::Outdated),
            Action::Report(SurfaceError::Timeout),
            Action::Present(Frame::mesh(9)),
        ]
    );
}

#[test]
fn wasm_canvas_is_450_by_500() {
    assert_eq!(wasm::canvas_size(), size(450, 500));
    assert_eq!(wasm::CANVAS_WIDTH, 450);
    assert_eq!(wasm::CANVAS_HEIGHT, 500);
    assert_eq!(wasm::CANVAS_PARENT_ID, "wasm_example");
}

#[test]
fn wasm_dispatch_exits_only_on_a_request_of_its_window() {
    assert_eq!(wasm::dispatch(WINDOW, &window_event(WindowEvent::CloseRequested)), Action::Exit);
    let pressed = key(ElementState::Pressed, Some(VirtualKeyCode::Escape));
    assert_eq!(wasm::dispatch(WINDOW, &window_event(pressed)), Action::Exit);
    assert_eq!(wasm::dispatch(ELSEWHERE, &window_event(WindowEvent::CloseRequested)), Action::Wait);
    assert_eq!(
        wasm::dispatch(WINDOW, &window_event(WindowEvent::Resized(size(1, 1)))),
        Action::Wait
    );
    assert_eq!(wasm::dispatch(WINDOW, &Event::RedrawRequested(WINDOW)), Action::Wait);
    assert_eq!(wasm::dispatch(WINDOW, &out_of_memory()), Action::Wait);
    assert_eq!(wasm::dispatch(WINDOW, &Event::Other), Action::Wait);
}

#[test]
fn wasm_run_waits_until_asked_to_exit() {
    let events = [
        Event::RedrawRequested(WINDOW),
        window_event(WindowEvent::Resized(size(1, 1))),
        window_event(WindowEvent::CloseRequested),
        Event::Other,
    ];
    assert_eq!(wasm::run(WINDOW, &events), vec![Action::Wait, Action::Wait, Action::Exit]);
    assert_eq!(wasm::run(WINDOW, &events[..2]), vec![Action::Wait, Action::Wait]);
    assert_eq!(wasm::run(WINDOW, &[]), Vec::<Action>::new());
}
