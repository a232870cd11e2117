use scribblekit::app::{ActiveBackend, App, Key, KeyState, ShellAction, ShellEvent, ShellPhase};
use scribblekit::render::{DisplayHandle, Renderer, RendererError, VoidRenderer};
use std::cell::Cell;
use std::rc::Rc;

/// A backend that counts its render passes.
struct CountingRenderer {
    passes: Rc<Cell<usize>>,
}

impl Renderer for CountingRenderer {
    fn create(_name: &str, _display_handle: &DisplayHandle) -> Result<Self, RendererError> {
        Ok(CountingRenderer { passes: Rc::new(Cell::new(0)) })
    }

    fn render(&self) {
        self.passes.set(self.passes.get() + 1);
    }
}

const ESCAPE_DOWN: ShellEvent = ShellEvent::KeyboardInput { key: Key::Escape, state: KeyState::Pressed };

#[test]
fn a_new_shell_is_idle() {
    let app = App::new("ScribbleKit", 720, 480);
    assert_eq!(app.name(), "ScribbleKit");
    assert_eq!(app.size(), (720, 480));
    assert_eq!(app.phase(), ShellPhase::Idle);
}

#[test]
fn a_new_shell_renders_with_the_void_backend() {
    let mut app = App::new("ScribbleKit", 720, 480);
    assert_eq!(app.backend(), ActiveBackend::Void);
    assert_eq!(app.handle_event(ShellEvent::RedrawRequested), ShellAction::Rendered);
    assert_eq!(app.handle_event(ShellEvent::AboutToWait), ShellAction::RequestRedraw);
    assert_eq!(app.backend(), ActiveBackend::Void);
}

#[test]
fn set_renderer_makes_the_replacement_active() {
    let passes = Rc::new(Cell::new(0));
    let mut app = App::new("w", 1, 1);
    app.set_renderer(Box::new(CountingRenderer { passes: passes.clone() }));
    assert_eq!(app.backend(), ActiveBackend::Replaced);
    app.handle_event(ShellEvent::RedrawRequested);
    assert_eq!(app.backend(), ActiveBackend::Replaced);
    assert_eq!(passes.get(), 1);
}

#[test]
fn a_void_renderer_put_in_counts_as_a_replacement() {
    let mut app = App::new("w", 1, 1);
    app.set_renderer(Box::new(VoidRenderer::empty()));
    assert_eq!(app.backend(), ActiveBackend::Replaced);
}

#[test]
fn void_shell_closes_without_rendering() {
    let app = App::new("ScribbleKit", 720, 480);
    let actions = app.run(&vec![ShellEvent::CloseRequested]);
    assert_eq!(actions, vec![ShellAction::Exit]);
    assert_eq!(actions.iter().filter(|a| **a == ShellAction::Rendered).count(), 0);
}

#[test]
fn close_request_ends_the_loop() {
    let mut app = App::new("w", 1, 1);
    assert_eq!(app.handle_event(ShellEvent::CloseRequested), ShellAction::Exit);
    assert_eq!(app.phase(), ShellPhase::Exited);
}

#[test]
fn escape_down_ends_the_loop() {
    let mut app = App::new("w", 1, 1);
    assert_eq!(app.handle_event(ESCAPE_DOWN), ShellAction::Exit);
    assert_eq!(app.phase(), ShellPhase::Exited);
}

#[test]
fn other_keys_are_ignored() {
    let mut app = App::new("w", 1, 1);
    for event in [
        ShellEvent::KeyboardInput { key: Key::Escape, state: KeyState::Released },
        ShellEvent::KeyboardInput { key: Key::Other, state: KeyState::Pressed },
        ShellEvent::KeyboardInput { key: Key::Other, state: KeyState::Released },
        ShellEvent::Other,
    ] {
        assert_eq!(app.handle_event(event), ShellAction::Ignored);
        assert_eq!(app.phase(), ShellPhase::Running);
    }
}

#[test]
fn idle_tick_asks_for_a_redraw() {
    let mut app = App::new("w", 1, 1);
    assert_eq!(app.handle_event(ShellEvent::AboutToWait), ShellAction::RequestRedraw);
    assert_eq!(app.phase(), ShellPhase::Running);
}

#[test]
fn redraw_runs_the_active_renderer() {
    let passes = Rc::new(Cell::new(0));
    let mut app = App::new("w", 1, 1);
    app.set_renderer(Box::new(CountingRenderer { passes: passes.clone() }));
    assert_eq!(app.handle_event(ShellEvent::RedrawRequested), ShellAction::Rendered);
    assert_eq!(passes.get(), 1);
    assert_eq!(app.handle_event(ShellEvent::AboutToWait), ShellAction::RequestRedraw);
    assert_eq!(passes.get(), 1);
    assert_eq!(app.handle_event(ShellEvent::RedrawRequested), ShellAction::Rendered);
    assert_eq!(passes.get(), 2);
}

#[test]
fn set_renderer_keeps_the_rest_of_the_shell() {
    let mut app = App::new("title", 640, 360);
    app.set_renderer(Box::new(VoidRenderer::empty()));
    assert_eq!(app.name(), "title");
    assert_eq!(app.size(), (640, 360));
    assert_eq!(app.phase(), ShellPhase::Idle);
}

#[test]
fn redraws_on_the_void_backend_change_nothing() {
    let mut app = App::new("w", 3, 4);
    app.handle_event(ShellEvent::RedrawRequested);
    for _ in 0..500 {
        assert_eq!(app.handle_event(ShellEvent::RedrawRequested), ShellAction::Rendered);
        assert_eq!(app.phase(), ShellPhase::Running);
        assert_eq!(app.size(), (3, 4));
        assert_eq!(app.name(), "w");
    }
}

#[test]
fn nothing_is_delivered_after_the_loop_ended() {
    let passes = Rc::new(Cell::new(0));
    let mut app = App::new("w", 1, 1);
    app.set_renderer(Box::new(CountingRenderer { passes: passes.clone() }));
    let actions = app.run(&vec![
        ShellEvent::AboutToWait,
        ShellEvent::RedrawRequested,
        ShellEvent::CloseRequested,
        ShellEvent::RedrawRequested,
        ShellEvent::AboutToWait,
    ]);
    assert_eq!(
        actions,
        vec![ShellAction::RequestRedraw, ShellAction::Rendered, ShellAction::Exit]
    );
    assert_eq!(passes.get(), 1);
}

#[test]
fn an_exited_shell_ignores_everything() {
    let passes = Rc::new(Cell::new(0));
    let mut app = App::new("w", 1, 1);
    app.set_renderer(Box::new(CountingRenderer { passes: passes.clone() }));
    app.handle_event(ShellEvent::CloseRequested);
    for event in [
        ShellEvent::RedrawRequested,
        ShellEvent::AboutToWait,
        ShellEvent::CloseRequested,
        ESCAPE_DOWN,
    ] {
        assert_eq!(app.handle_event(event), ShellAction::Ignored);
        assert_eq!(app.phase(), ShellPhase::Exited);
    }
    assert_eq!(passes.get(), 0);
    assert_eq!(app.run(&vec![ShellEvent::RedrawRequested]), Vec::<ShellAction>::new());
}

#[test]
fn a_run_without_exit_handles_every_event() {
    let app = App::new("w", 1, 1);
    let actions = app.run(&vec![
        ShellEvent::AboutToWait,
        ShellEvent::RedrawRequested,
        ShellEvent::Other,
        ShellEvent::AboutToWait,
        ShellEvent::RedrawRequested,
    ]);
    assert_eq!(
        actions,
        vec![
            ShellAction::RequestRedraw,
            ShellAction::Rendered,
            ShellAction::Ignored,
            ShellAction::RequestRedraw,
            ShellAction::Rendered
        ]
    );
}

#[test]
fn an_empty_run_does_nothing() {
    let app = App::new("w", 1, 1);
    assert_eq!(app.run(&Vec::new()), Vec::<ShellAction>::new());
}

#[test]
fn escape_ends_a_run_like_a_close_request() {
    let closed = App::new("w", 1, 1).run(&vec![ShellEvent::RedrawRequested, ShellEvent::CloseRequested]);
    let escaped = App::new("w", 1, 1).run(&vec![ShellEvent::RedrawRequested, ESCAPE_DOWN]);
    assert_eq!(closed, escaped);
    assert_eq!(closed, vec![ShellAction::Rendered, ShellAction::Exit]);
}

#[test]
fn set_renderer_replaces_the_previous_one() {
    let first = Rc::new(Cell::new(0));
    let second = Rc::new(Cell::new(0));
    let mut app = App::new("w", 1, 1);
    app.set_renderer(Box::new(CountingRenderer { passes: first.clone() }));
    app.set_renderer(Box::new(CountingRenderer { passes: second.clone() }));
    assert_eq!(Rc::strong_count(&first), 1);
    assert_eq!(Rc::strong_count(&second), 2);
    assert_eq!(app.handle_event(ShellEvent::RedrawRequested), ShellAction::Rendered);
    assert_eq!(app.handle_event(ShellEvent::RedrawRequested), ShellAction::Rendered);
    assert_eq!(first.get(), 0);
    assert_eq!(second.get(), 2);
}
