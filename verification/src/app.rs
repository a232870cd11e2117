//! The application shell: one window's worth of state, one active renderer,
//! void until it is replaced, and the decision what to do on each event of
//! the event loop. The loop
//! itself, and the window, belong to whoever drives the shell.

use crate::render::{Renderer, VoidRenderer};
use vstd::prelude::*;

verus! {

/// A physical key, as far as the shell tells keys apart.
#[derive(Debug, Clone, Copy, PartialEq, Eq, Structural)]
pub enum Key {
    Escape,
    Other,
}

/// Whether a key went down or up.
#[derive(Debug, Clone, Copy, PartialEq, Eq, Structural)]
pub enum KeyState {
    Pressed,
    Released,
}

/// What the event loop delivers.
#[derive(Debug, Clone, Copy, PartialEq, Eq, Structural)]
pub enum ShellEvent {
    /// The window was asked to close.
    CloseRequested,
    /// The window wants to be drawn.
    RedrawRequested,
    /// A key changed state.
    KeyboardInput { key: Key, state: KeyState },
    /// The loop has run out of events and is about to wait.
    AboutToWait,
    /// Anything else.
    Other,
}

/// What the shell did with an event, or asks its driver to do.
#[derive(Debug, Clone, Copy, PartialEq, Eq, Structural)]
pub enum ShellAction {
    /// Leave the event loop.
    Exit,
    /// The active renderer ran one pass.
    Rendered,
    /// Ask the window for a redraw.
    RequestRedraw,
    /// Nothing.
    Ignored,
}

/// Where the shell stands with respect to its event loop.
#[derive(Debug, Clone, Copy, PartialEq, Eq, Structural)]
pub enum ShellPhase {
    /// No event has been handled yet.
    Idle,
    /// Events are being handled.
    Running,
    /// The loop was left. Nothing is handled any more.
    Exited,
}

/// Which backend a shell renders with.
#[derive(Debug, Clone, Copy, PartialEq, Eq, Structural)]
pub enum ActiveBackend {
    /// The void backend every shell starts with.
    Void,
    /// A backend that was put in its place.
    Replaced,
}

/// The shell, as mathematics: what the window is asked for, which backend
/// is active, and where the shell stands with respect to its event loop.
pub struct AppView {
    pub name: Seq<char>,
    pub width: u32,
    pub height: u32,
    pub backend: ActiveBackend,
    pub phase: ShellPhase,
}

/// Whether an event ends the loop: a close request, or Escape going down.
pub open spec fn spec_terminates(event: ShellEvent) -> bool {
    event is CloseRequested || event == (ShellEvent::KeyboardInput {
        key: Key::Escape,
        state: KeyState::Pressed,
    })
}

/// What a shell in `phase` does with `event`.
pub open spec fn spec_action(phase: ShellPhase, event: ShellEvent) -> ShellAction {
    if phase is Exited {
        ShellAction::Ignored
    } else if spec_terminates(event) {
        ShellAction::Exit
    } else if event is RedrawRequested {
        ShellAction::Rendered
    } else if event is AboutToWait {
        ShellAction::RequestRedraw
    } else {
        ShellAction::Ignored
    }
}

/// The phase a shell in `phase` is in after `event`.
pub open spec fn spec_next_phase(phase: ShellPhase, event: ShellEvent) -> ShellPhase {
    if phase is Exited || spec_terminates(event) {
        ShellPhase::Exited
    } else {
        ShellPhase::Running
    }
}

/// What a shell in `phase` does with a run of events: each is handled in
/// turn until one ends the loop; what comes after that one is not delivered.
pub open spec fn spec_run(phase: ShellPhase, events: Seq<ShellEvent>) -> Seq<ShellAction>
    decreases events.len(),
{
    if events.len() == 0 || phase is Exited {
        Seq::<ShellAction>::empty()
    } else {
        seq![spec_action(phase, events[0])] + spec_run(
            spec_next_phase(phase, events[0]),
            events.drop_first(),
        )
    }
}

/// The place of the one active renderer: the void backend, or a backend
/// that replaced it. It is generic in what it holds so that a renderer is
/// stored exactly as it was handed over.
enum RendererSlot<R> {
    Void(VoidRenderer),
    Replaced(R),
}

/// The application shell.
pub struct App {
    name: String,
    width: u32,
    height: u32,
    renderer: RendererSlot<Box<dyn Renderer>>,
    phase: ShellPhase,
}

impl View for App {
    type V = AppView;

    closed spec fn view(&self) -> AppView {
        AppView {
            name: self.name@,
            width: self.width,
            height: self.height,
            backend: match self.renderer {
                RendererSlot::Void(_) => ActiveBackend::Void,
                RendererSlot::Replaced(_) => ActiveBackend::Replaced,
            },
            phase: self.phase,
        }
    }
}

impl App {
    /// The renderer that replaced the void backend, where one did.
    pub closed spec fn spec_renderer(&self) -> &Box<dyn Renderer>
        recommends
            self@.backend is Replaced,
    {
        &self.renderer->Replaced_0
    }

    /// Creates a shell for a window of the given title and size. Its active
    /// renderer is the void backend, and its event loop has not started.
    pub fn new(name: &str, width: u32, height: u32) -> (app: App)
        ensures
            app@ == (AppView {
                name: name@,
                width,
                height,
                backend: ActiveBackend::Void,
                phase: ShellPhase::Idle,
            }),
    {
        App {
            name: name.to_owned(),
            width,
            height,
            renderer: RendererSlot::Void(VoidRenderer::empty()),
            phase: ShellPhase::Idle,
        }
    }

    /// Replaces the active renderer: the one given is the active one from
    /// now on, and the one it replaces, the void backend or an earlier
    /// replacement, is dropped. Nothing else about the shell changes.
    /// Defined only before the event loop has started.
    pub fn set_renderer(&mut self, renderer: Box<dyn Renderer>)
        requires
            old(self)@.phase is Idle,
        ensures
            final(self)@ == (AppView { backend: ActiveBackend::Replaced, ..old(self)@ }),
            *final(self).spec_renderer() == renderer,
    {
        let replacement = RendererSlot::Replaced(renderer);
        self.renderer = replacement;
    }

    /// Handles one event: a close request or Escape going down ends the loop,
    /// a redraw request runs the active renderer, an idle tick asks for a
    /// redraw, and everything else is ignored. Once the loop is left, every
    /// event is ignored.
    pub fn handle_event(&mut self, event: ShellEvent) -> (action: ShellAction)
        ensures
            action == spec_action(old(self)@.phase, event),
            final(self)@ == (AppView {
                phase: spec_next_phase(old(self)@.phase, event),
                ..old(self)@
            }),
            final(self).spec_renderer() == old(self).spec_renderer(),
    {
        match self.phase {
            ShellPhase::Exited => ShellAction::Ignored,
            _ => {
                let action = match event {
                    ShellEvent::CloseRequested => ShellAction::Exit,
                    ShellEvent::RedrawRequested => {
                        match &self.renderer {
                            RendererSlot::Void(renderer) => renderer.render(),
                            RendererSlot::Replaced(renderer) => renderer.render(),
                        }
                        ShellAction::Rendered
                    },
                    ShellEvent::KeyboardInput { key, state } => match (key, state) {
                        (Key::Escape, KeyState::Pressed) => ShellAction::Exit,
                        _ => ShellAction::Ignored,
                    },
                    ShellEvent::AboutToWait => ShellAction::RequestRedraw,
                    ShellEvent::Other => ShellAction::Ignored,
                };
                self.phase = match action {
                    ShellAction::Exit => ShellPhase::Exited,
                    _ => ShellPhase::Running,
                };
                action
            },
        }
    }

    /// Drives the shell through a run of events and tells what it did with
    /// each, up to and including the one that ended the loop.
    pub fn run(self, events: &Vec<ShellEvent>) -> (actions: Vec<ShellAction>)
        ensures
            actions@ == spec_run(self@.phase, events@),
    {
        let mut shell = self;
        let mut actions: Vec<ShellAction> = Vec::new();
        let mut i: usize = 0;
        let ghost start = shell@.phase;
        proof {
            assert(events@.skip(0) =~= events@);
            assert(actions@ + spec_run(start, events@) =~= spec_run(start, events@));
        }
        loop
            invariant
                i <= events.len(),
                actions@ + spec_run(shell@.phase, events@.skip(i as int)) == spec_run(
                    start,
                    events@,
                ),
            ensures
                actions@ == spec_run(start, events@),
            decreases events.len() - i,
        {
            if i >= events.len() {
                break ;
            }
            match shell.phase {
                ShellPhase::Exited => {
                    break ;
                },
                _ => {},
            }
            proof {
                assert(events@.skip(i as int).drop_first() =~= events@.skip(i as int + 1));
                assert(events@.skip(i as int)[0] == events@[i as int]);
            }
            let ghost before = actions@;
            let action = shell.handle_event(events[i]);
            actions.push(action);
            i = i + 1;
            proof {
                assert(actions@ =~= before + seq![action]);
                assert(actions@ + spec_run(shell@.phase, events@.skip(i as int)) =~= before + (seq![
                    action,
                ] + spec_run(shell@.phase, events@.skip(i as int))));
            }
        }
        actions
    }

    /// The window title.
    pub fn name(&self) -> (name: &str)
        ensures
            name@ == self@.name,
    {
        self.name.as_str()
    }

    /// The requested inner size of the window: width, then height.
    pub fn size(&self) -> (size: (u32, u32))
        ensures
            size == (self@.width, self@.height),
    {
        (self.width, self.height)
    }

    /// Which backend is active.
    pub fn backend(&self) -> (backend: ActiveBackend)
        ensures
            backend == self@.backend,
    {
        match &self.renderer {
            RendererSlot::Void(_) => ActiveBackend::Void,
            RendererSlot::Replaced(_) => ActiveBackend::Replaced,
        }
    }

    /// Where the shell stands with respect to its event loop.
    pub fn phase(&self) -> (phase: ShellPhase)
        ensures
            phase == self@.phase,
    {
        self.phase
    }
}

/// The phase a shell in `phase` is in after a run of events.
pub open spec fn spec_phase_after(phase: ShellPhase, events: Seq<ShellEvent>) -> ShellPhase
    decreases events.len(),
{
    if events.len() == 0 {
        phase
    } else {
        spec_phase_after(spec_next_phase(phase, events[0]), events.drop_first())
    }
}

/// A run that holds no terminating event is handled to its end, and the
/// shell is still running after it, unless it was never given anything.
pub proof fn law_run_without_exit(phase: ShellPhase, events: Seq<ShellEvent>)
    requires
        !(phase is Exited),
        forall|i: int| 0 <= i < events.len() ==> !spec_terminates(#[trigger] events[i]),
    ensures
        spec_run(phase, events).len() == events.len(),
        forall|i: int|
            0 <= i < events.len() ==> #[trigger] spec_run(phase, events)[i] == spec_action(
                ShellPhase::Running,
                events[i],
            ),
        spec_phase_after(phase, events) == if events.len() == 0 {
            phase
        } else {
            ShellPhase::Running
        },
    decreases events.len(),
{
    if events.len() > 0 {
        let rest = events.drop_first();
        assert forall|i: int| 0 <= i < rest.len() implies !spec_terminates(#[trigger] rest[i]) by {
            assert(rest[i] == events[i + 1]);
        }
        law_run_without_exit(ShellPhase::Running, rest);
        assert forall|i: int| 0 <= i < events.len() implies #[trigger] spec_run(phase, events)[i]
            == spec_action(ShellPhase::Running, events[i]) by {
            if i > 0 {
                assert(spec_run(phase, events)[i] == spec_run(ShellPhase::Running, rest)[i - 1]);
                assert(rest[i - 1] == events[i]);
            }
        }
    }
}

/// The loop ends at the first terminating event: that event is answered
/// with `Exit`, nothing before it is, and nothing after it is delivered.
pub proof fn law_run_stops_at_exit(phase: ShellPhase, events: Seq<ShellEvent>, k: int)
    requires
        !(phase is Exited),
        0 <= k < events.len(),
        spec_terminates(events[k]),
        forall|i: int| 0 <= i < k ==> !spec_terminates(#[trigger] events[i]),
    ensures
        spec_run(phase, events).len() == k + 1,
        spec_run(phase, events)[k] == ShellAction::Exit,
        forall|i: int|
            0 <= i < k ==> #[trigger] spec_run(phase, events)[i] == spec_action(
                ShellPhase::Running,
                events[i],
            ) && spec_run(phase, events)[i] != ShellAction::Exit,
        spec_phase_after(phase, events) == ShellPhase::Exited,
    decreases events.len(),
{
    let rest = events.drop_first();
    if k == 0 {
        assert(spec_run(ShellPhase::Exited, rest) =~= Seq::<ShellAction>::empty());
        lemma_exited_stays_exited(rest);
    } else {
        assert(rest[k - 1] == events[k]);
        assert forall|i: int| 0 <= i < k - 1 implies !spec_terminates(#[trigger] rest[i]) by {
            assert(rest[i] == events[i + 1]);
        }
        law_run_stops_at_exit(ShellPhase::Running, rest, k - 1);
        assert forall|i: int| 0 <= i < k implies #[trigger] spec_run(phase, events)[i]
            == spec_action(ShellPhase::Running, events[i]) && spec_run(phase, events)[i]
            != ShellAction::Exit by {
            if i > 0 {
                assert(spec_run(phase, events)[i] == spec_run(ShellPhase::Running, rest)[i - 1]);
                assert(rest[i - 1] == events[i]);
            }
        }
        assert(spec_run(phase, events)[k] == spec_run(ShellPhase::Running, rest)[k - 1]);
    }
}

/// A shell that has left its loop stays out of it.
pub proof fn lemma_exited_stays_exited(events: Seq<ShellEvent>)
    ensures
        spec_phase_after(ShellPhase::Exited, events) == ShellPhase::Exited,
        spec_run(ShellPhase::Exited, events) == Seq::<ShellAction>::empty(),
    decreases events.len(),
{
    if events.len() > 0 {
        lemma_exited_stays_exited(events.drop_first());
    }
}

/// Redraw requests, however many, leave a running shell as it was: each is
/// answered by one render pass and nothing else about the shell changes.
pub proof fn law_redraws_change_nothing(events: Seq<ShellEvent>)
    requires
        forall|i: int| 0 <= i < events.len() ==> #[trigger] events[i] is RedrawRequested,
    ensures
        spec_phase_after(ShellPhase::Running, events) == ShellPhase::Running,
        spec_run(ShellPhase::Running, events).len() == events.len(),
        forall|i: int|
            0 <= i < events.len() ==> #[trigger] spec_run(ShellPhase::Running, events)[i]
                == ShellAction::Rendered,
{
    assert forall|i: int| 0 <= i < events.len() implies !spec_terminates(#[trigger] events[i]) by {
        assert(events[i] is RedrawRequested);
    }
    law_run_without_exit(ShellPhase::Running, events);
    assert forall|i: int| 0 <= i < events.len() implies #[trigger] spec_run(
        ShellPhase::Running,
        events,
    )[i] == ShellAction::Rendered by {
        assert(events[i] is RedrawRequested);
    }
}

} // verus!
