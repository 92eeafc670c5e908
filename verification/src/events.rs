use vstd::prelude::*;

verus! {

/// The window events the main loop reacts to.
#[derive(Clone, Copy, Debug, PartialEq, Eq, Structural)]
pub enum LoopEvent {
    /// All pending events were handled.
    AboutToWait,
    /// The window's client area got this size.
    Resized { width: u32, height: u32 },
    /// The window asks to be drawn.
    RedrawRequested,
    /// The user asks to close the window.
    CloseRequested,
    /// Anything else.
    Other,
}

/// What the main loop does in answer to an event.
#[derive(Clone, Copy, Debug, PartialEq, Eq, Structural)]
pub enum LoopAction {
    Nothing,
    /// Ask the window for a redraw.
    RequestRedraw,
    /// Render a frame.
    Render,
    /// Stop the loop and destroy the app.
    Exit,
    /// Destroy the app and create it anew (rendering failed).
    Rebuild,
}

/// What the main loop remembers between events.
#[derive(Clone, Copy, Debug, PartialEq, Eq, Structural)]
pub struct LoopState {
    /// The window has no area; nothing is drawn.
    pub minimized: bool,
    /// The window got a new, non-empty size since the loop started.
    pub resized: bool,
}

/// The state and action after `event` arrives in `state`; `exiting` says
/// whether the event loop is already shutting down.
pub open spec fn loop_step(state: LoopState, event: LoopEvent, exiting: bool) -> (LoopState, LoopAction) {
    match event {
        LoopEvent::AboutToWait => (state, LoopAction::RequestRedraw),
        LoopEvent::Resized { width, height } => if width == 0 || height == 0 {
            (LoopState { minimized: true, ..state }, LoopAction::Nothing)
        } else {
            (LoopState { minimized: false, resized: true }, LoopAction::Nothing)
        },
        LoopEvent::RedrawRequested => if !exiting && !state.minimized {
            (state, LoopAction::Render)
        } else {
            (state, LoopAction::Nothing)
        },
        LoopEvent::CloseRequested => (state, LoopAction::Exit),
        LoopEvent::Other => (state, LoopAction::Nothing),
    }
}

/// Feeds `events` to the loop, one after the other, none while exiting.
pub open spec fn loop_run(state: LoopState, events: Seq<LoopEvent>) -> LoopState
    decreases events.len(),
{
    if events.len() == 0 {
        state
    } else {
        loop_run(loop_step(state, events[0], false).0, events.drop_first())
    }
}

/// The event makes the window non-empty.
pub open spec fn restores_size(event: LoopEvent) -> bool {
    event matches LoopEvent::Resized { width, height } && width != 0 && height != 0
}

impl LoopState {
    /// The state the loop starts in: shown, not resized.
    pub fn new() -> (state: LoopState)
        ensures
            state == (LoopState { minimized: false, resized: false }),
    {
        LoopState { minimized: false, resized: false }
    }

    /// Handles one event and says what the loop does about it.
    pub fn handle(&mut self, event: LoopEvent, exiting: bool) -> (action: LoopAction)
        ensures
            (*final(self), action) == loop_step(*old(self), event, exiting),
            action == LoopAction::Render <==> event == LoopEvent::RedrawRequested && !exiting && !old(self).minimized,
            event == LoopEvent::CloseRequested ==> action == LoopAction::Exit,
            !(event is Resized) ==> *final(self) == *old(self),
            event matches LoopEvent::Resized { width, height } ==> final(self).minimized == (width == 0 || height == 0)
                && final(self).resized == (old(self).resized || (width != 0 && height != 0)),
    {
        match event {
            LoopEvent::AboutToWait => LoopAction::RequestRedraw,
            LoopEvent::Resized { width, height } => {
                if width == 0 || height == 0 {
                    self.minimized = true;
                } else {
                    self.minimized = false;
                    self.resized = true;
                }
                LoopAction::Nothing
            },
            LoopEvent::RedrawRequested => {
                if !exiting && !self.minimized {
                    LoopAction::Render
                } else {
                    LoopAction::Nothing
                }
            },
            LoopEvent::CloseRequested => LoopAction::Exit,
            LoopEvent::Other => LoopAction::Nothing,
        }
    }

    /// What follows a rendered frame: nothing when it succeeded, a rebuild of
    /// the app when it failed.
    pub fn after_render(succeeded: bool) -> (action: LoopAction)
        ensures
            action == if succeeded { LoopAction::Nothing } else { LoopAction::Rebuild },
    {
        if succeeded {
            LoopAction::Nothing
        } else {
            LoopAction::Rebuild
        }
    }
}

/// Law: once the window is minimized, no event short of a resize to a
/// non-empty size brings it back, so no frame is rendered until then.
pub proof fn lemma_minimized_until_restored(state: LoopState, events: Seq<LoopEvent>)
    requires
        state.minimized,
        forall|i: int| 0 <= i < events.len() ==> !restores_size(#[trigger] events[i]),
    ensures
        loop_run(state, events).minimized,
        forall|i: int| 0 <= i < events.len() ==> loop_step(#[trigger] loop_run(state, events.take(i)), events[i], false).1 != LoopAction::Render,
    decreases events.len(),
{
    if events.len() > 0 {
        let next = loop_step(state, events[0], false).0;
        assert(!restores_size(events[0]));
        assert(next.minimized);
        let rest = events.drop_first();
        assert forall|i: int| 0 <= i < rest.len() implies !restores_size(#[trigger] rest[i]) by {
            assert(rest[i] == events[i + 1]);
        }
        lemma_minimized_until_restored(next, rest);
        assert forall|i: int| 0 <= i < events.len() implies loop_step(#[trigger] loop_run(state, events.take(i)), events[i], false).1 != LoopAction::Render by {
            if i == 0 {
                assert(events.take(0) =~= Seq::<LoopEvent>::empty());
            } else {
                assert(events.take(i).drop_first() =~= rest.take(i - 1));
                assert(events.take(i)[0] == events[0]);
                assert(loop_run(state, events.take(i)) == loop_run(next, rest.take(i - 1)));
                assert(events[i] == rest[i - 1]);
            }
        }
    }
}

/// Law: only a resize changes what the loop remembers; every other event
/// (a redraw request, a close request, the end of a batch of events, or any
/// other window event) leaves the state as it was.
pub proof fn lemma_only_resize_changes_state(state: LoopState, event: LoopEvent, exiting: bool)
    requires
        !(event is Resized),
    ensures
        loop_step(state, event, exiting).0 == state,
        loop_step(state, event, exiting).0.minimized == state.minimized,
{
}

/// Law: a resize to a non-empty size always leaves the window shown and
/// marked as resized, whatever came before.
pub proof fn lemma_resize_restores(state: LoopState, width: u32, height: u32)
    requires
        width != 0,
        height != 0,
    ensures
        loop_step(state, LoopEvent::Resized { width, height }, false).0 == (LoopState { minimized: false, resized: true }),
{
}

} // verus!
