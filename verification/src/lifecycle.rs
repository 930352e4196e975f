//! Lifecycle control: the application-level state machine and the event
//! dispatch it drives.
//!
//! The application has two states, `Running` and `ShuttingDown`. It enters
//! `Running` when the window is shown, moves to `ShuttingDown` exactly on
//! receipt of the one message kind, `Quit`, and `ShuttingDown` is terminal:
//! it ends the event loop and no further message is processed. The only
//! interaction that produces a message is closing the window; the control
//! button is inert.

use vstd::prelude::*;

verus! {

/// The one message kind the application knows: a request to shut down.
#[derive(Clone, Copy, Debug, PartialEq, Eq, Structural)]
pub enum AppMessage {
    Quit,
}

/// Application-level state: `Running` from window show until the `Quit`
/// message arrives; `ShuttingDown` afterwards, terminally.
#[derive(Clone, Copy, Debug, PartialEq, Eq, Structural)]
pub enum AppState {
    Running,
    ShuttingDown,
}

/// The one action the message handler can ask the event-loop shim to
/// perform: stop the loop.
#[derive(Clone, Copy, Debug, PartialEq, Eq, Structural)]
pub enum AppAction {
    QuitEventLoop,
}

/// The user interactions the window can report: a close request, or a press
/// of the (inert) control button.
#[derive(Clone, Copy, Debug, PartialEq, Eq, Structural)]
pub enum WindowEvent {
    CloseRequested,
    ButtonClicked,
}

/// The state machine's transition: receiving `Quit` while `Running` moves to
/// `ShuttingDown` and stops the event loop; `ShuttingDown` is terminal and
/// absorbs everything without further action.
pub open spec fn step(state: AppState, msg: AppMessage) -> (AppState, Option<AppAction>) {
    match (state, msg) {
        (AppState::Running, AppMessage::Quit) => (
            AppState::ShuttingDown,
            Some(AppAction::QuitEventLoop),
        ),
        (AppState::ShuttingDown, AppMessage::Quit) => (AppState::ShuttingDown, None),
    }
}

/// The message a window interaction produces: only a close request yields a
/// message, and that message is `Quit`.
pub open spec fn message_for(event: WindowEvent) -> Option<AppMessage> {
    match event {
        WindowEvent::CloseRequested => Some(AppMessage::Quit),
        WindowEvent::ButtonClicked => None,
    }
}

/// Handle one message: the executable transition of the state machine. The
/// caller performs the returned action (stopping the event loop) itself.
pub fn update(state: AppState, msg: AppMessage) -> (r: (AppState, Option<AppAction>))
    ensures
        r == step(state, msg),
        state is Running ==> r.0 is ShuttingDown && r.1 == Some(AppAction::QuitEventLoop),
        state is ShuttingDown ==> r.0 is ShuttingDown && r.1 is None,
{
    match (state, msg) {
        (AppState::Running, AppMessage::Quit) => (
            AppState::ShuttingDown,
            Some(AppAction::QuitEventLoop),
        ),
        (AppState::ShuttingDown, AppMessage::Quit) => (AppState::ShuttingDown, None),
    }
}

/// `ShuttingDown` is terminal: no message received there changes the state
/// or produces an action, so once `Quit` has been handled nothing further
/// is ever done.
pub proof fn lemma_shutting_down_terminal(msg: AppMessage)
    ensures
        step(AppState::ShuttingDown, msg).0 is ShuttingDown,
        step(AppState::ShuttingDown, msg).1 is None,
{
}

/// Map one window interaction to the message it produces and to whether the
/// window's default close handling is inhibited. A close request produces
/// exactly one `Quit` and lets the default handling proceed; no other
/// interaction produces any message.
pub fn handle_window_event(event: WindowEvent) -> (r: (Option<AppMessage>, bool))
    ensures
        r.0 == message_for(event),
        r.0 == Some(AppMessage::Quit) <==> event is CloseRequested,
        r.0 is None <==> event is ButtonClicked,
        r.1 == false,
{
    match event {
        WindowEvent::CloseRequested => (Some(AppMessage::Quit), false),
        WindowEvent::ButtonClicked => (None, false),
    }
}

/// What a finished run of the event loop reports: the state it stopped in,
/// how many of the incoming events it processed before stopping, and how
/// many `Quit` messages it handled.
#[derive(Clone, Copy, Debug, PartialEq, Eq, Structural)]
pub struct LoopOutcome {
    pub final_state: AppState,
    pub events_processed: usize,
    pub quits_handled: usize,
}

/// Run the event loop over the window interactions that arrive, in order:
/// dispatch each to its message, feed messages to the state machine, and
/// stop as soon as the machine asks to. Exactly the events up to and
/// including the first close request are processed; at most one `Quit` is
/// ever handled, exactly one per close event that is reached; once the
/// machine is shutting down no further event is looked at.
pub fn run_event_loop(events: &Vec<WindowEvent>) -> (r: LoopOutcome)
    ensures
        r.events_processed <= events@.len(),
        r.quits_handled <= 1,
        r.final_state is ShuttingDown <==> r.quits_handled == 1,
        r.final_state is ShuttingDown <==> exists|i: int|
            0 <= i < events@.len() && events@[i] is CloseRequested,
        r.final_state is ShuttingDown ==> r.events_processed >= 1 && events@[
            r.events_processed - 1
        ] is CloseRequested && forall|j: int|
            0 <= j < r.events_processed - 1 ==> !(events@[j] is CloseRequested),
        r.final_state is Running ==> r.events_processed == events@.len() && forall|j: int|
            0 <= j < events@.len() ==> !(events@[j] is CloseRequested),
{
    let n = events.len();
    let mut state = AppState::Running;
    let mut i: usize = 0;
    let mut quits: usize = 0;
    while i < n && state == AppState::Running
        invariant
            n == events@.len(),
            i <= n,
            quits <= 1,
            state is ShuttingDown <==> quits == 1,
            state is Running ==> forall|j: int| 0 <= j < i ==> !(events@[j] is CloseRequested),
            state is ShuttingDown ==> i >= 1 && events@[i - 1] is CloseRequested && forall|j: int|
                0 <= j < i - 1 ==> !(events@[j] is CloseRequested),
        decreases n - i,
    {
        let event = events[i];
        i = i + 1;
        let (message, _inhibit) = handle_window_event(event);
        match message {
            Some(m) => {
                let (next, _action) = update(state, m);
                state = next;
                quits = quits + 1;
            },
            None => {},
        }
    }
    LoopOutcome { final_state: state, events_processed: i, quits_handled: quits }
}

/// The process's exit status: 0 exactly for a normal, `Quit`-triggered
/// shutdown. A loop that was abandoned while still running did not shut
/// down normally.
pub fn exit_status(final_state: AppState) -> (r: i32)
    ensures
        r == 0 <==> final_state is ShuttingDown,
        final_state is Running ==> r == 1,
{
    match final_state {
        AppState::ShuttingDown => 0,
        AppState::Running => 1,
    }
}

} // verus!
