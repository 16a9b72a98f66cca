use vstd::prelude::*;

use crate::winapi::{c_int, ATOM, BOOL, LRESULT, UINT, WM_CLOSE, WM_DESTROY};

verus! {

/// How far the program has come in bringing up its window and serving it.
#[derive(Clone, Copy, Debug, PartialEq, Eq, Structural)]
pub enum Stage {
    RegisteringClass,
    CreatingWindow,
    ShowingWindow,
    PumpingMessages,
    Finished,
}

/// What the system answered to the last action.
#[derive(Clone, Copy, Debug, PartialEq, Eq, Structural)]
pub enum Event {
    /// `RegisterClassW` returned this atom (0 on failure).
    ClassRegistered(ATOM),
    /// `CreateWindowExW` returned; the flag tells whether the handle is null.
    WindowCreated(bool),
    /// `ShowWindow` returned.
    WindowShown,
    /// `GetMessageW` returned this value (0 for `WM_QUIT`, -1 on error).
    MessageFetched(BOOL),
}

/// Which step of the start-up or of the message loop went wrong.
#[derive(Clone, Copy, Debug, PartialEq, Eq, Structural)]
pub enum Failure {
    ClassRegistration,
    WindowCreation,
    MessageRetrieval,
}

/// What the program is to do next.
#[derive(Clone, Copy, Debug, PartialEq, Eq, Structural)]
pub enum Action {
    /// Register the window class.
    RegisterClass,
    /// Create the main window.
    CreateWindow,
    /// Show the main window.
    ShowWindow,
    /// Fetch the next message with `GetMessageW`.
    FetchMessage,
    /// Translate and dispatch the fetched message, then fetch the next one.
    DispatchAndFetch,
    /// Return this exit code from the entry point.
    Exit(c_int),
    /// Stop with an error report for this failure.
    Fail(Failure),
}

/// Whether `event` answers the action that `stage` is waiting on.
pub open spec fn event_fits(stage: Stage, event: Event) -> bool {
    match (stage, event) {
        (Stage::RegisteringClass, Event::ClassRegistered(_)) => true,
        (Stage::CreatingWindow, Event::WindowCreated(_)) => true,
        (Stage::ShowingWindow, Event::WindowShown) => true,
        (Stage::PumpingMessages, Event::MessageFetched(_)) => true,
        _ => false,
    }
}

/// The stage and action that follow `event` in `stage` (for a fitting event).
pub open spec fn next_step(stage: Stage, event: Event) -> (Stage, Action) {
    match event {
        Event::ClassRegistered(atom) => if atom == 0 {
            (Stage::Finished, Action::Fail(Failure::ClassRegistration))
        } else {
            (Stage::CreatingWindow, Action::CreateWindow)
        },
        Event::WindowCreated(is_null) => if is_null {
            (Stage::Finished, Action::Fail(Failure::WindowCreation))
        } else {
            (Stage::ShowingWindow, Action::ShowWindow)
        },
        Event::WindowShown => (Stage::PumpingMessages, Action::FetchMessage),
        Event::MessageFetched(result) => if result == 0 {
            (Stage::Finished, Action::Exit(0))
        } else if result == -1 {
            (Stage::Finished, Action::Fail(Failure::MessageRetrieval))
        } else {
            (Stage::PumpingMessages, Action::DispatchAndFetch)
        },
    }
}

/// The first stage and the first action of the program.
pub fn start() -> (r: (Stage, Action))
    ensures
        r == (Stage::RegisteringClass, Action::RegisterClass),
{
    (Stage::RegisteringClass, Action::RegisterClass)
}

/// Whether `event` answers the action that `stage` is waiting on.
pub fn accepts(stage: Stage, event: Event) -> (r: bool)
    ensures
        r == event_fits(stage, event),
        r ==> stage != Stage::Finished,
        stage == Stage::RegisteringClass ==> (r <==> event is ClassRegistered),
        stage == Stage::CreatingWindow ==> (r <==> event is WindowCreated),
        stage == Stage::ShowingWindow ==> (r <==> event is WindowShown),
        stage == Stage::PumpingMessages ==> (r <==> event is MessageFetched),
{
    match (stage, event) {
        (Stage::RegisteringClass, Event::ClassRegistered(_)) => true,
        (Stage::CreatingWindow, Event::WindowCreated(_)) => true,
        (Stage::ShowingWindow, Event::WindowShown) => true,
        (Stage::PumpingMessages, Event::MessageFetched(_)) => true,
        _ => false,
    }
}

/// Decides what follows `event`: a failed registration, a null window or a
/// `GetMessageW` error stop the program with a failure; `GetMessageW`
/// returning 0 ends it with exit code 0; any other message is dispatched.
pub fn step(stage: Stage, event: Event) -> (r: (Stage, Action))
    requires
        event_fits(stage, event),
    ensures
        r == next_step(stage, event),
{
    match event {
        Event::ClassRegistered(atom) => if atom == 0 {
            (Stage::Finished, Action::Fail(Failure::ClassRegistration))
        } else {
            (Stage::CreatingWindow, Action::CreateWindow)
        },
        Event::WindowCreated(is_null) => if is_null {
            (Stage::Finished, Action::Fail(Failure::WindowCreation))
        } else {
            (Stage::ShowingWindow, Action::ShowWindow)
        },
        Event::WindowShown => (Stage::PumpingMessages, Action::FetchMessage),
        Event::MessageFetched(result) => if result == 0 {
            (Stage::Finished, Action::Exit(0))
        } else if result == -1 {
            (Stage::Finished, Action::Fail(Failure::MessageRetrieval))
        } else {
            (Stage::PumpingMessages, Action::DispatchAndFetch)
        },
    }
}

/// The position of a stage in the program's course.
pub open spec fn stage_rank(stage: Stage) -> int {
    match stage {
        Stage::RegisteringClass => 0,
        Stage::CreatingWindow => 1,
        Stage::ShowingWindow => 2,
        Stage::PumpingMessages => 3,
        Stage::Finished => 4,
    }
}

/// The stage reached and the actions decided when the events are answered in
/// order from `stage`; the run stops at the first event that does not fit.
pub open spec fn run(stage: Stage, events: Seq<Event>) -> (Stage, Seq<Action>)
    decreases events.len(),
{
    if events.len() == 0 || !event_fits(stage, events[0]) {
        (stage, Seq::empty())
    } else {
        let (next, action) = next_step(stage, events[0]);
        let (last, actions) = run(next, events.drop_first());
        (last, seq![action] + actions)
    }
}

/// Once finished, the program takes no further event.
pub proof fn lemma_finished_takes_no_event(event: Event)
    ensures
        !event_fits(Stage::Finished, event),
{
}

/// Every step moves forward, never back: only the message loop stays in its
/// stage. The program finishes exactly when it exits or fails, and it only
/// ever exits with code 0, after `GetMessageW` returned 0.
pub proof fn lemma_step_progress(stage: Stage, event: Event)
    requires
        event_fits(stage, event),
    ensures
        stage_rank(next_step(stage, event).0) > stage_rank(stage) || (stage
            == Stage::PumpingMessages && next_step(stage, event).0 == Stage::PumpingMessages),
        next_step(stage, event).0 == Stage::Finished <==> (next_step(stage, event).1 is Exit
            || next_step(stage, event).1 is Fail),
        next_step(stage, event).1 is Exit ==> next_step(stage, event).1 == Action::Exit(0)
            && event == Event::MessageFetched(0),
{
}

/// The message loop dispatches every message that `GetMessageW` delivers until
/// it returns 0, and then exits with code 0.
pub proof fn lemma_message_loop_run(results: Seq<BOOL>)
    requires
        results.len() > 0,
        results.last() == 0,
        forall|i: int| 0 <= i < results.len() - 1 ==> results[i] != 0 && results[i] != -1,
    ensures
        run(Stage::PumpingMessages, results.map_values(|r: BOOL| Event::MessageFetched(r)))
            == (Stage::Finished, Seq::new(
            results.len(),
            |i: int|
                if i < results.len() - 1 {
                    Action::DispatchAndFetch
                } else {
                    Action::Exit(0)
                },
        )),
    decreases results.len(),
{
    let events = results.map_values(|r: BOOL| Event::MessageFetched(r));
    let expected = Seq::new(
        results.len(),
        |i: int|
            if i < results.len() - 1 {
                Action::DispatchAndFetch
            } else {
                Action::Exit(0)
            },
    );
    assert(events[0] == Event::MessageFetched(results[0]));
    if results.len() == 1 {
        assert(events.drop_first().len() == 0);
        assert(run(Stage::Finished, events.drop_first()).1 =~= Seq::empty());
        assert(run(Stage::PumpingMessages, events).1 =~= expected);
    } else {
        let rest = results.drop_first();
        lemma_message_loop_run(rest);
        assert(events.drop_first() =~= rest.map_values(|r: BOOL| Event::MessageFetched(r)));
        assert(run(Stage::PumpingMessages, events).1 =~= expected);
    }
}

/// A session in which the class registers, the window is created and shown,
/// and `GetMessageW` delivers messages until it returns 0, ends with exit code 0
/// after dispatching each delivered message.
pub proof fn lemma_session_run(atom: ATOM, results: Seq<BOOL>)
    requires
        atom != 0,
        results.len() > 0,
        results.last() == 0,
        forall|i: int| 0 <= i < results.len() - 1 ==> results[i] != 0 && results[i] != -1,
    ensures
        run(
            Stage::RegisteringClass,
            seq![Event::ClassRegistered(atom), Event::WindowCreated(false), Event::WindowShown]
                + results.map_values(|r: BOOL| Event::MessageFetched(r)),
        ) == (Stage::Finished, seq![Action::CreateWindow, Action::ShowWindow, Action::FetchMessage]
            + Seq::new(
            results.len(),
            |i: int|
                if i < results.len() - 1 {
                    Action::DispatchAndFetch
                } else {
                    Action::Exit(0)
                },
        )),
{
    let loop_events = results.map_values(|r: BOOL| Event::MessageFetched(r));
    let events = seq![Event::ClassRegistered(atom), Event::WindowCreated(false), Event::WindowShown]
        + loop_events;
    lemma_message_loop_run(results);
    let e1 = events.drop_first();
    let e2 = e1.drop_first();
    let e3 = e2.drop_first();
    assert(events[0] == Event::ClassRegistered(atom));
    assert(e1[0] == Event::WindowCreated(false));
    assert(e2[0] == Event::WindowShown);
    assert(e3 =~= loop_events);
    let r3 = run(Stage::PumpingMessages, e3);
    assert(run(Stage::ShowingWindow, e2) == (r3.0, seq![Action::FetchMessage] + r3.1));
    assert(run(Stage::CreatingWindow, e1) == (r3.0, seq![Action::ShowWindow] + (seq![
        Action::FetchMessage,
    ] + r3.1)));
    assert(seq![Action::CreateWindow] + (seq![Action::ShowWindow] + (seq![Action::FetchMessage]
        + r3.1)) =~= seq![Action::CreateWindow, Action::ShowWindow, Action::FetchMessage] + r3.1);
}

/// What the window procedure does with a message.
#[derive(Clone, Copy, Debug, PartialEq, Eq, Structural)]
pub enum WindowProcedureAction {
    /// Destroy the window (answer to `WM_CLOSE`).
    DestroyWindow,
    /// Post a quit message with this exit code (answer to `WM_DESTROY`).
    PostQuitMessage(c_int),
    /// Hand the message to `DefWindowProcW` and return what it returns.
    DefaultProcedure,
}

/// What the window procedure returns for a message that it handled itself.
pub const MESSAGE_HANDLED: LRESULT = 0;

/// The window procedure's answer to a message.
pub open spec fn window_procedure_spec(msg: UINT) -> WindowProcedureAction {
    if msg == WM_CLOSE {
        WindowProcedureAction::DestroyWindow
    } else if msg == WM_DESTROY {
        WindowProcedureAction::PostQuitMessage(0)
    } else {
        WindowProcedureAction::DefaultProcedure
    }
}

/// Decides how the window procedure handles `msg`: `WM_CLOSE` destroys the
/// window, `WM_DESTROY` posts a quit message with code 0, and every other
/// message goes to the default window procedure.
pub fn window_procedure_action(msg: UINT) -> (a: WindowProcedureAction)
    ensures
        a == window_procedure_spec(msg),
        a == WindowProcedureAction::DestroyWindow <==> msg == WM_CLOSE,
        a == WindowProcedureAction::PostQuitMessage(0) <==> msg == WM_DESTROY,
        a == WindowProcedureAction::DefaultProcedure <==> (msg != WM_CLOSE && msg != WM_DESTROY),
        a is PostQuitMessage ==> a == WindowProcedureAction::PostQuitMessage(0),
{
    if msg == WM_CLOSE {
        WindowProcedureAction::DestroyWindow
    } else if msg == WM_DESTROY {
        WindowProcedureAction::PostQuitMessage(0)
    } else {
        WindowProcedureAction::DefaultProcedure
    }
}


/// Whether `event` is the system's answer to `action`: registering answers
/// with an atom, creating with a handle, showing with its return, and fetching
/// (alone or after a dispatch) with `GetMessageW`'s result; exiting and failing
/// wait for nothing.
pub open spec fn answers(action: Action, event: Event) -> bool {
    match action {
        Action::RegisterClass => event is ClassRegistered,
        Action::CreateWindow => event is WindowCreated,
        Action::ShowWindow => event is WindowShown,
        Action::FetchMessage => event is MessageFetched,
        Action::DispatchAndFetch => event is MessageFetched,
        Action::Exit(_) => false,
        Action::Fail(_) => false,
    }
}

/// An event is taken only as the answer to the call that its stage waits on:
/// the class registration while registering, the window creation while
/// creating, the show while showing, a fetched message while pumping, and
/// nothing once finished.
pub proof fn lemma_accepted_events(stage: Stage, event: Event)
    ensures
        stage == Stage::RegisteringClass ==> (event_fits(stage, event)
            <==> event is ClassRegistered),
        stage == Stage::CreatingWindow ==> (event_fits(stage, event) <==> event is WindowCreated),
        stage == Stage::ShowingWindow ==> (event_fits(stage, event) <==> event is WindowShown),
        stage == Stage::PumpingMessages ==> (event_fits(stage, event)
            <==> event is MessageFetched),
        stage == Stage::Finished ==> !event_fits(stage, event),
{
}

/// The stage that comes with each decided action waits exactly for the
/// answer to that action: from the start, and after every step.
pub proof fn lemma_stage_waits_for_answer(stage: Stage, event: Event, next_event: Event)
    ensures
        event_fits(Stage::RegisteringClass, next_event) <==> answers(
            Action::RegisterClass,
            next_event,
        ),
        event_fits(stage, event) ==> (event_fits(next_step(stage, event).0, next_event)
            <==> answers(next_step(stage, event).1, next_event)),
{
}

/// What each answer leads to: a zero atom, a null window or a `GetMessageW`
/// result of -1 stop the program with the matching failure; a nonzero atom
/// leads to creating the window, a non-null window to showing it, the show to
/// fetching the first message; a result of 0 exits with code 0, and any other
/// result dispatches the message and fetches the next.
pub proof fn lemma_step_outcomes(atom: ATOM, is_null: bool, result: BOOL)
    ensures
        atom == 0 ==> next_step(Stage::RegisteringClass, Event::ClassRegistered(atom)) == (
        Stage::Finished, Action::Fail(Failure::ClassRegistration)),
        atom != 0 ==> next_step(Stage::RegisteringClass, Event::ClassRegistered(atom)) == (
        Stage::CreatingWindow, Action::CreateWindow),
        is_null ==> next_step(Stage::CreatingWindow, Event::WindowCreated(is_null)) == (
        Stage::Finished, Action::Fail(Failure::WindowCreation)),
        !is_null ==> next_step(Stage::CreatingWindow, Event::WindowCreated(is_null)) == (
        Stage::ShowingWindow, Action::ShowWindow),
        next_step(Stage::ShowingWindow, Event::WindowShown) == (
        Stage::PumpingMessages, Action::FetchMessage),
        result == 0 ==> next_step(Stage::PumpingMessages, Event::MessageFetched(result)) == (
        Stage::Finished, Action::Exit(0)),
        result == -1 ==> next_step(Stage::PumpingMessages, Event::MessageFetched(result)) == (
        Stage::Finished, Action::Fail(Failure::MessageRetrieval)),
        result != 0 && result != -1 ==> next_step(
            Stage::PumpingMessages,
            Event::MessageFetched(result),
        ) == (Stage::PumpingMessages, Action::DispatchAndFetch),
{
}

/// The window procedure destroys the window on `WM_CLOSE` and only then, posts
/// a quit message with code 0 on `WM_DESTROY` and only then, and hands every
/// other message to `DefWindowProcW`.
pub proof fn lemma_window_procedure_answers(msg: UINT)
    ensures
        window_procedure_spec(msg) == WindowProcedureAction::DestroyWindow <==> msg == WM_CLOSE,
        window_procedure_spec(msg) == WindowProcedureAction::PostQuitMessage(0) <==> msg
            == WM_DESTROY,
        window_procedure_spec(msg) == WindowProcedureAction::DefaultProcedure <==> (msg
            != WM_CLOSE && msg != WM_DESTROY),
        window_procedure_spec(msg) is PostQuitMessage ==> window_procedure_spec(msg)
            == WindowProcedureAction::PostQuitMessage(0),
{
}

} // verus!
