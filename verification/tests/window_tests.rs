use layout_switcher::window::{
    accepts, start, step, window_procedure_action, Action, Event, Failure, Stage,
    WindowProcedureAction, MESSAGE_HANDLED,
};
use layout_switcher::winapi::{
    CW_USEDEFAULT, POINT, WM_CLOSE, WM_DESTROY, WS_OVERLAPPEDWINDOW,
};

#[test]
fn start_registers_the_class() {
    assert_eq!(start(), (Stage::RegisteringClass, Action::RegisterClass));
}

#[test]
fn successful_session_dispatches_then_exits_with_zero() {
    let (mut stage, mut action) = start();
    let events = [
        Event::ClassRegistered(0xC123),
        Event::WindowCreated(false),
        Event::WindowShown,
        Event::MessageFetched(1),
        Event::MessageFetched(5),
        Event::MessageFetched(0),
    ];
    let mut actions = vec![action];
    for event in events {
        assert!(accepts(stage, event));
        let (s, a) = step(stage, event);
        stage = s;
        action = a;
        actions.push(action);
    }
    assert_eq!(stage, Stage::Finished);
    assert_eq!(
        actions,
        vec![
            Action::RegisterClass,
            Action::CreateWindow,
            Action::ShowWindow,
            Action::FetchMessage,
            Action::DispatchAndFetch,
            Action::DispatchAndFetch,
            Action::Exit(0),
        ]
    );
}

#[test]
fn failed_registration_stops() {
    assert_eq!(
        step(Stage::RegisteringClass, Event::ClassRegistered(0)),
        (Stage::Finished, Action::Fail(Failure::ClassRegistration))
    );
}

#[test]
fn null_window_stops() {
    assert_eq!(
        step(Stage::CreatingWindow, Event::WindowCreated(true)),
        (Stage::Finished, Action::Fail(Failure::WindowCreation))
    );
}

#[test]
fn get_message_error_stops() {
    assert_eq!(
        step(Stage::PumpingMessages, Event::MessageFetched(-1)),
        (Stage::Finished, Action::Fail(Failure::MessageRetrieval))
    );
}

#[test]
fn negative_message_results_other_than_error_are_dispatched() {
    assert_eq!(
        step(Stage::PumpingMessages, Event::MessageFetched(-2)),
        (Stage::PumpingMessages, Action::DispatchAndFetch)
    );
}

#[test]
fn out_of_order_events_are_not_accepted() {
    assert!(!accepts(Stage::RegisteringClass, Event::WindowShown));
    assert!(!accepts(Stage::PumpingMessages, Event::ClassRegistered(1)));
    assert!(!accepts(Stage::Finished, Event::MessageFetched(0)));
    assert!(accepts(Stage::ShowingWindow, Event::WindowShown));
}

#[test]
fn window_procedure_answers() {
    assert_eq!(window_procedure_action(WM_CLOSE), WindowProcedureAction::DestroyWindow);
    assert_eq!(
        window_procedure_action(WM_DESTROY),
        WindowProcedureAction::PostQuitMessage(0)
    );
    assert_eq!(window_procedure_action(0x000F), WindowProcedureAction::DefaultProcedure);
    assert_eq!(window_procedure_action(0x0012), WindowProcedureAction::DefaultProcedure);
    assert_eq!(MESSAGE_HANDLED, 0);
}

#[test]
fn window_style_and_position_constants() {
    assert_eq!(WS_OVERLAPPEDWINDOW, 0x00CF_0000);
    assert_eq!(CW_USEDEFAULT, 0x8000_0000_u32 as i32);
}

#[test]
fn default_point_is_origin() {
    let p = POINT::default();
    assert_eq!((p.x, p.y), (0, 0));
}
