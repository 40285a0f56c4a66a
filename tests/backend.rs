use wm_backend::backend::{
    ClosedError, ConnectionError, DecodePolicy, DisplayInfo, InputSelection, Operation, RunAction,
    RunEvent, ScreenQuery,
};
use wm_backend::event::KEY_PRESS;
use wm_backend::key::KEYSYM_LOWER_Q;
use wm_backend::key_event::SHIFT_MASK;
use wm_backend::{
    Backend, DecodeError, Event, EventCategory, Input, Key, RawEvent, RawKeyEvent, ResolveError,
    UnsupportedCategoryError,
};

fn resolve_to_q(_k: u8) -> Result<u64, ResolveError> {
    Ok(KEYSYM_LOWER_Q)
}

fn open() -> Backend {
    Backend::new(Some(DisplayInfo { screen: 0, root_window: 0x1e3 })).unwrap()
}

fn key_press(state: u32, keycode: u32) -> RawEvent {
    RawEvent { type_: KEY_PRESS, xkey: RawKeyEvent { state, keycode } }
}

fn expose() -> RawEvent {
    RawEvent { type_: 12, xkey: RawKeyEvent { state: 0, keycode: 0 } }
}

#[test]
fn open_fails_without_service() {
    assert!(matches!(Backend::new(None), Err(ConnectionError::Unavailable)));
}

#[test]
fn new_connection_is_open_and_idle() {
    let b = open();
    assert!(!b.is_closed());
    assert!(!b.is_running());
    assert_eq!(b.screen_dimensions(), Ok(ScreenQuery { screen: 0 }));
}

#[test]
fn select_inputs_targets_root_window() {
    let b = open();
    let r = b.select_inputs(&vec![
        Input::SubstructureNotify,
        Input::SubstructureRedirect,
        Input::KeyPress,
    ]);
    assert_eq!(r, Ok(InputSelection { window: 0x1e3, mask: 0x18_0001 }));
}

#[test]
fn closed_connection_refuses_everything() {
    let mut b = open();
    assert_eq!(b.close(), Ok(()));
    assert!(b.is_closed());
    assert_eq!(
        b.screen_dimensions(),
        Err(ClosedError { operation: Operation::ScreenDimensions })
    );
    assert_eq!(
        b.select_inputs(&vec![Input::KeyPress]),
        Err(ClosedError { operation: Operation::SelectInputs })
    );
    assert_eq!(
        b.begin_run(DecodePolicy::Abort),
        Err(ClosedError { operation: Operation::Run })
    );
    assert!(!b.is_running());
    assert_eq!(b.close(), Err(ClosedError { operation: Operation::Close }));
    assert!(b.is_closed());
}

#[test]
fn key_press_is_dispatched_once_then_stop_ends_the_loop() {
    let mut b = open();
    assert_eq!(
        b.select_inputs(&vec![Input::KeyPress]),
        Ok(InputSelection { window: 0x1e3, mask: 1 })
    );
    assert_eq!(b.begin_run(DecodePolicy::Abort), Ok(()));
    assert!(b.is_running());
    let mut dispatched = 0;
    let action = b.run_step(RunEvent::Received(key_press(SHIFT_MASK, 24)), resolve_to_q);
    match action {
        RunAction::Dispatch(Event::KeyPress(e)) => {
            dispatched += 1;
            assert!(e.is_shift_down);
            assert!(!e.is_control_down && !e.is_alt_down && !e.is_super_down);
            assert!(!e.is_num_lock && !e.is_lock);
            assert_eq!(e.key, Key::Q);
            b.stop();
        }
        other => panic!("expected a dispatch, got {:?}", other),
    }
    assert_eq!(dispatched, 1);
    assert_eq!(b.run_step(RunEvent::Handled, resolve_to_q), RunAction::Finish);
    assert!(!b.is_running());
}

#[test]
fn loop_keeps_waiting_while_running() {
    let mut b = open();
    b.begin_run(DecodePolicy::Abort).unwrap();
    let action = b.run_step(RunEvent::Received(key_press(0, 38)), resolve_to_q);
    assert!(matches!(action, RunAction::Dispatch(_)));
    assert_eq!(b.run_step(RunEvent::Handled, resolve_to_q), RunAction::Wait);
    assert!(b.is_running());
}

#[test]
fn stopped_loop_dispatches_nothing_more() {
    let mut b = open();
    b.begin_run(DecodePolicy::Skip).unwrap();
    b.stop();
    assert_eq!(
        b.run_step(RunEvent::Received(key_press(0, 38)), |_k: u8| -> Result<u64, ResolveError> {
            panic!("a stopped loop resolves nothing")
        }),
        RunAction::Finish
    );
}

#[test]
fn read_failure_ends_the_loop() {
    let mut b = open();
    b.begin_run(DecodePolicy::Abort).unwrap();
    assert_eq!(b.run_step(RunEvent::ReadFailed, resolve_to_q), RunAction::Finish);
    assert!(!b.is_running());
}

#[test]
fn unsupported_event_aborts_under_abort_policy() {
    let mut b = open();
    b.begin_run(DecodePolicy::Abort).unwrap();
    assert_eq!(
        b.run_step(RunEvent::Received(expose()), resolve_to_q),
        RunAction::Fail(DecodeError::Unsupported(UnsupportedCategoryError::Known(
            EventCategory::Expose
        )))
    );
    assert!(!b.is_running());
}

#[test]
fn unsupported_event_is_skipped_under_skip_policy() {
    let mut b = open();
    b.begin_run(DecodePolicy::Skip).unwrap();
    assert_eq!(
        b.run_step(RunEvent::Received(expose()), resolve_to_q),
        RunAction::Skip(DecodeError::Unsupported(UnsupportedCategoryError::Known(
            EventCategory::Expose
        )))
    );
    assert!(b.is_running());
    let action = b.run_step(RunEvent::Received(key_press(0, 24)), resolve_to_q);
    assert!(matches!(action, RunAction::Dispatch(_)));
}

#[test]
fn close_during_run_ends_the_loop() {
    let mut b = open();
    b.begin_run(DecodePolicy::Abort).unwrap();
    assert_eq!(b.close(), Ok(()));
    assert!(!b.is_running());
    assert_eq!(b.run_step(RunEvent::Handled, resolve_to_q), RunAction::Finish);
}
