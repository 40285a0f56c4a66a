use vstd::prelude::*;

use crate::event::{DecodeError, Event, RawEvent, KEY_PRESS};
use crate::input::{combine, mask_of_set, Input};
use crate::key_event::ResolveError;

verus! {

/// What the display service reported when the connection was opened.
#[derive(Debug, Clone, Copy, PartialEq, Eq, Structural)]
pub struct DisplayInfo {
    /// The default screen.
    pub screen: i32,
    /// The root window of the default screen.
    pub root_window: u64,
}

/// The display service could not be reached.
#[derive(Debug, Clone, Copy, PartialEq, Eq, Structural)]
pub enum ConnectionError {
    Unavailable,
}

/// The operations that a closed connection refuses.
#[derive(Debug, Clone, Copy, PartialEq, Eq, Structural)]
pub enum Operation {
    ScreenDimensions,
    SelectInputs,
    Run,
    Close,
}

/// An operation was attempted on a closed connection.
#[derive(Debug, Clone, Copy, PartialEq, Eq, Structural)]
pub struct ClosedError {
    pub operation: Operation,
}

/// The screen whose dimensions the service is to be asked for.
#[derive(Debug, Clone, Copy, PartialEq, Eq, Structural)]
pub struct ScreenQuery {
    pub screen: i32,
}

/// The event mask to register with the service, and the window to register it on.
#[derive(Debug, Clone, Copy, PartialEq, Eq, Structural)]
pub struct InputSelection {
    pub window: u64,
    pub mask: u32,
}

/// What the run loop does with an event that cannot be decoded.
#[derive(Debug, Clone, Copy, PartialEq, Eq, Structural)]
pub enum DecodePolicy {
    /// End the loop and hand the error to the caller.
    Abort,
    /// Report the error and go on with the next event.
    Skip,
}

/// What happened since the run loop's last action.
#[derive(Debug, Clone, Copy, PartialEq, Eq, Structural)]
pub enum RunEvent {
    /// The service delivered the next event.
    Received(RawEvent),
    /// Reading the next event failed; the service has no more to give.
    ReadFailed,
    /// The callback returned from the last dispatched event.
    Handled,
}

/// What the run loop is to do next.
#[derive(Debug, Clone, Copy, PartialEq, Eq, Structural)]
pub enum RunAction {
    /// Block until the service delivers the next event.
    Wait,
    /// Hand the event to the callback, then report `Handled`.
    Dispatch(Event),
    /// Report the error, then block for the next event.
    Skip(DecodeError),
    /// End the loop with the error.
    Fail(DecodeError),
    /// End the loop successfully.
    Finish,
}

/// The state of a connection, as the contracts speak of it.
pub ghost struct BackendState {
    pub closed: bool,
    pub screen: i32,
    pub root_window: u64,
    pub running: bool,
    pub policy: DecodePolicy,
}

impl BackendState {
    /// The state after a stop request.
    pub open spec fn stopped(self) -> BackendState {
        BackendState { running: false, ..self }
    }

    /// The answer to a screen-geometry request.
    pub open spec fn screen_dimensions(self) -> Result<ScreenQuery, ClosedError> {
        if self.closed {
            Err(ClosedError { operation: Operation::ScreenDimensions })
        } else {
            Ok(ScreenQuery { screen: self.screen })
        }
    }

    /// The answer to a request to register `inputs`.
    pub open spec fn select_inputs(self, inputs: Seq<Input>) -> Result<InputSelection, ClosedError> {
        if self.closed {
            Err(ClosedError { operation: Operation::SelectInputs })
        } else {
            Ok(InputSelection { window: self.root_window, mask: mask_of_set(inputs.to_set()) })
        }
    }

    /// The state and answer after a request to start running.
    pub open spec fn begin_run(self, policy: DecodePolicy) -> (BackendState, Result<(), ClosedError>) {
        if self.closed {
            (self, Err(ClosedError { operation: Operation::Run }))
        } else {
            (BackendState { running: true, policy, ..self }, Ok(()))
        }
    }

    /// The state and answer after a request to close.
    pub open spec fn close(self) -> (BackendState, Result<(), ClosedError>) {
        if self.closed {
            (self, Err(ClosedError { operation: Operation::Close }))
        } else {
            (BackendState { closed: true, running: false, ..self }, Ok(()))
        }
    }

    /// One step of the run loop: the next state and action after `event`,
    /// where `resolved` is what resolving a received key press's keycode gave.
    pub open spec fn step(self, event: RunEvent, resolved: Result<u64, ResolveError>) -> (
        BackendState,
        RunAction,
    ) {
        if !self.running || self.closed {
            (self.stopped(), RunAction::Finish)
        } else {
            match event {
                RunEvent::Handled => (self, RunAction::Wait),
                RunEvent::ReadFailed => (self.stopped(), RunAction::Finish),
                RunEvent::Received(raw) => match Event::spec_decode(raw, resolved) {
                    Ok(e) => (self, RunAction::Dispatch(e)),
                    Err(e) => match self.policy {
                        DecodePolicy::Skip => (self, RunAction::Skip(e)),
                        DecodePolicy::Abort => (self.stopped(), RunAction::Fail(e)),
                    },
                },
            }
        }
    }

    /// Whether the step after `event` asks the resolver for a keycode.
    pub open spec fn step_resolves(self, event: RunEvent) -> bool {
        &&& self.running
        &&& !self.closed
        &&& event matches RunEvent::Received(raw)
        &&& raw.type_ == KEY_PRESS
    }
}

/// A connection to the display service: its default screen and root window,
/// whether it has been closed, and whether its run loop is running.
#[derive(Debug)]
pub struct Backend {
    closed: bool,
    screen: i32,
    root_window: u64,
    running: bool,
    policy: DecodePolicy,
}

impl View for Backend {
    type V = BackendState;

    closed spec fn view(&self) -> BackendState {
        BackendState {
            closed: self.closed,
            screen: self.screen,
            root_window: self.root_window,
            running: self.running,
            policy: self.policy,
        }
    }
}

impl Backend {
    /// A connection over what opening the service gave; `None` when it could
    /// not be reached. A new connection is open and not running.
    pub fn new(display: Option<DisplayInfo>) -> (r: Result<Backend, ConnectionError>)
        ensures
            display is None <==> r is Err,
            r matches Err(e) ==> e == ConnectionError::Unavailable,
            r matches Ok(b) ==> b@ == (BackendState {
                closed: false,
                screen: display->Some_0.screen,
                root_window: display->Some_0.root_window,
                running: false,
                policy: DecodePolicy::Abort,
            }),
    {
        match display {
            None => Err(ConnectionError::Unavailable),
            Some(d) => Ok(
                Backend {
                    closed: false,
                    screen: d.screen,
                    root_window: d.root_window,
                    running: false,
                    policy: DecodePolicy::Abort,
                },
            ),
        }
    }

    pub fn is_closed(&self) -> (r: bool)
        ensures
            r == self@.closed,
    {
        self.closed
    }

    pub fn is_running(&self) -> (r: bool)
        ensures
            r == self@.running,
    {
        self.running
    }

    /// The screen whose dimensions to ask the service for.
    pub fn screen_dimensions(&self) -> (r: Result<ScreenQuery, ClosedError>)
        ensures
            r == self@.screen_dimensions(),
    {
        if self.closed {
            return Err(ClosedError { operation: Operation::ScreenDimensions });
        }
        Ok(ScreenQuery { screen: self.screen })
    }

    /// The combined event mask of `inputs` and the root window to register it on.
    pub fn select_inputs(&self, inputs: &Vec<Input>) -> (r: Result<InputSelection, ClosedError>)
        ensures
            r == self@.select_inputs(inputs@),
    {
        if self.closed {
            return Err(ClosedError { operation: Operation::SelectInputs });
        }
        let mask = combine(inputs);
        Ok(InputSelection { window: self.root_window, mask })
    }

    /// Starts the run loop, which then waits for its first event.
    pub fn begin_run(&mut self, policy: DecodePolicy) -> (r: Result<(), ClosedError>)
        ensures
            (final(self)@, r) == old(self)@.begin_run(policy),
    {
        if self.closed {
            return Err(ClosedError { operation: Operation::Run });
        }
        self.running = true;
        self.policy = policy;
        Ok(())
    }

    /// Asks the run loop to end; it ends at the next step, after the event in
    /// hand has been handled.
    pub fn stop(&mut self)
        ensures
            final(self)@ == old(self)@.stopped(),
    {
        self.running = false;
    }

    /// Closes the connection; a closed connection refuses every operation.
    pub fn close(&mut self) -> (r: Result<(), ClosedError>)
        ensures
            (final(self)@, r) == old(self)@.close(),
    {
        if self.closed {
            return Err(ClosedError { operation: Operation::Close });
        }
        self.closed = true;
        self.running = false;
        Ok(())
    }

    /// Decides the run loop's next action after `event`. A received key press
    /// has its keycode resolved through `resolve`.
    pub fn run_step<F: Fn(u8) -> Result<u64, ResolveError>>(&mut self, event: RunEvent, resolve: F) -> (r:
        RunAction)
        requires
            old(self)@.step_resolves(event) ==> resolve.requires(
                (event->Received_0.xkey.spec_keycode(),),
            ),
        ensures
            exists|resolved: Result<u64, ResolveError>|
                #![trigger old(self)@.step(event, resolved)]
                {
                    &&& old(self)@.step_resolves(event) ==> resolve.ensures(
                        (event->Received_0.xkey.spec_keycode(),),
                        resolved,
                    )
                    &&& (final(self)@, r) == old(self)@.step(event, resolved)
                },
    {
        if !self.running || self.closed {
            self.running = false;
            assert((self@, RunAction::Finish) == old(self)@.step(event, Err(ResolveError { keycode: 0 })));
            return RunAction::Finish;
        }
        match event {
            RunEvent::Handled => {
                assert((self@, RunAction::Wait) == old(self)@.step(event, Err(ResolveError { keycode: 0 })));
                RunAction::Wait
            },
            RunEvent::ReadFailed => {
                self.running = false;
                assert((self@, RunAction::Finish) == old(self)@.step(event, Err(ResolveError { keycode: 0 })));
                RunAction::Finish
            },
            RunEvent::Received(raw) => {
                let decoded = Event::from_xevent(raw, resolve);
                let ghost resolved = if raw.type_ == KEY_PRESS {
                    choose|resolved: Result<u64, ResolveError>|
                        resolve.ensures((raw.xkey.spec_keycode(),), resolved) && decoded
                            == Event::spec_decode(raw, resolved)
                } else {
                    Err(ResolveError { keycode: 0 })
                };
                assert(decoded == Event::spec_decode(raw, resolved));
                let action = match decoded {
                    Ok(e) => RunAction::Dispatch(e),
                    Err(e) => match self.policy {
                        DecodePolicy::Skip => RunAction::Skip(e),
                        DecodePolicy::Abort => {
                            self.running = false;
                            RunAction::Fail(e)
                        },
                    },
                };
                assert((self@, action) == old(self)@.step(event, resolved));
                action
            },
        }
    }
}

/// After a stop request the run loop dispatches nothing more and does not
/// wait again: whatever is reported next, it finishes.
pub proof fn lemma_stop_ends_run(
    s: BackendState,
    event: RunEvent,
    resolved: Result<u64, ResolveError>,
)
    ensures
        s.stopped().step(event, resolved) == (s.stopped(), RunAction::Finish),
{
}

/// A closed connection refuses every operation with a closed error naming it,
/// and none of them changes its state.
pub proof fn lemma_closed_refuses_all(s: BackendState, inputs: Seq<Input>, policy: DecodePolicy)
    requires
        s.closed,
    ensures
        s.screen_dimensions() == Err::<ScreenQuery, ClosedError>(
            ClosedError { operation: Operation::ScreenDimensions },
        ),
        s.select_inputs(inputs) == Err::<InputSelection, ClosedError>(
            ClosedError { operation: Operation::SelectInputs },
        ),
        s.begin_run(policy) == (s, Err::<(), ClosedError>(ClosedError { operation: Operation::Run })),
        s.close() == (s, Err::<(), ClosedError>(ClosedError { operation: Operation::Close })),
{
}

} // verus!
