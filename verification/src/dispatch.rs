//! Action dispatch at the application boundary.
//!
//! A message received from the UI is matched against the known action set.
//! Only `Quit` is wired to behavior: it terminates the application. Every
//! other well-formed message is a non-fatal unimplemented command: the
//! shell reports it and leaves the application state unchanged.

use vstd::prelude::*;
use crate::actions::AppAction;
use crate::sidebar::SidebarOutput;

verus! {

/// A message of the application's single-threaded event loop: an output
/// event forwarded from the sidebar, or a registry action activated through
/// the host's dispatch map.
#[derive(Debug, Clone)]
pub enum AppMsg {
    Sidebar(SidebarOutput),
    AppAction(AppAction),
}

/// What the shell must do with a message: terminate the application, or
/// report an unimplemented command and change nothing.
#[derive(Debug, Clone, Copy, PartialEq, Eq, Structural)]
pub enum DispatchOutcome {
    Terminate,
    Unimplemented,
}

/// The decision for one registry action: exactly `Quit` terminates; every
/// other action is an unimplemented, non-fatal command.
pub fn dispatch(action: AppAction) -> (r: DispatchOutcome)
    ensures
        r == DispatchOutcome::Terminate <==> action == AppAction::Quit,
        r == DispatchOutcome::Unimplemented <==> action != AppAction::Quit,
{
    match action {
        AppAction::Quit => DispatchOutcome::Terminate,
        _ => DispatchOutcome::Unimplemented,
    }
}

/// The decision for one event-loop message: exactly the `Quit` action
/// terminates; every other message — any sidebar event, any other action —
/// is reported and otherwise ignored.
pub fn update_outcome(msg: &AppMsg) -> (r: DispatchOutcome)
    ensures
        r == DispatchOutcome::Terminate <==> msg is AppAction && msg->AppAction_0
            == AppAction::Quit,
{
    match msg {
        AppMsg::AppAction(action) => dispatch(*action),
        AppMsg::Sidebar(_) => DispatchOutcome::Unimplemented,
    }
}

} // verus!
