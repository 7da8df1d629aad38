//! From a matched mapping to the action that the caller has to perform.
//!
//! The recognizer decides; launching a process is left to whoever drives it.

use vstd::prelude::*;
use vstd::string::StringExecFns;

use crate::config::{Mapping, MappingView};

verus! {

/// What a matched mapping asks for.
#[derive(Debug, Clone, PartialEq, Eq)]
pub enum Action {
    /// Open the application with this name.
    Application(String),
    /// Hand this command line to a shell.
    Command(String),
    /// The mapping's kind is neither of the two: do nothing.
    Ignore,
}

/// An action as plain values.
pub enum ActionView {
    Application(Seq<char>),
    Command(Seq<char>),
    Ignore,
}

impl View for Action {
    type V = ActionView;

    open spec fn view(&self) -> ActionView {
        match self {
            Action::Application(name) => ActionView::Application(name@),
            Action::Command(command_line) => ActionView::Command(command_line@),
            Action::Ignore => ActionView::Ignore,
        }
    }
}

/// The kind string of a mapping that opens an application.
pub open spec fn kind_application() -> Seq<char> {
    "Application"@
}

/// The kind string of a mapping that runs a shell command.
pub open spec fn kind_command() -> Seq<char> {
    "Command"@
}

/// The action of a mapping: its kind selects the variant, its command is the
/// payload. A kind other than `"Application"` and `"Command"` gives
/// `ActionView::Ignore`.
pub open spec fn action_of(mapping: MappingView) -> ActionView {
    if mapping.kind == kind_application() {
        ActionView::Application(mapping.command)
    } else if mapping.kind == kind_command() {
        ActionView::Command(mapping.command)
    } else {
        ActionView::Ignore
    }
}

/// Turns a matched mapping into the action to perform.
pub fn dispatch(mapping: &Mapping) -> (action: Action)
    ensures
        action@ == action_of(mapping@),
{
    if mapping.kind == String::from_str("Application") {
        Action::Application(mapping.command.clone())
    } else if mapping.kind == String::from_str("Command") {
        Action::Command(mapping.command.clone())
    } else {
        Action::Ignore
    }
}

} // verus!
