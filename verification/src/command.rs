//! The commands that the front end may invoke.

use crate::failure::{CommandFailure, FailureView};
use vstd::prelude::*;

verus! {

/// An operation that the front end may invoke on the window it runs in.
#[derive(Clone, Copy, Debug, PartialEq, Eq, Structural)]
pub enum WindowCommand {
    /// Ask the windowing system to close the window.
    Close,
    /// Ask the windowing system to minimize the window.
    Minimize,
}

impl WindowCommand {
    /// The name under which the front end invokes the command.
    pub open spec fn name_spec(self) -> Seq<char> {
        match self {
            WindowCommand::Close => "close_window"@,
            WindowCommand::Minimize => "minimize_window"@,
        }
    }

    /// Returns the name under which the front end invokes the command.
    pub fn name(self) -> (name: &'static str)
        ensures
            name@ == self.name_spec(),
    {
        match self {
            WindowCommand::Close => "close_window",
            WindowCommand::Minimize => "minimize_window",
        }
    }

    /// Decides what the front end is told once the windowing system has said
    /// whether it carried the request out.
    ///
    /// `outcome` is what the windowing system answered: `Ok` when it took the
    /// request, `Err` with its reason when it did not. A request that went
    /// through yields no value. One that did not is reported as a failure of
    /// this command, with the reason unchanged. Every outcome has a reply: none
    /// makes this function panic.
    pub fn reply(self, outcome: Result<(), String>) -> (reply: Result<(), CommandFailure>)
        ensures
            outcome is Ok <==> reply is Ok,
            outcome matches Err(reason) ==> reply matches Err(failure) && failure@ == (FailureView {
                command: self,
                reason: reason@,
            }),
    {
        match outcome {
            Ok(()) => Ok(()),
            Err(reason) => Err(CommandFailure { command: self, reason }),
        }
    }
}

} // verus!
