//! The failure that is reported when a window request did not go through.

use crate::command::WindowCommand;
use vstd::prelude::*;
use vstd::string::StringExecFns;

verus! {

/// A window request that the windowing system did not carry out.
#[derive(Debug, PartialEq, Eq)]
pub struct CommandFailure {
    /// The command that was invoked.
    pub command: WindowCommand,
    /// Why the windowing system did not carry it out, in its own words.
    pub reason: String,
}

/// What a [`CommandFailure`] holds, with the reason as a sequence of characters.
pub struct FailureView {
    /// The command that was invoked.
    pub command: WindowCommand,
    /// The characters of the reason.
    pub reason: Seq<char>,
}

impl View for CommandFailure {
    type V = FailureView;

    open spec fn view(&self) -> FailureView {
        FailureView { command: self.command, reason: self.reason@ }
    }
}

impl FailureView {
    /// The text that the front end is shown: the command's name, the words
    /// " failed: ", and the reason.
    pub open spec fn message(self) -> Seq<char> {
        self.command.name_spec() + " failed: "@ + self.reason
    }
}

impl Clone for CommandFailure {
    fn clone(&self) -> (copy: Self)
        ensures
            copy@ == self@,
    {
        CommandFailure { command: self.command, reason: self.reason.clone() }
    }
}

impl CommandFailure {
    /// Returns the text that the front end is shown.
    pub fn message(&self) -> (text: String)
        ensures
            text@ == self@.message(),
    {
        let mut text = String::from_str(self.command.name());
        text.append(" failed: ");
        text.append(self.reason.as_str());
        text
    }
}

/// The text of a failure tells which command failed and why: two failures with
/// the same text are the same failure.
pub proof fn message_determines_failure(a: FailureView, b: FailureView)
    requires
        a.message() == b.message(),
    ensures
        a == b,
{
    reveal_strlit("close_window");
    reveal_strlit("minimize_window");
    reveal_strlit(" failed: ");
    // The two names differ in their first character, which is the text's first.
    assert(a.message()[0] == a.command.name_spec()[0]);
    assert(b.message()[0] == b.command.name_spec()[0]);
    assert(a.command == b.command);
    // With the name and the words after it taken off, the reason is left.
    let head = a.command.name_spec().len() + " failed: "@.len();
    let end = a.message().len();
    assert(a.reason =~= a.message().subrange(head as int, end as int));
    assert(b.reason =~= b.message().subrange(head as int, end as int));
}

} // verus!
