//! What running an outside command gave, as plain values.

use vstd::prelude::*;

verus! {

/// The outcome of one run of an outside command.
#[derive(Clone, Debug, PartialEq, Eq)]
pub enum CommandResult {
    /// The command ran to its end.  `success` says whether it reported
    /// success; `stdout` and `stderr` hold what it wrote.
    Finished { success: bool, stdout: String, stderr: String },
    /// The command could not be started; `error` says why.
    Failed { error: String },
}

/// The outcome of a run with its texts as sequences of characters.
pub enum CommandResultView {
    Finished { success: bool, stdout: Seq<char>, stderr: Seq<char> },
    Failed { error: Seq<char> },
}

impl View for CommandResult {
    type V = CommandResultView;

    open spec fn view(&self) -> CommandResultView {
        match self {
            CommandResult::Finished { success, stdout, stderr } => CommandResultView::Finished {
                success: *success,
                stdout: stdout@,
                stderr: stderr@,
            },
            CommandResult::Failed { error } => CommandResultView::Failed { error: error@ },
        }
    }
}

impl CommandResultView {
    /// What the command wrote to its standard output, where it ran to its
    /// end and reported success.
    pub open spec fn output(self) -> Option<Seq<char>> {
        match self {
            CommandResultView::Finished { success, stdout, stderr } => if success {
                Some(stdout)
            } else {
                None
            },
            CommandResultView::Failed { error } => None,
        }
    }
}

} // verus!
