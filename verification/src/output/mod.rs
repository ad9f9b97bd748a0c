//! Output commands issued by the user interface to the output manager.

use vstd::prelude::*;

verus! {

/// Commands from the control window to the video outputs.
#[derive(Debug, Clone, Copy, PartialEq, Eq, Structural)]
pub enum OutputCommand {
    /// Nothing to do
    NoCommand,
    /// Start publishing the mixer output as a Syphon server (macOS)
    StartSyphon,
    /// Stop the Syphon server (macOS)
    StopSyphon,
    /// Start sending the mixer output over NDI
    StartNdi,
    /// Stop the NDI sender
    StopNdi,
    /// The output window changed size
    ResizeOutput,
}

impl Default for OutputCommand {
    fn default() -> (c: Self)
        ensures
            c == OutputCommand::NoCommand,
    {
        OutputCommand::NoCommand
    }
}

} // verus!
