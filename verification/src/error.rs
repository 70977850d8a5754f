//! The failure kinds reported by the event pipeline and the display backend.

use vstd::prelude::*;

verus! {

/// Why a resize of the terminal was refused, with the offending dimension
/// where one applies.
#[derive(Clone, Copy, Debug, PartialEq, Eq, Structural)]
pub enum SizingFailure {
    /// The requested width was zero.
    WidthTooSmall,
    /// The requested height was zero.
    HeightTooSmall,
    /// The window origin sits too close to the coordinate limit for the
    /// requested width.
    WidthRangeExceeded,
    /// The window origin sits too close to the coordinate limit for the
    /// requested height.
    HeightRangeExceeded,
    /// The screen buffer could not be shrunk back to its original size after
    /// it had been grown; the window is already resized at this point.
    BufferRestoreFailed,
    /// The requested width exceeds the platform's largest supported window.
    WidthLargerThanMax(u16),
    /// The requested height exceeds the platform's largest supported window.
    HeightLargerThanMax(u16),
}

impl SizingFailure {
    /// The message `description` returns for each failure.
    pub open spec fn description_spec(&self) -> Seq<char> {
        match self {
            SizingFailure::WidthTooSmall => "Cannot set the terminal width lower than 1."@,
            SizingFailure::HeightTooSmall => "Cannot set the terminal height lower than 1."@,
            SizingFailure::WidthRangeExceeded => {
                "Argument out of range when setting terminal width."@
            },
            SizingFailure::HeightRangeExceeded => {
                "Argument out of range when setting terminal height."@
            },
            SizingFailure::BufferRestoreFailed => {
                "Something went wrong when setting screen buffer size."@
            },
            SizingFailure::WidthLargerThanMax(_) => {
                "Argument width out of range when setting terminal width."@
            },
            SizingFailure::HeightLargerThanMax(_) => {
                "Argument height out of range when setting terminal height."@
            },
        }
    }

    /// A descriptive message for this failure.
    pub fn description(&self) -> (r: &'static str)
        ensures
            r@ == self.description_spec(),
    {
        match self {
            SizingFailure::WidthTooSmall => "Cannot set the terminal width lower than 1.",
            SizingFailure::HeightTooSmall => "Cannot set the terminal height lower than 1.",
            SizingFailure::WidthRangeExceeded => {
                "Argument out of range when setting terminal width."
            },
            SizingFailure::HeightRangeExceeded => {
                "Argument out of range when setting terminal height."
            },
            SizingFailure::BufferRestoreFailed => {
                "Something went wrong when setting screen buffer size."
            },
            SizingFailure::WidthLargerThanMax(_) => {
                "Argument width out of range when setting terminal width."
            },
            SizingFailure::HeightLargerThanMax(_) => {
                "Argument height out of range when setting terminal height."
            },
        }
    }
}

/// The failure kinds of this library.
#[derive(Clone, Copy, Debug)]
pub enum ErrorKind {
    /// No event source could be set up when the reader was created; reported
    /// on every subsequent poll or read, never retried.
    InitializationFailed,
    /// A blocking wait was cancelled from another thread via `wake`.
    Interrupted,
    /// The underlying read call itself failed (distinct from "no event yet").
    IoFailed,
    /// A resize was refused or failed partway.
    ResizingTerminalFailure(SizingFailure),
}

impl ErrorKind {
    /// The message `description` returns for each failure kind.
    pub open spec fn description_spec(&self) -> Seq<char> {
        match self {
            ErrorKind::InitializationFailed => "Failed to initialize input reader"@,
            ErrorKind::Interrupted => "Blocking wait was interrupted"@,
            ErrorKind::IoFailed => "The underlying read call failed"@,
            ErrorKind::ResizingTerminalFailure(failure) => failure.description_spec(),
        }
    }

    /// A descriptive message for this failure.
    pub fn description(&self) -> (r: &'static str)
        ensures
            r@ == self.description_spec(),
    {
        match self {
            ErrorKind::InitializationFailed => "Failed to initialize input reader",
            ErrorKind::Interrupted => "Blocking wait was interrupted",
            ErrorKind::IoFailed => "The underlying read call failed",
            ErrorKind::ResizingTerminalFailure(failure) => failure.description(),
        }
    }
}

} // verus!
