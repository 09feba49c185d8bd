//! Why the daemon stops.

use vstd::prelude::*;
use crate::runtime_connection;

verus! {

/// Why the daemon stops, or a loop of it.
#[derive(Clone, Debug, PartialEq, Eq)]
pub enum Error {
    /// The gamepad backend failed, with its message.
    SdlStringError(String),
    /// The gamepad backend refused a value, with its message.
    SdlError(String),
    /// No runtime could be bound.
    RuntimeConnection(runtime_connection::Error),
    /// The handler for the interrupt signal could not be set, with the
    /// reason.
    CtrlC(String),
    /// The interrupt signal came.
    KilledByCtrlC,
    /// The timer's ticks have ended.
    RecvError,
    /// The operating system failed, with its message.
    IOError(String),
    /// The daemon lacks a capability that it cannot work without.
    MissingPrerequisites,
    /// The capabilities of the daemon could not be read, with the reason.
    CapsError(String),
}

impl Error {
    /// Whether this is the daemon being shut down rather than failing: the
    /// interrupt signal, or the end of the timer's ticks.
    pub open spec fn is_shutdown(self) -> bool {
        self is KilledByCtrlC || self is RecvError
    }

    /// The exit code of a daemon that stops for this reason: 0 for a
    /// shutdown, 1 for a failure.
    pub fn exit_code(&self) -> (code: i32)
        ensures
            code == if self.is_shutdown() {
                0i32
            } else {
                1i32
            },
    {
        match self {
            Error::KilledByCtrlC | Error::RecvError => 0,
            _ => 1,
        }
    }
}

impl From<runtime_connection::Error> for Error {
    fn from(error: runtime_connection::Error) -> (wrapped: Self) {
        Error::RuntimeConnection(error)
    }
}

impl vstd::std_specs::convert::FromSpecImpl<runtime_connection::Error> for Error {
    open spec fn obeys_from_spec() -> bool {
        true
    }

    open spec fn from_spec(error: runtime_connection::Error) -> Error {
        Error::RuntimeConnection(error)
    }
}

} // verus!
