//! Safe-interop layer for the Libadalang analysis engine.
//!
//! The engine is reached through a C-style interface that this crate never
//! calls itself. Every value that crosses that boundary is represented here by
//! plain data (handles as addresses, text as character buffers with an
//! ownership flag, the last-error slot as an explicit value), and every
//! decision the layer makes around a foreign call is a verified function over
//! that data.
use vstd::prelude::*;

use crate::exception::Exception;

pub mod analysis;
pub mod c_string;
pub mod callback;
pub mod diagnostic;
pub mod event_handler;
pub mod exception;
pub mod file_reader;
pub mod gpr_project;
pub mod lifecycle;
pub mod text;

verus! {

/// What a fallible entry point of this layer fails with.
pub enum Error {
    /// The engine rejected the operation.
    Exception(Exception),
    /// This layer rejected the input before it reached the engine.
    Custom(String),
}

impl Error {
    /// A local error with the given message.
    pub fn custom(msg: &str) -> (err: Error)
        ensures
            err matches Error::Custom(m) && m@ == msg@,
    {
        Error::Custom(msg.to_owned())
    }
}

impl From<Exception> for Error {
    fn from(value: Exception) -> (err: Error) {
        Error::Exception(value)
    }
}

impl vstd::std_specs::convert::FromSpecImpl<Exception> for Error {
    open spec fn obeys_from_spec() -> bool {
        true
    }

    open spec fn from_spec(value: Exception) -> Error {
        Error::Exception(value)
    }
}

impl From<String> for Error {
    fn from(value: String) -> (err: Error) {
        Error::Custom(value)
    }
}

impl vstd::std_specs::convert::FromSpecImpl<String> for Error {
    open spec fn obeys_from_spec() -> bool {
        true
    }

    open spec fn from_spec(value: String) -> Error {
        Error::Custom(value)
    }
}

} // verus!
