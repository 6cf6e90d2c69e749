//! Typed errors of the shell layer.
//!
//! Connection-time failures are fatal to startup and surface from
//! application construction; per-operation failures come back from the
//! operation concerned; everything else in the event loop's steady state
//! is absorbed, never propagated, so one bad event cannot stop the pump.

use vstd::prelude::*;

verus! {

/// An error carrying nothing but its own description.
#[derive(Debug, Clone)]
pub struct ErrorString {
    details: String,
}

impl ErrorString {
    pub closed spec fn spec_details(self) -> Seq<char> {
        self.details@
    }

    pub fn from(s: &str) -> (e: ErrorString)
        ensures
            e.spec_details() == s@,
    {
        ErrorString { details: s.to_owned() }
    }

    /// The description the error was built with.
    pub fn description(&self) -> (d: &str)
        ensures
            d@ == self.spec_details(),
    {
        self.details.as_str()
    }
}

/// Display-server platform errors.
#[derive(Debug, Clone)]
pub enum Error {
    /// Connecting to the display server failed; fatal to startup.
    Connect(ErrorString),
    /// A required display-server global is missing or too old.
    Global { name: String, version: u32, inner: ErrorString },
    /// A display-server global failed to bind.
    Bind { name: String, inner: ErrorString },
    /// An error this layer does not handle; the application should
    /// terminate.
    Fatal(ErrorString),
    /// An error described only by a message.
    String(ErrorString),
    /// A popup named a parent window that does not exist.
    InvalidParent(u32),
    /// A native object id was invalid.
    InvalidId,
    /// Some other wrapped error.
    Other(ErrorString),
}

impl Error {
    pub fn error(e: ErrorString) -> (r: Error)
        ensures
            r == Error::Other(e),
    {
        Error::Other(e)
    }

    pub fn fatal(e: ErrorString) -> (r: Error)
        ensures
            r == Error::Fatal(e),
    {
        Error::Fatal(e)
    }

    pub fn global(name: String, version: u32, inner: ErrorString) -> (r: Error)
        ensures
            r == (Error::Global { name, version, inner }),
    {
        Error::Global { name, version, inner }
    }

    pub fn bind(name: String, inner: ErrorString) -> (r: Error)
        ensures
            r == (Error::Bind { name, inner }),
    {
        Error::Bind { name, inner }
    }

    pub fn string(s: &str) -> (r: Error)
        ensures
            r matches Error::String(e) && e.spec_details() == s@,
    {
        Error::String(ErrorString::from(s))
    }

    /// A fixed description of the error's kind, for logs and messages.
    pub fn kind_description(&self) -> (d: &str)
        ensures
            self is Connect ==> d@ == "could not connect to the display server"@,
            self matches Error::Global { .. } ==> d@ == "a required display global was unavailable"@,
            self matches Error::Bind { .. } ==> d@ == "a display global failed to bind"@,
            self is Fatal ==> d@ == "an unhandled error occurred"@,
            self matches Error::String(e) ==> d@ == e.spec_details(),
            self is InvalidParent ==> d@ == "invalid parent window for popup"@,
            self is InvalidId ==> d@ == "invalid object id"@,
            self is Other ==> d@ == "an unhandled error occurred"@,
    {
        match self {
            Error::Connect(_) => "could not connect to the display server",
            Error::Global { .. } => "a required display global was unavailable",
            Error::Bind { .. } => "a display global failed to bind",
            Error::Fatal(_) => "an unhandled error occurred",
            Error::String(e) => e.description(),
            Error::InvalidParent(_) => "invalid parent window for popup",
            Error::InvalidId => "invalid object id",
            Error::Other(_) => "an unhandled error occurred",
        }
    }
}

} // verus!
