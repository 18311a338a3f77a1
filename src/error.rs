//! The error kinds that the library reports.

use vstd::prelude::*;

verus! {

/// An error of the SDK, each kind with a human-readable message.
#[derive(Debug, Clone)]
pub enum UntraceError {
    /// Missing or invalid settings.
    Config { message: String },
    /// A failure reported by the remote API.
    Api { message: String },
    /// A rule violated by an already built object.
    Validation { message: String },
    /// A conflict while installing the process-wide instance.
    Initialization { message: String },
    /// A failure while exporting telemetry.
    Export { message: String },
    /// A provider-registry lookup on an unknown name.
    Instrumentation { message: String },
    /// Anything else.
    Unknown { message: String },
}

/// The result of a fallible SDK operation.
pub type UntraceResult<T> = Result<T, UntraceError>;

impl UntraceError {
    /// The message carried by the error.
    pub open spec fn spec_message(&self) -> Seq<char> {
        match self {
            UntraceError::Config { message } => message@,
            UntraceError::Api { message } => message@,
            UntraceError::Validation { message } => message@,
            UntraceError::Initialization { message } => message@,
            UntraceError::Export { message } => message@,
            UntraceError::Instrumentation { message } => message@,
            UntraceError::Unknown { message } => message@,
        }
    }

    /// The message carried by the error.
    pub fn message(&self) -> (r: &String)
        ensures
            r@ == self.spec_message(),
    {
        match self {
            UntraceError::Config { message } => message,
            UntraceError::Api { message } => message,
            UntraceError::Validation { message } => message,
            UntraceError::Initialization { message } => message,
            UntraceError::Export { message } => message,
            UntraceError::Instrumentation { message } => message,
            UntraceError::Unknown { message } => message,
        }
    }

    /// A configuration error.
    pub fn config(message: &str) -> (r: Self)
        ensures
            r is Config,
            r.spec_message() == message@,
    {
        UntraceError::Config { message: message.to_owned() }
    }

    /// An API error.
    pub fn api(message: &str) -> (r: Self)
        ensures
            r is Api,
            r.spec_message() == message@,
    {
        UntraceError::Api { message: message.to_owned() }
    }

    /// A validation error.
    pub fn validation(message: &str) -> (r: Self)
        ensures
            r is Validation,
            r.spec_message() == message@,
    {
        UntraceError::Validation { message: message.to_owned() }
    }

    /// An initialization error.
    pub fn initialization(message: &str) -> (r: Self)
        ensures
            r is Initialization,
            r.spec_message() == message@,
    {
        UntraceError::Initialization { message: message.to_owned() }
    }

    /// An export error.
    pub fn export(message: &str) -> (r: Self)
        ensures
            r is Export,
            r.spec_message() == message@,
    {
        UntraceError::Export { message: message.to_owned() }
    }

    /// An instrumentation error.
    pub fn instrumentation(message: &str) -> (r: Self)
        ensures
            r is Instrumentation,
            r.spec_message() == message@,
    {
        UntraceError::Instrumentation { message: message.to_owned() }
    }

    /// An error of no other kind.
    pub fn unknown(message: &str) -> (r: Self)
        ensures
            r is Unknown,
            r.spec_message() == message@,
    {
        UntraceError::Unknown { message: message.to_owned() }
    }
}

} // verus!
