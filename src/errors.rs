use vstd::prelude::*;
use vstd::string::*;

verus! {

/// Opaque handle on an I/O error raised by the terminal or the event channel.
#[verifier::external_type_specification]
#[verifier::external_body]
pub struct ExIoError(std::io::Error);

/// Every failure the application can report.
#[derive(Debug)]
pub enum ErrorKind {
    IOError(std::io::Error),
    NotFound,
    AlreadyRunning,
    NotRunning,
    NotSupported,
    FailedToReadMemory,
    FailedToWriteMemory,
    InvalidInput,
    NoGameFound,
    NoMenuInHistory,
    RecvError,
    Error(String),
}

/// The text shown to the user for an error.
pub open spec fn error_text(e: ErrorKind) -> Seq<char> {
    match e {
        ErrorKind::IOError(_) => "IO Error"@,
        ErrorKind::NotFound => "Not found"@,
        ErrorKind::AlreadyRunning => "Already running"@,
        ErrorKind::NotRunning => "Not running"@,
        ErrorKind::NotSupported => "Not supported"@,
        ErrorKind::FailedToReadMemory => "Failed to read memory"@,
        ErrorKind::FailedToWriteMemory => "Failed to write memory"@,
        ErrorKind::InvalidInput => "Invalid input"@,
        ErrorKind::NoGameFound => "No games are found! Please run the game first!"@,
        ErrorKind::NoMenuInHistory => "No menu in history"@,
        ErrorKind::RecvError => "Recv error"@,
        ErrorKind::Error(m) => m@,
    }
}

impl ErrorKind {
    /// The text shown to the user for this error.
    pub fn message(&self) -> (r: String)
        ensures
            r@ == error_text(*self),
    {
        match self {
            ErrorKind::IOError(_) => String::from_str("IO Error"),
            ErrorKind::NotFound => String::from_str("Not found"),
            ErrorKind::AlreadyRunning => String::from_str("Already running"),
            ErrorKind::NotRunning => String::from_str("Not running"),
            ErrorKind::NotSupported => String::from_str("Not supported"),
            ErrorKind::FailedToReadMemory => String::from_str("Failed to read memory"),
            ErrorKind::FailedToWriteMemory => String::from_str("Failed to write memory"),
            ErrorKind::InvalidInput => String::from_str("Invalid input"),
            ErrorKind::NoGameFound => String::from_str("No games are found! Please run the game first!"),
            ErrorKind::NoMenuInHistory => String::from_str("No menu in history"),
            ErrorKind::RecvError => String::from_str("Recv error"),
            ErrorKind::Error(m) => m.clone(),
        }
    }
}

} // verus!
