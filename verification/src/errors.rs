//! The error vocabulary shared with the JavaScript side: stable codes, the
//! status each code maps to, and the messages the bridge builds itself.

use vstd::prelude::*;
use vstd::string::*;

verus! {

/// Stable error codes that callers can switch on.
#[derive(Debug, Clone, Copy, PartialEq, Eq, Structural)]
pub enum BridgeErrorCode {
    Internal,
    InvalidArgument,
    IoError,
    IndexAlreadyExists,
    IndexNotFound,
    DocumentNotFound,
    InvalidDatabaseState,
    SettingsUpdateInvalid,
    SearchError,
    TooManyDocuments,
    OutOfBound,
    Disposed,
    TaskNotFound,
}

/// The status class that a code is reported with to the JavaScript runtime.
#[derive(Debug, Clone, Copy, PartialEq, Eq, Structural)]
pub enum ErrorStatus {
    InvalidArg,
    GenericFailure,
}

/// The three top-level kinds of failure that the search engine reports.
#[derive(Debug, Clone, Copy, PartialEq, Eq, Structural)]
pub enum EngineErrorKind {
    Io,
    Internal,
    User,
}

impl BridgeErrorCode {
    /// The name of the code, as it appears in messages.
    pub open spec fn spec_name(self) -> Seq<char> {
        match self {
            BridgeErrorCode::Internal => "Internal"@,
            BridgeErrorCode::InvalidArgument => "InvalidArgument"@,
            BridgeErrorCode::IoError => "IoError"@,
            BridgeErrorCode::IndexAlreadyExists => "IndexAlreadyExists"@,
            BridgeErrorCode::IndexNotFound => "IndexNotFound"@,
            BridgeErrorCode::DocumentNotFound => "DocumentNotFound"@,
            BridgeErrorCode::InvalidDatabaseState => "InvalidDatabaseState"@,
            BridgeErrorCode::SettingsUpdateInvalid => "SettingsUpdateInvalid"@,
            BridgeErrorCode::SearchError => "SearchError"@,
            BridgeErrorCode::TooManyDocuments => "TooManyDocuments"@,
            BridgeErrorCode::OutOfBound => "OutOfBound"@,
            BridgeErrorCode::Disposed => "Disposed"@,
            BridgeErrorCode::TaskNotFound => "TaskNotFound"@,
        }
    }

    /// The name of the code, as it appears in messages.
    pub fn name(self) -> (s: String)
        ensures
            s@ == self.spec_name(),
    {
        match self {
            BridgeErrorCode::Internal => String::from_str("Internal"),
            BridgeErrorCode::InvalidArgument => String::from_str("InvalidArgument"),
            BridgeErrorCode::IoError => String::from_str("IoError"),
            BridgeErrorCode::IndexAlreadyExists => String::from_str("IndexAlreadyExists"),
            BridgeErrorCode::IndexNotFound => String::from_str("IndexNotFound"),
            BridgeErrorCode::DocumentNotFound => String::from_str("DocumentNotFound"),
            BridgeErrorCode::InvalidDatabaseState => String::from_str("InvalidDatabaseState"),
            BridgeErrorCode::SettingsUpdateInvalid => String::from_str("SettingsUpdateInvalid"),
            BridgeErrorCode::SearchError => String::from_str("SearchError"),
            BridgeErrorCode::TooManyDocuments => String::from_str("TooManyDocuments"),
            BridgeErrorCode::OutOfBound => String::from_str("OutOfBound"),
            BridgeErrorCode::Disposed => String::from_str("Disposed"),
            BridgeErrorCode::TaskNotFound => String::from_str("TaskNotFound"),
        }
    }

    /// The status class of the code: only `InvalidArgument` is an invalid
    /// argument, every other code is a generic failure.
    pub open spec fn spec_status(self) -> ErrorStatus {
        match self {
            BridgeErrorCode::InvalidArgument => ErrorStatus::InvalidArg,
            _ => ErrorStatus::GenericFailure,
        }
    }

    /// The status class that the code is reported with.
    pub fn status(self) -> (st: ErrorStatus)
        ensures
            st == self.spec_status(),
    {
        match self {
            BridgeErrorCode::InvalidArgument => ErrorStatus::InvalidArg,
            BridgeErrorCode::IndexAlreadyExists => ErrorStatus::GenericFailure,
            BridgeErrorCode::IndexNotFound => ErrorStatus::GenericFailure,
            BridgeErrorCode::DocumentNotFound => ErrorStatus::GenericFailure,
            BridgeErrorCode::InvalidDatabaseState => ErrorStatus::GenericFailure,
            BridgeErrorCode::SettingsUpdateInvalid => ErrorStatus::GenericFailure,
            BridgeErrorCode::SearchError => ErrorStatus::GenericFailure,
            BridgeErrorCode::TooManyDocuments => ErrorStatus::GenericFailure,
            BridgeErrorCode::OutOfBound => ErrorStatus::GenericFailure,
            BridgeErrorCode::Internal => ErrorStatus::GenericFailure,
            BridgeErrorCode::IoError => ErrorStatus::GenericFailure,
            BridgeErrorCode::Disposed => ErrorStatus::GenericFailure,
            BridgeErrorCode::TaskNotFound => ErrorStatus::GenericFailure,
        }
    }
}

/// An error with its code and a human-readable message.
#[derive(Debug, Clone)]
pub struct BridgeError {
    pub code: BridgeErrorCode,
    pub message: String,
}

/// Results of the bridge's operations.
pub type BridgeResult<T> = Result<T, BridgeError>;

/// The text an error is shown as: its code name, a colon, a space, its message.
pub open spec fn described(code: BridgeErrorCode, message: Seq<char>) -> Seq<char> {
    code.spec_name() + ": "@ + message
}

impl BridgeError {
    /// An error with the given code and message.
    pub fn new(code: BridgeErrorCode, message: String) -> (e: BridgeError)
        ensures
            e.code == code,
            e.message@ == message@,
    {
        BridgeError { code, message }
    }

    /// The text the error is shown as: `"<code>: <message>"`.
    pub fn describe(&self) -> (s: String)
        ensures
            s@ == described(self.code, self.message@),
    {
        let mut s = self.code.name();
        s.append(": ");
        s.append(self.message.as_str());
        s
    }

    /// The code that a failure of the search engine is classified under:
    /// I/O failures as `IoError`, internal ones as `Internal`, and failures
    /// caused by the user's input as `InvalidArgument`.
    pub open spec fn engine_code(kind: EngineErrorKind) -> BridgeErrorCode {
        match kind {
            EngineErrorKind::Io => BridgeErrorCode::IoError,
            EngineErrorKind::Internal => BridgeErrorCode::Internal,
            EngineErrorKind::User => BridgeErrorCode::InvalidArgument,
        }
    }

    /// Classifies a failure of the search engine, keeping its message.
    pub fn from_engine(kind: EngineErrorKind, message: String) -> (e: BridgeError)
        ensures
            e.code == Self::engine_code(kind),
            e.message@ == message@,
    {
        let code = match kind {
            EngineErrorKind::Io => BridgeErrorCode::IoError,
            EngineErrorKind::Internal => BridgeErrorCode::Internal,
            EngineErrorKind::User => BridgeErrorCode::InvalidArgument,
        };
        BridgeError { code, message }
    }

    /// An I/O failure, keeping its message.
    pub fn from_io(message: String) -> (e: BridgeError)
        ensures
            e.code == BridgeErrorCode::IoError,
            e.message@ == message@,
    {
        BridgeError { code: BridgeErrorCode::IoError, message }
    }
}

/// The message of the error that a disposed handle answers with.
pub open spec fn disposed_message() -> Seq<char> {
    "cannot use a disposed handle"@
}

/// Refuses further use of a handle once it has been disposed.
pub fn check_not_disposed(disposed: bool) -> (r: BridgeResult<()>)
    ensures
        r is Ok <==> !disposed,
        r matches Err(e) ==> e.code == BridgeErrorCode::Disposed && e.message@ == disposed_message(),
{
    if disposed {
        Err(BridgeError {
            code: BridgeErrorCode::Disposed,
            message: String::from_str("cannot use a disposed handle"),
        })
    } else {
        Ok(())
    }
}

/// The resource behind a handle, or `Disposed` once the handle has released it.
pub fn live_resource<T>(slot: Option<T>) -> (r: BridgeResult<T>)
    ensures
        r is Ok <==> slot is Some,
        r matches Ok(v) ==> slot == Some(v),
        r matches Err(e) ==> e.code == BridgeErrorCode::Disposed && e.message@ == disposed_message(),
{
    match slot {
        Some(v) => Ok(v),
        None => Err(BridgeError {
            code: BridgeErrorCode::Disposed,
            message: String::from_str("cannot use a disposed handle"),
        }),
    }
}

/// The error reported when a background job of `operation` panicked.
pub fn task_panicked(operation: &str, detail: &str) -> (e: BridgeError)
    ensures
        e.code == BridgeErrorCode::Internal,
        e.message@ == operation@ + " task panicked: "@ + detail@,
{
    let mut message = String::from_str(operation);
    message.append(" task panicked: ");
    message.append(detail);
    BridgeError { code: BridgeErrorCode::Internal, message }
}

} // verus!
