use vstd::prelude::*;

verus! {

/// Errors returned by the engine. Each has a small negative code that fits
/// in one signed byte: library errors lie in [-50, -10], errors from the
/// operating system in [-127, -51], and `Unknown` is -1.
#[derive(Clone, Copy, Debug, PartialEq, Eq, Structural)]
pub enum Error {
    /// Unknown error.
    Unknown,
    /// The address text is not valid UTF-8.
    InvalidString,
    /// The address text is not an IP literal.
    InvalidIpAddr,
    /// All 128 rule identifiers are in use.
    TooManyRules,
    /// No running rule has this identifier.
    InvalidRuleId,
    /// The local port start would make the last local port exceed 65535.
    InvalidLocalPortStart,
    /// The remote port end lies before the remote port start.
    InvalidRemotePortEnd,
    /// An error handler has already been registered.
    HandlerAlreadyRegistered,
    /// Permission denied.
    PermissionDenied,
    /// Address already in use.
    AddrInUse,
    /// Address already exists.
    AlreadyExists,
    /// Not enough memory to complete an operation.
    OutOfMemory,
    /// Too many open files.
    TooManyOpenFiles,
}

/// The kinds of operating-system failure that the engine tells apart.
#[derive(Clone, Copy, Debug, PartialEq, Eq, Structural)]
pub enum OsErrorKind {
    PermissionDenied,
    AddrInUse,
    AlreadyExists,
    OutOfMemory,
    Other,
}

/// The operating system's error number for "too many open files".
pub const EMFILE: i32 = 24;

impl Error {
    /// The numeric code of each error.
    pub open spec fn spec_code(self) -> int {
        match self {
            Error::Unknown => -1,
            Error::InvalidString => -10,
            Error::InvalidIpAddr => -11,
            Error::TooManyRules => -12,
            Error::InvalidRuleId => -13,
            Error::InvalidLocalPortStart => -14,
            Error::InvalidRemotePortEnd => -15,
            Error::HandlerAlreadyRegistered => -16,
            Error::PermissionDenied => -51,
            Error::AddrInUse => -52,
            Error::AlreadyExists => -53,
            Error::OutOfMemory => -54,
            Error::TooManyOpenFiles => -55,
        }
    }

    /// Whether the error comes from the operating system.
    pub open spec fn is_os_error(self) -> bool {
        match self {
            Error::PermissionDenied | Error::AddrInUse | Error::AlreadyExists
            | Error::OutOfMemory | Error::TooManyOpenFiles => true,
            _ => false,
        }
    }

    /// The numeric code of this error, as handed across the call boundary.
    pub fn code(&self) -> (r: i8)
        ensures
            r as int == self.spec_code(),
            r < 0,
            self.is_os_error() ==> -127 <= r <= -51,
            !self.is_os_error() && *self != Error::Unknown ==> -50 <= r <= -10,
    {
        match self {
            Error::Unknown => -1,
            Error::InvalidString => -10,
            Error::InvalidIpAddr => -11,
            Error::TooManyRules => -12,
            Error::InvalidRuleId => -13,
            Error::InvalidLocalPortStart => -14,
            Error::InvalidRemotePortEnd => -15,
            Error::HandlerAlreadyRegistered => -16,
            Error::PermissionDenied => -51,
            Error::AddrInUse => -52,
            Error::AlreadyExists => -53,
            Error::OutOfMemory => -54,
            Error::TooManyOpenFiles => -55,
        }
    }

    /// How an operating-system failure is classified.
    pub open spec fn spec_from_os_error(kind: OsErrorKind, raw_os_error: Option<i32>) -> Error {
        match kind {
            OsErrorKind::PermissionDenied => Error::PermissionDenied,
            OsErrorKind::AddrInUse => Error::AddrInUse,
            OsErrorKind::AlreadyExists => Error::AlreadyExists,
            OsErrorKind::OutOfMemory => Error::OutOfMemory,
            OsErrorKind::Other => if raw_os_error == Some(EMFILE) {
                Error::TooManyOpenFiles
            } else {
                Error::Unknown
            },
        }
    }

    /// Classifies an operating-system failure by its kind and, where the kind
    /// says nothing more specific, by its raw error number.
    pub fn from_os_error(kind: OsErrorKind, raw_os_error: Option<i32>) -> (r: Error)
        ensures
            r == Error::spec_from_os_error(kind, raw_os_error),
            r.is_os_error() || r == Error::Unknown,
    {
        match kind {
            OsErrorKind::PermissionDenied => Error::PermissionDenied,
            OsErrorKind::AddrInUse => Error::AddrInUse,
            OsErrorKind::AlreadyExists => Error::AlreadyExists,
            OsErrorKind::OutOfMemory => Error::OutOfMemory,
            OsErrorKind::Other => match raw_os_error {
                Some(n) if n == EMFILE => Error::TooManyOpenFiles,
                _ => Error::Unknown,
            },
        }
    }
}

} // verus!
