//! The error surface: an error kind enumeration with stable wire codes and
//! an error value carrying an optional message.

use vstd::prelude::*;

verus! {

pub const ERR_CODE_NOT_FOUND: i16 = -32001;
pub const ERR_CODE_ACCESS_DENIED: i16 = -32002;
pub const ERR_CODE_SYSTEM_ERROR: i16 = -32003;
pub const ERR_CODE_OTHER: i16 = -32004;
pub const ERR_CODE_NOT_READY: i16 = -32005;
pub const ERR_CODE_UNSUPPORTED: i16 = -32006;
pub const ERR_CODE_CORE_ERROR: i16 = -32007;
pub const ERR_CODE_TIMEOUT: i16 = -32008;
pub const ERR_CODE_INVALID_DATA: i16 = -32009;
pub const ERR_CODE_FUNC_FAILED: i16 = -32010;
pub const ERR_CODE_ABORTED: i16 = -32011;
pub const ERR_CODE_ALREADY_EXISTS: i16 = -32012;
pub const ERR_CODE_BUSY: i16 = -32013;
pub const ERR_CODE_METHOD_NOT_IMPLEMENTED: i16 = -32014;
pub const ERR_CODE_TOKEN_RESTRICTED: i16 = -32015;
pub const ERR_CODE_IO: i16 = -32016;
pub const ERR_CODE_REGISTRY: i16 = -32017;
pub const ERR_CODE_EVAHI_AUTH_REQUIRED: i16 = -32018;
pub const ERR_CODE_ACCESS_DENIED_MORE_DATA_REQUIRED: i16 = -32022;
pub const ERR_CODE_PARSE: i16 = -32700;
pub const ERR_CODE_INVALID_REQUEST: i16 = -32600;
pub const ERR_CODE_METHOD_NOT_FOUND: i16 = -32601;
pub const ERR_CODE_INVALID_PARAMS: i16 = -32602;
pub const ERR_CODE_INTERNAL_RPC: i16 = -32603;
pub const ERR_CODE_BUS_CLIENT_NOT_REGISTERED: i16 = -32113;
pub const ERR_CODE_BUS_DATA: i16 = -32114;
pub const ERR_CODE_BUS_IO: i16 = -32115;
pub const ERR_CODE_BUS_OTHER: i16 = -32116;
pub const ERR_CODE_BUS_NOT_SUPPORTED: i16 = -32117;
pub const ERR_CODE_BUS_BUSY: i16 = -32118;
pub const ERR_CODE_BUS_NOT_DELIVERED: i16 = -32119;
pub const ERR_CODE_BUS_TIMEOUT: i16 = -32120;
pub const ERR_CODE_BUS_ACCESS: i16 = -32121;

/// Every kind of error the platform reports, one variant per wire code.
#[derive(Debug, Clone, Copy, PartialEq, Eq, Hash, Structural)]
pub enum ErrorKind {
    CoreError,
    Unsupported,
    NotReady,
    IOError,
    RegistryError,
    InvalidData,
    FunctionFailed,
    ResourceNotFound,
    ResourceBusy,
    ResourceAlreadyExists,
    AccessDenied,
    AccessDeniedMoreDataRequired,
    MethodNotImplemented,
    MethodNotFound,
    InvalidParameter,
    Timeout,
    Aborted,
    EvaHIAuthenticationRequired,
    TokenRestricted,
    BusClientNotRegistered,
    BusData,
    BusIo,
    BusOther,
    BusNotSupported,
    BusBusy,
    BusNotDelivered,
    BusTimeout,
    BusAccess,
    Other,
}

impl ErrorKind {
    /// The wire code of this kind.
    pub open spec fn spec_code(self) -> i16 {
        match self {
            ErrorKind::CoreError => ERR_CODE_CORE_ERROR,
            ErrorKind::Unsupported => ERR_CODE_UNSUPPORTED,
            ErrorKind::NotReady => ERR_CODE_NOT_READY,
            ErrorKind::IOError => ERR_CODE_IO,
            ErrorKind::RegistryError => ERR_CODE_REGISTRY,
            ErrorKind::InvalidData => ERR_CODE_INVALID_DATA,
            ErrorKind::FunctionFailed => ERR_CODE_FUNC_FAILED,
            ErrorKind::ResourceNotFound => ERR_CODE_NOT_FOUND,
            ErrorKind::ResourceBusy => ERR_CODE_BUSY,
            ErrorKind::ResourceAlreadyExists => ERR_CODE_ALREADY_EXISTS,
            ErrorKind::AccessDenied => ERR_CODE_ACCESS_DENIED,
            ErrorKind::AccessDeniedMoreDataRequired => ERR_CODE_ACCESS_DENIED_MORE_DATA_REQUIRED,
            ErrorKind::MethodNotImplemented => ERR_CODE_METHOD_NOT_IMPLEMENTED,
            ErrorKind::MethodNotFound => ERR_CODE_METHOD_NOT_FOUND,
            ErrorKind::InvalidParameter => ERR_CODE_INVALID_PARAMS,
            ErrorKind::Timeout => ERR_CODE_TIMEOUT,
            ErrorKind::Aborted => ERR_CODE_ABORTED,
            ErrorKind::EvaHIAuthenticationRequired => ERR_CODE_EVAHI_AUTH_REQUIRED,
            ErrorKind::TokenRestricted => ERR_CODE_TOKEN_RESTRICTED,
            ErrorKind::BusClientNotRegistered => ERR_CODE_BUS_CLIENT_NOT_REGISTERED,
            ErrorKind::BusData => ERR_CODE_BUS_DATA,
            ErrorKind::BusIo => ERR_CODE_BUS_IO,
            ErrorKind::BusOther => ERR_CODE_BUS_OTHER,
            ErrorKind::BusNotSupported => ERR_CODE_BUS_NOT_SUPPORTED,
            ErrorKind::BusBusy => ERR_CODE_BUS_BUSY,
            ErrorKind::BusNotDelivered => ERR_CODE_BUS_NOT_DELIVERED,
            ErrorKind::BusTimeout => ERR_CODE_BUS_TIMEOUT,
            ErrorKind::BusAccess => ERR_CODE_BUS_ACCESS,
            ErrorKind::Other => ERR_CODE_OTHER,
        }
    }

    /// The diagnostic text of this kind.
    pub open spec fn spec_text(self) -> Seq<char> {
        match self {
            ErrorKind::CoreError => "Core error"@,
            ErrorKind::Unsupported => "Unsupported"@,
            ErrorKind::NotReady => "Not ready"@,
            ErrorKind::IOError => "IO error"@,
            ErrorKind::RegistryError => "Registry error"@,
            ErrorKind::InvalidData => "Invalid data"@,
            ErrorKind::FunctionFailed => "Function failed"@,
            ErrorKind::ResourceNotFound => "Resource not found"@,
            ErrorKind::ResourceBusy => "Resource busy"@,
            ErrorKind::ResourceAlreadyExists => "Resource already exists"@,
            ErrorKind::AccessDenied => "Access denied"@,
            ErrorKind::AccessDeniedMoreDataRequired => "Access denied, more data required"@,
            ErrorKind::MethodNotImplemented => "Method not implemented"@,
            ErrorKind::MethodNotFound => "Method not found"@,
            ErrorKind::InvalidParameter => "Invalid parameter"@,
            ErrorKind::Timeout => "Timed out"@,
            ErrorKind::Aborted => "Aborted"@,
            ErrorKind::EvaHIAuthenticationRequired => "EvaHI authentication required"@,
            ErrorKind::TokenRestricted => "Token restricted"@,
            ErrorKind::BusClientNotRegistered => "Bus client not registered"@,
            ErrorKind::BusData => "Bus data error"@,
            ErrorKind::BusIo => "Bus IO error"@,
            ErrorKind::BusOther => "Bus error"@,
            ErrorKind::BusNotSupported => "Bus feature not supported"@,
            ErrorKind::BusBusy => "Bus busy"@,
            ErrorKind::BusNotDelivered => "Bus not delivered"@,
            ErrorKind::BusTimeout => "Bus timed out"@,
            ErrorKind::BusAccess => "Bus op access denied"@,
            ErrorKind::Other => "Other"@,
        }
    }

    /// The diagnostic text, as shown to users.
    pub fn as_str(&self) -> (r: &'static str)
        ensures
            r@ == self.spec_text(),
    {
        match self {
            ErrorKind::CoreError => "Core error",
            ErrorKind::Unsupported => "Unsupported",
            ErrorKind::NotReady => "Not ready",
            ErrorKind::IOError => "IO error",
            ErrorKind::RegistryError => "Registry error",
            ErrorKind::InvalidData => "Invalid data",
            ErrorKind::FunctionFailed => "Function failed",
            ErrorKind::ResourceNotFound => "Resource not found",
            ErrorKind::ResourceBusy => "Resource busy",
            ErrorKind::ResourceAlreadyExists => "Resource already exists",
            ErrorKind::AccessDenied => "Access denied",
            ErrorKind::AccessDeniedMoreDataRequired => "Access denied, more data required",
            ErrorKind::MethodNotImplemented => "Method not implemented",
            ErrorKind::MethodNotFound => "Method not found",
            ErrorKind::InvalidParameter => "Invalid parameter",
            ErrorKind::Timeout => "Timed out",
            ErrorKind::Aborted => "Aborted",
            ErrorKind::EvaHIAuthenticationRequired => "EvaHI authentication required",
            ErrorKind::TokenRestricted => "Token restricted",
            ErrorKind::BusClientNotRegistered => "Bus client not registered",
            ErrorKind::BusData => "Bus data error",
            ErrorKind::BusIo => "Bus IO error",
            ErrorKind::BusOther => "Bus error",
            ErrorKind::BusNotSupported => "Bus feature not supported",
            ErrorKind::BusBusy => "Bus busy",
            ErrorKind::BusNotDelivered => "Bus not delivered",
            ErrorKind::BusTimeout => "Bus timed out",
            ErrorKind::BusAccess => "Bus op access denied",
            ErrorKind::Other => "Other",
        }
    }
}

impl From<i16> for ErrorKind {
    /// Decodes a wire code; unknown codes fall back to `Other`.
    fn from(code: i16) -> (r: ErrorKind) {
        if code == ERR_CODE_CORE_ERROR {
            ErrorKind::CoreError
        } else if code == ERR_CODE_UNSUPPORTED {
            ErrorKind::Unsupported
        } else if code == ERR_CODE_NOT_READY {
            ErrorKind::NotReady
        } else if code == ERR_CODE_IO {
            ErrorKind::IOError
        } else if code == ERR_CODE_REGISTRY {
            ErrorKind::RegistryError
        } else if code == ERR_CODE_INVALID_DATA {
            ErrorKind::InvalidData
        } else if code == ERR_CODE_FUNC_FAILED {
            ErrorKind::FunctionFailed
        } else if code == ERR_CODE_NOT_FOUND {
            ErrorKind::ResourceNotFound
        } else if code == ERR_CODE_BUSY {
            ErrorKind::ResourceBusy
        } else if code == ERR_CODE_ALREADY_EXISTS {
            ErrorKind::ResourceAlreadyExists
        } else if code == ERR_CODE_ACCESS_DENIED {
            ErrorKind::AccessDenied
        } else if code == ERR_CODE_ACCESS_DENIED_MORE_DATA_REQUIRED {
            ErrorKind::AccessDeniedMoreDataRequired
        } else if code == ERR_CODE_METHOD_NOT_IMPLEMENTED {
            ErrorKind::MethodNotImplemented
        } else if code == ERR_CODE_METHOD_NOT_FOUND {
            ErrorKind::MethodNotFound
        } else if code == ERR_CODE_INVALID_PARAMS {
            ErrorKind::InvalidParameter
        } else if code == ERR_CODE_TIMEOUT {
            ErrorKind::Timeout
        } else if code == ERR_CODE_ABORTED {
            ErrorKind::Aborted
        } else if code == ERR_CODE_EVAHI_AUTH_REQUIRED {
            ErrorKind::EvaHIAuthenticationRequired
        } else if code == ERR_CODE_TOKEN_RESTRICTED {
            ErrorKind::TokenRestricted
        } else if code == ERR_CODE_BUS_CLIENT_NOT_REGISTERED {
            ErrorKind::BusClientNotRegistered
        } else if code == ERR_CODE_BUS_DATA {
            ErrorKind::BusData
        } else if code == ERR_CODE_BUS_IO {
            ErrorKind::BusIo
        } else if code == ERR_CODE_BUS_OTHER {
            ErrorKind::BusOther
        } else if code == ERR_CODE_BUS_NOT_SUPPORTED {
            ErrorKind::BusNotSupported
        } else if code == ERR_CODE_BUS_BUSY {
            ErrorKind::BusBusy
        } else if code == ERR_CODE_BUS_NOT_DELIVERED {
            ErrorKind::BusNotDelivered
        } else if code == ERR_CODE_BUS_TIMEOUT {
            ErrorKind::BusTimeout
        } else if code == ERR_CODE_BUS_ACCESS {
            ErrorKind::BusAccess
        } else {
            ErrorKind::Other
        }
    }
}

impl vstd::std_specs::convert::FromSpecImpl<i16> for ErrorKind {
    open spec fn obeys_from_spec() -> bool {
        true
    }

    open spec fn from_spec(code: i16) -> ErrorKind {
        spec_kind_of_code(code)
    }
}

/// The kind a wire code decodes to; unknown codes decode to `Other`.
pub open spec fn spec_kind_of_code(code: i16) -> ErrorKind {
    if code == ERR_CODE_CORE_ERROR {
        ErrorKind::CoreError
    } else if code == ERR_CODE_UNSUPPORTED {
        ErrorKind::Unsupported
    } else if code == ERR_CODE_NOT_READY {
        ErrorKind::NotReady
    } else if code == ERR_CODE_IO {
        ErrorKind::IOError
    } else if code == ERR_CODE_REGISTRY {
        ErrorKind::RegistryError
    } else if code == ERR_CODE_INVALID_DATA {
        ErrorKind::InvalidData
    } else if code == ERR_CODE_FUNC_FAILED {
        ErrorKind::FunctionFailed
    } else if code == ERR_CODE_NOT_FOUND {
        ErrorKind::ResourceNotFound
    } else if code == ERR_CODE_BUSY {
        ErrorKind::ResourceBusy
    } else if code == ERR_CODE_ALREADY_EXISTS {
        ErrorKind::ResourceAlreadyExists
    } else if code == ERR_CODE_ACCESS_DENIED {
        ErrorKind::AccessDenied
    } else if code == ERR_CODE_ACCESS_DENIED_MORE_DATA_REQUIRED {
        ErrorKind::AccessDeniedMoreDataRequired
    } else if code == ERR_CODE_METHOD_NOT_IMPLEMENTED {
        ErrorKind::MethodNotImplemented
    } else if code == ERR_CODE_METHOD_NOT_FOUND {
        ErrorKind::MethodNotFound
    } else if code == ERR_CODE_INVALID_PARAMS {
        ErrorKind::InvalidParameter
    } else if code == ERR_CODE_TIMEOUT {
        ErrorKind::Timeout
    } else if code == ERR_CODE_ABORTED {
        ErrorKind::Aborted
    } else if code == ERR_CODE_EVAHI_AUTH_REQUIRED {
        ErrorKind::EvaHIAuthenticationRequired
    } else if code == ERR_CODE_TOKEN_RESTRICTED {
        ErrorKind::TokenRestricted
    } else if code == ERR_CODE_BUS_CLIENT_NOT_REGISTERED {
        ErrorKind::BusClientNotRegistered
    } else if code == ERR_CODE_BUS_DATA {
        ErrorKind::BusData
    } else if code == ERR_CODE_BUS_IO {
        ErrorKind::BusIo
    } else if code == ERR_CODE_BUS_OTHER {
        ErrorKind::BusOther
    } else if code == ERR_CODE_BUS_NOT_SUPPORTED {
        ErrorKind::BusNotSupported
    } else if code == ERR_CODE_BUS_BUSY {
        ErrorKind::BusBusy
    } else if code == ERR_CODE_BUS_NOT_DELIVERED {
        ErrorKind::BusNotDelivered
    } else if code == ERR_CODE_BUS_TIMEOUT {
        ErrorKind::BusTimeout
    } else if code == ERR_CODE_BUS_ACCESS {
        ErrorKind::BusAccess
    } else {
        ErrorKind::Other
    }
}

/// An error: a kind plus an optional human-readable message.
#[derive(Debug, Clone)]
pub struct Error {
    kind: ErrorKind,
    message: Option<String>,
}

/// Result alias used throughout the crate.
pub type EResult<T> = Result<T, Error>;

impl Error {
    /// The kind, as contracts see it.
    pub closed spec fn spec_kind(&self) -> ErrorKind {
        self.kind
    }

    /// The message, as contracts see it.
    pub closed spec fn spec_message(&self) -> Option<Seq<char>> {
        match self.message {
            Some(m) => Some(m@),
            None => None,
        }
    }

    pub fn new(kind: ErrorKind, message: &str) -> (r: Self)
        ensures
            r.spec_kind() == kind,
            r.spec_message() == Some(message@),
    {
        Self { kind, message: Some(message.to_owned()) }
    }

    pub fn new0(kind: ErrorKind) -> (r: Self)
        ensures
            r.spec_kind() == kind,
            r.spec_message() is None,
    {
        Self { kind, message: None }
    }

    pub fn newc(kind: ErrorKind, message: Option<String>) -> (r: Self)
        ensures
            r.spec_kind() == kind,
            match message {
                Some(m) => r.spec_message() == Some(m@),
                None => r.spec_message() is None,
            },
    {
        Self { kind, message }
    }

    pub fn code(&self) -> (r: i16)
        ensures
            r == self.spec_kind().spec_code(),
    {
        match self.kind {
            ErrorKind::CoreError => ERR_CODE_CORE_ERROR,
            ErrorKind::Unsupported => ERR_CODE_UNSUPPORTED,
            ErrorKind::NotReady => ERR_CODE_NOT_READY,
            ErrorKind::IOError => ERR_CODE_IO,
            ErrorKind::RegistryError => ERR_CODE_REGISTRY,
            ErrorKind::InvalidData => ERR_CODE_INVALID_DATA,
            ErrorKind::FunctionFailed => ERR_CODE_FUNC_FAILED,
            ErrorKind::ResourceNotFound => ERR_CODE_NOT_FOUND,
            ErrorKind::ResourceBusy => ERR_CODE_BUSY,
            ErrorKind::ResourceAlreadyExists => ERR_CODE_ALREADY_EXISTS,
            ErrorKind::AccessDenied => ERR_CODE_ACCESS_DENIED,
            ErrorKind::AccessDeniedMoreDataRequired => ERR_CODE_ACCESS_DENIED_MORE_DATA_REQUIRED,
            ErrorKind::MethodNotImplemented => ERR_CODE_METHOD_NOT_IMPLEMENTED,
            ErrorKind::MethodNotFound => ERR_CODE_METHOD_NOT_FOUND,
            ErrorKind::InvalidParameter => ERR_CODE_INVALID_PARAMS,
            ErrorKind::Timeout => ERR_CODE_TIMEOUT,
            ErrorKind::Aborted => ERR_CODE_ABORTED,
            ErrorKind::EvaHIAuthenticationRequired => ERR_CODE_EVAHI_AUTH_REQUIRED,
            ErrorKind::TokenRestricted => ERR_CODE_TOKEN_RESTRICTED,
            ErrorKind::BusClientNotRegistered => ERR_CODE_BUS_CLIENT_NOT_REGISTERED,
            ErrorKind::BusData => ERR_CODE_BUS_DATA,
            ErrorKind::BusIo => ERR_CODE_BUS_IO,
            ErrorKind::BusOther => ERR_CODE_BUS_OTHER,
            ErrorKind::BusNotSupported => ERR_CODE_BUS_NOT_SUPPORTED,
            ErrorKind::BusBusy => ERR_CODE_BUS_BUSY,
            ErrorKind::BusNotDelivered => ERR_CODE_BUS_NOT_DELIVERED,
            ErrorKind::BusTimeout => ERR_CODE_BUS_TIMEOUT,
            ErrorKind::BusAccess => ERR_CODE_BUS_ACCESS,
            ErrorKind::Other => ERR_CODE_OTHER,
        }
    }

    pub fn e(kind: ErrorKind, message: &str) -> (r: Self)
        ensures
            r.spec_kind() == kind,
            r.spec_message() == Some(message@),
    {
        Self::new(kind, message)
    }

    pub fn not_found(message: &str) -> (r: Self)
        ensures
            r.spec_kind() == ErrorKind::ResourceNotFound,
            r.spec_message() == Some(message@),
    {
        Self::new(ErrorKind::ResourceNotFound, message)
    }

    pub fn not_ready(message: &str) -> (r: Self)
        ensures
            r.spec_kind() == ErrorKind::NotReady,
            r.spec_message() == Some(message@),
    {
        Self::new(ErrorKind::NotReady, message)
    }

    pub fn unsupported(message: &str) -> (r: Self)
        ensures
            r.spec_kind() == ErrorKind::Unsupported,
            r.spec_message() == Some(message@),
    {
        Self::new(ErrorKind::Unsupported, message)
    }

    pub fn registry(message: &str) -> (r: Self)
        ensures
            r.spec_kind() == ErrorKind::RegistryError,
            r.spec_message() == Some(message@),
    {
        Self::new(ErrorKind::RegistryError, message)
    }

    pub fn busy(message: &str) -> (r: Self)
        ensures
            r.spec_kind() == ErrorKind::ResourceBusy,
            r.spec_message() == Some(message@),
    {
        Self::new(ErrorKind::ResourceBusy, message)
    }

    pub fn core_error(message: &str) -> (r: Self)
        ensures
            r.spec_kind() == ErrorKind::CoreError,
            r.spec_message() == Some(message@),
    {
        Self::new(ErrorKind::CoreError, message)
    }

    pub fn io(message: &str) -> (r: Self)
        ensures
            r.spec_kind() == ErrorKind::IOError,
            r.spec_message() == Some(message@),
    {
        Self::new(ErrorKind::IOError, message)
    }

    pub fn duplicate(message: &str) -> (r: Self)
        ensures
            r.spec_kind() == ErrorKind::ResourceAlreadyExists,
            r.spec_message() == Some(message@),
    {
        Self::new(ErrorKind::ResourceAlreadyExists, message)
    }

    pub fn failed(message: &str) -> (r: Self)
        ensures
            r.spec_kind() == ErrorKind::FunctionFailed,
            r.spec_message() == Some(message@),
    {
        Self::new(ErrorKind::FunctionFailed, message)
    }

    pub fn access(message: &str) -> (r: Self)
        ensures
            r.spec_kind() == ErrorKind::AccessDenied,
            r.spec_message() == Some(message@),
    {
        Self::new(ErrorKind::AccessDenied, message)
    }

    pub fn access_more_data_required(message: &str) -> (r: Self)
        ensures
            r.spec_kind() == ErrorKind::AccessDeniedMoreDataRequired,
            r.spec_message() == Some(message@),
    {
        Self::new(ErrorKind::AccessDeniedMoreDataRequired, message)
    }

    pub fn timeout() -> (r: Self)
        ensures
            r.spec_kind() == ErrorKind::Timeout,
            r.spec_message() is None,
    {
        Self { kind: ErrorKind::Timeout, message: None }
    }

    pub fn aborted() -> (r: Self)
        ensures
            r.spec_kind() == ErrorKind::Aborted,
            r.spec_message() is None,
    {
        Self { kind: ErrorKind::Aborted, message: None }
    }

    pub fn invalid_data(message: &str) -> (r: Self)
        ensures
            r.spec_kind() == ErrorKind::InvalidData,
            r.spec_message() == Some(message@),
    {
        Self::new(ErrorKind::InvalidData, message)
    }

    pub fn invalid_params(message: &str) -> (r: Self)
        ensures
            r.spec_kind() == ErrorKind::InvalidParameter,
            r.spec_message() == Some(message@),
    {
        Self::new(ErrorKind::InvalidParameter, message)
    }

    pub fn not_implemented(message: &str) -> (r: Self)
        ensures
            r.spec_kind() == ErrorKind::MethodNotImplemented,
            r.spec_message() == Some(message@),
    {
        Self::new(ErrorKind::MethodNotImplemented, message)
    }

    pub fn kind(&self) -> (r: ErrorKind)
        ensures
            r == self.spec_kind(),
    {
        self.kind
    }

    pub fn message(&self) -> (r: Option<&str>)
        ensures
            match r {
                Some(m) => self.spec_message() == Some(m@),
                None => self.spec_message() is None,
            },
    {
        match &self.message {
            Some(m) => Some(m.as_str()),
            None => None,
        }
    }

    /// The full diagnostic line: the kind's text, then `": "` and the
    /// message when one is present.
    pub fn display_string(&self) -> (r: String)
        ensures
            r@ == match self.spec_message() {
                Some(m) => self.spec_kind().spec_text() + ": "@ + m,
                None => self.spec_kind().spec_text(),
            },
    {
        let mut s = self.kind.as_str().to_owned();
        match &self.message {
            Some(m) => {
                s.append(": ");
                s.append(m.as_str());
                s
            },
            None => s,
        }
    }
}

impl PartialEq for Error {
    fn eq(&self, other: &Self) -> (r: bool) {
        let kind_same = match (self.kind, other.kind) {
            (k1, k2) => k1 == k2,
        };
        kind_same && match (&self.message, &other.message) {
            (Some(a), Some(b)) => crate::strpath::str_eq(a.as_str(), b.as_str()),
            (None, None) => true,
            _ => false,
        }
    }
}

impl vstd::std_specs::cmp::PartialEqSpecImpl for Error {
    open spec fn obeys_eq_spec() -> bool {
        true
    }

    open spec fn eq_spec(&self, other: &Self) -> bool {
        self.spec_kind() == other.spec_kind() && self.spec_message() == other.spec_message()
    }
}

} // verus!
