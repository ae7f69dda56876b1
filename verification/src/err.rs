//! What can go wrong: faults of the driver itself and errors that the server
//! reports for a query.

use vstd::prelude::*;
use crate::proto::{ErrorType, ResponseType};

verus! {

/// The server could not tell whether a write took place, or knows it did not.
#[derive(Debug, Clone, PartialEq, Eq)]
pub enum Availability {
    OpFailed(String),
    OpIndeterminate(String),
}

/// The query asked for something that makes no sense on the data it met.
#[derive(Debug, Clone, PartialEq, Eq)]
pub enum QueryLogic {
    /// Any logic error the server does not classify further.
    Plain(String),
    /// The query referred to something that does not exist.
    NonExistence(String),
}

/// An error that the server reports for one query.
#[derive(Debug, Clone, PartialEq, Eq)]
pub enum Runtime {
    Compile(String),
    Client(String),
    Server(String),
    User(String),
    Availability(Availability),
    QueryLogic(QueryLogic),
    Internal(String),
    ResourceLimit(String),
    Permission(String),
}

/// A fault on the driver's side of the wire.
#[derive(Debug, Clone, PartialEq, Eq)]
pub enum Driver {
    ConnectionBroken,
    ConnectionLocked,
    /// The handshake was refused; the server's error code, where it sent one.
    Auth(String, Option<u64>),
    Io(String),
    Json(String),
    Timeout,
    Other(String),
}

/// Every failure the driver hands to a caller.
#[derive(Debug, Clone, PartialEq, Eq)]
pub enum ReqlError {
    Driver(Driver),
    Runtime(Runtime),
}

/// The kind of an [`ReqlError`], without what it carries.
#[derive(Debug, Clone, Copy, PartialEq, Eq, Structural)]
pub enum ErrorKind {
    ConnectionBroken,
    ConnectionLocked,
    Auth,
    Io,
    Json,
    Timeout,
    Other,
    Compile,
    Client,
    Server,
    User,
    OpFailed,
    OpIndeterminate,
    QueryLogic,
    NonExistence,
    Internal,
    ResourceLimit,
    Permission,
}

/// The mathematical value of an [`ReqlError`]: its kind, the text it carries
/// (empty where the kind carries none) and the handshake error code.
pub ghost struct Fault {
    pub kind: ErrorKind,
    pub message: Seq<char>,
    pub code: Option<u64>,
}

impl Fault {
    /// A fault of the given kind that carries `message` and no code.
    pub open spec fn new(kind: ErrorKind, message: Seq<char>) -> Fault {
        Fault { kind, message, code: None }
    }

    /// A fault of a kind that carries nothing.
    pub open spec fn bare(kind: ErrorKind) -> Fault {
        Fault { kind, message: Seq::empty(), code: None }
    }
}

impl View for Availability {
    type V = Fault;

    open spec fn view(&self) -> Fault {
        match self {
            Availability::OpFailed(m) => Fault::new(ErrorKind::OpFailed, m@),
            Availability::OpIndeterminate(m) => Fault::new(ErrorKind::OpIndeterminate, m@),
        }
    }
}

impl View for QueryLogic {
    type V = Fault;

    open spec fn view(&self) -> Fault {
        match self {
            QueryLogic::Plain(m) => Fault::new(ErrorKind::QueryLogic, m@),
            QueryLogic::NonExistence(m) => Fault::new(ErrorKind::NonExistence, m@),
        }
    }
}

impl View for Runtime {
    type V = Fault;

    open spec fn view(&self) -> Fault {
        match self {
            Runtime::Compile(m) => Fault::new(ErrorKind::Compile, m@),
            Runtime::Client(m) => Fault::new(ErrorKind::Client, m@),
            Runtime::Server(m) => Fault::new(ErrorKind::Server, m@),
            Runtime::User(m) => Fault::new(ErrorKind::User, m@),
            Runtime::Availability(a) => a@,
            Runtime::QueryLogic(q) => q@,
            Runtime::Internal(m) => Fault::new(ErrorKind::Internal, m@),
            Runtime::ResourceLimit(m) => Fault::new(ErrorKind::ResourceLimit, m@),
            Runtime::Permission(m) => Fault::new(ErrorKind::Permission, m@),
        }
    }
}

impl View for Driver {
    type V = Fault;

    open spec fn view(&self) -> Fault {
        match self {
            Driver::ConnectionBroken => Fault::bare(ErrorKind::ConnectionBroken),
            Driver::ConnectionLocked => Fault::bare(ErrorKind::ConnectionLocked),
            Driver::Auth(m, code) => Fault { kind: ErrorKind::Auth, message: m@, code: *code },
            Driver::Io(m) => Fault::new(ErrorKind::Io, m@),
            Driver::Json(m) => Fault::new(ErrorKind::Json, m@),
            Driver::Timeout => Fault::bare(ErrorKind::Timeout),
            Driver::Other(m) => Fault::new(ErrorKind::Other, m@),
        }
    }
}

impl View for ReqlError {
    type V = Fault;

    open spec fn view(&self) -> Fault {
        match self {
            ReqlError::Driver(d) => d@,
            ReqlError::Runtime(r) => r@,
        }
    }
}

impl ErrorKind {
    /// Whether the driver itself raises this kind, rather than the server
    /// for a query.
    pub open spec fn spec_is_driver(self) -> bool {
        self is ConnectionBroken || self is ConnectionLocked || self is Auth || self is Io
            || self is Json || self is Timeout || self is Other
    }

    /// Whether the driver itself raises this kind, rather than the server
    /// for a query.
    #[verifier::when_used_as_spec(spec_is_driver)]
    pub fn is_driver(self) -> (b: bool)
        ensures
            b == self.spec_is_driver(),
    {
        match self {
            ErrorKind::ConnectionBroken | ErrorKind::ConnectionLocked | ErrorKind::Auth
            | ErrorKind::Io | ErrorKind::Json | ErrorKind::Timeout | ErrorKind::Other => true,
            _ => false,
        }
    }
}

impl ReqlError {
    /// The kind of this error.
    pub fn kind(&self) -> (k: ErrorKind)
        ensures
            k == self@.kind,
            k.spec_is_driver() <==> self is Driver,
    {
        match self {
            ReqlError::Driver(Driver::ConnectionBroken) => ErrorKind::ConnectionBroken,
            ReqlError::Driver(Driver::ConnectionLocked) => ErrorKind::ConnectionLocked,
            ReqlError::Driver(Driver::Auth(_, _)) => ErrorKind::Auth,
            ReqlError::Driver(Driver::Io(_)) => ErrorKind::Io,
            ReqlError::Driver(Driver::Json(_)) => ErrorKind::Json,
            ReqlError::Driver(Driver::Timeout) => ErrorKind::Timeout,
            ReqlError::Driver(Driver::Other(_)) => ErrorKind::Other,
            ReqlError::Runtime(Runtime::Compile(_)) => ErrorKind::Compile,
            ReqlError::Runtime(Runtime::Client(_)) => ErrorKind::Client,
            ReqlError::Runtime(Runtime::Server(_)) => ErrorKind::Server,
            ReqlError::Runtime(Runtime::User(_)) => ErrorKind::User,
            ReqlError::Runtime(Runtime::Availability(Availability::OpFailed(_))) => ErrorKind::OpFailed,
            ReqlError::Runtime(Runtime::Availability(Availability::OpIndeterminate(_))) => {
                ErrorKind::OpIndeterminate
            },
            ReqlError::Runtime(Runtime::QueryLogic(QueryLogic::Plain(_))) => ErrorKind::QueryLogic,
            ReqlError::Runtime(Runtime::QueryLogic(QueryLogic::NonExistence(_))) => {
                ErrorKind::NonExistence
            },
            ReqlError::Runtime(Runtime::Internal(_)) => ErrorKind::Internal,
            ReqlError::Runtime(Runtime::ResourceLimit(_)) => ErrorKind::ResourceLimit,
            ReqlError::Runtime(Runtime::Permission(_)) => ErrorKind::Permission,
        }
    }

    /// The text this error carries; empty for a kind that carries none.
    pub fn message(&self) -> (m: String)
        ensures
            m@ == self@.message,
    {
        match self {
            ReqlError::Driver(Driver::ConnectionBroken) => String::new(),
            ReqlError::Driver(Driver::ConnectionLocked) => String::new(),
            ReqlError::Driver(Driver::Timeout) => String::new(),
            ReqlError::Driver(Driver::Auth(m, _)) => m.clone(),
            ReqlError::Driver(Driver::Io(m)) => m.clone(),
            ReqlError::Driver(Driver::Json(m)) => m.clone(),
            ReqlError::Driver(Driver::Other(m)) => m.clone(),
            ReqlError::Runtime(Runtime::Compile(m)) => m.clone(),
            ReqlError::Runtime(Runtime::Client(m)) => m.clone(),
            ReqlError::Runtime(Runtime::Server(m)) => m.clone(),
            ReqlError::Runtime(Runtime::User(m)) => m.clone(),
            ReqlError::Runtime(Runtime::Availability(Availability::OpFailed(m))) => m.clone(),
            ReqlError::Runtime(Runtime::Availability(Availability::OpIndeterminate(m))) => m.clone(),
            ReqlError::Runtime(Runtime::QueryLogic(QueryLogic::Plain(m))) => m.clone(),
            ReqlError::Runtime(Runtime::QueryLogic(QueryLogic::NonExistence(m))) => m.clone(),
            ReqlError::Runtime(Runtime::Internal(m)) => m.clone(),
            ReqlError::Runtime(Runtime::ResourceLimit(m)) => m.clone(),
            ReqlError::Runtime(Runtime::Permission(m)) => m.clone(),
        }
    }

    /// A copy of this error, equal to it in kind, text and code.
    pub fn duplicate(&self) -> (e: ReqlError)
        ensures
            e@ == self@,
    {
        match self {
            ReqlError::Driver(Driver::ConnectionBroken) => ReqlError::Driver(Driver::ConnectionBroken),
            ReqlError::Driver(Driver::ConnectionLocked) => ReqlError::Driver(Driver::ConnectionLocked),
            ReqlError::Driver(Driver::Timeout) => ReqlError::Driver(Driver::Timeout),
            ReqlError::Driver(Driver::Auth(m, code)) => ReqlError::Driver(Driver::Auth(m.clone(), *code)),
            _ => server_error_of_kind(self.kind(), self.message()),
        }
    }
}

/// Which kind of error a failed response stands for: a client error, a
/// compile error, or else a runtime error of the server's error class.
pub open spec fn response_error_kind(response: ResponseType, class: Option<ErrorType>) -> ErrorKind {
    match response {
        ResponseType::ClientError => ErrorKind::Client,
        ResponseType::CompileError => ErrorKind::Compile,
        _ => match class {
            None => ErrorKind::Server,
            Some(ErrorType::Internal) => ErrorKind::Internal,
            Some(ErrorType::ResourceLimit) => ErrorKind::ResourceLimit,
            Some(ErrorType::QueryLogic) => ErrorKind::QueryLogic,
            Some(ErrorType::NonExistence) => ErrorKind::NonExistence,
            Some(ErrorType::OpFailed) => ErrorKind::OpFailed,
            Some(ErrorType::OpIndeterminate) => ErrorKind::OpIndeterminate,
            Some(ErrorType::User) => ErrorKind::User,
            Some(ErrorType::PermissionError) => ErrorKind::Permission,
        },
    }
}

/// The error of the given kind that carries `message`. A kind that carries
/// no text gives the driver's catch-all error with that text.
pub fn server_error_of_kind(kind: ErrorKind, message: String) -> (e: ReqlError)
    ensures
        e@.message == message@,
        e@.code is None,
        e@.kind == match kind {
            ErrorKind::ConnectionBroken | ErrorKind::ConnectionLocked | ErrorKind::Timeout => {
                ErrorKind::Other
            },
            _ => kind,
        },
{
    match kind {
        ErrorKind::ConnectionBroken | ErrorKind::ConnectionLocked | ErrorKind::Timeout
        | ErrorKind::Other => ReqlError::Driver(Driver::Other(message)),
        ErrorKind::Auth => ReqlError::Driver(Driver::Auth(message, None)),
        ErrorKind::Io => ReqlError::Driver(Driver::Io(message)),
        ErrorKind::Json => ReqlError::Driver(Driver::Json(message)),
        ErrorKind::Compile => ReqlError::Runtime(Runtime::Compile(message)),
        ErrorKind::Client => ReqlError::Runtime(Runtime::Client(message)),
        ErrorKind::Server => ReqlError::Runtime(Runtime::Server(message)),
        ErrorKind::User => ReqlError::Runtime(Runtime::User(message)),
        ErrorKind::OpFailed => ReqlError::Runtime(Runtime::Availability(Availability::OpFailed(message))),
        ErrorKind::OpIndeterminate => ReqlError::Runtime(
            Runtime::Availability(Availability::OpIndeterminate(message)),
        ),
        ErrorKind::QueryLogic => ReqlError::Runtime(Runtime::QueryLogic(QueryLogic::Plain(message))),
        ErrorKind::NonExistence => ReqlError::Runtime(
            Runtime::QueryLogic(QueryLogic::NonExistence(message)),
        ),
        ErrorKind::Internal => ReqlError::Runtime(Runtime::Internal(message)),
        ErrorKind::ResourceLimit => ReqlError::Runtime(Runtime::ResourceLimit(message)),
        ErrorKind::Permission => ReqlError::Runtime(Runtime::Permission(message)),
    }
}

/// Decodes the error that a failed response stands for.
///
/// `response` is the kind of the response, `class` the server's error class
/// where the response gave one, and `message` the text the server sent.
pub fn response_error(response: ResponseType, class: Option<ErrorType>, message: String) -> (e:
    ReqlError)
    ensures
        e is Runtime,
        e@ == Fault::new(response_error_kind(response, class), message@),
{
    let kind = match response {
        ResponseType::ClientError => ErrorKind::Client,
        ResponseType::CompileError => ErrorKind::Compile,
        _ => match class {
            None => ErrorKind::Server,
            Some(ErrorType::Internal) => ErrorKind::Internal,
            Some(ErrorType::ResourceLimit) => ErrorKind::ResourceLimit,
            Some(ErrorType::QueryLogic) => ErrorKind::QueryLogic,
            Some(ErrorType::NonExistence) => ErrorKind::NonExistence,
            Some(ErrorType::OpFailed) => ErrorKind::OpFailed,
            Some(ErrorType::OpIndeterminate) => ErrorKind::OpIndeterminate,
            Some(ErrorType::User) => ErrorKind::User,
            Some(ErrorType::PermissionError) => ErrorKind::Permission,
        },
    };
    server_error_of_kind(kind, message)
}

} // verus!
