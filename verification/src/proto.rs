//! The protocol's vocabulary: the numbers that name queries, responses,
//! errors, notes and terms on the wire.

use vstd::prelude::*;

verus! {

/// The first four bytes a client sends: the handshake version it speaks.
pub const VERSION_MAGIC: u32 = 0x34c2_bdc3;

/// What a client asks of the server in one frame.
#[derive(Debug, Clone, Copy, PartialEq, Eq, Structural)]
pub enum QueryType {
    Start,
    Continue,
    Stop,
    NoreplyWait,
    ServerInfo,
}

impl QueryType {
    /// The number that stands for this kind of query on the wire.
    pub open spec fn spec_code(self) -> u64 {
        match self {
            QueryType::Start => 1,
            QueryType::Continue => 2,
            QueryType::Stop => 3,
            QueryType::NoreplyWait => 4,
            QueryType::ServerInfo => 5,
        }
    }

    /// The number that stands for this kind of query on the wire.
    #[verifier::when_used_as_spec(spec_code)]
    pub fn code(self) -> (c: u64)
        ensures
            c == self.spec_code(),
    {
        match self {
            QueryType::Start => 1,
            QueryType::Continue => 2,
            QueryType::Stop => 3,
            QueryType::NoreplyWait => 4,
            QueryType::ServerInfo => 5,
        }
    }
}

/// What kind of answer a frame from the server holds.
#[derive(Debug, Clone, Copy, PartialEq, Eq, Structural)]
pub enum ResponseType {
    SuccessAtom,
    SuccessSequence,
    SuccessPartial,
    WaitComplete,
    ServerInfo,
    ClientError,
    CompileError,
    RuntimeError,
}

impl ResponseType {
    /// The number that stands for this kind of response on the wire.
    pub open spec fn spec_code(self) -> u64 {
        match self {
            ResponseType::SuccessAtom => 1,
            ResponseType::SuccessSequence => 2,
            ResponseType::SuccessPartial => 3,
            ResponseType::WaitComplete => 4,
            ResponseType::ServerInfo => 5,
            ResponseType::ClientError => 16,
            ResponseType::CompileError => 17,
            ResponseType::RuntimeError => 18,
        }
    }

    /// The number that stands for this kind of response on the wire.
    #[verifier::when_used_as_spec(spec_code)]
    pub fn code(self) -> (c: u64)
        ensures
            c == self.spec_code(),
    {
        match self {
            ResponseType::SuccessAtom => 1,
            ResponseType::SuccessSequence => 2,
            ResponseType::SuccessPartial => 3,
            ResponseType::WaitComplete => 4,
            ResponseType::ServerInfo => 5,
            ResponseType::ClientError => 16,
            ResponseType::CompileError => 17,
            ResponseType::RuntimeError => 18,
        }
    }

    /// The kind of response that `code` stands for, if it stands for one.
    pub open spec fn spec_from_code(code: u64) -> Option<Self> {
        if code == 1 {
            Some(ResponseType::SuccessAtom)
        } else if code == 2 {
            Some(ResponseType::SuccessSequence)
        } else if code == 3 {
            Some(ResponseType::SuccessPartial)
        } else if code == 4 {
            Some(ResponseType::WaitComplete)
        } else if code == 5 {
            Some(ResponseType::ServerInfo)
        } else if code == 16 {
            Some(ResponseType::ClientError)
        } else if code == 17 {
            Some(ResponseType::CompileError)
        } else if code == 18 {
            Some(ResponseType::RuntimeError)
        } else {
            None
        }
    }

    /// The kind of response that `code` stands for, if it stands for one.
    #[verifier::when_used_as_spec(spec_from_code)]
    pub fn from_code(code: u64) -> (r: Option<Self>)
        ensures
            r == Self::spec_from_code(code),
            r matches Some(k) ==> k.spec_code() == code,
            r is None ==> forall|k: Self| k.spec_code() != code,
    {
        if code == 1 {
            Some(ResponseType::SuccessAtom)
        } else if code == 2 {
            Some(ResponseType::SuccessSequence)
        } else if code == 3 {
            Some(ResponseType::SuccessPartial)
        } else if code == 4 {
            Some(ResponseType::WaitComplete)
        } else if code == 5 {
            Some(ResponseType::ServerInfo)
        } else if code == 16 {
            Some(ResponseType::ClientError)
        } else if code == 17 {
            Some(ResponseType::CompileError)
        } else if code == 18 {
            Some(ResponseType::RuntimeError)
        } else {
            None
        }
    }

    /// Whether this kind of response reports a failed query.
    pub open spec fn spec_is_error(self) -> bool {
        self is ClientError || self is CompileError || self is RuntimeError
    }

    /// Whether this kind of response reports a failed query.
    #[verifier::when_used_as_spec(spec_is_error)]
    pub fn is_error(self) -> (b: bool)
        ensures
            b == self.spec_is_error(),
    {
        match self {
            ResponseType::ClientError | ResponseType::CompileError | ResponseType::RuntimeError => true,
            _ => false,
        }
    }
}

/// The server's finer classification of a runtime error.
#[derive(Debug, Clone, Copy, PartialEq, Eq, Structural)]
pub enum ErrorType {
    Internal,
    ResourceLimit,
    QueryLogic,
    NonExistence,
    OpFailed,
    OpIndeterminate,
    User,
    PermissionError,
}

impl ErrorType {
    /// The number that stands for this class of error on the wire.
    pub open spec fn spec_code(self) -> u64 {
        match self {
            ErrorType::Internal => 1000000,
            ErrorType::ResourceLimit => 2000000,
            ErrorType::QueryLogic => 3000000,
            ErrorType::NonExistence => 3100000,
            ErrorType::OpFailed => 4100000,
            ErrorType::OpIndeterminate => 4200000,
            ErrorType::User => 5000000,
            ErrorType::PermissionError => 6000000,
        }
    }

    /// The number that stands for this class of error on the wire.
    #[verifier::when_used_as_spec(spec_code)]
    pub fn code(self) -> (c: u64)
        ensures
            c == self.spec_code(),
    {
        match self {
            ErrorType::Internal => 1000000,
            ErrorType::ResourceLimit => 2000000,
            ErrorType::QueryLogic => 3000000,
            ErrorType::NonExistence => 3100000,
            ErrorType::OpFailed => 4100000,
            ErrorType::OpIndeterminate => 4200000,
            ErrorType::User => 5000000,
            ErrorType::PermissionError => 6000000,
        }
    }

    /// The class of error that `code` stands for, if it stands for one.
    pub open spec fn spec_from_code(code: u64) -> Option<Self> {
        if code == 1000000 {
            Some(ErrorType::Internal)
        } else if code == 2000000 {
            Some(ErrorType::ResourceLimit)
        } else if code == 3000000 {
            Some(ErrorType::QueryLogic)
        } else if code == 3100000 {
            Some(ErrorType::NonExistence)
        } else if code == 4100000 {
            Some(ErrorType::OpFailed)
        } else if code == 4200000 {
            Some(ErrorType::OpIndeterminate)
        } else if code == 5000000 {
            Some(ErrorType::User)
        } else if code == 6000000 {
            Some(ErrorType::PermissionError)
        } else {
            None
        }
    }

    /// The class of error that `code` stands for, if it stands for one.
    #[verifier::when_used_as_spec(spec_from_code)]
    pub fn from_code(code: u64) -> (r: Option<Self>)
        ensures
            r == Self::spec_from_code(code),
            r matches Some(k) ==> k.spec_code() == code,
            r is None ==> forall|k: Self| k.spec_code() != code,
    {
        if code == 1000000 {
            Some(ErrorType::Internal)
        } else if code == 2000000 {
            Some(ErrorType::ResourceLimit)
        } else if code == 3000000 {
            Some(ErrorType::QueryLogic)
        } else if code == 3100000 {
            Some(ErrorType::NonExistence)
        } else if code == 4100000 {
            Some(ErrorType::OpFailed)
        } else if code == 4200000 {
            Some(ErrorType::OpIndeterminate)
        } else if code == 5000000 {
            Some(ErrorType::User)
        } else if code == 6000000 {
            Some(ErrorType::PermissionError)
        } else {
            None
        }
    }
}

/// A remark the server attaches to a response; each one announces a change feed.
#[derive(Debug, Clone, Copy, PartialEq, Eq, Structural)]
pub enum ResponseNote {
    SequenceFeed,
    AtomFeed,
    OrderByLimitFeed,
    UnionedFeed,
    IncludesStates,
}

impl ResponseNote {
    /// The number that stands for this note on the wire.
    pub open spec fn spec_code(self) -> u64 {
        match self {
            ResponseNote::SequenceFeed => 1,
            ResponseNote::AtomFeed => 2,
            ResponseNote::OrderByLimitFeed => 3,
            ResponseNote::UnionedFeed => 4,
            ResponseNote::IncludesStates => 5,
        }
    }

    /// The number that stands for this note on the wire.
    #[verifier::when_used_as_spec(spec_code)]
    pub fn code(self) -> (c: u64)
        ensures
            c == self.spec_code(),
    {
        match self {
            ResponseNote::SequenceFeed => 1,
            ResponseNote::AtomFeed => 2,
            ResponseNote::OrderByLimitFeed => 3,
            ResponseNote::UnionedFeed => 4,
            ResponseNote::IncludesStates => 5,
        }
    }

    /// The note that `code` stands for, if it stands for one.
    pub open spec fn spec_from_code(code: u64) -> Option<Self> {
        if code == 1 {
            Some(ResponseNote::SequenceFeed)
        } else if code == 2 {
            Some(ResponseNote::AtomFeed)
        } else if code == 3 {
            Some(ResponseNote::OrderByLimitFeed)
        } else if code == 4 {
            Some(ResponseNote::UnionedFeed)
        } else if code == 5 {
            Some(ResponseNote::IncludesStates)
        } else {
            None
        }
    }

    /// The note that `code` stands for, if it stands for one.
    #[verifier::when_used_as_spec(spec_from_code)]
    pub fn from_code(code: u64) -> (r: Option<Self>)
        ensures
            r == Self::spec_from_code(code),
            r matches Some(k) ==> k.spec_code() == code,
            r is None ==> forall|k: Self| k.spec_code() != code,
    {
        if code == 1 {
            Some(ResponseNote::SequenceFeed)
        } else if code == 2 {
            Some(ResponseNote::AtomFeed)
        } else if code == 3 {
            Some(ResponseNote::OrderByLimitFeed)
        } else if code == 4 {
            Some(ResponseNote::UnionedFeed)
        } else if code == 5 {
            Some(ResponseNote::IncludesStates)
        } else {
            None
        }
    }
}

/// The operation at the root of a term.
#[derive(Debug, Clone, Copy, PartialEq, Eq, Structural)]
pub enum TermType {
    Datum,
    MakeArray,
    MakeObj,
    Javascript,
    Error,
    Db,
    Table,
    Reduce,
    MapEach,
    Distinct,
    Count,
    Union,
    DbCreate,
    DbDrop,
    DbList,
    TableCreate,
    Funcall,
    Branch,
    Info,
    Contains,
    Json,
    Iso8601,
    EpochTime,
    Now,
    Time,
    Literal,
    Object,
    Group,
    Sum,
    Avg,
    Min,
    Max,
    Random,
    Changes,
    Http,
    Geojson,
    Point,
    Line,
    Polygon,
    Distance,
    Intersects,
    Circle,
    Uuid,
    Range,
    Wait,
    Floor,
    Ceil,
    Round,
    Grant,
}

impl TermType {
    /// The number that stands for this operation on the wire.
    pub open spec fn spec_code(self) -> u64 {
        match self {
            TermType::Datum => 1,
            TermType::MakeArray => 2,
            TermType::MakeObj => 3,
            TermType::Javascript => 11,
            TermType::Error => 12,
            TermType::Db => 14,
            TermType::Table => 15,
            TermType::Reduce => 37,
            TermType::MapEach => 38,
            TermType::Distinct => 42,
            TermType::Count => 43,
            TermType::Union => 44,
            TermType::DbCreate => 57,
            TermType::DbDrop => 58,
            TermType::DbList => 59,
            TermType::TableCreate => 60,
            TermType::Funcall => 64,
            TermType::Branch => 65,
            TermType::Info => 79,
            TermType::Contains => 93,
            TermType::Json => 98,
            TermType::Iso8601 => 99,
            TermType::EpochTime => 101,
            TermType::Now => 103,
            TermType::Time => 136,
            TermType::Literal => 137,
            TermType::Object => 143,
            TermType::Group => 144,
            TermType::Sum => 145,
            TermType::Avg => 146,
            TermType::Min => 147,
            TermType::Max => 148,
            TermType::Random => 151,
            TermType::Changes => 152,
            TermType::Http => 153,
            TermType::Geojson => 157,
            TermType::Point => 159,
            TermType::Line => 160,
            TermType::Polygon => 161,
            TermType::Distance => 162,
            TermType::Intersects => 163,
            TermType::Circle => 165,
            TermType::Uuid => 169,
            TermType::Range => 173,
            TermType::Wait => 177,
            TermType::Floor => 183,
            TermType::Ceil => 184,
            TermType::Round => 185,
            TermType::Grant => 188,
        }
    }

    /// The number that stands for this operation on the wire.
    #[verifier::when_used_as_spec(spec_code)]
    pub fn code(self) -> (c: u64)
        ensures
            c == self.spec_code(),
    {
        match self {
            TermType::Datum => 1,
            TermType::MakeArray => 2,
            TermType::MakeObj => 3,
            TermType::Javascript => 11,
            TermType::Error => 12,
            TermType::Db => 14,
            TermType::Table => 15,
            TermType::Reduce => 37,
            TermType::MapEach => 38,
            TermType::Distinct => 42,
            TermType::Count => 43,
            TermType::Union => 44,
            TermType::DbCreate => 57,
            TermType::DbDrop => 58,
            TermType::DbList => 59,
            TermType::TableCreate => 60,
            TermType::Funcall => 64,
            TermType::Branch => 65,
            TermType::Info => 79,
            TermType::Contains => 93,
            TermType::Json => 98,
            TermType::Iso8601 => 99,
            TermType::EpochTime => 101,
            TermType::Now => 103,
            TermType::Time => 136,
            TermType::Literal => 137,
            TermType::Object => 143,
            TermType::Group => 144,
            TermType::Sum => 145,
            TermType::Avg => 146,
            TermType::Min => 147,
            TermType::Max => 148,
            TermType::Random => 151,
            TermType::Changes => 152,
            TermType::Http => 153,
            TermType::Geojson => 157,
            TermType::Point => 159,
            TermType::Line => 160,
            TermType::Polygon => 161,
            TermType::Distance => 162,
            TermType::Intersects => 163,
            TermType::Circle => 165,
            TermType::Uuid => 169,
            TermType::Range => 173,
            TermType::Wait => 177,
            TermType::Floor => 183,
            TermType::Ceil => 184,
            TermType::Round => 185,
            TermType::Grant => 188,
        }
    }
}

} // verus!
