//! What can go wrong while a request is answered.

use vstd::prelude::*;

verus! {

/// How a row failed to decode.
#[derive(Clone, Copy, Debug, PartialEq, Eq, Structural)]
pub enum Fault {
    /// A column that the entity cannot do without is not in the row.
    MissingColumn,
    /// A column holds a value of another storage class than the field takes.
    WrongType,
    /// A column holds a text that names no variant of the field's enum.
    UnknownVariant,
}

/// A row whose shape does not fit the entity asked of it: a mismatch between
/// a query and the schema, never a fault of the request.
#[derive(Debug, PartialEq, Eq)]
pub struct DecodeError {
    pub fault: Fault,
    pub column: String,
}

pub struct DecodeErrorView {
    pub fault: Fault,
    pub column: Seq<char>,
}

impl View for DecodeError {
    type V = DecodeErrorView;

    open spec fn view(&self) -> DecodeErrorView {
        DecodeErrorView { fault: self.fault, column: self.column@ }
    }
}

impl Clone for DecodeError {
    fn clone(&self) -> (copy: DecodeError)
        ensures
            copy@ == self@,
    {
        DecodeError { fault: self.fault, column: self.column.clone() }
    }
}

impl DecodeError {
    /// The error for `column`, failing by `fault`.
    pub fn new(fault: Fault, column: &str) -> (error: DecodeError)
        ensures
            error@ == (DecodeErrorView { fault, column: column@ }),
    {
        DecodeError { fault, column: column.to_owned() }
    }
}

/// Why the datastore did not carry out a statement, as the caller reports it.
#[derive(Debug, PartialEq, Eq)]
pub enum StoreFailure {
    /// A statement that had to return a row returned none.
    NoRow,
    /// A unique or primary key is already taken.
    UniqueViolation,
    /// A referenced row does not exist.
    ForeignKeyViolation,
    /// The datastore could not read the named column of a row.
    RowShape { column: String },
    /// No connection became free in time, or the pool is closed.
    PoolExhausted,
    /// The datastore could not be reached, or failed in another way.
    Unavailable,
}

pub enum StoreFailureView {
    NoRow,
    UniqueViolation,
    ForeignKeyViolation,
    RowShape { column: Seq<char> },
    PoolExhausted,
    Unavailable,
}

impl View for StoreFailure {
    type V = StoreFailureView;

    open spec fn view(&self) -> StoreFailureView {
        match self {
            StoreFailure::NoRow => StoreFailureView::NoRow,
            StoreFailure::UniqueViolation => StoreFailureView::UniqueViolation,
            StoreFailure::ForeignKeyViolation => StoreFailureView::ForeignKeyViolation,
            StoreFailure::RowShape { column } => StoreFailureView::RowShape { column: column@ },
            StoreFailure::PoolExhausted => StoreFailureView::PoolExhausted,
            StoreFailure::Unavailable => StoreFailureView::Unavailable,
        }
    }
}

/// The error that a failed field of a response carries.
#[derive(Debug, PartialEq, Eq)]
pub enum Error {
    /// No row where exactly one was expected.
    NotFound,
    /// The datastore refused a write that breaks a key.
    ConstraintViolation,
    /// A row did not have the shape of its entity.
    DecodeError(DecodeError),
    /// The datastore could not be asked.
    ConnectionError,
}

pub enum ErrorView {
    NotFound,
    ConstraintViolation,
    DecodeError(DecodeErrorView),
    ConnectionError,
}

impl View for Error {
    type V = ErrorView;

    open spec fn view(&self) -> ErrorView {
        match self {
            Error::NotFound => ErrorView::NotFound,
            Error::ConstraintViolation => ErrorView::ConstraintViolation,
            Error::DecodeError(e) => ErrorView::DecodeError(e@),
            Error::ConnectionError => ErrorView::ConnectionError,
        }
    }
}

impl Clone for Error {
    fn clone(&self) -> (copy: Error)
        ensures
            copy@ == self@,
    {
        match self {
            Error::NotFound => Error::NotFound,
            Error::ConstraintViolation => Error::ConstraintViolation,
            Error::DecodeError(e) => Error::DecodeError(e.clone()),
            Error::ConnectionError => Error::ConnectionError,
        }
    }
}

/// The error under which each failure of the datastore is reported.
pub open spec fn reported(failure: StoreFailureView) -> ErrorView {
    match failure {
        StoreFailureView::NoRow => ErrorView::NotFound,
        StoreFailureView::UniqueViolation => ErrorView::ConstraintViolation,
        StoreFailureView::ForeignKeyViolation => ErrorView::ConstraintViolation,
        StoreFailureView::RowShape { column } => ErrorView::DecodeError(
            DecodeErrorView { fault: Fault::WrongType, column },
        ),
        StoreFailureView::PoolExhausted => ErrorView::ConnectionError,
        StoreFailureView::Unavailable => ErrorView::ConnectionError,
    }
}

impl Error {
    /// Reports a failure of the datastore as it is, without retrying.
    pub fn from_store(failure: StoreFailure) -> (error: Error)
        ensures
            error@ == reported(failure@),
    {
        match failure {
            StoreFailure::NoRow => Error::NotFound,
            StoreFailure::UniqueViolation => Error::ConstraintViolation,
            StoreFailure::ForeignKeyViolation => Error::ConstraintViolation,
            StoreFailure::RowShape { column } => Error::DecodeError(
                DecodeError { fault: Fault::WrongType, column },
            ),
            StoreFailure::PoolExhausted => Error::ConnectionError,
            StoreFailure::Unavailable => Error::ConnectionError,
        }
    }

    /// The message shown to the caller of the API.
    pub fn message(&self) -> (text: String)
        ensures
            text@ == message_of(self@),
    {
        match self {
            Error::NotFound => "not found".to_owned(),
            Error::ConstraintViolation => "constraint violation".to_owned(),
            Error::ConnectionError => "connection error".to_owned(),
            Error::DecodeError(e) => {
                let mut text = match e.fault {
                    Fault::MissingColumn => "decode error: missing column ".to_owned(),
                    Fault::WrongType => "decode error: wrong type in column ".to_owned(),
                    Fault::UnknownVariant => "decode error: unknown variant in column ".to_owned(),
                };
                text.append(e.column.as_str());
                text
            },
        }
    }
}

/// The text of `Error::message`.
pub open spec fn message_of(error: ErrorView) -> Seq<char> {
    match error {
        ErrorView::NotFound => "not found"@,
        ErrorView::ConstraintViolation => "constraint violation"@,
        ErrorView::ConnectionError => "connection error"@,
        ErrorView::DecodeError(e) => (match e.fault {
            Fault::MissingColumn => "decode error: missing column "@,
            Fault::WrongType => "decode error: wrong type in column "@,
            Fault::UnknownVariant => "decode error: unknown variant in column "@,
        }) + e.column,
    }
}

} // verus!
