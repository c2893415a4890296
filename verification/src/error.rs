//! The ways in which an operation on meetups can fail, and the message that
//! tells the client of each.

use crate::decimal::{append_decimal, decimal};
use crate::response::Status;
use crate::store::{StoreError, StoreErrorView, StoreFault};
use vstd::prelude::*;
use vstd::string::*;

verus! {

/// The five operations on meetups.
#[derive(Debug, Clone, Copy, PartialEq, Eq)]
pub enum Operation {
    List,
    Get,
    Create,
    Update,
    Delete,
}

/// The kinds of error that an operation can end in.
#[derive(Debug, Clone, Copy, PartialEq, Eq)]
pub enum ErrorKind {
    /// The store holds no record under the identifier.
    NotFound,
    /// The store failed while records were read.
    RetrievalFailure,
    /// The store failed while a record was inserted.
    CreationFailure,
    /// The store failed while a record was rewritten.
    UpdateFailure,
    /// The store failed while a record was deleted.
    DeletionFailure,
}

impl ErrorKind {
    /// The status that answers an error of this kind: 404 where the record
    /// is not there, 500 for every failure of the store.
    pub open spec fn status(self) -> Status {
        match self {
            ErrorKind::NotFound => Status::NotFound,
            _ => Status::InternalServerError,
        }
    }
}

impl Operation {
    /// The kind of error that a failure of the store gives this operation.
    pub open spec fn failure_kind(self) -> ErrorKind {
        match self {
            Operation::List => ErrorKind::RetrievalFailure,
            Operation::Get => ErrorKind::RetrievalFailure,
            Operation::Create => ErrorKind::CreationFailure,
            Operation::Update => ErrorKind::UpdateFailure,
            Operation::Delete => ErrorKind::DeletionFailure,
        }
    }

    /// What the message says before the store's own description, where the
    /// store failed this operation.
    pub open spec fn failure_prefix(self) -> Seq<char> {
        match self {
            Operation::List => "Failed to fetch meetups: "@,
            Operation::Get => "Failed to fetch meetup: "@,
            Operation::Create => "Failed to create meetup: "@,
            Operation::Update => "Failed to update meetup: "@,
            Operation::Delete => "Failed to delete meetup: "@,
        }
    }

    /// The kind of error that a failure of the store gives this operation.
    pub fn kind_of_failure(&self) -> (kind: ErrorKind)
        ensures
            kind == self.failure_kind(),
    {
        match self {
            Operation::List => ErrorKind::RetrievalFailure,
            Operation::Get => ErrorKind::RetrievalFailure,
            Operation::Create => ErrorKind::CreationFailure,
            Operation::Update => ErrorKind::UpdateFailure,
            Operation::Delete => ErrorKind::DeletionFailure,
        }
    }

    fn prefix_of_failure(&self) -> (prefix: &'static str)
        ensures
            prefix@ == self.failure_prefix(),
    {
        match self {
            Operation::List => "Failed to fetch meetups: ",
            Operation::Get => "Failed to fetch meetup: ",
            Operation::Create => "Failed to create meetup: ",
            Operation::Update => "Failed to update meetup: ",
            Operation::Delete => "Failed to delete meetup: ",
        }
    }
}

/// An operation's error: its kind, and the message for the client.
#[derive(Debug, Clone, PartialEq, Eq)]
pub struct ApiError {
    pub kind: ErrorKind,
    pub message: String,
}

/// What an operation's error is, mathematically.
pub struct ApiErrorView {
    pub kind: ErrorKind,
    pub message: Seq<char>,
}

impl ApiErrorView {
    /// The error that says that no record stands under `id`.
    pub open spec fn not_found(id: int) -> ApiErrorView {
        ApiErrorView {
            kind: ErrorKind::NotFound,
            message: "Meetup with id "@ + decimal(id) + " not found"@,
        }
    }

    /// The error that says that the store failed `operation`. The message
    /// ends in the store's own description of what went wrong.
    pub open spec fn failure(operation: Operation, cause: StoreErrorView) -> ApiErrorView {
        ApiErrorView {
            kind: operation.failure_kind(),
            message: operation.failure_prefix() + cause.description,
        }
    }

    /// The error of an operation that addresses one record by `id`: not
    /// found where the store found no row, and a failure of the operation
    /// for everything else.
    pub open spec fn lookup_failure(
        operation: Operation,
        id: int,
        cause: StoreErrorView,
    ) -> ApiErrorView {
        if cause.fault is RowNotFound {
            Self::not_found(id)
        } else {
            Self::failure(operation, cause)
        }
    }
}

impl View for ApiError {
    type V = ApiErrorView;

    open spec fn view(&self) -> ApiErrorView {
        ApiErrorView { kind: self.kind, message: self.message@ }
    }
}

impl ApiError {
    /// The error that says that no record stands under `id`.
    pub fn not_found(id: i64) -> (error: ApiError)
        ensures
            error@ == ApiErrorView::not_found(id as int),
    {
        let mut message = String::from_str("Meetup with id ");
        append_decimal(&mut message, id);
        message.append(" not found");
        ApiError { kind: ErrorKind::NotFound, message }
    }

    /// The error that says that the store failed `operation`.
    pub fn failure(operation: Operation, cause: &StoreError) -> (error: ApiError)
        ensures
            error@ == ApiErrorView::failure(operation, cause@),
    {
        let mut message = String::from_str(operation.prefix_of_failure());
        message.append(cause.description.as_str());
        ApiError { kind: operation.kind_of_failure(), message }
    }

    /// The error of an operation that addresses one record by `id`.
    pub fn lookup_failure(operation: Operation, id: i64, cause: &StoreError) -> (error: ApiError)
        ensures
            error@ == ApiErrorView::lookup_failure(operation, id as int, cause@),
    {
        match cause.fault {
            StoreFault::RowNotFound => Self::not_found(id),
            StoreFault::Other => Self::failure(operation, cause),
        }
    }

    /// The status that answers the error.
    pub fn status(&self) -> (status: Status)
        ensures
            status == self@.kind.status(),
    {
        match self.kind {
            ErrorKind::NotFound => Status::NotFound,
            _ => Status::InternalServerError,
        }
    }
}

} // verus!
