//! What is asked of the relational store, and what it can say back.
//!
//! The store keeps one table,
//! `meetups(meetup_id, title, body_text)`, whose `meetup_id` it assigns
//! itself. A [`StoreQuery`] is one parametrized statement on that table. The
//! caller runs it and hands back the rows, or a [`StoreError`].

use crate::models::{Meetup, MeetupView};
use vstd::prelude::*;

verus! {

/// One statement on the table of meetups, with the values of its parameters.
#[derive(Debug, Clone, PartialEq, Eq)]
pub enum StoreQuery {
    /// The records in ascending order of `meetup_id`: at most `limit` of
    /// them, after passing over the first `offset`.
    SelectPage { limit: i64, offset: i64 },
    /// The record under `id`.
    SelectById { id: i64 },
    /// A new record with these fields, under an identifier that the store
    /// picks. The statement returns the record.
    Insert { title: String, body_text: String },
    /// New fields for the record under `id`. The statement returns the
    /// record as it then stands.
    Update { title: String, body_text: String, id: i64 },
    /// The end of the record under `id`. The statement returns the record as
    /// it last stood.
    DeleteById { id: i64 },
}

/// What a statement is, mathematically.
pub enum StoreQueryView {
    SelectPage { limit: int, offset: int },
    SelectById { id: int },
    Insert { title: Seq<char>, body_text: Seq<char> },
    Update { title: Seq<char>, body_text: Seq<char>, id: int },
    DeleteById { id: int },
}

impl View for StoreQuery {
    type V = StoreQueryView;

    open spec fn view(&self) -> StoreQueryView {
        match self {
            StoreQuery::SelectPage { limit, offset } => StoreQueryView::SelectPage {
                limit: *limit as int,
                offset: *offset as int,
            },
            StoreQuery::SelectById { id } => StoreQueryView::SelectById { id: *id as int },
            StoreQuery::Insert { title, body_text } => StoreQueryView::Insert {
                title: title@,
                body_text: body_text@,
            },
            StoreQuery::Update { title, body_text, id } => StoreQueryView::Update {
                title: title@,
                body_text: body_text@,
                id: *id as int,
            },
            StoreQuery::DeleteById { id } => StoreQueryView::DeleteById { id: *id as int },
        }
    }
}

impl StoreQueryView {
    /// The text of the statement. Its parameters `$1`, `$2`, `$3` take the
    /// fields of the variant in the order in which the variant lists them.
    pub open spec fn statement(self) -> Seq<char> {
        match self {
            StoreQueryView::SelectPage { .. } => {
                "SELECT * FROM meetups ORDER BY meetup_id LIMIT $1 OFFSET $2"@
            },
            StoreQueryView::SelectById { .. } => "SELECT * FROM meetups WHERE meetup_id = $1"@,
            StoreQueryView::Insert { .. } => {
                "INSERT INTO meetups (title, body_text) VALUES ($1, $2) RETURNING *"@
            },
            StoreQueryView::Update { .. } => {
                "UPDATE meetups SET title = $1, body_text = $2 WHERE meetup_id = $3 RETURNING *"@
            },
            StoreQueryView::DeleteById { .. } => {
                "DELETE FROM meetups WHERE meetup_id = $1 RETURNING *"@
            },
        }
    }
}

impl StoreQuery {
    /// The text of the statement, to be prepared with its parameters bound in
    /// the order of the variant's fields.
    pub fn statement(&self) -> (text: &'static str)
        ensures
            text@ == self@.statement(),
    {
        match self {
            StoreQuery::SelectPage { .. } => {
                "SELECT * FROM meetups ORDER BY meetup_id LIMIT $1 OFFSET $2"
            },
            StoreQuery::SelectById { .. } => "SELECT * FROM meetups WHERE meetup_id = $1",
            StoreQuery::Insert { .. } => {
                "INSERT INTO meetups (title, body_text) VALUES ($1, $2) RETURNING *"
            },
            StoreQuery::Update { .. } => {
                "UPDATE meetups SET title = $1, body_text = $2 WHERE meetup_id = $3 RETURNING *"
            },
            StoreQuery::DeleteById { .. } => "DELETE FROM meetups WHERE meetup_id = $1 RETURNING *",
        }
    }
}

/// The two things that can go wrong with a statement, as far as the answer to
/// the client depends on it.
#[derive(Debug, Clone, Copy, PartialEq, Eq)]
pub enum StoreFault {
    /// A statement that yields one record found none.
    RowNotFound,
    /// Anything else: the store cannot be reached, or it refuses the
    /// statement.
    Other,
}

/// A failed statement: which fault it was, and the store's own description
/// of it.
#[derive(Debug, Clone, PartialEq, Eq)]
pub struct StoreError {
    pub fault: StoreFault,
    pub description: String,
}

/// What a failed statement is, mathematically.
pub struct StoreErrorView {
    pub fault: StoreFault,
    pub description: Seq<char>,
}

impl View for StoreError {
    type V = StoreErrorView;

    open spec fn view(&self) -> StoreErrorView {
        StoreErrorView { fault: self.fault, description: self.description@ }
    }
}

/// What the store said to a statement that yields one record.
pub open spec fn one_said(said: Result<Meetup, StoreError>) -> Result<MeetupView, StoreErrorView> {
    match said {
        Ok(meetup) => Ok(meetup@),
        Err(error) => Err(error@),
    }
}

/// The records of a page, each as what it is.
pub open spec fn records(rows: Seq<Meetup>) -> Seq<MeetupView> {
    rows.map_values(|meetup: Meetup| meetup@)
}

/// What the store said to a statement that yields a page.
pub open spec fn page_said(said: Result<Vec<Meetup>, StoreError>) -> Result<
    Seq<MeetupView>,
    StoreErrorView,
> {
    match said {
        Ok(rows) => Ok(records(rows@)),
        Err(error) => Err(error@),
    }
}

} // verus!
