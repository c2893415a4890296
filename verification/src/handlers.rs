//! The five operations on meetups, each as the statement that it asks the
//! store to run and the answer that it owes the client for what the store
//! said.
//!
//! | Method | Path | Statement | Answer |
//! |---|---|---|---|
//! | GET | /api/meetups | [`get_meetup_list_query`] | [`get_meetup_list`] |
//! | GET | /api/meetups/{id} | [`get_meetup_query`] | [`get_meetup`] |
//! | POST | /api/meetups | [`create_meetup_query`] | [`create_meetup`] |
//! | PUT | /api/meetups/{id} | [`put_meetup_query`], then what [`put_meetup`] asks | [`put_meetup`] or [`put_meetup_written`] |
//! | DELETE | /api/meetups/{id} | [`delete_meetup_query`] | [`delete_meetup`] |
//!
//! An update takes two statements: it fetches the record, lays the payload
//! over it and writes the result. The two are not one transaction: what
//! another request does to the record in between is not guarded against.

use crate::error::{ApiError, ApiErrorView, Operation};
use crate::models::{Meetup, MeetupView};
use crate::response::{Response, ResponseView, Status};
use crate::schemas::{CreateMeetup, CreateMeetupView, FilterOptions, UpdateMeetup, UpdateMeetupView};
use crate::store::{one_said, page_said, StoreError, StoreErrorView, StoreQuery, StoreQueryView};
use vstd::prelude::*;

verus! {

/// The paging parameters of a listing whose request named none at all: both
/// absent.
pub open spec fn filter_or_default(filter: Option<FilterOptions>) -> FilterOptions {
    match filter {
        Some(filter) => filter,
        None => FilterOptions { limit: None, offset: None },
    }
}

/// The statement of a listing: a page of the size asked for, after all the
/// pages before it, as far as the store can count.
pub open spec fn list_query(filter: Option<FilterOptions>) -> StoreQueryView {
    StoreQueryView::SelectPage {
        limit: filter_or_default(filter).limit_or_default(),
        offset: filter_or_default(filter).bounded_skip(),
    }
}

/// The answer to a listing: the page as the store gave it, with 200, or the
/// store's failure, with 500.
pub open spec fn list_reply(said: Result<Seq<MeetupView>, StoreErrorView>) -> ResponseView {
    match said {
        Ok(rows) => ResponseView::many(rows),
        Err(cause) => ResponseView::failure(ApiErrorView::failure(Operation::List, cause)),
    }
}

/// The answer to a lookup: the record, with 200; 404 where the store found
/// no row; 500 where it failed otherwise.
pub open spec fn get_reply(id: int, said: Result<MeetupView, StoreErrorView>) -> ResponseView {
    match said {
        Ok(meetup) => ResponseView::one(Status::Success, meetup),
        Err(cause) => ResponseView::failure(
            ApiErrorView::lookup_failure(Operation::Get, id, cause),
        ),
    }
}

/// The statement of a creation: the payload's two fields, inserted.
pub open spec fn create_query(payload: CreateMeetupView) -> StoreQueryView {
    StoreQueryView::Insert { title: payload.title, body_text: payload.body_text }
}

/// The answer to a creation: the record as the store returned it, with 201,
/// or the store's failure, with 500.
pub open spec fn create_reply(said: Result<MeetupView, StoreErrorView>) -> ResponseView {
    match said {
        Ok(meetup) => ResponseView::one(Status::Created, meetup),
        Err(cause) => ResponseView::failure(ApiErrorView::failure(Operation::Create, cause)),
    }
}

/// What an update does next.
#[derive(Debug, Clone, PartialEq, Eq)]
pub enum Step {
    /// Run this statement, and answer with [`put_meetup_written`].
    Ask(StoreQuery),
    /// Answer with this.
    Answer(Response),
}

/// What an update does next, mathematically.
pub enum StepView {
    Ask(StoreQueryView),
    Answer(ResponseView),
}

impl View for Step {
    type V = StepView;

    open spec fn view(&self) -> StepView {
        match self {
            Step::Ask(query) => StepView::Ask(query@),
            Step::Answer(response) => StepView::Answer(response@),
        }
    }
}

/// What an update does once the store has said what stands under `id`. Where
/// the record is there, it writes the payload laid over the record, under
/// `id`. Where it is not, it answers as a lookup does.
pub open spec fn put_step(
    id: int,
    update: UpdateMeetupView,
    said: Result<MeetupView, StoreErrorView>,
) -> StepView {
    match said {
        Ok(current) => StepView::Ask(
            StoreQueryView::Update {
                title: update.over(current).title,
                body_text: update.over(current).body_text,
                id,
            },
        ),
        Err(cause) => StepView::Answer(
            ResponseView::failure(ApiErrorView::lookup_failure(Operation::Get, id, cause)),
        ),
    }
}

/// The answer to an update once the store has said how the write went: the
/// record as it then stands, with 200, or the store's failure, with 500. A
/// record that went away between the two statements is such a failure.
pub open spec fn put_reply(said: Result<MeetupView, StoreErrorView>) -> ResponseView {
    match said {
        Ok(meetup) => ResponseView::one(Status::Success, meetup),
        Err(cause) => ResponseView::failure(ApiErrorView::failure(Operation::Update, cause)),
    }
}

/// The answer to a deletion: the record as it last stood, with 200; 404
/// where the store found no row; 500 where it failed otherwise.
pub open spec fn delete_reply(id: int, said: Result<MeetupView, StoreErrorView>) -> ResponseView {
    match said {
        Ok(meetup) => ResponseView::one(Status::Success, meetup),
        Err(cause) => ResponseView::failure(
            ApiErrorView::lookup_failure(Operation::Delete, id, cause),
        ),
    }
}

/// Whatever the store said, the answer is well formed, and its status is
/// the one that the outcome calls for: 200 where a listing, a lookup, an
/// update or a deletion went through, 201 where a creation did, 404 where a
/// lookup, a deletion or the lookup of an update found no row, and 500 for
/// every other thing that the store can say.
pub proof fn lemma_status_of_each_outcome(
    id: int,
    update: UpdateMeetupView,
    one: Result<MeetupView, StoreErrorView>,
    page: Result<Seq<MeetupView>, StoreErrorView>,
)
    ensures
        list_reply(page).well_formed(),
        get_reply(id, one).well_formed(),
        create_reply(one).well_formed(),
        put_reply(one).well_formed(),
        delete_reply(id, one).well_formed(),
        put_step(id, update, one) is Answer ==> put_step(id, update, one)->Answer_0.well_formed(),
        list_reply(page).status == (if page is Ok {
            Status::Success
        } else {
            Status::InternalServerError
        }),
        create_reply(one).status == (if one is Ok {
            Status::Created
        } else {
            Status::InternalServerError
        }),
        put_reply(one).status == (if one is Ok {
            Status::Success
        } else {
            Status::InternalServerError
        }),
        get_reply(id, one).status == (if one is Ok {
            Status::Success
        } else if one->Err_0.fault is RowNotFound {
            Status::NotFound
        } else {
            Status::InternalServerError
        }),
        delete_reply(id, one).status == get_reply(id, one).status,
        put_step(id, update, one) is Ask <==> one is Ok,
        put_step(id, update, one) is Answer ==> put_step(id, update, one)->Answer_0 == get_reply(
            id,
            one,
        ),
{
}

/// The statement that fetches the record of an update.
pub fn put_meetup_query(id: i64) -> (query: StoreQuery)
    ensures
        query@ == (StoreQueryView::SelectById { id: id as int }),
{
    StoreQuery::SelectById { id }
}

/// What an update does once the store has said what stands under `id`.
pub fn put_meetup(id: i64, update: UpdateMeetup, fetched: Result<Meetup, StoreError>) -> (step:
    Step)
    ensures
        step@ == put_step(id as int, update@, one_said(fetched)),
{
    match fetched {
        Ok(current) => {
            let merged = update.over(current);
            Step::Ask(StoreQuery::Update { title: merged.title, body_text: merged.body_text, id })
        },
        Err(cause) => Step::Answer(
            Response::failure(ApiError::lookup_failure(Operation::Get, id, &cause)),
        ),
    }
}

/// The answer to an update once the store has said how the write went.
pub fn put_meetup_written(written: Result<Meetup, StoreError>) -> (response: Response)
    ensures
        response@ == put_reply(one_said(written)),
{
    match written {
        Ok(meetup) => Response::success(meetup),
        Err(cause) => Response::failure(ApiError::failure(Operation::Update, &cause)),
    }
}

/// The statement of a lookup.
pub fn get_meetup_query(id: i64) -> (query: StoreQuery)
    ensures
        query@ == (StoreQueryView::SelectById { id: id as int }),
{
    StoreQuery::SelectById { id }
}

/// The answer to a lookup.
pub fn get_meetup(id: i64, found: Result<Meetup, StoreError>) -> (response: Response)
    ensures
        response@ == get_reply(id as int, one_said(found)),
{
    match found {
        Ok(meetup) => Response::success(meetup),
        Err(cause) => Response::failure(ApiError::lookup_failure(Operation::Get, id, &cause)),
    }
}

/// The statement of a deletion.
pub fn delete_meetup_query(id: i64) -> (query: StoreQuery)
    ensures
        query@ == (StoreQueryView::DeleteById { id: id as int }),
{
    StoreQuery::DeleteById { id }
}

/// The answer to a deletion.
pub fn delete_meetup(id: i64, deleted: Result<Meetup, StoreError>) -> (response: Response)
    ensures
        response@ == delete_reply(id as int, one_said(deleted)),
{
    match deleted {
        Ok(meetup) => Response::success(meetup),
        Err(cause) => Response::failure(ApiError::lookup_failure(Operation::Delete, id, &cause)),
    }
}

/// The statement of a listing. A request without paging parameters counts as
/// one in which both are absent. Every filter has its statement: no page size
/// is too large and no page too far.
pub fn get_meetup_list_query(filter: Option<FilterOptions>) -> (query: StoreQuery)
    ensures
        query@ == list_query(filter),
{
    let filter = filter.unwrap_or_default();
    StoreQuery::SelectPage { limit: filter.page_size(), offset: filter.records_before() }
}

/// The answer to a listing.
pub fn get_meetup_list(listed: Result<Vec<Meetup>, StoreError>) -> (response: Response)
    ensures
        response@ == list_reply(page_said(listed)),
{
    match listed {
        Ok(rows) => Response::many(rows),
        Err(cause) => Response::failure(ApiError::failure(Operation::List, &cause)),
    }
}

/// The statement of a creation.
pub fn create_meetup_query(payload: CreateMeetup) -> (query: StoreQuery)
    ensures
        query@ == create_query(payload@),
{
    StoreQuery::Insert { title: payload.title, body_text: payload.body_text }
}

/// The answer to a creation.
pub fn create_meetup(created: Result<Meetup, StoreError>) -> (response: Response)
    ensures
        response@ == create_reply(one_said(created)),
{
    match created {
        Ok(meetup) => Response::created(meetup),
        Err(cause) => Response::failure(ApiError::failure(Operation::Create, &cause)),
    }
}

} // verus!
