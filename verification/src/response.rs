//! What is sent back to the client: a status and an envelope.
//!
//! On the wire the envelope is one JSON object. Its `status` is `"success"`
//! or `"error"`; a success carries `count` and `data`, an error carries
//! `message`, and neither carries what belongs to the other.

use crate::error::{ApiError, ApiErrorView};
use crate::models::{Meetup, MeetupView};
use crate::schemas::GetMeetup;
use crate::store::records;
use vstd::prelude::*;

verus! {

/// The HTTP statuses that the service answers with. There are no others.
#[derive(Debug, Clone, Copy, PartialEq, Eq)]
pub enum Status {
    /// 200: listed, fetched, updated or deleted.
    Success,
    /// 201: created.
    Created,
    /// 404: no record under the identifier.
    NotFound,
    /// 500: the store failed in any other way.
    InternalServerError,
}

impl Status {
    /// The status as a number.
    pub open spec fn number(self) -> int {
        match self {
            Status::Success => 200,
            Status::Created => 201,
            Status::NotFound => 404,
            Status::InternalServerError => 500,
        }
    }

    /// The status as a number.
    pub fn code(&self) -> (code: u16)
        ensures
            code == self.number(),
    {
        match self {
            Status::Success => 200,
            Status::Created => 201,
            Status::NotFound => 404,
            Status::InternalServerError => 500,
        }
    }
}

/// The `data` of a success: one meetup, or a page of them.
#[derive(Debug, Clone, PartialEq, Eq)]
pub enum Payload {
    One(GetMeetup),
    Many(Vec<GetMeetup>),
}

/// What the `data` of a success is, mathematically.
pub enum PayloadView {
    One(MeetupView),
    Many(Seq<MeetupView>),
}

impl PayloadView {
    /// How many meetups the payload holds.
    pub open spec fn len(self) -> nat {
        match self {
            PayloadView::One(_) => 1,
            PayloadView::Many(rows) => rows.len(),
        }
    }
}

impl View for Payload {
    type V = PayloadView;

    open spec fn view(&self) -> PayloadView {
        match self {
            Payload::One(meetup) => PayloadView::One(meetup@),
            Payload::Many(rows) => PayloadView::Many(rows@.map_values(|shown: GetMeetup| shown@)),
        }
    }
}

/// The body of every answer.
#[derive(Debug, Clone, PartialEq, Eq)]
pub enum Envelope {
    Success { count: usize, data: Payload },
    Error { message: String },
}

/// What the body of an answer is, mathematically.
pub enum EnvelopeView {
    Success { count: nat, data: PayloadView },
    Error { message: Seq<char> },
}

impl EnvelopeView {
    /// The `status` of the envelope on the wire.
    pub open spec fn status(self) -> Seq<char> {
        match self {
            EnvelopeView::Success { .. } => "success"@,
            EnvelopeView::Error { .. } => "error"@,
        }
    }

    /// The `count` of a success is the number of meetups in its `data`.
    pub open spec fn well_formed(self) -> bool {
        match self {
            EnvelopeView::Success { count, data } => count == data.len(),
            EnvelopeView::Error { .. } => true,
        }
    }
}

impl View for Envelope {
    type V = EnvelopeView;

    open spec fn view(&self) -> EnvelopeView {
        match self {
            Envelope::Success { count, data } => EnvelopeView::Success {
                count: *count as nat,
                data: data@,
            },
            Envelope::Error { message } => EnvelopeView::Error { message: message@ },
        }
    }
}

impl Envelope {
    /// The `status` of the envelope on the wire: `"success"` or `"error"`.
    pub fn status(&self) -> (text: &'static str)
        ensures
            text@ == self@.status(),
    {
        match self {
            Envelope::Success { .. } => "success",
            Envelope::Error { .. } => "error",
        }
    }
}

/// An answer to the client.
#[derive(Debug, Clone, PartialEq, Eq)]
pub struct Response {
    pub status: Status,
    pub body: Envelope,
}

/// What an answer is, mathematically.
pub struct ResponseView {
    pub status: Status,
    pub body: EnvelopeView,
}

impl ResponseView {
    /// The answer that carries one meetup.
    pub open spec fn one(status: Status, meetup: MeetupView) -> ResponseView {
        ResponseView {
            status,
            body: EnvelopeView::Success { count: 1, data: PayloadView::One(meetup) },
        }
    }

    /// The answer that carries a page of meetups, in the order given.
    pub open spec fn many(rows: Seq<MeetupView>) -> ResponseView {
        ResponseView {
            status: Status::Success,
            body: EnvelopeView::Success { count: rows.len(), data: PayloadView::Many(rows) },
        }
    }

    /// The answer that reports an error: the status of its kind, and its
    /// message.
    pub open spec fn failure(error: ApiErrorView) -> ResponseView {
        ResponseView {
            status: error.kind.status(),
            body: EnvelopeView::Error { message: error.message },
        }
    }

    /// The status says 200 or 201 exactly where the envelope is a success,
    /// and the envelope is well formed.
    pub open spec fn well_formed(self) -> bool {
        &&& self.body.well_formed()
        &&& (self.status is Success || self.status is Created) <==> self.body is Success
    }
}

impl View for Response {
    type V = ResponseView;

    open spec fn view(&self) -> ResponseView {
        ResponseView { status: self.status, body: self.body@ }
    }
}

impl Response {
    /// The answer to a record that was fetched, rewritten or deleted: 200, and
    /// the record in its public view.
    pub fn success(meetup: Meetup) -> (response: Response)
        ensures
            response@ == ResponseView::one(Status::Success, meetup@),
            response@.well_formed(),
    {
        Response {
            status: Status::Success,
            body: Envelope::Success { count: 1, data: Payload::One(GetMeetup::from(meetup)) },
        }
    }

    /// The answer to a record that was created: 201, and the record in its
    /// public view.
    pub fn created(meetup: Meetup) -> (response: Response)
        ensures
            response@ == ResponseView::one(Status::Created, meetup@),
            response@.well_formed(),
    {
        Response {
            status: Status::Created,
            body: Envelope::Success { count: 1, data: Payload::One(GetMeetup::from(meetup)) },
        }
    }

    /// The answer that carries a page of meetups, each in its public view, in
    /// the order in which the store gave them.
    pub fn many(rows: Vec<Meetup>) -> (response: Response)
        ensures
            response@ == ResponseView::many(records(rows@)),
            response@.well_formed(),
    {
        let mut shown: Vec<GetMeetup> = Vec::new();
        let mut i: usize = 0;
        while i < rows.len()
            invariant
                i <= rows.len(),
                shown@.len() == i,
                forall|j: int| 0 <= j < i ==> (#[trigger] shown@[j])@ == rows@[j]@,
            decreases rows.len() - i,
        {
            shown.push(GetMeetup::from(&rows[i]));
            i += 1;
        }
        assert(shown@.map_values(|shown: GetMeetup| shown@) =~= records(rows@));
        Response {
            status: Status::Success,
            body: Envelope::Success { count: shown.len(), data: Payload::Many(shown) },
        }
    }

    /// The answer that reports an error.
    pub fn failure(error: ApiError) -> (response: Response)
        ensures
            response@ == ResponseView::failure(error@),
            response@.well_formed(),
    {
        Response { status: error.status(), body: Envelope::Error { message: error.message } }
    }
}

} // verus!
