//! The shapes that cross the wire: the paging parameters of a listing, the
//! public view of a meetup, and the payloads that create and update one.

use crate::models::{Meetup, MeetupView};
use vstd::prelude::*;

verus! {

/// The paging parameters of a listing. Either may be absent: a listing that
/// names no page size gets ten records, and one that names no page gets the
/// first. Pages are counted from one.
#[derive(Debug, Clone, Copy, PartialEq, Eq)]
pub struct FilterOptions {
    pub limit: Option<i64>,
    pub offset: Option<i64>,
}

impl Default for FilterOptions {
    fn default() -> (filter: Self)
        ensures
            filter.limit is None,
            filter.offset is None,
    {
        FilterOptions { limit: None, offset: None }
    }
}

impl FilterOptions {
    /// The page size asked for, or the default.
    pub open spec fn limit_or_default(&self) -> int {
        match self.limit {
            Some(limit) => limit as int,
            None => 10,
        }
    }

    /// The page asked for, or the default.
    pub open spec fn offset_or_default(&self) -> int {
        match self.offset {
            Some(offset) => offset as int,
            None => 1,
        }
    }

    /// How many records lie before the page: all the pages before it, each of
    /// the page size. That is `(offset - 1) * limit`, written here as a
    /// product of the two parameters themselves.
    pub open spec fn skip(&self) -> int {
        self.offset_or_default() * self.limit_or_default() - self.limit_or_default()
    }

    /// The number of records to pass over as the store takes it. The store's
    /// parameter is a signed 64-bit integer, so a number beyond its range is
    /// handed over as the nearest that it holds.
    pub open spec fn bounded_skip(&self) -> int {
        if self.skip() < i64::MIN {
            i64::MIN as int
        } else if self.skip() > i64::MAX {
            i64::MAX as int
        } else {
            self.skip()
        }
    }

    /// The page size asked for, or the default.
    pub fn page_size(&self) -> (limit: i64)
        ensures
            limit == self.limit_or_default(),
    {
        match self.limit {
            Some(limit) => limit,
            None => 10,
        }
    }

    /// The number of records to pass over, as the store takes it.
    pub fn records_before(&self) -> (skip: i64)
        ensures
            skip == self.bounded_skip(),
    {
        let limit: i128 = self.page_size() as i128;
        let before: i128 = match self.offset {
            Some(offset) => offset as i128 - 1,
            None => 0,
        };
        assert(-0x8000_0000_0000_0001 * 0x8000_0000_0000_0000 <= before * limit
            <= 0x8000_0000_0000_0001 * 0x8000_0000_0000_0000) by (nonlinear_arith)
            requires
                -0x8000_0000_0000_0001 <= before <= 0x8000_0000_0000_0000,
                -0x8000_0000_0000_0000 <= limit <= 0x8000_0000_0000_0000,
        ;
        assert(before * limit == self.skip()) by (nonlinear_arith)
            requires
                before == self.offset_or_default() - 1,
                limit == self.limit_or_default(),
                self.skip() == self.offset_or_default() * self.limit_or_default()
                    - self.limit_or_default(),
        ;
        let skip: i128 = before * limit;
        if skip < i64::MIN as i128 {
            i64::MIN
        } else if skip > i64::MAX as i128 {
            i64::MAX
        } else {
            skip as i64
        }
    }
}

/// The records before a page are the pages before it, each of the page size;
/// and where the page size is not negative and pages are counted from one or
/// more, no fewer than none.
pub proof fn lemma_skip_is_pages_before_times_size(filter: FilterOptions)
    ensures
        filter.skip() == (filter.offset_or_default() - 1) * filter.limit_or_default(),
        filter.limit_or_default() >= 0 && filter.offset_or_default() >= 1 ==> filter.skip() >= 0,
{
    let limit = filter.limit_or_default();
    let offset = filter.offset_or_default();
    assert(offset * limit - limit == (offset - 1) * limit) by (nonlinear_arith);
    assert(limit >= 0 && offset >= 1 ==> (offset - 1) * limit >= 0) by (nonlinear_arith);
}

/// A meetup as clients see it. It has the fields of the stored record and
/// loses none of them.
#[derive(Debug, Clone, PartialEq, Eq)]
pub struct GetMeetup {
    pub meetup_id: i64,
    pub title: String,
    pub body_text: String,
}

impl View for GetMeetup {
    type V = MeetupView;

    open spec fn view(&self) -> MeetupView {
        MeetupView {
            meetup_id: self.meetup_id as int,
            title: self.title@,
            body_text: self.body_text@,
        }
    }
}

impl From<Meetup> for GetMeetup {
    fn from(meetup: Meetup) -> (shown: Self) {
        Self { meetup_id: meetup.meetup_id, title: meetup.title, body_text: meetup.body_text }
    }
}

impl vstd::std_specs::convert::FromSpecImpl<Meetup> for GetMeetup {
    open spec fn obeys_from_spec() -> bool {
        true
    }

    open spec fn from_spec(meetup: Meetup) -> Self {
        GetMeetup { meetup_id: meetup.meetup_id, title: meetup.title, body_text: meetup.body_text }
    }
}

impl<'a> From<&'a Meetup> for GetMeetup {
    fn from(meetup: &'a Meetup) -> (shown: Self) {
        Self {
            meetup_id: meetup.meetup_id,
            title: meetup.title.clone(),
            body_text: meetup.body_text.clone(),
        }
    }
}

impl<'a> vstd::std_specs::convert::FromSpecImpl<&'a Meetup> for GetMeetup {
    open spec fn obeys_from_spec() -> bool {
        true
    }

    open spec fn from_spec(meetup: &'a Meetup) -> Self {
        GetMeetup { meetup_id: meetup.meetup_id, title: meetup.title, body_text: meetup.body_text }
    }
}

/// The public view of a record is the record: the projection drops nothing
/// and changes nothing, whether it consumes the record or borrows it.
pub proof fn lemma_public_view_is_lossless(meetup: Meetup)
    ensures
        <GetMeetup as vstd::std_specs::convert::FromSpec<Meetup>>::from_spec(meetup)@ == meetup@,
        <GetMeetup as vstd::std_specs::convert::FromSpec<&Meetup>>::from_spec(&meetup)@
            == meetup@,
{
}

/// The payload that creates a meetup. Both fields are required.
#[derive(Debug, Clone, PartialEq, Eq)]
pub struct CreateMeetup {
    pub title: String,
    pub body_text: String,
}

/// What a creation payload is, mathematically.
pub struct CreateMeetupView {
    pub title: Seq<char>,
    pub body_text: Seq<char>,
}

impl View for CreateMeetup {
    type V = CreateMeetupView;

    open spec fn view(&self) -> CreateMeetupView {
        CreateMeetupView { title: self.title@, body_text: self.body_text@ }
    }
}

/// The payload that updates a meetup. An absent field means: leave it as it
/// is.
#[derive(Debug, Clone, PartialEq, Eq)]
pub struct UpdateMeetup {
    pub title: Option<String>,
    pub body_text: Option<String>,
}

/// What an update payload is, mathematically.
pub struct UpdateMeetupView {
    pub title: Option<Seq<char>>,
    pub body_text: Option<Seq<char>>,
}

impl UpdateMeetupView {
    /// The record that results when the payload is laid over `current`: each
    /// field that the payload gives replaces the record's, each that it
    /// leaves out stays, and the identifier stays in any case.
    pub open spec fn over(self, current: MeetupView) -> MeetupView {
        MeetupView {
            meetup_id: current.meetup_id,
            title: match self.title {
                Some(title) => title,
                None => current.title,
            },
            body_text: match self.body_text {
                Some(body_text) => body_text,
                None => current.body_text,
            },
        }
    }
}

impl View for UpdateMeetup {
    type V = UpdateMeetupView;

    open spec fn view(&self) -> UpdateMeetupView {
        UpdateMeetupView {
            title: match self.title {
                Some(title) => Some(title@),
                None => None,
            },
            body_text: match self.body_text {
                Some(body_text) => Some(body_text@),
                None => None,
            },
        }
    }
}

impl UpdateMeetup {
    /// Lays the payload over the record that the store holds.
    pub fn over(self, current: Meetup) -> (merged: Meetup)
        ensures
            merged@ == self@.over(current@),
    {
        Meetup {
            meetup_id: current.meetup_id,
            title: match self.title {
                Some(title) => title,
                None => current.title,
            },
            body_text: match self.body_text {
                Some(body_text) => body_text,
                None => current.body_text,
            },
        }
    }
}

} // verus!
