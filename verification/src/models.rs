//! The stored record.

use vstd::prelude::*;

verus! {

/// A meetup as the store holds it: a titled text post under the identifier
/// that the store assigned to it.
#[derive(Debug, Clone, PartialEq, Eq)]
pub struct Meetup {
    pub meetup_id: i64,
    pub title: String,
    pub body_text: String,
}

/// What a meetup is, mathematically: an integer and two texts.
pub struct MeetupView {
    pub meetup_id: int,
    pub title: Seq<char>,
    pub body_text: Seq<char>,
}

impl View for Meetup {
    type V = MeetupView;

    open spec fn view(&self) -> MeetupView {
        MeetupView { meetup_id: self.meetup_id as int, title: self.title@, body_text: self.body_text@ }
    }
}

} // verus!
