//! What the library takes the store to be, and what follows for a client
//! who talks to it through the handlers.
//!
//! Nothing in this file runs. [`Table`] states the part of a relational
//! store that the handlers rely on: which record a statement yields and what
//! the table holds afterwards. The lemmas below hold of any store that keeps
//! its table as [`Table`] says and can be reached.

use crate::error::ApiErrorView;
use crate::handlers::{
    create_query, create_reply, delete_reply, filter_or_default, get_reply, list_query, list_reply,
    put_reply, put_step, StepView,
};
use crate::models::MeetupView;
use crate::response::{ResponseView, Status};
use crate::schemas::{
    lemma_skip_is_pages_before_times_size, CreateMeetupView, FilterOptions, UpdateMeetupView,
};
use crate::store::{StoreErrorView, StoreQueryView};
use vstd::prelude::*;

verus! {

/// The table of meetups: its records in ascending order of identifier, and
/// the identifier that the next new record gets.
pub struct Table {
    pub rows: Seq<MeetupView>,
    pub next_id: int,
}

impl Table {
    /// The table before anything was created. Identifiers start at one.
    pub open spec fn empty() -> Table {
        Table { rows: Seq::empty(), next_id: 1 }
    }

    /// Identifiers start at one and ascend strictly, so none occurs twice,
    /// and each was assigned before the next one to be assigned.
    pub open spec fn well_formed(self) -> bool {
        &&& 1 <= self.next_id
        &&& forall|i: int, j: int|
            0 <= i < j < self.rows.len() ==> self.rows[i].meetup_id < self.rows[j].meetup_id
        &&& forall|i: int|
            0 <= i < self.rows.len() ==> 1 <= (#[trigger] self.rows[i]).meetup_id < self.next_id
    }

    /// Every identifier in the table is one that a record can carry: it
    /// lies within the signed 64-bit integers.
    pub open spec fn within_i64(self) -> bool {
        forall|i: int| 0 <= i < self.rows.len() ==> self.rows[i].meetup_id <= i64::MAX
    }

    /// Whether a record stands under `id`.
    pub open spec fn holds(self, id: int) -> bool {
        exists|i: int| 0 <= i < self.rows.len() && self.rows[i].meetup_id == id
    }

    /// Where the record under `id` stands, if there is one.
    pub open spec fn position(self, id: int) -> int {
        choose|i: int| 0 <= i < self.rows.len() && self.rows[i].meetup_id == id
    }

    /// The record under `id`, if there is one.
    pub open spec fn record(self, id: int) -> MeetupView {
        self.rows[self.position(id)]
    }

    /// The records of a page: at most `limit` of them, after passing over
    /// the first `offset`, in ascending order of identifier.
    pub open spec fn page(self, limit: int, offset: int) -> Seq<MeetupView>
        recommends
            0 <= limit,
            0 <= offset,
    {
        let from = if offset < self.rows.len() {
            offset
        } else {
            self.rows.len() as int
        };
        let to = if from + limit < self.rows.len() {
            from + limit
        } else {
            self.rows.len() as int
        };
        self.rows.subrange(from, to)
    }

    /// The record that a statement yields, if it yields one: the record
    /// looked up, the record inserted, the record as rewritten, the record
    /// as it stood before it was deleted.
    pub open spec fn yields(self, query: StoreQueryView) -> Option<MeetupView>
        recommends
            !(query is SelectPage),
    {
        match query {
            StoreQueryView::SelectPage { .. } => None,
            StoreQueryView::SelectById { id } => if self.holds(id) {
                Some(self.record(id))
            } else {
                None
            },
            StoreQueryView::Insert { title, body_text } => Some(
                MeetupView { meetup_id: self.next_id, title, body_text },
            ),
            StoreQueryView::Update { title, body_text, id } => if self.holds(id) {
                Some(MeetupView { meetup_id: id, title, body_text })
            } else {
                None
            },
            StoreQueryView::DeleteById { id } => if self.holds(id) {
                Some(self.record(id))
            } else {
                None
            },
        }
    }

    /// The table after a statement. An identifier, once assigned, is not
    /// assigned again, whatever becomes of its record.
    pub open spec fn after(self, query: StoreQueryView) -> Table {
        match query {
            StoreQueryView::SelectPage { .. } => self,
            StoreQueryView::SelectById { .. } => self,
            StoreQueryView::Insert { title, body_text } => Table {
                rows: self.rows.push(MeetupView { meetup_id: self.next_id, title, body_text }),
                next_id: self.next_id + 1,
            },
            StoreQueryView::Update { title, body_text, id } => if self.holds(id) {
                Table {
                    rows: self.rows.update(
                        self.position(id),
                        MeetupView { meetup_id: id, title, body_text },
                    ),
                    next_id: self.next_id,
                }
            } else {
                self
            },
            StoreQueryView::DeleteById { id } => if self.holds(id) {
                Table { rows: self.rows.remove(self.position(id)), next_id: self.next_id }
            } else {
                self
            },
        }
    }

    /// What a store that can be reached says to a statement that yields one
    /// record: the record, or that it found no row.
    pub open spec fn says_one(
        self,
        query: StoreQueryView,
        said: Result<MeetupView, StoreErrorView>,
    ) -> bool
        recommends
            !(query is SelectPage),
    {
        match self.yields(query) {
            Some(row) => said == Ok::<MeetupView, StoreErrorView>(row),
            None => said is Err && said->Err_0.fault is RowNotFound,
        }
    }

    /// What a store that can be reached says to the statement of a page
    /// whose parameters are not negative: the page.
    pub open spec fn says_page(
        self,
        query: StoreQueryView,
        said: Result<Seq<MeetupView>, StoreErrorView>,
    ) -> bool
        recommends
            query is SelectPage,
    {
        query matches StoreQueryView::SelectPage { limit, offset } && said == Ok::<
            Seq<MeetupView>,
            StoreErrorView,
        >(self.page(limit, offset))
    }
}

/// In a well-formed table a record stands under `id` at `i` only if `i` is
/// the position of `id`.
proof fn lemma_position_is_unique(table: Table, id: int, i: int)
    requires
        table.well_formed(),
        0 <= i < table.rows.len(),
        table.rows[i].meetup_id == id,
    ensures
        table.holds(id),
        table.position(id) == i,
{
    let p = table.position(id);
    assert(0 <= p < table.rows.len() && table.rows[p].meetup_id == id);
    if p < i {
        assert(table.rows[p].meetup_id < table.rows[i].meetup_id);
    } else if i < p {
        assert(table.rows[i].meetup_id < table.rows[p].meetup_id);
    }
}

/// No statement breaks the table: identifiers stay in strictly ascending
/// order, so none is ever held twice, and none that was assigned is
/// assigned again.
pub proof fn lemma_after_keeps_well_formed(table: Table, query: StoreQueryView)
    requires
        table.well_formed(),
    ensures
        table.after(query).well_formed(),
        table.after(query).next_id >= table.next_id,
{
    let next = table.after(query);
    match query {
        StoreQueryView::SelectPage { .. } => {},
        StoreQueryView::SelectById { .. } => {},
        StoreQueryView::Insert { .. } => {},
        StoreQueryView::Update { title, body_text, id } => {
            if table.holds(id) {
                assert forall|i: int, j: int| 0 <= i < j < next.rows.len() implies next.rows[i].meetup_id
                    < next.rows[j].meetup_id by {
                    assert(next.rows[i].meetup_id == table.rows[i].meetup_id);
                    assert(next.rows[j].meetup_id == table.rows[j].meetup_id);
                }
                assert forall|i: int| 0 <= i < next.rows.len() implies next.rows[i].meetup_id
                    < next.next_id by {
                    assert(next.rows[i].meetup_id == table.rows[i].meetup_id);
                }
            }
        },
        StoreQueryView::DeleteById { id } => {
            if table.holds(id) {
                let p = table.position(id);
                assert forall|i: int, j: int| 0 <= i < j < next.rows.len() implies next.rows[i].meetup_id
                    < next.rows[j].meetup_id by {
                    let a = if i < p { i } else { i + 1 };
                    let b = if j < p { j } else { j + 1 };
                    assert(next.rows[i] == table.rows[a]);
                    assert(next.rows[j] == table.rows[b]);
                }
                assert forall|i: int| 0 <= i < next.rows.len() implies next.rows[i].meetup_id
                    < next.next_id by {
                    let a = if i < p { i } else { i + 1 };
                    assert(next.rows[i] == table.rows[a]);
                }
            }
        },
    }
}

/// In a well-formed table the record at `i` has an identifier of at least
/// `i + 1`.
proof fn lemma_identifier_is_past_position(table: Table, i: int)
    requires
        table.well_formed(),
        0 <= i < table.rows.len(),
    ensures
        table.rows[i].meetup_id >= i + 1,
    decreases i,
{
    if i > 0 {
        lemma_identifier_is_past_position(table, i - 1);
        assert(table.rows[i - 1].meetup_id < table.rows[i].meetup_id);
    }
}

/// A table whose identifiers lie within the signed 64-bit integers holds no
/// more records than the largest of them.
pub proof fn lemma_table_is_countable(table: Table)
    requires
        table.well_formed(),
        table.within_i64(),
    ensures
        table.rows.len() <= i64::MAX,
{
    if table.rows.len() > 0 {
        lemma_identifier_is_past_position(table, table.rows.len() - 1);
    }
}

/// To hand the store the number of records to pass over as the nearest that
/// it can count loses nothing: where the page size is at least zero and the
/// page at least one, and the table holds no more records than the store can
/// count, the page after the bounded number is the page after the number
/// itself.
pub proof fn lemma_bounded_skip_gives_the_same_page(table: Table, filter: FilterOptions)
    requires
        table.rows.len() <= i64::MAX,
        filter.limit_or_default() >= 0,
        filter.offset_or_default() >= 1,
    ensures
        table.page(filter.limit_or_default(), filter.bounded_skip()) == table.page(
            filter.limit_or_default(),
            filter.skip(),
        ),
{
    lemma_skip_is_pages_before_times_size(filter);
}

/// A listing with a page size of at least zero, on a page of at least one,
/// answers 200 with at most as many records as the page size: those that
/// stand in the table after `(page - 1) * size` others, in ascending order of
/// identifier. However large the page size and however far the page, the
/// listing has its statement and its answer; a page past the last record is
/// empty.
pub proof fn lemma_list_answers_the_page(
    table: Table,
    filter: Option<FilterOptions>,
    said: Result<Seq<MeetupView>, StoreErrorView>,
)
    requires
        table.well_formed(),
        table.within_i64(),
        filter_or_default(filter).limit_or_default() >= 0,
        filter_or_default(filter).offset_or_default() >= 1,
        table.says_page(list_query(filter), said),
    ensures
        list_reply(said).status == Status::Success,
        list_reply(said).body is Success,
        list_reply(said).body->data is Many,
        ({
            let limit = filter_or_default(filter).limit_or_default();
            let skip = (filter_or_default(filter).offset_or_default() - 1) * limit;
            let shown = list_reply(said).body->data->Many_0;
            &&& list_reply(said).body->count == shown.len()
            &&& shown.len() <= limit
            &&& skip >= 0
            &&& shown == table.page(limit, skip)
            &&& shown.len() == (if table.rows.len() <= skip {
                0
            } else if table.rows.len() - skip <= limit {
                table.rows.len() - skip
            } else {
                limit
            })
            &&& forall|k: int| 0 <= k < shown.len() ==> shown[k] == table.rows[skip + k]
            &&& forall|a: int, b: int|
                0 <= a < b < shown.len() ==> shown[a].meetup_id < shown[b].meetup_id
        }),
{
    let chosen = filter_or_default(filter);
    let limit = chosen.limit_or_default();
    let skip = (chosen.offset_or_default() - 1) * limit;
    lemma_skip_is_pages_before_times_size(chosen);
    lemma_table_is_countable(table);
    lemma_bounded_skip_gives_the_same_page(table, chosen);
    let shown = list_reply(said).body->data->Many_0;
    assert(shown == table.page(limit, skip));
    assert forall|a: int, b: int| 0 <= a < b < shown.len() implies shown[a].meetup_id
        < shown[b].meetup_id by {
        assert(shown[a] == table.rows[skip + a]);
        assert(shown[b] == table.rows[skip + b]);
    }
}

/// The records that a listing of page `offset` with page size `limit` answers
/// with, where the store can be reached: those of the page that the
/// listing's statement names.
pub open spec fn listed(table: Table, limit: i64, offset: i64) -> Seq<MeetupView> {
    let query = list_query(Some(FilterOptions { limit: Some(limit), offset: Some(offset) }));
    list_reply(
        Ok::<Seq<MeetupView>, StoreErrorView>(table.page(query->limit, query->offset)),
    ).body->data->Many_0
}

/// What the listings of pages one to `pages` answer with, joined in the order
/// of the pages.
pub open spec fn listed_up_to(table: Table, limit: i64, pages: nat) -> Seq<MeetupView>
    decreases pages,
{
    if pages == 0 {
        Seq::empty()
    } else {
        listed_up_to(table, limit, (pages - 1) as nat) + listed(table, limit, pages as i64)
    }
}

/// A page that begins at or after the end of the table is empty.
pub proof fn lemma_page_past_the_last_is_empty(table: Table, limit: i64, offset: i64)
    requires
        table.well_formed(),
        table.within_i64(),
        limit >= 0,
        offset >= 1,
        (offset - 1) * limit >= table.rows.len(),
    ensures
        listed(table, limit, offset) == Seq::<MeetupView>::empty(),
{
    let filter = FilterOptions { limit: Some(limit), offset: Some(offset) };
    lemma_skip_is_pages_before_times_size(filter);
    lemma_table_is_countable(table);
    lemma_bounded_skip_gives_the_same_page(table, filter);
    assert(listed(table, limit, offset) =~= Seq::<MeetupView>::empty());
}

/// The pages of a table, each of a size of at least one, lie end to end:
/// pages one to `pages` joined are the first `pages * limit` records of the
/// table, or all of them where it has no more. So every record is on one
/// page and on one only, and once the pages reach the end of the table they
/// make up the table.
pub proof fn lemma_pages_lie_end_to_end(table: Table, limit: i64, pages: nat)
    requires
        table.well_formed(),
        table.within_i64(),
        limit >= 1,
        pages <= i64::MAX,
    ensures
        listed_up_to(table, limit, pages) == table.rows.subrange(
            0,
            if pages * limit <= table.rows.len() {
                pages * limit
            } else {
                table.rows.len() as int
            },
        ),
        pages * limit >= table.rows.len() ==> listed_up_to(table, limit, pages) == table.rows,
    decreases pages,
{
    let n = table.rows.len() as int;
    if pages == 0 {
        assert(pages * limit == 0) by (nonlinear_arith)
            requires
                pages == 0,
        ;
        assert(listed_up_to(table, limit, pages) =~= table.rows.subrange(0, 0));
    } else {
        let before = (pages - 1) as nat;
        lemma_pages_lie_end_to_end(table, limit, before);
        let filter = FilterOptions { limit: Some(limit), offset: Some(pages as i64) };
        lemma_skip_is_pages_before_times_size(filter);
        lemma_table_is_countable(table);
        lemma_bounded_skip_gives_the_same_page(table, filter);
        assert(before * limit == (pages as i64 - 1) * limit);
        assert(pages * limit == before * limit + limit) by (nonlinear_arith)
            requires
                before == pages - 1,
        ;
        assert(before * limit >= 0) by (nonlinear_arith)
            requires
                before >= 0,
                limit >= 1,
        ;
        let from = if before * limit <= n {
            before * limit
        } else {
            n
        };
        let to = if pages * limit <= n {
            pages * limit
        } else {
            n
        };
        assert(listed(table, limit, pages as i64) =~= table.rows.subrange(from, to));
        assert(listed_up_to(table, limit, pages) =~= table.rows.subrange(0, to));
    }
    if pages * limit >= n {
        assert(table.rows.subrange(0, n) =~= table.rows);
    }
}

/// A lookup under an identifier that the table does not hold answers 404,
/// and says which identifier it was.
pub proof fn lemma_get_of_absent_is_not_found(
    table: Table,
    id: int,
    said: Result<MeetupView, StoreErrorView>,
)
    requires
        !table.holds(id),
        table.says_one(StoreQueryView::SelectById { id }, said),
    ensures
        get_reply(id, said) == ResponseView::failure(ApiErrorView::not_found(id)),
        get_reply(id, said).status == Status::NotFound,
{
}

/// An identifier that was never assigned is not in the table.
pub proof fn lemma_unassigned_is_absent(table: Table, id: int)
    requires
        table.well_formed(),
        id >= table.next_id,
    ensures
        !table.holds(id),
{
}

/// A creation answers 201 with a record that has the payload's title and
/// text, and a lookup under that record's identifier then answers 200 with
/// the same record.
pub proof fn lemma_create_then_get(
    table: Table,
    payload: CreateMeetupView,
    created: Result<MeetupView, StoreErrorView>,
    found: Result<MeetupView, StoreErrorView>,
)
    requires
        table.well_formed(),
        table.says_one(create_query(payload), created),
        created is Ok ==> table.after(create_query(payload)).says_one(
            StoreQueryView::SelectById { id: created->Ok_0.meetup_id },
            found,
        ),
    ensures
        created is Ok,
        created->Ok_0.title == payload.title,
        created->Ok_0.body_text == payload.body_text,
        create_reply(created) == ResponseView::one(Status::Created, created->Ok_0),
        get_reply(created->Ok_0.meetup_id, found) == ResponseView::one(
            Status::Success,
            created->Ok_0,
        ),
{
    let row = created->Ok_0;
    let next = table.after(create_query(payload));
    assert(next.rows[table.rows.len() as int] == row);
    lemma_after_keeps_well_formed(table, create_query(payload));
    lemma_position_is_unique(next, row.meetup_id, table.rows.len() as int);
}

/// What an update of the record under `id` leaves in the table, and what it
/// answers: the record under `id` is the payload laid over what stood there,
/// every other record is as it was, and the answer is 200 with the new
/// record.
pub proof fn lemma_update_lays_payload_over(
    table: Table,
    id: int,
    update: UpdateMeetupView,
    fetched: Result<MeetupView, StoreErrorView>,
    written: Result<MeetupView, StoreErrorView>,
)
    requires
        table.well_formed(),
        table.holds(id),
        table.says_one(StoreQueryView::SelectById { id }, fetched),
        put_step(id, update, fetched) is Ask ==> table.says_one(
            put_step(id, update, fetched)->Ask_0,
            written,
        ),
    ensures
        put_step(id, update, fetched) is Ask,
        ({
            let next = table.after(put_step(id, update, fetched)->Ask_0);
            &&& next.holds(id)
            &&& next.record(id) == update.over(table.record(id))
            &&& next.rows.len() == table.rows.len()
            &&& forall|other: int|
                other != id && table.holds(other) ==> next.holds(other) && next.record(other)
                    == table.record(other)
            &&& put_reply(written) == ResponseView::one(
                Status::Success,
                update.over(table.record(id)),
            )
        }),
{
    let p = table.position(id);
    let current = table.record(id);
    let query = put_step(id, update, fetched)->Ask_0;
    let next = table.after(query);
    assert(current.meetup_id == id);
    lemma_after_keeps_well_formed(table, query);
    assert(next.rows[p] == update.over(current));
    lemma_position_is_unique(next, id, p);
    assert forall|other: int| other != id && table.holds(other) implies next.holds(other)
        && next.record(other) == table.record(other) by {
        let q = table.position(other);
        assert(next.rows[q] == table.rows[q]);
        lemma_position_is_unique(next, other, q);
    }
}

/// An update that gives a title and no text changes the title of the record
/// and nothing else.
pub proof fn lemma_update_of_title_keeps_text(
    table: Table,
    id: int,
    title: Seq<char>,
    fetched: Result<MeetupView, StoreErrorView>,
    written: Result<MeetupView, StoreErrorView>,
)
    requires
        table.well_formed(),
        table.holds(id),
        table.says_one(StoreQueryView::SelectById { id }, fetched),
        put_step(id, UpdateMeetupView { title: Some(title), body_text: None }, fetched) is Ask
            ==> table.says_one(
            put_step(id, UpdateMeetupView { title: Some(title), body_text: None }, fetched)->Ask_0,
            written,
        ),
    ensures
        put_step(id, UpdateMeetupView { title: Some(title), body_text: None }, fetched) is Ask,
        ({
            let update = UpdateMeetupView { title: Some(title), body_text: None };
            let next = table.after(put_step(id, update, fetched)->Ask_0);
            &&& next.holds(id)
            &&& next.record(id).meetup_id == id
            &&& next.record(id).title == title
            &&& next.record(id).body_text == table.record(id).body_text
            &&& put_reply(written) == ResponseView::one(Status::Success, next.record(id))
        }),
{
    let update = UpdateMeetupView { title: Some(title), body_text: None };
    lemma_update_lays_payload_over(table, id, update, fetched, written);
    assert(table.record(id).meetup_id == id);
}

/// An update that gives neither field leaves the table as it was, and
/// answers 200 with the record as it was.
pub proof fn lemma_update_of_nothing_changes_nothing(
    table: Table,
    id: int,
    fetched: Result<MeetupView, StoreErrorView>,
    written: Result<MeetupView, StoreErrorView>,
)
    requires
        table.well_formed(),
        table.holds(id),
        table.says_one(StoreQueryView::SelectById { id }, fetched),
        put_step(id, UpdateMeetupView { title: None, body_text: None }, fetched) is Ask
            ==> table.says_one(
            put_step(id, UpdateMeetupView { title: None, body_text: None }, fetched)->Ask_0,
            written,
        ),
    ensures
        put_step(id, UpdateMeetupView { title: None, body_text: None }, fetched) is Ask,
        table.after(
            put_step(id, UpdateMeetupView { title: None, body_text: None }, fetched)->Ask_0,
        ) == table,
        put_reply(written) == ResponseView::one(Status::Success, table.record(id)),
{
    let update = UpdateMeetupView { title: None, body_text: None };
    let query = put_step(id, update, fetched)->Ask_0;
    let current = table.record(id);
    assert(current.meetup_id == id);
    assert(update.over(current) == current);
    assert(table.after(query).rows =~= table.rows);
}

/// An update under an identifier that the table does not hold answers 404,
/// as a lookup does, and asks the store for nothing more.
pub proof fn lemma_update_of_absent_is_not_found(
    table: Table,
    id: int,
    update: UpdateMeetupView,
    fetched: Result<MeetupView, StoreErrorView>,
)
    requires
        !table.holds(id),
        table.says_one(StoreQueryView::SelectById { id }, fetched),
    ensures
        put_step(id, update, fetched) == StepView::Answer(
            ResponseView::failure(ApiErrorView::not_found(id)),
        ),
{
}

/// A deletion under an identifier that the table does not hold answers 404,
/// as a lookup does, and leaves the table as it was.
pub proof fn lemma_delete_of_absent_is_not_found(
    table: Table,
    id: int,
    deleted: Result<MeetupView, StoreErrorView>,
)
    requires
        !table.holds(id),
        table.says_one(StoreQueryView::DeleteById { id }, deleted),
    ensures
        delete_reply(id, deleted) == ResponseView::failure(ApiErrorView::not_found(id)),
        delete_reply(id, deleted).status == Status::NotFound,
        table.after(StoreQueryView::DeleteById { id }) == table,
{
}

/// A deletion under an identifier that the table holds answers 200 with the
/// record that stood there, and a lookup under the identifier then answers
/// 404. After a deletion of any identifier, held or not, a lookup under it
/// answers 404.
pub proof fn lemma_delete_then_get(
    table: Table,
    id: int,
    deleted: Result<MeetupView, StoreErrorView>,
    found: Result<MeetupView, StoreErrorView>,
)
    requires
        table.well_formed(),
        table.says_one(StoreQueryView::DeleteById { id }, deleted),
        table.after(StoreQueryView::DeleteById { id }).says_one(
            StoreQueryView::SelectById { id },
            found,
        ),
    ensures
        table.holds(id) ==> delete_reply(id, deleted) == ResponseView::one(
            Status::Success,
            table.record(id),
        ),
        !table.after(StoreQueryView::DeleteById { id }).holds(id),
        get_reply(id, found) == ResponseView::failure(ApiErrorView::not_found(id)),
        get_reply(id, found).status == Status::NotFound,
{
    let next = table.after(StoreQueryView::DeleteById { id });
    if table.holds(id) {
        let p = table.position(id);
        assert forall|i: int| 0 <= i < next.rows.len() implies next.rows[i].meetup_id != id by {
            let a = if i < p {
                i
            } else {
                i + 1
            };
            assert(next.rows[i] == table.rows[a]);
            if table.rows[a].meetup_id == id {
                lemma_position_is_unique(table, id, a);
            }
        }
    }
}

} // verus!
