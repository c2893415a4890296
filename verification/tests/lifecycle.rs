use meetup_api::handlers::{
    create_meetup, create_meetup_query, delete_meetup, delete_meetup_query, get_meetup,
    get_meetup_list, get_meetup_list_query, get_meetup_query, put_meetup, put_meetup_query,
    put_meetup_written, Step,
};
use meetup_api::models::Meetup;
use meetup_api::response::{Envelope, Payload, Response, Status};
use meetup_api::schemas::{CreateMeetup, FilterOptions, GetMeetup, UpdateMeetup};
use meetup_api::store::{StoreError, StoreFault, StoreQuery};

/// A table in memory that answers statements as a relational store would.
struct Table {
    rows: Vec<Meetup>,
    next_id: i64,
}

fn missing() -> StoreError {
    StoreError { fault: StoreFault::RowNotFound, description: "no rows".to_string() }
}

impl Table {
    fn new() -> Table {
        Table { rows: Vec::new(), next_id: 1 }
    }

    fn with(titles: &[&str]) -> Table {
        let mut table = Table::new();
        for title in titles {
            let created = table.one(&StoreQuery::Insert {
                title: title.to_string(),
                body_text: format!("about {}", title),
            });
            assert!(created.is_ok());
        }
        table
    }

    fn one(&mut self, query: &StoreQuery) -> Result<Meetup, StoreError> {
        match query {
            StoreQuery::SelectPage { .. } => panic!("a page is not one record"),
            StoreQuery::SelectById { id } => {
                self.rows.iter().find(|row| row.meetup_id == *id).cloned().ok_or_else(missing)
            },
            StoreQuery::Insert { title, body_text } => {
                let row = Meetup {
                    meetup_id: self.next_id,
                    title: title.clone(),
                    body_text: body_text.clone(),
                };
                self.next_id += 1;
                self.rows.push(row.clone());
                Ok(row)
            },
            StoreQuery::Update { title, body_text, id } => {
                match self.rows.iter_mut().find(|row| row.meetup_id == *id) {
                    Some(row) => {
                        row.title = title.clone();
                        row.body_text = body_text.clone();
                        Ok(row.clone())
                    },
                    None => Err(missing()),
                }
            },
            StoreQuery::DeleteById { id } => {
                match self.rows.iter().position(|row| row.meetup_id == *id) {
                    Some(at) => Ok(self.rows.remove(at)),
                    None => Err(missing()),
                }
            },
        }
    }

    fn page(&self, query: &StoreQuery) -> Result<Vec<Meetup>, StoreError> {
        match query {
            StoreQuery::SelectPage { limit, offset } if *limit >= 0 && *offset >= 0 => Ok(self
                .rows
                .iter()
                .skip(*offset as usize)
                .take(*limit as usize)
                .cloned()
                .collect()),
            StoreQuery::SelectPage { .. } => Err(StoreError {
                fault: StoreFault::Other,
                description: "LIMIT and OFFSET must not be negative".to_string(),
            }),
            _ => panic!("not a page"),
        }
    }
}

fn list(table: &Table, limit: Option<i64>, offset: Option<i64>) -> Response {
    let query = get_meetup_list_query(Some(FilterOptions { limit, offset }));
    get_meetup_list(table.page(&query))
}

fn get(table: &mut Table, id: i64) -> Response {
    let found = table.one(&get_meetup_query(id));
    get_meetup(id, found)
}

fn create(table: &mut Table, title: &str, body_text: &str) -> Response {
    let payload = CreateMeetup { title: title.to_string(), body_text: body_text.to_string() };
    let created = table.one(&create_meetup_query(payload));
    create_meetup(created)
}

fn put(table: &mut Table, id: i64, update: UpdateMeetup) -> Response {
    let fetched = table.one(&put_meetup_query(id));
    match put_meetup(id, update, fetched) {
        Step::Answer(response) => response,
        Step::Ask(query) => put_meetup_written(table.one(&query)),
    }
}

fn delete(table: &mut Table, id: i64) -> Response {
    let deleted = table.one(&delete_meetup_query(id));
    delete_meetup(id, deleted)
}

fn ids(response: &Response) -> Vec<i64> {
    match &response.body {
        Envelope::Success { data: Payload::Many(records), .. } => {
            records.iter().map(|record| record.meetup_id).collect()
        },
        Envelope::Success { data: Payload::One(record), .. } => vec![record.meetup_id],
        Envelope::Error { message } => panic!("an error: {}", message),
    }
}

fn one(status: Status, id: i64, title: &str, body_text: &str) -> Response {
    Response {
        status,
        body: Envelope::Success {
            count: 1,
            data: Payload::One(GetMeetup {
                meetup_id: id,
                title: title.to_string(),
                body_text: body_text.to_string(),
            }),
        },
    }
}

fn not_found(id: i64) -> Response {
    Response {
        status: Status::NotFound,
        body: Envelope::Error { message: format!("Meetup with id {} not found", id) },
    }
}

#[test]
fn first_creation_in_an_empty_table() {
    let mut table = Table::new();
    let response = create(&mut table, "Rust Meetup", "Monthly gathering");
    assert_eq!(response.status.code(), 201);
    assert_eq!(response.body.status(), "success");
    assert_eq!(response, one(Status::Created, 1, "Rust Meetup", "Monthly gathering"));
}

#[test]
fn lookup_of_an_identifier_never_assigned() {
    let mut table = Table::with(&["a", "b", "c"]);
    let response = get(&mut table, 999);
    assert_eq!(response.status.code(), 404);
    assert_eq!(response.body.status(), "error");
    assert_eq!(response, not_found(999));
    assert_eq!(get(&mut Table::new(), 1), not_found(1));
}

#[test]
fn second_page_of_two_out_of_five() {
    let table = Table::with(&["a", "b", "c", "d", "e"]);
    let response = list(&table, Some(2), Some(2));
    assert_eq!(response.status, Status::Success);
    assert_eq!(ids(&response), vec![3, 4]);
}

#[test]
fn pages_cover_the_table_in_ascending_order() {
    let table = Table::with(&["a", "b", "c", "d", "e"]);
    assert_eq!(ids(&list(&table, Some(2), Some(1))), vec![1, 2]);
    assert_eq!(ids(&list(&table, Some(2), Some(3))), vec![5]);
    assert_eq!(ids(&list(&table, Some(2), Some(4))), Vec::<i64>::new());
    assert_eq!(ids(&list(&table, Some(0), Some(1))), Vec::<i64>::new());
    assert_eq!(ids(&list(&table, Some(5), Some(1))), vec![1, 2, 3, 4, 5]);
    assert_eq!(ids(&list(&table, Some(100), None)), vec![1, 2, 3, 4, 5]);
    assert_eq!(ids(&list(&table, None, None)), vec![1, 2, 3, 4, 5]);
    assert_eq!(ids(&list(&table, Some(3), Some(2))), vec![4, 5]);
}

#[test]
fn default_page_holds_ten() {
    let titles: Vec<String> = (1..=25).map(|n| format!("m{}", n)).collect();
    let titles: Vec<&str> = titles.iter().map(|title| title.as_str()).collect();
    let table = Table::with(&titles);
    assert_eq!(ids(&list(&table, None, None)), (1..=10).collect::<Vec<i64>>());
    assert_eq!(ids(&list(&table, None, Some(2))), (11..=20).collect::<Vec<i64>>());
    assert_eq!(ids(&list(&table, None, Some(3))), (21..=25).collect::<Vec<i64>>());
    let response = get_meetup_list(table.page(&get_meetup_list_query(None)));
    assert_eq!(ids(&response), (1..=10).collect::<Vec<i64>>());
}

#[test]
fn page_never_holds_more_than_the_limit() {
    let table = Table::with(&["a", "b", "c", "d", "e", "f", "g"]);
    for limit in 0..9 {
        for offset in 1..6 {
            let response = list(&table, Some(limit), Some(offset));
            let shown = ids(&response);
            assert!(shown.len() as i64 <= limit);
            let skipped = (offset - 1) * limit;
            let expected: Vec<i64> =
                (1..=7).filter(|id| *id > skipped && *id <= skipped + limit).collect();
            assert_eq!(shown, expected);
            match response.body {
                Envelope::Success { count, .. } => assert_eq!(count, expected.len()),
                Envelope::Error { .. } => panic!("an error"),
            }
        }
    }
}

#[test]
fn page_far_past_the_last_record_is_empty() {
    let table = Table::with(&["a", "b", "c", "d", "e"]);
    let empty = Response {
        status: Status::Success,
        body: Envelope::Success { count: 0, data: Payload::Many(Vec::new()) },
    };
    assert_eq!(list(&table, Some(4611686018427387904), Some(3)), empty);
    assert_eq!(list(&table, Some(i64::MAX), Some(3)), empty);
    assert_eq!(list(&table, Some(i64::MAX), Some(i64::MAX)), empty);
    assert_eq!(list(&table, Some(1), Some(i64::MAX)), empty);
    assert_eq!(list(&table, None, Some(i64::MAX)), empty);
    assert_eq!(list(&table, Some(5), Some(2)), empty);
    assert_eq!(ids(&list(&table, Some(i64::MAX), Some(1))), vec![1, 2, 3, 4, 5]);
    assert_eq!(ids(&list(&table, Some(4611686018427387904), None)), vec![1, 2, 3, 4, 5]);
}

#[test]
fn pages_joined_are_the_table() {
    let table = Table::with(&["a", "b", "c", "d", "e", "f", "g"]);
    for limit in 1..10 {
        let mut joined: Vec<i64> = Vec::new();
        let pages = (7 + limit - 1) / limit;
        for offset in 1..=pages {
            joined.extend(ids(&list(&table, Some(limit), Some(offset))));
        }
        assert_eq!(joined, vec![1, 2, 3, 4, 5, 6, 7]);
        assert_eq!(ids(&list(&table, Some(limit), Some(pages + 1))), Vec::<i64>::new());
    }
}

#[test]
fn page_that_the_store_refuses() {
    let table = Table::with(&["a"]);
    let response = list(&table, Some(-1), Some(1));
    assert_eq!(
        response,
        Response {
            status: Status::InternalServerError,
            body: Envelope::Error {
                message: "Failed to fetch meetups: LIMIT and OFFSET must not be negative"
                    .to_string()
            },
        }
    );
}

#[test]
fn creation_then_lookup_gives_the_same_record() {
    let mut table = Table::with(&["a", "b"]);
    let created = create(&mut table, "Rust Meetup", "Monthly gathering");
    assert_eq!(created, one(Status::Created, 3, "Rust Meetup", "Monthly gathering"));
    let id = ids(&created)[0];
    assert_eq!(get(&mut table, id), one(Status::Success, 3, "Rust Meetup", "Monthly gathering"));
}

#[test]
fn update_of_the_title_changes_only_the_title() {
    let mut table = Table::with(&["a", "b", "c"]);
    let response = put(&mut table, 2, UpdateMeetup { title: Some("X".to_string()), body_text: None });
    assert_eq!(response, one(Status::Success, 2, "X", "about b"));
    assert_eq!(get(&mut table, 2), one(Status::Success, 2, "X", "about b"));
    assert_eq!(get(&mut table, 1), one(Status::Success, 1, "a", "about a"));
    assert_eq!(get(&mut table, 3), one(Status::Success, 3, "c", "about c"));
}

#[test]
fn update_of_nothing_changes_nothing() {
    let mut table = Table::with(&["a", "b", "c"]);
    let before = table.rows.clone();
    let response = put(&mut table, 2, UpdateMeetup { title: None, body_text: None });
    assert_eq!(response, one(Status::Success, 2, "b", "about b"));
    assert_eq!(table.rows, before);
}

#[test]
fn update_of_a_record_that_is_not_there() {
    let mut table = Table::with(&["a"]);
    let before = table.rows.clone();
    let response = put(&mut table, 2, UpdateMeetup { title: Some("X".to_string()), body_text: None });
    assert_eq!(response, not_found(2));
    assert_eq!(table.rows, before);
}

#[test]
fn deletion_then_lookup_is_not_found() {
    let mut table = Table::with(&["a", "b", "c"]);
    assert_eq!(delete(&mut table, 2), one(Status::Success, 2, "b", "about b"));
    assert_eq!(get(&mut table, 2), not_found(2));
    assert_eq!(ids(&list(&table, None, None)), vec![1, 3]);
}

#[test]
fn deletion_of_a_record_that_is_not_there_is_not_found() {
    let mut table = Table::with(&["a", "b", "c"]);
    assert_eq!(delete(&mut table, 7), not_found(7));
    assert_eq!(delete(&mut table, 2).status, Status::Success);
    assert_eq!(delete(&mut table, 2), not_found(2));
    assert_eq!(delete(&mut table, 2).status.code(), 404);
}

#[test]
fn an_identifier_is_not_assigned_again() {
    let mut table = Table::with(&["a", "b"]);
    assert_eq!(delete(&mut table, 2).status, Status::Success);
    assert_eq!(create(&mut table, "c", "C"), one(Status::Created, 3, "c", "C"));
    assert_eq!(get(&mut table, 2), not_found(2));
}
