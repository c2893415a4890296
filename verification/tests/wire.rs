use meetup_api::handlers::{create_meetup, get_meetup, get_meetup_list};
use meetup_api::models::Meetup;
use meetup_api::response::{Envelope, Payload, Response};
use meetup_api::schemas::GetMeetup;
use meetup_api::store::{StoreError, StoreFault};
use serde_json::Value;

fn record(shown: &GetMeetup) -> Value {
    let mut object = serde_json::Map::new();
    object.insert("meetup_id".to_string(), Value::from(shown.meetup_id));
    object.insert("title".to_string(), Value::from(shown.title.as_str()));
    object.insert("body_text".to_string(), Value::from(shown.body_text.as_str()));
    Value::Object(object)
}

/// The envelope as the JSON object that goes over the wire.
fn body(response: &Response) -> Value {
    let mut object = serde_json::Map::new();
    object.insert("status".to_string(), Value::from(response.body.status()));
    match &response.body {
        Envelope::Success { count, data } => {
            object.insert("count".to_string(), Value::from(*count));
            let data = match data {
                Payload::One(shown) => record(shown),
                Payload::Many(page) => Value::Array(page.iter().map(record).collect()),
            };
            object.insert("data".to_string(), data);
        },
        Envelope::Error { message } => {
            object.insert("message".to_string(), Value::from(message.as_str()));
        },
    }
    Value::Object(object)
}

fn json(text: &str) -> Value {
    serde_json::from_str(text).expect("the expected body is JSON")
}

#[test]
fn body_of_a_creation() {
    let response = create_meetup(Ok(Meetup {
        meetup_id: 1,
        title: "Rust Meetup".to_string(),
        body_text: "Monthly gathering".to_string(),
    }));
    assert_eq!(response.status.code(), 201);
    assert_eq!(
        body(&response),
        json(
            r#"{"status":"success","count":1,"data":{"meetup_id":1,"title":"Rust Meetup","body_text":"Monthly gathering"}}"#
        )
    );
}

#[test]
fn body_of_a_lookup_that_found_nothing() {
    let response = get_meetup(
        999,
        Err(StoreError { fault: StoreFault::RowNotFound, description: "no rows".to_string() }),
    );
    assert_eq!(response.status.code(), 404);
    assert_eq!(
        body(&response),
        json(r#"{"status":"error","message":"Meetup with id 999 not found"}"#)
    );
}

#[test]
fn body_of_a_page() {
    let rows = vec![
        Meetup { meetup_id: 3, title: "c".to_string(), body_text: "C".to_string() },
        Meetup { meetup_id: 4, title: "d".to_string(), body_text: "D".to_string() },
    ];
    let response = get_meetup_list(Ok(rows));
    assert_eq!(response.status.code(), 200);
    assert_eq!(
        body(&response),
        json(
            r#"{"status":"success","count":2,"data":[{"meetup_id":3,"title":"c","body_text":"C"},{"meetup_id":4,"title":"d","body_text":"D"}]}"#
        )
    );
}

#[test]
fn body_of_a_failure() {
    let response = get_meetup_list(Err(StoreError {
        fault: StoreFault::Other,
        description: "pool timed out".to_string(),
    }));
    assert_eq!(response.status.code(), 500);
    assert_eq!(
        body(&response),
        json(r#"{"status":"error","message":"Failed to fetch meetups: pool timed out"}"#)
    );
}
