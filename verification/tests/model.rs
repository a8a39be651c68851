use leptos_template::listing::{
    model_listing, pending_submissions, AddModelInput, ModelListing, Submission,
};
use leptos_template::model::{new_model_row, Model, Timestamp};

fn model(id: u16, key: &str, value: &str, secs: i64) -> Model {
    let t = Timestamp { secs, nanos: 0 };
    Model { id, key: key.to_string(), created_date: t, updated_date: t, value: value.to_string() }
}

#[test]
fn new_row_is_created_and_updated_at_once() {
    let now = Timestamp { secs: 1_700_000_000, nanos: 123 };
    let row = new_model_row("color".to_string(), "blue".to_string(), now);
    assert_eq!(row.key, "color");
    assert_eq!(row.value, "blue");
    assert_eq!(row.created_date, now);
    assert_eq!(row.updated_date, now);
    assert_eq!(row.created_date, row.updated_date);
}

#[test]
fn empty_store_shows_no_models() {
    assert!(matches!(model_listing(&Vec::new()), ModelListing::NoModels));
}

#[test]
fn listing_keeps_order_and_fields() {
    let models = vec![model(7, "b", "2", 10), model(3, "a", "1", 5)];
    match model_listing(&models) {
        ModelListing::Items(items) => {
            assert_eq!(items.len(), 2);
            assert_eq!((items[0].id, items[0].key.as_str(), items[0].value.as_str()), (7, "b", "2"));
            assert_eq!((items[1].id, items[1].key.as_str(), items[1].value.as_str()), (3, "a", "1"));
        }
        ModelListing::NoModels => panic!("models were given"),
    }
}

fn sub(pending: bool, input: Option<(&str, &str)>) -> Submission {
    Submission {
        pending,
        input: input.map(|(k, v)| AddModelInput { key: k.to_string(), value: v.to_string() }),
    }
}

#[test]
fn only_pending_submissions_are_shown() {
    let subs = vec![
        sub(false, Some(("done", "x"))),
        sub(true, Some(("k1", "v1"))),
        sub(true, None),
        sub(false, None),
        sub(true, Some(("k2", "v2"))),
    ];
    let rows = pending_submissions(&subs);
    assert_eq!(rows.len(), 3);
    let first = rows[0].as_ref().unwrap();
    assert_eq!((first.key.as_str(), first.value.as_str()), ("k1", "v1"));
    assert!(rows[1].is_none());
    let last = rows[2].as_ref().unwrap();
    assert_eq!((last.key.as_str(), last.value.as_str()), ("k2", "v2"));
}

#[test]
fn no_pending_submissions_no_rows() {
    let subs = vec![sub(false, Some(("a", "b")))];
    assert!(pending_submissions(&subs).is_empty());
    assert!(pending_submissions(&Vec::new()).is_empty());
}
