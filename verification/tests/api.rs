use leptos_fetch_demo::api::{get_api_data, Client, ClientError};

#[test]
fn get_api_data_derives_the_name_from_the_id() {
    let data = get_api_data("initial_id".to_string());
    assert_eq!(data.id, "initial_id");
    assert_eq!(data.name, "Name for initial_id");
}

#[test]
fn get_api_data_keeps_any_id() {
    for id in ["", "second_id", "third_id", "id with spaces", "\u{e9}t\u{e9}"] {
        let data = get_api_data(id.to_string());
        assert_eq!(data.id, id);
        assert_eq!(data.name, format!("Name for {}", id));
    }
}

#[test]
fn get_api_data_of_the_empty_id() {
    let data = get_api_data(String::new());
    assert_eq!(data.id, "");
    assert_eq!(data.name, "Name for ");
}

#[test]
fn client_fetch_always_succeeds() {
    let client = Client::new();
    let data = client.fetch_data("second_id".to_string()).expect("the mock client never fails");
    assert_eq!(data.id, "second_id");
    assert_eq!(data.name, "Name for second_id");
}

#[test]
fn default_client_fetches_like_a_new_one() {
    let client = Client::default();
    let result = client.fetch_data("third_id".to_string());
    assert!(matches!(result, Ok(ref data) if data.name == "Name for third_id"));
}

#[test]
fn cloned_record_has_the_same_fields() {
    let data = get_api_data("initial_id".to_string());
    let copy = data.clone();
    assert_eq!(copy.id, data.id);
    assert_eq!(copy.name, data.name);
}

#[test]
fn client_errors_are_two_distinct_values() {
    assert_ne!(ClientError::NotFound, ClientError::InternalError);
    assert_eq!(ClientError::NotFound, ClientError::NotFound);
    assert_eq!(format!("{:?}", ClientError::InternalError), "InternalError");
}
