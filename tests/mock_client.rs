use data_store::errors::ClientErrors;
use data_store::mock_client::MockStoreClient;
use data_store::store_client::interface::StoreClient;

fn is_other_error<T>(r: &Result<T, ClientErrors>) -> bool {
    matches!(r, Err(ClientErrors::OtherError(_)))
}

#[test]
fn test_open_connection() {
    let mut client = MockStoreClient::new("http://localhost");
    let result = client.open_connection();
    assert!(result.is_ok());
    assert!(client.is_connected());
}

#[test]
fn test_set_key_value() {
    let mut client = MockStoreClient::new("http://localhost");
    client.open_connection().unwrap();

    let result = client.set_key_value("key1", "value1");
    assert!(result.is_ok());
    assert_eq!(
        client.get_key_value("key1").unwrap(),
        Some("value1".to_string())
    );
}

#[test]
fn test_get_key_value() {
    let mut client = MockStoreClient::new("http://localhost");
    client.open_connection().unwrap();
    client.set_key_value("key1", "value1").unwrap();

    let result = client.get_key_value("key1");
    assert!(result.is_ok());
    assert_eq!(result.unwrap(), Some("value1".to_string()));
}

#[test]
fn test_delete_key() {
    let mut client = MockStoreClient::new("http://localhost");
    client.open_connection().unwrap();
    client.set_key_value("key1", "value1").unwrap();

    let result = client.delete_key("key1");
    assert!(result.is_ok());
    assert_eq!(result.unwrap(), Some("value1".to_string()));
}

#[test]
fn test_set_key_value_store_not_available() {
    let mut client = MockStoreClient::new("http://localhost");

    let result = client.set_key_value("key1", "value1");
    assert!(result.is_err());
}

#[test]
fn test_get_key_value_store_not_available() {
    let mut client = MockStoreClient::new("http://localhost");

    let result = client.get_key_value("key1");
    assert!(result.is_err());
}

#[test]
fn test_delete_key_store_not_available() {
    let mut client = MockStoreClient::new("http://localhost");

    let result = client.delete_key("key1");
    assert!(result.is_err());
}

#[test]
fn new_client_keeps_url_and_is_not_connected() {
    let client = MockStoreClient::new("http://localhost");
    assert_eq!(client.url(), "http://localhost");
    assert!(!client.is_connected());
}

#[test]
fn set_returns_no_confirmation_value() {
    let mut client = MockStoreClient::new("http://localhost");
    client.open_connection().unwrap();
    assert_eq!(client.set_key_value("key1", "value1").unwrap(), None);
}

#[test]
fn set_then_get_for_several_keys() {
    let mut client = MockStoreClient::new("mem://");
    client.open_connection().unwrap();
    client.set_key_value("a", "1").unwrap();
    client.set_key_value("b", "").unwrap();
    client.set_key_value("", "empty key").unwrap();
    assert_eq!(client.get_key_value("a").unwrap(), Some("1".to_string()));
    assert_eq!(client.get_key_value("b").unwrap(), Some(String::new()));
    assert_eq!(client.get_key_value("").unwrap(), Some("empty key".to_string()));
}

#[test]
fn set_overwrites_previous_value() {
    let mut client = MockStoreClient::new("mem://");
    client.open_connection().unwrap();
    client.set_key_value("k", "old").unwrap();
    client.set_key_value("k", "new").unwrap();
    assert_eq!(client.get_key_value("k").unwrap(), Some("new".to_string()));
}

#[test]
fn get_unset_key_is_absent_not_error() {
    let mut client = MockStoreClient::new("mem://");
    client.open_connection().unwrap();
    client.set_key_value("other", "v").unwrap();
    assert_eq!(client.get_key_value("missing").unwrap(), None);
}

#[test]
fn delete_never_set_key_is_absent_not_error() {
    let mut client = MockStoreClient::new("mem://");
    client.open_connection().unwrap();
    assert_eq!(client.delete_key("missing").unwrap(), None);
}

#[test]
fn delete_then_get_is_absent() {
    let mut client = MockStoreClient::new("mem://");
    client.open_connection().unwrap();
    client.set_key_value("k", "v").unwrap();
    client.set_key_value("keep", "w").unwrap();
    assert_eq!(client.delete_key("k").unwrap(), Some("v".to_string()));
    assert_eq!(client.get_key_value("k").unwrap(), None);
    assert_eq!(client.delete_key("k").unwrap(), None);
    assert_eq!(client.get_key_value("keep").unwrap(), Some("w".to_string()));
}

#[test]
fn end_to_end_mock_scenario() {
    let mut client = MockStoreClient::new("http://localhost");
    client.open_connection().unwrap();
    client.set_key_value("key1", "value1").unwrap();
    assert_eq!(client.get_key_value("key1").unwrap(), Some("value1".to_string()));
    assert_eq!(client.delete_key("key1").unwrap(), Some("value1".to_string()));
    assert_eq!(client.get_key_value("key1").unwrap(), None);
}

#[test]
fn operations_before_open_are_other_errors() {
    let mut client = MockStoreClient::new("http://localhost");
    assert!(is_other_error(&client.set_key_value("k", "v")));
    assert!(is_other_error(&client.get_key_value("k")));
    assert!(is_other_error(&client.delete_key("k")));
    assert!(is_other_error(&client.append_to_list("k", "v")));
    assert!(is_other_error(&client.get_list("k")));
    assert!(!client.is_connected());
}

#[test]
fn not_available_error_has_message() {
    let mut client = MockStoreClient::new("http://localhost");
    let err = client.get_key_value("k").unwrap_err();
    assert_eq!(err.message(), Some("Store is not available"));
    let list_err = client.get_list("k").unwrap_err();
    assert_eq!(list_err.message(), Some("Store is not available"));
}

#[test]
fn list_operations_are_unsupported_errors() {
    let mut client = MockStoreClient::new("http://localhost");
    client.open_connection().unwrap();
    let append_err = client.append_to_list("k", "v").unwrap_err();
    assert_eq!(
        append_err.message(),
        Some("List operations are not supported by the mock store")
    );
    let list_err = client.get_list("k").unwrap_err();
    assert_eq!(
        list_err.message(),
        Some("List operations are not supported by the mock store")
    );
    client.set_key_value("k", "v").unwrap();
    assert_eq!(client.get_key_value("k").unwrap(), Some("v".to_string()));
}

#[test]
fn reopen_starts_empty() {
    let mut client = MockStoreClient::new("mem://");
    client.open_connection().unwrap();
    client.set_key_value("k", "v").unwrap();
    client.open_connection().unwrap();
    assert_eq!(client.get_key_value("k").unwrap(), None);
}
