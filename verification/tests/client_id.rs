use std::collections::HashSet;

use lnm_sdk::{ClientId, ClientIdValidationError};

#[test]
fn test_valid_client_id() {
    let client_id = ClientId::try_from("my-order-123").unwrap();
    assert_eq!(client_id.as_str(), "my-order-123");
}

#[test]
fn test_min_length_client_id() {
    let client_id = ClientId::try_from("a").unwrap();
    assert_eq!(client_id.as_str(), "a");
}

#[test]
fn test_max_length_client_id() {
    let long_string = "a".repeat(64);
    let client_id = ClientId::try_from(long_string.as_str()).unwrap();
    assert_eq!(client_id.as_str(), long_string);
}

#[test]
fn test_empty_client_id_fails() {
    let result = ClientId::try_from("");
    assert!(matches!(
        result,
        Err(ClientIdValidationError::TooShort { len: 0 })
    ));
}

#[test]
fn test_too_long_client_id_fails() {
    let long_string = "a".repeat(65);
    let result = ClientId::try_from(long_string.as_str());
    assert!(matches!(
        result,
        Err(ClientIdValidationError::TooLong { len: 65 })
    ));
}

#[test]
fn test_into_inner() {
    let client_id = ClientId::try_from("test-id").unwrap();
    let inner: String = client_id.into_inner();
    assert_eq!(inner, "test-id");
}

#[test]
fn test_from_string() {
    let client_id = ClientId::try_from(String::from("my-order")).unwrap();
    assert_eq!(client_id.as_str(), "my-order");
}

#[test]
fn test_display() {
    let client_id = ClientId::try_from("display-test").unwrap();
    assert_eq!(format!("{}", client_id.to_string()), "display-test");
}

#[test]
fn test_serialize() {
    let client_id = ClientId::try_from("serialize-test").unwrap();
    let json = serde_json::to_string(client_id.as_str()).unwrap();
    assert_eq!(json, "\"serialize-test\"");
}

#[test]
fn test_deserialize() {
    let json = "\"deserialize-test\"";
    let text: String = serde_json::from_str(json).unwrap();
    let client_id: ClientId = ClientId::from_wire(text).unwrap();
    assert_eq!(client_id.as_str(), "deserialize-test");
}

#[test]
fn test_deserialize_empty_fails() {
    let json = "\"\"";
    let text: String = serde_json::from_str(json).unwrap();
    let result: Result<ClientId, _> = ClientId::from_wire(text);
    assert!(result.is_err());
}

#[test]
fn test_deserialize_too_long_fails() {
    let long_string = "a".repeat(65);
    let json = format!("\"{}\"", long_string);
    let text: String = serde_json::from_str(&json).unwrap();
    let result: Result<ClientId, _> = ClientId::from_wire(text);
    assert!(result.is_err());
}

#[test]
fn bounds_are_one_and_sixty_four() {
    assert_eq!(ClientId::MIN_LEN, 1);
    assert_eq!(ClientId::MAX_LEN, 64);
}

#[test]
fn every_length_within_bounds_is_accepted() {
    for len in 1..=64usize {
        let text = "x".repeat(len);
        let client_id = ClientId::try_from(text.clone()).unwrap();
        assert_eq!(client_id.as_str(), text);
    }
}

#[test]
fn lengths_past_the_maximum_are_refused_with_their_length() {
    for len in [65usize, 66, 100, 1000] {
        let result = ClientId::try_from("x".repeat(len));
        match result {
            Err(ClientIdValidationError::TooLong { len: reported }) => assert_eq!(reported, len),
            other => panic!("expected TooLong, got {:?}", other),
        }
    }
}

#[test]
fn empty_owned_string_is_too_short() {
    let result = ClientId::try_from(String::new());
    assert!(matches!(
        result,
        Err(ClientIdValidationError::TooShort { len: 0 })
    ));
}

#[test]
fn length_is_counted_in_bytes() {
    // Two bytes each in UTF-8: thirty-two of them fill the bound exactly.
    let fits = "é".repeat(32);
    assert_eq!(fits.chars().count(), 32);
    let client_id = ClientId::try_from(fits.as_str()).unwrap();
    assert_eq!(client_id.as_str(), fits);

    let too_long = "é".repeat(33);
    assert!(matches!(
        ClientId::try_from(too_long.as_str()),
        Err(ClientIdValidationError::TooLong { len: 66 })
    ));

    // Four bytes in one character.
    let client_id = ClientId::try_from("🦀").unwrap();
    assert_eq!(client_id.as_str().len(), 4);
    let seventeen = "🦀".repeat(17);
    assert!(matches!(
        ClientId::try_from(seventeen),
        Err(ClientIdValidationError::TooLong { len: 68 })
    ));
}

#[test]
fn into_inner_gives_back_the_string() {
    for text in ["a", "my-order-123", "with space", "ünïcödé"] {
        let client_id = ClientId::try_from(text).unwrap();
        assert_eq!(client_id.into_inner(), text);
    }
}

#[test]
fn string_from_client_id_is_the_string() {
    let client_id = ClientId::try_from("order-7").unwrap();
    let text = String::from(client_id);
    assert_eq!(text, "order-7");
}

#[test]
fn as_ref_is_the_string() {
    let client_id = ClientId::try_from("order-8").unwrap();
    let text: &str = client_id.as_ref();
    assert_eq!(text, "order-8");
}

#[test]
fn equal_strings_make_equal_identifiers() {
    let x1 = ClientId::try_from("x").unwrap();
    let x2 = ClientId::try_from(String::from("x")).unwrap();
    let y = ClientId::try_from("y").unwrap();
    assert_eq!(x1, x2);
    assert_ne!(x1, y);
    assert!(x1 == x2);
    assert!(x1 != y);
}

#[test]
fn clone_is_equal_and_independent() {
    let client_id = ClientId::try_from("clone-me").unwrap();
    let copy = client_id.clone();
    assert_eq!(copy, client_id);
    assert_eq!(client_id.into_inner(), "clone-me");
    assert_eq!(copy.as_str(), "clone-me");
}

#[test]
fn equal_identifiers_hash_alike() {
    let mut seen = HashSet::new();
    assert!(seen.insert(ClientId::try_from("x").unwrap()));
    assert!(!seen.insert(ClientId::try_from("x").unwrap()));
    assert!(seen.insert(ClientId::try_from("y").unwrap()));
    assert_eq!(seen.len(), 2);
    assert!(seen.contains(&ClientId::try_from("y").unwrap()));
}

#[test]
fn written_identifier_reads_back_equal() {
    for text in ["a", "serialize-test", "ünïcödé"] {
        let client_id = ClientId::try_from(text).unwrap();
        let json = serde_json::to_string(client_id.as_str()).unwrap();
        let read: String = serde_json::from_str(&json).unwrap();
        assert_eq!(ClientId::from_wire(read).unwrap(), client_id);
    }
    let longest = ClientId::try_from("z".repeat(64)).unwrap();
    assert_eq!(
        ClientId::from_wire(longest.to_string()).unwrap(),
        longest
    );
}

#[test]
fn from_wire_fails_with_the_message_of_the_error() {
    assert_eq!(
        ClientId::from_wire(String::new()).unwrap_err(),
        "Client ID must be at least 1 character(s). Length: 0"
    );
    assert_eq!(
        ClientId::from_wire("a".repeat(65)).unwrap_err(),
        "Client ID must be at most 64 characters. Length: 65"
    );
    assert_eq!(
        ClientId::from_wire("a".repeat(1234)).unwrap_err(),
        ClientIdValidationError::TooLong { len: 1234 }.message()
    );
}
