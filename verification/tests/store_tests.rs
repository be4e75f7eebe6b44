use memory_store::InMemoryState;
use memory_store::MemoryStore;
use memory_store::StoreError;
use memory_store::decimal::render_decimal;
use memory_store::status;

#[test]
fn test_status() {
    let answer = status();
    assert!(!answer.is_empty());
    assert_eq!(answer, "Healthy");
}

#[test]
fn test_read_range() {
    let state = InMemoryState::new();
    let program_state = base64::encode(vec![0x0u8; 0x10000]);
    let initialise_response = state.initialise_encoded("abcd".to_string(), &program_state);
    assert!(initialise_response.is_ok());

    let write_response1 = state.write_byte("abcd", 0x10, 0xFF);
    assert!(write_response1.0.is_ok());
    let write_response2 = state.write_byte("abcd", 0x1A, 0xFE);
    assert!(write_response2.0.is_ok());

    let read_range_response = state.read_range_encoded("abcd", 0x10, 0x10);
    assert_eq!(
        read_range_response.0,
        Ok(base64::encode(vec![
            0xFFu8, 0x0, 0x0, 0x0, 0x0, 0x0, 0x0, 0x0, 0x0, 0x0, 0xFE, 0x0, 0x0, 0x0, 0x0, 0x0
        ]))
    );
}

#[test]
fn test_read_write() {
    let state = InMemoryState::new();
    let program_state = base64::encode(vec![0x0u8; 0x10000]);
    let initialise_response = state.initialise_encoded("abcd".to_string(), &program_state);
    assert!(initialise_response.is_ok());

    let write_response = state.write_byte("abcd", 0x10, 0x8);
    assert!(write_response.0.is_ok());

    let read_response = state.read_byte_decimal("abcd", 0x10);
    assert_eq!(read_response.0, Ok("8".to_string()));

    let read_response_2 = state.read_byte_decimal("abcd", 0x11);
    assert_eq!(read_response_2.0, Ok("0".to_string()));
}

#[test]
fn test_round_trip() {
    let mut store = MemoryStore::new();
    let data = vec![1u8, 2, 3, 4, 5];
    store.initialise("k".to_string(), data.clone());
    assert_eq!(store.read_range("k", 0, 5), Ok(data));
}

#[test]
fn test_round_trip_empty_buffer() {
    let mut store = MemoryStore::new();
    store.initialise("k".to_string(), Vec::new());
    assert_eq!(store.read_range("k", 0, 0), Ok(Vec::new()));
    assert_eq!(store.read_byte("k", 0), Err(StoreError::AddressOutOfRange));
}

#[test]
fn test_write_visibility() {
    let mut store = MemoryStore::new();
    store.initialise("k".to_string(), vec![10u8, 11, 12, 13]);
    assert_eq!(store.write_byte("k", 2, 99), Ok(()));
    assert_eq!(store.read_byte("k", 2), Ok(99));
    assert_eq!(store.read_byte("k", 0), Ok(10));
    assert_eq!(store.read_byte("k", 1), Ok(11));
    assert_eq!(store.read_byte("k", 3), Ok(13));
}

#[test]
fn test_idempotent_reinitialise() {
    let mut store = MemoryStore::new();
    store.initialise("k".to_string(), vec![7u8, 8, 9]);
    store.initialise("k".to_string(), vec![1u8, 2]);
    assert_eq!(store.read_range("k", 0, 2), Ok(vec![1u8, 2]));
    assert_eq!(store.read_byte("k", 2), Err(StoreError::AddressOutOfRange));
}

#[test]
fn test_boundary_rejection() {
    let mut store = MemoryStore::new();
    store.initialise("k".to_string(), vec![0u8; 4]);
    assert_eq!(store.read_byte("k", 4), Err(StoreError::AddressOutOfRange));
    assert_eq!(store.write_byte("k", 4, 1), Err(StoreError::AddressOutOfRange));
    assert_eq!(store.read_range("k", 0, 5), Err(StoreError::AddressOutOfRange));
    assert_eq!(store.read_range("k", 4, 1), Err(StoreError::AddressOutOfRange));
    assert_eq!(store.read_byte("k", 3), Ok(0));
}

#[test]
fn test_empty_range_always_valid() {
    let mut store = MemoryStore::new();
    store.initialise("k".to_string(), vec![0u8; 4]);
    assert_eq!(store.read_range("k", 0, 0), Ok(Vec::new()));
    assert_eq!(store.read_range("k", 4, 0), Ok(Vec::new()));
    assert_eq!(store.read_range("k", 0xFFFF, 0), Ok(Vec::new()));
}

#[test]
fn test_unknown_identifier() {
    let mut store = MemoryStore::new();
    assert_eq!(store.read_byte("nope", 0), Err(StoreError::UnknownIdentifier));
    assert_eq!(store.write_byte("nope", 0, 1), Err(StoreError::UnknownIdentifier));
    assert_eq!(store.read_range("nope", 0, 0), Err(StoreError::UnknownIdentifier));
    assert_eq!(store.read_byte_decimal("nope", 0), Err(StoreError::UnknownIdentifier));
    assert_eq!(store.read_range_encoded("nope", 0, 1), Err(StoreError::UnknownIdentifier));

    store.initialise("other".to_string(), vec![1u8]);
    assert_eq!(store.read_byte("nope", 0), Err(StoreError::UnknownIdentifier));
}

#[test]
fn test_decoding_failure() {
    let mut store = MemoryStore::new();
    let r = store.initialise_encoded("k".to_string(), "not valid base64!");
    assert_eq!(r, Err(StoreError::DecodingFailure));
    assert_eq!(store.read_byte("k", 0), Err(StoreError::UnknownIdentifier));
}

#[test]
fn test_encoded_initialise_decodes() {
    let mut store = MemoryStore::new();
    let encoded = base64::encode(vec![0u8, 1, 2]);
    assert_eq!(encoded, "AAEC");
    assert_eq!(store.initialise_encoded("k".to_string(), &encoded), Ok(()));
    assert_eq!(store.read_byte("k", 0), Ok(0));
    assert_eq!(store.read_byte("k", 1), Ok(1));
    assert_eq!(store.read_byte("k", 2), Ok(2));
    assert_eq!(store.read_byte("k", 3), Err(StoreError::AddressOutOfRange));
}

#[test]
fn test_encoded_read_range_encodes() {
    let mut store = MemoryStore::new();
    store.initialise("k".to_string(), vec![0u8, 1, 2]);
    let r = store.read_range_encoded("k", 0, 3);
    assert_eq!(r, Ok("AAEC".to_string()));
}

#[test]
fn test_decimal_rendering() {
    assert_eq!(render_decimal(0), "0");
    assert_eq!(render_decimal(8), "8");
    assert_eq!(render_decimal(9), "9");
    assert_eq!(render_decimal(10), "10");
    assert_eq!(render_decimal(42), "42");
    assert_eq!(render_decimal(99), "99");
    assert_eq!(render_decimal(100), "100");
    assert_eq!(render_decimal(207), "207");
    assert_eq!(render_decimal(255), "255");
}

#[test]
fn test_shared_store_operations() {
    let state = InMemoryState::new();
    assert_eq!(state.read_byte("k", 0).0, Err(StoreError::UnknownIdentifier));

    let encoded = base64::encode(vec![5u8, 6, 7]);
    assert_eq!(state.initialise_encoded("k".to_string(), &encoded), Ok(()));
    assert_eq!(state.read_byte("k", 1).0, Ok(6));

    assert_eq!(state.write_byte("k", 1, 200).0, Ok(()));
    assert_eq!(state.read_byte("k", 1).0, Ok(200));
    assert_eq!(state.read_byte_decimal("k", 1).0, Ok("200".to_string()));
    assert_eq!(state.write_byte("k", 3, 1).0, Err(StoreError::AddressOutOfRange));

    assert_eq!(
        state.read_range_encoded("k", 0, 3).0,
        Ok(base64::encode(vec![5u8, 200, 7]))
    );
    assert_eq!(
        state.initialise_encoded("k".to_string(), "!!!"),
        Err(StoreError::DecodingFailure)
    );
    assert_eq!(state.read_byte("k", 1).0, Ok(200));
}
