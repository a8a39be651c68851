use leptos_template::store_error::{SessionStoreError, SqlxStoreError};

#[test]
fn database_error_becomes_backend_error() {
    let err = SessionStoreError::from(SqlxStoreError::Sqlx("pool timed out".to_string()));
    match err {
        SessionStoreError::Backend(msg) => assert_eq!(msg, "pool timed out"),
        other => panic!("unexpected {:?}", other),
    }
}

#[test]
fn encode_error_stays_encode_error() {
    let err: SessionStoreError = SqlxStoreError::Encode("bad map key".to_string()).into();
    match err {
        SessionStoreError::Encode(msg) => assert_eq!(msg, "bad map key"),
        other => panic!("unexpected {:?}", other),
    }
}

#[test]
fn decode_error_stays_decode_error() {
    let err = SessionStoreError::from(SqlxStoreError::Decode(String::new()));
    match err {
        SessionStoreError::Decode(msg) => assert_eq!(msg, ""),
        other => panic!("unexpected {:?}", other),
    }
}
