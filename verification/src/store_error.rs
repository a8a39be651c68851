use vstd::prelude::*;
use vstd::std_specs::convert::FromSpec;
use vstd::std_specs::convert::FromSpecImpl;

verus! {

/// An error of the SQL-backed session store.
///
/// Each variant carries the rendered message of the error that caused it:
/// a database error, a MessagePack encoding error or a MessagePack
/// decoding error.
#[derive(Debug)]
pub enum SqlxStoreError {
    /// A database error.
    Sqlx(String),
    /// A MessagePack encoding error.
    Encode(String),
    /// A MessagePack decoding error.
    Decode(String),
}

/// The error that a session store reports to the session layer.
#[derive(Debug)]
pub enum SessionStoreError {
    /// Encoding a session record failed.
    Encode(String),
    /// Decoding a session record failed.
    Decode(String),
    /// The storage backend failed.
    Backend(String),
}

/// What converting a store error into a session-store error gives:
/// database errors become backend errors, and encoding and decoding errors
/// keep their kind; the message is kept as it is.
pub open spec fn session_error_of(err: SqlxStoreError) -> SessionStoreError {
    match err {
        SqlxStoreError::Sqlx(msg) => SessionStoreError::Backend(msg),
        SqlxStoreError::Encode(msg) => SessionStoreError::Encode(msg),
        SqlxStoreError::Decode(msg) => SessionStoreError::Decode(msg),
    }
}

/// The message that a store error carries.
pub open spec fn store_error_message(err: SqlxStoreError) -> Seq<char> {
    match err {
        SqlxStoreError::Sqlx(msg) => msg@,
        SqlxStoreError::Encode(msg) => msg@,
        SqlxStoreError::Decode(msg) => msg@,
    }
}

/// The message that a session-store error carries.
pub open spec fn session_error_message(err: SessionStoreError) -> Seq<char> {
    match err {
        SessionStoreError::Encode(msg) => msg@,
        SessionStoreError::Decode(msg) => msg@,
        SessionStoreError::Backend(msg) => msg@,
    }
}

/// Converting a store error keeps its message; the session layer sees a
/// backend error exactly for a database error, an encoding error exactly for
/// an encoding error and a decoding error exactly for a decoding error.
pub proof fn lemma_conversion_keeps_message_and_kind(err: SqlxStoreError)
    ensures
        session_error_message(session_error_of(err)) == store_error_message(err),
        session_error_of(err) is Backend <==> err is Sqlx,
        session_error_of(err) is Encode <==> err is Encode,
        session_error_of(err) is Decode <==> err is Decode,
{
}

impl From<SqlxStoreError> for SessionStoreError {
    fn from(err: SqlxStoreError) -> (res: SessionStoreError)
        ensures
            res is Backend <==> err is Sqlx,
            res is Encode <==> err is Encode,
            res is Decode <==> err is Decode,
            session_error_message(res) == store_error_message(err),
    {
        match err {
            SqlxStoreError::Sqlx(msg) => SessionStoreError::Backend(msg),
            SqlxStoreError::Encode(msg) => SessionStoreError::Encode(msg),
            SqlxStoreError::Decode(msg) => SessionStoreError::Decode(msg),
        }
    }
}

impl FromSpecImpl<SqlxStoreError> for SessionStoreError {
    open spec fn obeys_from_spec() -> bool {
        true
    }

    open spec fn from_spec(v: SqlxStoreError) -> SessionStoreError {
        session_error_of(v)
    }
}

/// The conversion that `From` is specified by maps a database error to a
/// backend error, an encoding error to an encoding error and a decoding
/// error to a decoding error, and keeps the message.
pub proof fn lemma_from_spec_keeps_message_and_kind(err: SqlxStoreError)
    ensures
        <SessionStoreError as FromSpec<SqlxStoreError>>::obeys_from_spec(),
        <SessionStoreError as FromSpec<SqlxStoreError>>::from_spec(err) is Backend
            <==> err is Sqlx,
        <SessionStoreError as FromSpec<SqlxStoreError>>::from_spec(err) is Encode
            <==> err is Encode,
        <SessionStoreError as FromSpec<SqlxStoreError>>::from_spec(err) is Decode
            <==> err is Decode,
        session_error_message(<SessionStoreError as FromSpec<SqlxStoreError>>::from_spec(err))
            == store_error_message(err),
{
}

} // verus!
