//! Verified core of a small key/value web application: the mapping of
//! session-store errors, the records that the model store keeps, the
//! decisions behind the model listing, and the OAuth2 client set-up.

pub mod listing;
pub mod model;
pub mod oauth;
pub mod store_error;
