//! Client-side core of the IndexNow protocol: validated domain values (endpoint,
//! ownership key, key-file location, content URL) and the construction of the
//! two wire requests, a single-URL `GET` and a batch `POST`.

pub mod error;
pub mod uri;
pub mod key;
pub mod url;
pub mod form;
pub mod json;
pub mod request;
pub mod laws;
