//! Request encoding, transport selection and response decoding for the
//! Telegram Bot HTTP API.

pub mod envelope;
pub mod form;
pub mod json;
pub mod requests;
pub mod results;
pub mod types;
