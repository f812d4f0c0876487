//! The error of a client for model providers: what can go wrong between a
//! request and its answer, which class it falls in, whether a retry is worth
//! while, and what the user is told.
//!
//! `error` holds the type and its classification, `render` its messages,
//! `failure_text` the phrases by which providers announce failures, `sources`
//! and `status` the plain data that an error carries, `text` what is needed of
//! strings, and `outside` all that is trusted. What holds for every input is
//! proved in `laws` of errors as a whole, in `class_laws` of the decisions on
//! them, in `message_laws` of their messages, in `text_laws` of the functions on
//! text, and in `call_laws` of the results of calls.

pub mod call_laws;
pub mod class_laws;
pub mod error;
pub mod failure_text;
pub mod laws;
pub mod message_laws;
pub mod outside;
pub mod render;
pub mod sources;
pub mod status;
pub mod text;
pub mod text_laws;

pub use crate::error::ApiError;
pub use crate::failure_text::{looks_like_context_window_error, looks_like_generic_fatal_wrapper};
pub use crate::render::Platform;
pub use crate::sources::{EnvVarError, HttpError};
pub use crate::status::HttpStatus;
pub use crate::text::truncate_body_snippet;
