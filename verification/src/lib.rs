//! A SoundCloud API client whose decision logic is verified with Verus:
//! request URLs and resource paths, response status handling, the retry
//! policy for expired client ids, proxy refreshing, client-id discovery in
//! page text, and the planning of track and playlist downloads.

pub mod text;
pub mod error;
pub mod config;
pub mod builder;
pub mod identifier;
pub mod response;
pub mod query;
pub mod download;
pub mod request;
pub mod discovery;
