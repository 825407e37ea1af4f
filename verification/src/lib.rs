//! A client library for The Pirate Bay's JSON API: the requests to send, and
//! the reading of what comes back.
//!
//! The API is loose with its types. A count may come as a number or as the
//! text of one, a time as either, a missing value as an empty string, a file
//! name as an array of one. The decoders here take all of that and give
//! strict records, or the first reason why they cannot.
//!
//! This library sends nothing itself. `Request` describes each of the four
//! requests, `from_body` reads an answer, and the caller does the fetching
//! in between with whatever HTTP client it has.
pub mod api;
pub mod category;
pub mod decimal;
pub mod deser;
pub mod error;
pub mod json;
pub mod magnet;
pub mod tables;
pub mod text;
pub mod time;
pub mod types;

pub use api::{from_body, Request, API};
pub use category::Category;
pub use deser::{empty_as_none, parse_timestamp, u16_from_str, u64_from_str, unit_array, FromJson};
pub use error::DecodeError;
pub use magnet::{magnet_on, MagnetError};
pub use tables::{CATEGORIES, TRACKERS};
pub use time::Timestamp;
pub use types::{PartialTorrent, Torrent, TorrentFile, UserStatus};
