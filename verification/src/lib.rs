//! Server-side logic of the isuketch drawing service: the SQL each handler
//! issues, how database rows become rooms and strokes, the JSON bodies of the
//! replies, the database settings, and the request handlers as state machines
//! that a web server drives.

pub mod json;
pub mod model;
pub mod reply;
pub mod query;
pub mod config;
pub mod handlers;
pub mod runs;
