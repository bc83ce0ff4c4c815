//! Gastropath turns a shared map link into a record of the place it points
//! to and stores that record, once, in a note-taking database.
//!
//! The library holds every decision on that way and none of the I/O. A
//! request is a [`pipeline::Pipeline`]: it says which HTTP request it waits
//! on, and `advance` takes what came back and gives the pipeline that
//! follows, until the request is over. A driver around the library sends the
//! requests.

pub mod cloudinary;
pub mod config;
pub mod error;
pub mod google_places;
pub mod http;
pub mod json;
pub mod logging;
pub mod notion;
pub mod pipeline;
pub mod text;
pub mod utils;
pub mod yelp;
