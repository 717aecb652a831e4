//! Verified core of an image intake service.
//!
//! Images reach the service as parts of a multipart upload, as remote
//! locations to fetch, or as data URLs. Whatever the way in, an item is
//! classified by its media type, stored under a freshly allocated name, and
//! given a preview of fixed size; the names of the items that made it are the
//! answer to the request.
//!
//! This crate holds the rules of that intake and proves them. It does no
//! input or output of its own: [`pipeline::Pipeline`] is a state machine that
//! tells its driver what to do next and is told what came of it.
//!
//! - [`mime_type`] classifies content by its declared media type.
//! - [`data_url`] finds and takes apart data URLs.
//! - [`allocator`] makes the names under which images are stored.
//! - [`storage`] lays out where a full image and its preview live.
//! - [`thumbnail`] makes previews.
//! - [`pipeline`] orders the steps of a request, and [`laws`] states what
//!   holds of every step and of every run.
//! - [`guard`] tells multipart uploads from other requests.
//! - [`text`] searches text.

pub mod allocator;
pub mod data_url;
pub mod guard;
pub mod laws;
pub mod mime_type;
pub mod pipeline;
pub mod storage;
pub mod text;
pub mod thumbnail;
