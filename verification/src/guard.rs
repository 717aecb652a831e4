//! Which requests are taken as multipart uploads.

use vstd::prelude::*;
use crate::text::{has_prefix, starts_with};

verus! {

/// What the content type of a multipart upload begins with.
pub open spec fn multipart_prefix() -> Seq<char> {
    "multipart/form-data;"@
}

/// Whether a request with this `Content-Type` header is a multipart upload.
pub open spec fn is_multipart(content_type: Option<Seq<char>>) -> bool {
    content_type matches Some(text) && has_prefix(text, multipart_prefix())
}

/// The guard in front of the multipart handler.
pub struct MultipartHeaderGuard {}

impl MultipartHeaderGuard {
    /// Lets a request through exactly when it carries a `Content-Type`
    /// header whose value is text and begins with `multipart/form-data;`.
    ///
    /// `content_type` is the value of the header where the request has one
    /// that is text.
    pub fn check(&self, content_type: Option<&str>) -> (accepted: bool)
        ensures
            accepted == is_multipart(
                match content_type {
                    Some(text) => Some(text@),
                    None => None,
                },
            ),
    {
        match content_type {
            Some(text) => starts_with(text, "multipart/form-data;"),
            None => false,
        }
    }
}

} // verus!
