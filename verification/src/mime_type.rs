//! Content classification: media types as the intake pipeline reads them.
//!
//! Classification never fails hard. A declared type that is missing or cannot
//! be parsed degrades to "unclassified", and only a top-level type of `image`
//! lets an item through. Its subtype then serves as the file extension, as it
//! stands; the one thing asked of it is that it holds no path separator, so
//! that no name leads out of the place where images are stored.

use vstd::prelude::*;
use vstd::string::*;
use crate::storage::{is_plain, is_plain_name};

verus! {

/// A media type, reduced to the two names the pipeline looks at.
pub struct MimeType {
    /// Top-level type, such as `image`.
    pub type_: String,
    /// Subtype, such as `png`; without any `+suffix` and without parameters.
    pub subtype: String,
}

/// Mathematical value of a [`MimeType`].
pub struct MimeModel {
    pub type_: Seq<char>,
    pub subtype: Seq<char>,
}

impl View for MimeType {
    type V = MimeModel;

    open spec fn view(&self) -> MimeModel {
        MimeModel { type_: self.type_@, subtype: self.subtype@ }
    }
}

/// View of an optional media type.
pub open spec fn mime_view(mime: Option<MimeType>) -> Option<MimeModel> {
    match mime {
        Some(m) => Some(m@),
        None => None,
    }
}

/// What the `mime` crate's parser makes of `text`: the top-level type and the
/// subtype of the media type it reads, in the lower-case form the parser
/// stores, or `None` where it rejects the text.
pub uninterp spec fn parsed_mime(text: Seq<char>) -> Option<(Seq<char>, Seq<char>)>;

/// Media type that a declared content type stands for, if any.
pub open spec fn mime_of(text: Seq<char>) -> Option<MimeModel> {
    match parsed_mime(text) {
        Some((type_, subtype)) => Some(MimeModel { type_, subtype }),
        None => None,
    }
}

/// The top-level type that lets an item pass classification.
pub open spec fn image_type() -> Seq<char> {
    "image"@
}

/// Whether a classification result stands for image content.
pub open spec fn is_image(mime: Option<MimeModel>) -> bool {
    mime matches Some(m) && m.type_ == image_type()
}

/// The file extension classification assigns: the subtype of an image type,
/// taken verbatim, as long as it holds no path separator. Everything else
/// gets none.
pub open spec fn extension_of(mime: Option<MimeModel>) -> Option<Seq<char>> {
    match mime {
        Some(m) => if is_image(mime) && is_plain_name(m.subtype) {
            Some(m.subtype)
        } else {
            None
        },
        None => None,
    }
}

/// The error type of the `mime` crate's parser.
#[verifier::external_type_specification]
#[verifier::external_body]
pub struct ExFromStrError(mime::FromStrError);

/// Calls `mime::Mime::from_str` (through `str::parse`) and copies out what
/// `Mime::type_` and `Mime::subtype` give for the parsed value.
///
/// Trusted: the result is the crate's parse of `text`, named `parsed_mime`.
/// Nothing is claimed about which texts parse or what their names are.
#[verifier::external_body]
fn parse_mime(text: &str) -> (parsed: Result<MimeType, mime::FromStrError>)
    ensures
        match parsed {
            Ok(m) => parsed_mime(text@) == Some((m.type_@, m.subtype@)),
            Err(_) => parsed_mime(text@) is None,
        },
{
    match text.parse::<mime::Mime>() {
        Ok(m) => Ok(
            MimeType {
                type_: m.type_().as_str().to_string(),
                subtype: m.subtype().as_str().to_string(),
            },
        ),
        Err(error) => Err(error),
    }
}

impl MimeType {
    /// Tells whether the top-level type is `image`.
    pub fn is_image(&self) -> (image: bool)
        ensures
            image == is_image(Some(self@)),
    {
        let wanted = String::from_str("image");
        self.type_ == wanted
    }

    /// Tells whether an item of this type is stored: it is an image, and its
    /// subtype can serve as a file extension without leading out of the
    /// place where images are stored.
    pub fn is_storable(&self) -> (storable: bool)
        ensures
            storable == (extension_of(Some(self@)) is Some),
    {
        self.is_image() && is_plain(self.subtype.as_str())
    }
}

impl MimeType {
    /// Reads a media type from text such as `image/png`.
    ///
    /// Gives `None` exactly where the text is no media type; that is no
    /// error, the item it came with is just unclassified.
    pub fn parse(text: &str) -> (mime: Option<MimeType>)
        ensures
            mime_view(mime) == mime_of(text@),
    {
        match parse_mime(text) {
            Ok(mime) => Some(mime),
            Err(_) => None,
        }
    }
}

/// Classifies the `Content-Type` header of a response.
///
/// `content_type` is the header's value where the response carries one that
/// is text. A missing header and a value that is no media type both give
/// `None`: the item is unclassified, which is no error.
pub fn get_mime(content_type: Option<&str>) -> (mime: Option<MimeType>)
    ensures
        mime_view(mime) == match content_type {
            Some(text) => mime_of(text@),
            None => None,
        },
{
    match content_type {
        Some(text) => MimeType::parse(text),
        None => None,
    }
}

/// Classification filter: an item gets an extension only when it is
/// classified and its top-level type is `image`, and the extension is then
/// its subtype as it stands. An unclassified item and an item of any other
/// type get none, and neither does a subtype that holds a path separator.
pub proof fn lemma_only_images_pass(mime: Option<MimeModel>)
    ensures
        extension_of(mime) is Some <==> is_image(mime) && is_plain_name(mime->0.subtype),
        is_image(mime) <==> (mime matches Some(m) && m.type_ == image_type()),
        extension_of(mime) is Some ==> extension_of(mime) == Some(mime->0.subtype),
        !is_image(None),
{
}

} // verus!
