//! Data URLs: `data:<type>;base64,<payload>`.
//!
//! A text holds a data URL where `data:` is followed by at least one character
//! of type tag, the marker `;base64,` and at least one character of payload.
//! The leftmost `data:` that can be completed this way opens the URL, the type
//! tag runs up to the first marker that completes it, and the payload is the
//! whole rest of the text. The payload is kept as it stands; decoding it is a
//! later step and may fail on its own.

use vstd::prelude::*;
use vstd::string::*;
use vstd::utf8::encode_utf8;
use crate::mime_type::{mime_of, mime_view, MimeModel, MimeType};
use crate::text::{find, occurs_at, to_chars};

verus! {

/// What opens a data URL.
pub open spec fn prefix() -> Seq<char> {
    "data:"@
}

/// What parts the type tag from the payload.
pub open spec fn marker() -> Seq<char> {
    ";base64,"@
}

/// `text` holds a data URL that opens at `open` and has its marker at `mark`.
pub open spec fn splits_at(text: Seq<char>, open: int, mark: int) -> bool {
    &&& occurs_at(text, prefix(), open)
    &&& open + prefix().len() < mark
    &&& occurs_at(text, marker(), mark)
    &&& mark + marker().len() < text.len()
}

/// `text` has the structure of a data URL somewhere in it.
pub open spec fn has_data_url(text: Seq<char>) -> bool {
    exists|open: int, mark: int| splits_at(text, open, mark)
}

/// The split that is taken: no data URL opens further left, and from that
/// opening no marker further left completes one.
pub open spec fn is_leftmost_split(text: Seq<char>, open: int, mark: int) -> bool {
    &&& splits_at(text, open, mark)
    &&& forall|o: int, m: int| splits_at(text, o, m) ==> open <= o
    &&& forall|m: int| splits_at(text, open, m) ==> mark <= m
}

/// The two captures of a data URL, as mathematical values.
pub struct PartsModel {
    pub type_tag: Seq<char>,
    pub payload: Seq<char>,
}

/// The captures that belong to a split.
pub open spec fn parts_at(text: Seq<char>, open: int, mark: int) -> PartsModel {
    PartsModel {
        type_tag: text.subrange(open + prefix().len(), mark),
        payload: text.skip(mark + marker().len()),
    }
}

/// The captures of the data URL in `text`, or `None` where it holds none.
pub open spec fn data_url_parts(text: Seq<char>) -> Option<PartsModel> {
    if has_data_url(text) {
        let (open, mark) = choose|open: int, mark: int| is_leftmost_split(text, open, mark);
        Some(parts_at(text, open, mark))
    } else {
        None
    }
}

/// The two captures of a data URL.
pub struct DataUrlParts {
    /// What stands between `data:` and the marker.
    pub type_tag: String,
    /// What follows the marker, still encoded.
    pub payload: String,
}

impl View for DataUrlParts {
    type V = PartsModel;

    open spec fn view(&self) -> PartsModel {
        PartsModel { type_tag: self.type_tag@, payload: self.payload@ }
    }
}

/// View of optional captures.
pub open spec fn parts_view(parts: Option<DataUrlParts>) -> Option<PartsModel> {
    match parts {
        Some(p) => Some(p@),
        None => None,
    }
}

/// A parsed data URL: its media type and its payload, not yet decoded.
pub struct DataURL {
    pub type_: MimeType,
    pub data: Vec<u8>,
}

/// Mathematical value of a [`DataURL`].
pub struct DataUrlModel {
    pub type_: MimeModel,
    pub data: Seq<u8>,
}

impl View for DataURL {
    type V = DataUrlModel;

    open spec fn view(&self) -> DataUrlModel {
        DataUrlModel { type_: self.type_@, data: self.data@ }
    }
}

/// View of an optional data URL.
pub open spec fn data_url_view(url: Option<DataURL>) -> Option<DataUrlModel> {
    match url {
        Some(u) => Some(u@),
        None => None,
    }
}

/// What becomes of captures once the type tag has been classified: a data URL
/// with the payload as UTF-8 bytes, or nothing where the tag is no media type.
pub open spec fn assemble(mime: Option<MimeModel>, payload: Seq<char>) -> Option<DataUrlModel> {
    match mime {
        Some(m) => Some(DataUrlModel { type_: m, data: encode_utf8(payload) }),
        None => None,
    }
}

/// The data URL that `text` holds, if it holds one whose type tag is a media
/// type.
pub open spec fn data_url_of(text: Seq<char>) -> Option<DataUrlModel> {
    match data_url_parts(text) {
        Some(parts) => assemble(mime_of(parts.type_tag), parts.payload),
        None => None,
    }
}

/// There is only one leftmost split, and it is the one `data_url_parts` takes.
pub proof fn lemma_leftmost_split_is_taken(text: Seq<char>, open: int, mark: int)
    requires
        is_leftmost_split(text, open, mark),
    ensures
        has_data_url(text),
        data_url_parts(text) == Some(parts_at(text, open, mark)),
{
    let (o, m) = choose|o: int, m: int| is_leftmost_split(text, o, m);
    assert(splits_at(text, open, mark));
    assert(splits_at(text, o, m));
    assert(o == open);
    assert(m == mark);
}

/// A text that holds a data URL has a leftmost split, and its captures are
/// never empty.
pub proof fn lemma_parts_are_not_empty(text: Seq<char>)
    requires
        has_data_url(text),
    ensures
        data_url_parts(text) matches Some(parts) && parts.type_tag.len() > 0 && parts.payload.len()
            > 0,
{
    lemma_leftmost_split_exists(text);
    let (o, m) = choose|o: int, m: int| is_leftmost_split(text, o, m);
    assert(splits_at(text, o, m));
}

/// Round trip: a text put together from `data:`, a type tag, the marker and
/// a payload falls apart into that tag and that payload again, as long as
/// neither is empty and no marker begins inside the tag behind its first
/// character.
pub proof fn lemma_split_round_trip(type_tag: Seq<char>, payload: Seq<char>)
    requires
        type_tag.len() > 0,
        payload.len() > 0,
        forall|k: int| 1 <= k < type_tag.len() ==> !occurs_at(type_tag + marker(), marker(), k),
    ensures
        data_url_parts(prefix() + type_tag + marker() + payload) == Some(
            PartsModel { type_tag, payload },
        ),
{
    reveal_strlit("data:");
    reveal_strlit(";base64,");
    let text = prefix() + type_tag + marker() + payload;
    let mark = 5 + type_tag.len() as int;
    assert(text.subrange(0, 5) =~= prefix());
    assert(text.subrange(mark, mark + 8) =~= marker());
    assert(splits_at(text, 0, mark));
    assert forall|o: int, m: int| splits_at(text, o, m) implies 0 <= o by {}
    assert forall|m: int| splits_at(text, 0, m) implies mark <= m by {
        if m < mark {
            let k = m - 5;
            assert((type_tag + marker()).subrange(k, k + 8) =~= text.subrange(m, m + 8));
            assert(occurs_at(type_tag + marker(), marker(), k));
        }
    }
    lemma_leftmost_split_is_taken(text, 0, mark);
    assert(parts_at(text, 0, mark).type_tag =~= type_tag);
    assert(parts_at(text, 0, mark).payload =~= payload);
}

/// Round trip for the usual case: a type tag without a semicolon.
pub proof fn lemma_split_round_trip_plain(type_tag: Seq<char>, payload: Seq<char>)
    requires
        type_tag.len() > 0,
        payload.len() > 0,
        !type_tag.contains(';'),
    ensures
        data_url_parts(prefix() + type_tag + marker() + payload) == Some(
            PartsModel { type_tag, payload },
        ),
        data_url_of(prefix() + type_tag + marker() + payload) == assemble(
            mime_of(type_tag),
            payload,
        ),
{
    reveal_strlit(";base64,");
    assert forall|k: int| 1 <= k < type_tag.len() implies !occurs_at(
        type_tag + marker(),
        marker(),
        k,
    ) by {
        if occurs_at(type_tag + marker(), marker(), k) {
            assert((type_tag + marker()).subrange(k, k + 8)[0] == ';');
            assert(type_tag[k] == ';');
        }
    }
    lemma_split_round_trip(type_tag, payload);
}

/// The captures stand in the text: whatever is found is what the text holds
/// between `data:` and the marker and behind the marker.
pub proof fn lemma_parts_stand_in_text(text: Seq<char>)
    requires
        has_data_url(text),
    ensures
        exists|head: Seq<char>|
            text == head + prefix() + data_url_parts(text)->0.type_tag + marker() + data_url_parts(
                text,
            )->0.payload,
{
    lemma_leftmost_split_exists(text);
    let (open, mark) = choose|open: int, mark: int| is_leftmost_split(text, open, mark);
    let parts = parts_at(text, open, mark);
    let head = text.take(open);
    assert(text =~= head + prefix() + parts.type_tag + marker() + parts.payload) by {
        let joined = head + prefix() + parts.type_tag + marker() + parts.payload;
        let p = prefix().len() as int;
        let q = marker().len() as int;
        assert(joined.len() == text.len());
        assert forall|i: int| 0 <= i < text.len() implies text[i] == joined[i] by {
            if i < open {
            } else if i < open + p {
                assert(text.subrange(open, open + p)[i - open] == prefix()[i - open]);
            } else if i < mark {
            } else if i < mark + q {
                assert(text.subrange(mark, mark + q)[i - mark] == marker()[i - mark]);
            } else {
            }
        }
    }
}

/// Where there is a split at all, there is a leftmost one.
pub proof fn lemma_leftmost_split_exists(text: Seq<char>)
    requires
        has_data_url(text),
    ensures
        exists|open: int, mark: int| is_leftmost_split(text, open, mark),
{
    let (o, m) = choose|o: int, m: int| splits_at(text, o, m);
    let open = least_opening(text, o, m, 0);
    let mark = least_mark(text, open, 0);
    assert(is_leftmost_split(text, open, mark));
}

/// The least opening of a split that lies at or after `from`, given that one
/// lies there.
proof fn least_opening(text: Seq<char>, o: int, m: int, from: int) -> (open: int)
    requires
        splits_at(text, o, m),
        0 <= from <= o,
        forall|o2: int, m2: int| splits_at(text, o2, m2) ==> from <= o2,
    ensures
        exists|m2: int| splits_at(text, open, m2),
        forall|o2: int, m2: int| splits_at(text, o2, m2) ==> open <= o2,
    decreases o - from,
{
    if exists|m2: int| splits_at(text, from, m2) {
        from
    } else {
        least_opening(text, o, m, from + 1)
    }
}

/// The least marker position that completes a split opening at `open`.
proof fn least_mark(text: Seq<char>, open: int, from: int) -> (mark: int)
    requires
        exists|m: int| splits_at(text, open, m),
        0 <= from,
        forall|m: int| splits_at(text, open, m) ==> from <= m,
    ensures
        splits_at(text, open, mark),
        forall|m: int| splits_at(text, open, m) ==> mark <= m,
    decreases (choose|m: int| splits_at(text, open, m)) - from,
{
    if splits_at(text, open, from) {
        from
    } else {
        least_mark(text, open, from + 1)
    }
}

/// Finds the data URL in a text and returns its two captures.
///
/// Returns `None` exactly where the text does not have the structure of a
/// data URL. Otherwise the type tag is what stands between the leftmost
/// `data:` that opens a data URL and the first marker that completes it, and
/// the payload is everything after that marker.
pub fn split_data_url(text: &str) -> (parts: Option<DataUrlParts>)
    ensures
        parts_view(parts) == data_url_parts(text@),
        parts is Some <==> has_data_url(text@),
{
    proof {
        reveal_strlit("data:");
        reveal_strlit(";base64,");
    }
    let chars = to_chars(text);
    let opening = to_chars("data:");
    let marking = to_chars(";base64,");
    let len = chars.len();
    let open = match find(&chars, &opening, 0) {
        Some(open) => open,
        None => {
            assert(!has_data_url(text@));
            return None;
        },
    };
    if len - open <= opening.len() {
        assert forall|o: int, m: int| !splits_at(text@, o, m) by {
            if splits_at(text@, o, m) {
                assert(occurs_at(text@, prefix(), o));
            }
        }
        return None;
    }
    let mark = match find(&chars, &marking, open + opening.len() + 1) {
        Some(mark) => mark,
        None => {
            assert forall|o: int, m: int| !splits_at(text@, o, m) by {
                if splits_at(text@, o, m) {
                    assert(occurs_at(text@, prefix(), o));
                    assert(occurs_at(text@, marker(), m));
                }
            }
            return None;
        },
    };
    if len - mark <= marking.len() {
        assert forall|o: int, m: int| !splits_at(text@, o, m) by {
            if splits_at(text@, o, m) {
                assert(occurs_at(text@, prefix(), o));
                assert(occurs_at(text@, marker(), m));
            }
        }
        return None;
    }
    proof {
        assert(splits_at(text@, open as int, mark as int));
        assert forall|o: int, m: int| splits_at(text@, o, m) implies open <= o by {
            assert(occurs_at(text@, prefix(), o));
        }
        assert forall|m: int| splits_at(text@, open as int, m) implies mark <= m by {
            assert(occurs_at(text@, marker(), m));
        }
        lemma_leftmost_split_is_taken(text@, open as int, mark as int);
    }
    let type_tag = String::from_str(text.substring_char(open + opening.len(), mark));
    let payload = String::from_str(text.substring_char(mark + marking.len(), len));
    Some(DataUrlParts { type_tag, payload })
}

/// What standard base64 decoding makes of `encoded`: the bytes it stands for,
/// or `None` where the decoder rejects the input.
pub uninterp spec fn base64_decoded(encoded: Seq<u8>) -> Option<Seq<u8>>;

/// The error type of the `base64` crate's decoder.
#[verifier::external_type_specification]
#[verifier::external_body]
pub struct ExDecodeError(base64::DecodeError);

/// Calls `base64::Engine::decode` on the crate's `STANDARD` engine.
///
/// Trusted: the outcome is the crate's decoding of `encoded`, named
/// `base64_decoded`. Nothing is claimed about which inputs decode.
#[verifier::external_body]
fn decode_base64(encoded: &[u8]) -> (decoded: Result<Vec<u8>, base64::DecodeError>)
    ensures
        match decoded {
            Ok(bytes) => base64_decoded(encoded@) == Some(bytes@),
            Err(_) => base64_decoded(encoded@) is None,
        },
{
    base64::Engine::decode(&base64::engine::general_purpose::STANDARD, encoded)
}

/// A payload that is no valid base64.
#[derive(Clone, Copy, Debug, PartialEq, Eq, Structural)]
pub struct InvalidPayload;

/// Decodes the payload of a data URL in one go.
///
/// Fails exactly where the payload is no valid standard base64.
pub fn decode_payload(payload: &[u8]) -> (decoded: Result<Vec<u8>, InvalidPayload>)
    ensures
        match decoded {
            Ok(bytes) => base64_decoded(payload@) == Some(bytes@),
            Err(_) => base64_decoded(payload@) is None,
        },
{
    match decode_base64(payload) {
        Ok(bytes) => Ok(bytes),
        Err(_) => Err(InvalidPayload),
    }
}

impl DataURL {
    /// Puts a data URL together from a classified type tag and a payload.
    ///
    /// Gives `None` exactly where the type tag was no media type. The payload
    /// is stored as its UTF-8 bytes, undecoded.
    pub fn from_parts(mime: Option<MimeType>, payload: &str) -> (url: Option<DataURL>)
        ensures
            data_url_view(url) == assemble(mime_view(mime), payload@),
    {
        match mime {
            Some(type_) => Some(DataURL { type_, data: payload.as_bytes_vec() }),
            None => None,
        }
    }
}

/// Parses a data URL.
///
/// Returns `None`, which is no error, where the text does not have the
/// structure of a data URL or where its type tag is no media type. Otherwise
/// the result carries the media type read from the tag and the payload as it
/// stands in the text.
pub fn parse_data_url(data_url: &str) -> (url: Option<DataURL>)
    ensures
        data_url_view(url) == data_url_of(data_url@),
        !has_data_url(data_url@) ==> url is None,
{
    match split_data_url(data_url) {
        Some(parts) => {
            let mime = MimeType::parse(parts.type_tag.as_str());
            DataURL::from_parts(mime, parts.payload.as_str())
        },
        None => None,
    }
}

} // verus!
