//! The ingestion pipeline of one request.
//!
//! The pipeline is a state machine. Whoever drives it performs one action at
//! a time (fetch, create, write, make a preview) and reports what came of it
//! as an event; the machine answers with the next action. It decides which
//! items are images, under which name each is stored, in which order the
//! steps of an item run, and what a request answers in the end.
//!
//! An item is received, then either turned away (which is no error) or
//! classified as an image. A classified item is written in full, then gets
//! its preview, and only then is its name added to the answer. Any failure
//! on the way fails the whole request.

use vstd::prelude::*;
use vstd::string::*;
use crate::allocator::{filename_of, is_token, token_part, uuid_filename};
use crate::data_url::{
    base64_decoded, data_url_of, decode_payload, parse_data_url, DataURL, InvalidPayload,
};
use crate::mime_type::{extension_of, get_mime, mime_of, mime_view, MimeModel, MimeType};
use crate::storage::{asset_of, AssetModel, StoredAsset};

verus! {

/// One image of a JSON request.
pub enum Image {
    /// A remote location to fetch.
    Url(String),
    /// A data URL that carries type and payload in itself.
    Base64(String),
}

/// Mathematical value of an [`Image`].
pub enum ImageModel {
    Url(Seq<char>),
    Base64(Seq<char>),
}

impl View for Image {
    type V = ImageModel;

    open spec fn view(&self) -> ImageModel {
        match self {
            Image::Url(url) => ImageModel::Url(url@),
            Image::Base64(text) => ImageModel::Base64(text@),
        }
    }
}

/// Why a request failed.
#[derive(Clone, Copy, Debug, PartialEq, Eq, Structural)]
pub enum Failure {
    /// A remote location could not be reached or answered with an error.
    Fetch,
    /// The file for a full image could not be created.
    Create,
    /// The stream of items, or the body of an item, broke off before its
    /// end.
    Transfer,
    /// Writing to the file of a full image failed.
    Write,
    /// The payload of a data URL is no valid base64.
    Decode,
    /// No preview could be made of a stored image.
    Thumbnail,
    /// An event was reported that answers no action of the pipeline.
    OutOfOrder,
}

impl Failure {
    /// The HTTP status a request answers with after this failure.
    pub open spec fn status_of(self) -> u16 {
        match self {
            Failure::Fetch => 400,
            _ => 500,
        }
    }

    /// The HTTP status a request answers with after this failure: a failed
    /// fetch is the client's fault, everything else the server's.
    pub fn status(&self) -> (code: u16)
        ensures
            code == self.status_of(),
    {
        match self {
            Failure::Fetch => 400,
            _ => 500,
        }
    }
}

/// What the driver reports to the pipeline.
pub enum Event {
    /// The next image of a JSON request.
    Image(Image),
    /// The next part of a multipart request, with its content type if it
    /// declares one.
    Field(Option<MimeType>),
    /// There are no more items.
    End,
    /// The stream of items broke off: no further item can be read, and
    /// nobody knows what is missing.
    Interrupted,
    /// A remote location answered: the status of the response, and the
    /// value of its `Content-Type` header where there is one that is text.
    Fetched { status: u16, content_type: Option<String> },
    /// A remote location could not be reached.
    FetchFailed,
    /// The file was created.
    Created,
    /// The file could not be created.
    CreateFailed,
    /// The body of the item yielded a chunk, which the driver holds.
    Chunk,
    /// The body of the item is exhausted.
    BodyEnded,
    /// The body of the item broke off.
    BodyFailed,
    /// The bytes were written.
    Written,
    /// The bytes could not be written.
    WriteFailed,
    /// The preview was made and stored.
    Thumbnailed,
    /// The preview could not be made or stored.
    ThumbnailFailed,
}

/// Mathematical value of an [`Event`].
pub enum EventModel {
    Image(ImageModel),
    Field(Option<MimeModel>),
    End,
    Interrupted,
    Fetched { status: u16, content_type: Option<Seq<char>> },
    FetchFailed,
    Created,
    CreateFailed,
    Chunk,
    BodyEnded,
    BodyFailed,
    Written,
    WriteFailed,
    Thumbnailed,
    ThumbnailFailed,
}

impl View for Event {
    type V = EventModel;

    open spec fn view(&self) -> EventModel {
        match self {
            Event::Image(image) => EventModel::Image(image@),
            Event::Field(mime) => EventModel::Field(mime_view(*mime)),
            Event::End => EventModel::End,
            Event::Interrupted => EventModel::Interrupted,
            Event::Fetched { status, content_type } => EventModel::Fetched {
                status: *status,
                content_type: match content_type {
                    Some(text) => Some(text@),
                    None => None,
                },
            },
            Event::FetchFailed => EventModel::FetchFailed,
            Event::Created => EventModel::Created,
            Event::CreateFailed => EventModel::CreateFailed,
            Event::Chunk => EventModel::Chunk,
            Event::BodyEnded => EventModel::BodyEnded,
            Event::BodyFailed => EventModel::BodyFailed,
            Event::Written => EventModel::Written,
            Event::WriteFailed => EventModel::WriteFailed,
            Event::Thumbnailed => EventModel::Thumbnailed,
            Event::ThumbnailFailed => EventModel::ThumbnailFailed,
        }
    }
}

/// What the pipeline asks the driver to do next.
pub enum Action {
    /// Hand over the next item, or report that there is none.
    AwaitItem,
    /// Fetch the remote location and report its content type.
    Fetch { url: String },
    /// Create the file for a full image at this path.
    Create { path: String },
    /// Pull the next chunk from the body of the item.
    AwaitChunk,
    /// Append the chunk just pulled to the file.
    WriteChunk,
    /// Append these bytes to the file; they are the whole content.
    Write { bytes: Vec<u8> },
    /// Make the preview of the image that is now stored in full.
    Thumbnail { asset: StoredAsset },
    /// Answer the request with these names.
    Respond { filenames: Vec<String> },
    /// Fail the request.
    Fail { failure: Failure },
}

/// Mathematical value of an [`Action`].
pub enum ActionModel {
    AwaitItem,
    Fetch { url: Seq<char> },
    Create { path: Seq<char> },
    AwaitChunk,
    WriteChunk,
    Write { bytes: Seq<u8> },
    Thumbnail { asset: AssetModel },
    Respond { filenames: Seq<Seq<char>> },
    Fail { failure: Failure },
}

impl View for Action {
    type V = ActionModel;

    open spec fn view(&self) -> ActionModel {
        match self {
            Action::AwaitItem => ActionModel::AwaitItem,
            Action::Fetch { url } => ActionModel::Fetch { url: url@ },
            Action::Create { path } => ActionModel::Create { path: path@ },
            Action::AwaitChunk => ActionModel::AwaitChunk,
            Action::WriteChunk => ActionModel::WriteChunk,
            Action::Write { bytes } => ActionModel::Write { bytes: bytes@ },
            Action::Thumbnail { asset } => ActionModel::Thumbnail { asset: asset@ },
            Action::Respond { filenames } => ActionModel::Respond {
                filenames: filenames.deep_view(),
            },
            Action::Fail { failure } => ActionModel::Fail { failure: *failure },
        }
    }
}

/// Where the bytes of a classified item come from.
pub enum Body {
    /// From a stream that the driver reads chunk by chunk.
    Stream,
    /// From the payload of a data URL, which is decoded in one go.
    Inline { payload: Vec<u8> },
}

/// Mathematical value of a [`Body`].
pub enum BodyModel {
    Stream,
    Inline { payload: Seq<u8> },
}

impl View for Body {
    type V = BodyModel;

    open spec fn view(&self) -> BodyModel {
        match self {
            Body::Stream => BodyModel::Stream,
            Body::Inline { payload } => BodyModel::Inline { payload: payload@ },
        }
    }
}

/// Where the pipeline stands.
pub enum Stage {
    /// Between items: the next one is awaited.
    Ready,
    /// An item was received and its remote location is being fetched.
    Fetching,
    /// An item was classified as an image; its file is being created.
    Creating { asset: StoredAsset, body: Body },
    /// The file exists; the next chunk of the body is awaited.
    Streaming { asset: StoredAsset },
    /// Bytes are being written; `last` tells that none will follow.
    Storing { asset: StoredAsset, last: bool },
    /// The image is written in full; its preview is being made.
    Thumbnailing { asset: StoredAsset },
    /// The request was answered.
    Done,
    /// The request failed.
    Failed { failure: Failure },
}

/// Mathematical value of a [`Stage`].
pub enum StageModel {
    Ready,
    Fetching,
    Creating { asset: AssetModel, body: BodyModel },
    Streaming { asset: AssetModel },
    Storing { asset: AssetModel, last: bool },
    Thumbnailing { asset: AssetModel },
    Done,
    Failed { failure: Failure },
}

impl View for Stage {
    type V = StageModel;

    open spec fn view(&self) -> StageModel {
        match self {
            Stage::Ready => StageModel::Ready,
            Stage::Fetching => StageModel::Fetching,
            Stage::Creating { asset, body } => StageModel::Creating { asset: asset@, body: body@ },
            Stage::Streaming { asset } => StageModel::Streaming { asset: asset@ },
            Stage::Storing { asset, last } => StageModel::Storing { asset: asset@, last: *last },
            Stage::Thumbnailing { asset } => StageModel::Thumbnailing { asset: asset@ },
            Stage::Done => StageModel::Done,
            Stage::Failed { failure } => StageModel::Failed { failure: *failure },
        }
    }
}

/// The pipeline of one request.
pub struct Pipeline {
    /// Where the item in progress stands.
    pub stage: Stage,
    /// Names of the items that got their preview, in the order they came.
    pub done: Vec<String>,
}

/// Mathematical value of a [`Pipeline`].
pub struct PipelineModel {
    pub stage: StageModel,
    pub done: Seq<Seq<char>>,
}

impl View for Pipeline {
    type V = PipelineModel;

    open spec fn view(&self) -> PipelineModel {
        PipelineModel { stage: self.stage@, done: self.done.deep_view() }
    }
}

/// The pipeline of a request that has not seen any item yet.
pub open spec fn initial() -> PipelineModel {
    PipelineModel { stage: StageModel::Ready, done: Seq::empty() }
}

/// The pipeline moves to `stage` and asks for `action`; the names gathered
/// so far stay as they are.
pub open spec fn proceed(
    done: Seq<Seq<char>>,
    stage: StageModel,
    action: ActionModel,
) -> (PipelineModel, ActionModel) {
    (PipelineModel { stage, done }, action)
}

/// The request fails.
pub open spec fn fail(done: Seq<Seq<char>>, failure: Failure) -> (PipelineModel, ActionModel) {
    proceed(done, StageModel::Failed { failure }, ActionModel::Fail { failure })
}

/// The item is turned away: nothing is stored and the next item is awaited.
pub open spec fn reject(done: Seq<Seq<char>>) -> (PipelineModel, ActionModel) {
    proceed(done, StageModel::Ready, ActionModel::AwaitItem)
}

/// The item is an image and is stored under `name`, starting with its file.
pub open spec fn accept(done: Seq<Seq<char>>, name: Seq<char>, body: BodyModel) -> (
    PipelineModel,
    ActionModel,
) {
    let asset = asset_of(name);
    proceed(
        done,
        StageModel::Creating { asset, body },
        ActionModel::Create { path: asset.full_path },
    )
}

/// Classification: an image whose subtype can serve as an extension is
/// given a name made of `token` and that subtype, anything else is turned
/// away.
pub open spec fn classify(
    done: Seq<Seq<char>>,
    mime: Option<MimeModel>,
    token: Seq<char>,
    body: BodyModel,
) -> (PipelineModel, ActionModel) {
    match extension_of(mime) {
        Some(extension) => accept(done, filename_of(token, extension), body),
        None => reject(done),
    }
}

/// The decoded payload is written as one chunk; a payload that does not
/// decode fails the request.
pub open spec fn store(done: Seq<Seq<char>>, asset: AssetModel, decoded: Option<Seq<u8>>) -> (
    PipelineModel,
    ActionModel,
) {
    match decoded {
        Some(bytes) => proceed(
            done,
            StageModel::Storing { asset, last: true },
            ActionModel::Write { bytes },
        ),
        None => fail(done, Failure::Decode),
    }
}

/// The file is complete: the preview is made next.
pub open spec fn finish_writing(done: Seq<Seq<char>>, asset: AssetModel) -> (
    PipelineModel,
    ActionModel,
) {
    proceed(done, StageModel::Thumbnailing { asset }, ActionModel::Thumbnail { asset })
}

/// Whether a response with this status delivers what was asked for.
pub open spec fn is_success(status: u16) -> bool {
    200 <= status < 300
}

/// The media type that a response declares.
pub open spec fn header_mime(header: Option<Seq<char>>) -> Option<MimeModel> {
    match header {
        Some(text) => mime_of(text),
        None => None,
    }
}

/// One step of the pipeline: the state after `event` and the action it asks
/// for. `token` is the token to use if the step allocates a name.
pub open spec fn step_model(s: PipelineModel, event: EventModel, token: Seq<char>) -> (
    PipelineModel,
    ActionModel,
) {
    match s.stage {
        StageModel::Ready => match event {
            EventModel::Image(ImageModel::Url(url)) => proceed(
                s.done,
                StageModel::Fetching,
                ActionModel::Fetch { url },
            ),
            EventModel::Image(ImageModel::Base64(text)) => match data_url_of(text) {
                Some(url) => classify(
                    s.done,
                    Some(url.type_),
                    token,
                    BodyModel::Inline { payload: url.data },
                ),
                None => reject(s.done),
            },
            EventModel::Field(mime) => classify(s.done, mime, token, BodyModel::Stream),
            EventModel::End => proceed(
                s.done,
                StageModel::Done,
                ActionModel::Respond { filenames: s.done },
            ),
            EventModel::Interrupted => fail(s.done, Failure::Transfer),
            _ => fail(s.done, Failure::OutOfOrder),
        },
        StageModel::Fetching => match event {
            EventModel::Fetched { status, content_type } => if is_success(status) {
                classify(s.done, header_mime(content_type), token, BodyModel::Stream)
            } else {
                fail(s.done, Failure::Fetch)
            },
            EventModel::FetchFailed => fail(s.done, Failure::Fetch),
            _ => fail(s.done, Failure::OutOfOrder),
        },
        StageModel::Creating { asset, body } => match event {
            EventModel::Created => match body {
                BodyModel::Stream => proceed(
                    s.done,
                    StageModel::Streaming { asset },
                    ActionModel::AwaitChunk,
                ),
                BodyModel::Inline { payload } => store(s.done, asset, base64_decoded(payload)),
            },
            EventModel::CreateFailed => fail(s.done, Failure::Create),
            _ => fail(s.done, Failure::OutOfOrder),
        },
        StageModel::Streaming { asset } => match event {
            EventModel::Chunk => proceed(
                s.done,
                StageModel::Storing { asset, last: false },
                ActionModel::WriteChunk,
            ),
            EventModel::BodyEnded => finish_writing(s.done, asset),
            EventModel::BodyFailed => fail(s.done, Failure::Transfer),
            _ => fail(s.done, Failure::OutOfOrder),
        },
        StageModel::Storing { asset, last } => match event {
            EventModel::Written => if last {
                finish_writing(s.done, asset)
            } else {
                proceed(s.done, StageModel::Streaming { asset }, ActionModel::AwaitChunk)
            },
            EventModel::WriteFailed => fail(s.done, Failure::Write),
            _ => fail(s.done, Failure::OutOfOrder),
        },
        StageModel::Thumbnailing { asset } => match event {
            EventModel::Thumbnailed => (
                PipelineModel { stage: StageModel::Ready, done: s.done.push(asset.filename) },
                ActionModel::AwaitItem,
            ),
            EventModel::ThumbnailFailed => fail(s.done, Failure::Thumbnail),
            _ => fail(s.done, Failure::OutOfOrder),
        },
        StageModel::Done => (s, ActionModel::Respond { filenames: s.done }),
        StageModel::Failed { failure } => (s, ActionModel::Fail { failure }),
    }
}

/// `next` and `action` are what a step from `s` on `event` can give: the
/// outcome of `step_model` for some token.
pub open spec fn is_step(
    s: PipelineModel,
    event: EventModel,
    next: PipelineModel,
    action: ActionModel,
) -> bool {
    exists|token: Seq<char>| is_token(token) && (next, action) == step_model(s, event, token)
}

/// A token whose digits are all zero but for the two that are fixed.
pub open spec fn sample_token() -> Seq<char> {
    Seq::new(
        36,
        |i: int|
            if i == 8 || i == 13 || i == 18 || i == 23 {
                '-'
            } else if i == 14 {
                '4'
            } else if i == 19 {
                '8'
            } else {
                '0'
            },
    )
}

/// Tokens exist.
pub proof fn lemma_sample_token()
    ensures
        is_token(sample_token()),
{
}

/// Copies a list of names.
pub fn copy_names(names: &Vec<String>) -> (copy: Vec<String>)
    ensures
        copy.deep_view() == names.deep_view(),
{
    let mut copy: Vec<String> = Vec::new();
    let mut i: usize = 0;
    while i < names.len()
        invariant
            i <= names.len(),
            copy.len() == i,
            forall|k: int| 0 <= k < i ==> copy@[k]@ == names@[k]@,
        decreases names.len() - i,
    {
        copy.push(names[i].clone());
        i += 1;
    }
    assert(copy.deep_view() =~= names.deep_view());
    copy
}

impl Pipeline {
    /// The pipeline of a new request.
    pub fn new() -> (pipeline: Pipeline)
        ensures
            pipeline@ == initial(),
    {
        let pipeline = Pipeline { stage: Stage::Ready, done: Vec::new() };
        assert(pipeline.done.deep_view() =~= Seq::empty());
        pipeline
    }

    /// Fails the request.
    fn fail(done: Vec<String>, failure: Failure) -> (r: (Pipeline, Action))
        ensures
            (r.0@, r.1@) == fail(done.deep_view(), failure),
    {
        (Pipeline { stage: Stage::Failed { failure }, done }, Action::Fail { failure })
    }

    /// Turns the item away.
    fn reject(done: Vec<String>) -> (r: (Pipeline, Action))
        ensures
            (r.0@, r.1@) == reject(done.deep_view()),
    {
        (Pipeline { stage: Stage::Ready, done }, Action::AwaitItem)
    }

    /// Starts storing an image under a name that was allocated for it.
    ///
    /// The file at the full path of that name is created first.
    fn accept(done: Vec<String>, name: String, body: Body) -> (r: (Pipeline, Action))
        ensures
            (r.0@, r.1@) == accept(done.deep_view(), name@, body@),
    {
        let asset = StoredAsset::new(name);
        let path = asset.full_path.clone();
        (Pipeline { stage: Stage::Creating { asset, body }, done }, Action::Create { path })
    }

    /// Classifies an item and, if it is an image, allocates its name.
    fn classify(done: Vec<String>, mime: Option<MimeType>, body: Body) -> (r: (Pipeline, Action))
        ensures
            exists|token: Seq<char>|
                is_token(token) && (r.0@, r.1@) == classify(
                    done.deep_view(),
                    mime_view(mime),
                    token,
                    body@,
                ),
    {
        proof {
            lemma_sample_token();
        }
        let ghost mut token = sample_token();
        let r = match mime {
            Some(m) => {
                if m.is_storable() {
                    let name = uuid_filename(&m);
                    proof {
                        token = token_part(name@);
                    }
                    Pipeline::accept(done, name, body)
                } else {
                    Pipeline::reject(done)
                }
            },
            None => Pipeline::reject(done),
        };
        assert(is_token(token) && (r.0@, r.1@) == classify(
            done.deep_view(),
            mime_view(mime),
            token,
            body@,
        ));
        r
    }

    /// Goes on after the payload of a data URL was decoded, or was found
    /// not to decode.
    ///
    /// Decoded bytes are written as the one and only chunk. A payload that
    /// did not decode fails the request.
    pub fn store(
        done: Vec<String>,
        asset: StoredAsset,
        decoded: Result<Vec<u8>, InvalidPayload>,
    ) -> (r: (Pipeline, Action))
        ensures
            (r.0@, r.1@) == store(
                done.deep_view(),
                asset@,
                match decoded {
                    Ok(bytes) => Some(bytes@),
                    Err(_) => None,
                },
            ),
    {
        match decoded {
            Ok(bytes) => (
                Pipeline { stage: Stage::Storing { asset, last: true }, done },
                Action::Write { bytes },
            ),
            Err(_) => Pipeline::fail(done, Failure::Decode),
        }
    }

    /// Goes on after the image was written in full: asks for its preview.
    fn finish_writing(done: Vec<String>, asset: StoredAsset) -> (r: (Pipeline, Action))
        ensures
            (r.0@, r.1@) == finish_writing(done.deep_view(), asset@),
    {
        let copy = asset.duplicate();
        (Pipeline { stage: Stage::Thumbnailing { asset }, done }, Action::Thumbnail { asset: copy })
    }

    /// Takes one event and answers with the next action.
    ///
    /// The outcome is that of `step_model`, for the token that was drawn if
    /// the step allocated a name. No event is refused: one that answers no
    /// action of the pipeline fails the request, and once the request is
    /// answered or has failed, every further event gets the same answer again.
    pub fn step(self, event: Event) -> (r: (Pipeline, Action))
        ensures
            is_step(self@, event@, r.0@, r.1@),
    {
        proof {
            lemma_sample_token();
        }
        let ghost mut token = sample_token();
        let Pipeline { stage, done } = self;
        let r = match stage {
            Stage::Ready => match event {
                Event::Image(Image::Url(url)) => (
                    Pipeline { stage: Stage::Fetching, done },
                    Action::Fetch { url },
                ),
                Event::Image(Image::Base64(text)) => {
                    match parse_data_url(text.as_str()) {
                        Some(url) => {
                            let DataURL { type_, data } = url;
                            let r = Pipeline::classify(
                                done,
                                Some(type_),
                                Body::Inline { payload: data },
                            );
                            proof {
                                token = choose|token: Seq<char>|
                                    is_token(token) && (r.0@, r.1@) == classify(
                                        self@.done,
                                        Some(type_@),
                                        token,
                                        BodyModel::Inline { payload: data@ },
                                    );
                            }
                            r
                        },
                        None => Pipeline::reject(done),
                    }
                },
                Event::Field(mime) => {
                    let r = Pipeline::classify(done, mime, Body::Stream);
                    proof {
                        token = choose|token: Seq<char>|
                            is_token(token) && (r.0@, r.1@) == classify(
                                self@.done,
                                mime_view(mime),
                                token,
                                BodyModel::Stream,
                            );
                    }
                    r
                },
                Event::End => {
                    let filenames = copy_names(&done);
                    (Pipeline { stage: Stage::Done, done }, Action::Respond { filenames })
                },
                Event::Interrupted => Pipeline::fail(done, Failure::Transfer),
                _ => Pipeline::fail(done, Failure::OutOfOrder),
            },
            Stage::Fetching => match event {
                Event::Fetched { status, content_type } => {
                    if 200 <= status && status < 300 {
                        let mime = match &content_type {
                            Some(text) => get_mime(Some(text.as_str())),
                            None => get_mime(None),
                        };
                        let r = Pipeline::classify(done, mime, Body::Stream);
                        proof {
                            token = choose|token: Seq<char>|
                                is_token(token) && (r.0@, r.1@) == classify(
                                    self@.done,
                                    mime_view(mime),
                                    token,
                                    BodyModel::Stream,
                                );
                        }
                        r
                    } else {
                        Pipeline::fail(done, Failure::Fetch)
                    }
                },
                Event::FetchFailed => Pipeline::fail(done, Failure::Fetch),
                _ => Pipeline::fail(done, Failure::OutOfOrder),
            },
            Stage::Creating { asset, body } => match event {
                Event::Created => match body {
                    Body::Stream => (
                        Pipeline { stage: Stage::Streaming { asset }, done },
                        Action::AwaitChunk,
                    ),
                    Body::Inline { payload } => Pipeline::store(
                        done,
                        asset,
                        decode_payload(payload.as_slice()),
                    ),
                },
                Event::CreateFailed => Pipeline::fail(done, Failure::Create),
                _ => Pipeline::fail(done, Failure::OutOfOrder),
            },
            Stage::Streaming { asset } => match event {
                Event::Chunk => (
                    Pipeline { stage: Stage::Storing { asset, last: false }, done },
                    Action::WriteChunk,
                ),
                Event::BodyEnded => Pipeline::finish_writing(done, asset),
                Event::BodyFailed => Pipeline::fail(done, Failure::Transfer),
                _ => Pipeline::fail(done, Failure::OutOfOrder),
            },
            Stage::Storing { asset, last } => match event {
                Event::Written => {
                    if last {
                        Pipeline::finish_writing(done, asset)
                    } else {
                        (Pipeline { stage: Stage::Streaming { asset }, done }, Action::AwaitChunk)
                    }
                },
                Event::WriteFailed => Pipeline::fail(done, Failure::Write),
                _ => Pipeline::fail(done, Failure::OutOfOrder),
            },
            Stage::Thumbnailing { asset } => match event {
                Event::Thumbnailed => {
                    let mut done = done;
                    done.push(asset.filename);
                    assert(done.deep_view() =~= self@.done.push(asset.filename@));
                    (Pipeline { stage: Stage::Ready, done }, Action::AwaitItem)
                },
                Event::ThumbnailFailed => Pipeline::fail(done, Failure::Thumbnail),
                _ => Pipeline::fail(done, Failure::OutOfOrder),
            },
            Stage::Done => {
                let filenames = copy_names(&done);
                (Pipeline { stage: Stage::Done, done }, Action::Respond { filenames })
            },
            Stage::Failed { failure } => (
                Pipeline { stage: Stage::Failed { failure }, done },
                Action::Fail { failure },
            ),
        };
        assert(is_token(token) && (r.0@, r.1@) == step_model(self@, event@, token));
        r
    }
}

} // verus!
