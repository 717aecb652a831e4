//! What holds of every step and of every run of the pipeline.
//!
//! The laws are stated over `step_model`, which the executable `step` is
//! proved to follow, and over runs: sequences of events, each paired with the
//! token its step would draw if it allocated a name.

use vstd::prelude::*;
use crate::allocator::{
    filename_of, is_filename, is_token, lemma_filename_parts, lemma_name_is_plain, token_part,
};
use crate::mime_type::{extension_of, is_image, MimeModel};
use crate::pipeline::{
    accept, header_mime, initial, is_success, reject, step_model,
    ActionModel, BodyModel, EventModel, Failure, ImageModel, PipelineModel, StageModel,
};
use crate::data_url::data_url_of;
use crate::storage::{asset_of, full_path_of, is_plain_name, AssetModel};

verus! {

/// The asset of the item in progress, once it has one.
pub open spec fn asset_in(stage: StageModel) -> Option<AssetModel> {
    match stage {
        StageModel::Creating { asset, body } => Some(asset),
        StageModel::Streaming { asset } => Some(asset),
        StageModel::Storing { asset, last } => Some(asset),
        StageModel::Thumbnailing { asset } => Some(asset),
        _ => None,
    }
}

/// A name as the pipeline makes them: a token, a dot and an extension, with
/// no path separator anywhere.
pub open spec fn is_stored_name(name: Seq<char>) -> bool {
    is_filename(name) && is_plain_name(name)
}

/// Every name the pipeline holds is a token, a dot and an extension and holds
/// no path separator, and the asset in progress has the paths the layout
/// assigns to its name.
pub open spec fn well_formed(s: PipelineModel) -> bool {
    &&& forall|i: int| 0 <= i < s.done.len() ==> is_stored_name(#[trigger] s.done[i])
    &&& asset_in(s.stage) matches Some(asset) ==> asset.wf() && is_stored_name(asset.filename)
}

/// The request is over: it was answered or it failed.
pub open spec fn is_over(stage: StageModel) -> bool {
    stage is Done || stage is Failed
}

/// The media type that a data URL declares, if the text is one.
pub open spec fn inline_mime(text: Seq<char>) -> Option<MimeModel> {
    match data_url_of(text) {
        Some(url) => Some(url.type_),
        None => None,
    }
}

/// Where the bytes of an item come from that came as this text: from its
/// payload if it is a data URL.
pub open spec fn inline_body(text: Seq<char>) -> BodyModel {
    match data_url_of(text) {
        Some(url) => BodyModel::Inline { payload: url.data },
        None => BodyModel::Stream,
    }
}

/// The classification that `event` brings in `stage`: the effective media
/// type of the item and where its bytes would come from. `None` where the
/// event does not classify an item.
pub open spec fn classification(stage: StageModel, event: EventModel) -> Option<
    (Option<MimeModel>, BodyModel),
> {
    match (stage, event) {
        (StageModel::Ready, EventModel::Field(mime)) => Some((mime, BodyModel::Stream)),
        (StageModel::Ready, EventModel::Image(ImageModel::Base64(text))) => Some(
            (inline_mime(text), inline_body(text)),
        ),
        (StageModel::Fetching, EventModel::Fetched { status, content_type }) => if is_success(
            status,
        ) {
            Some((header_mime(content_type), BodyModel::Stream))
        } else {
            None
        },
        _ => None,
    }
}

/// Where one item stands on its way through the pipeline.
#[derive(Clone, Copy, Debug, PartialEq, Eq, Structural)]
pub enum ItemState {
    /// The item has come in and is not classified yet.
    Received,
    /// The item is an image; its bytes are being stored.
    Classified,
    /// The image is stored in full; its preview is being made.
    Written,
    /// The preview is stored and the name is part of the answer. Final.
    Thumbnailed,
    /// The item was turned away as no image. Final, and no error.
    Rejected,
    /// The item failed, and the request with it. Final.
    Failed,
}

/// Where the item that a step works on stands before the step. `None`
/// where the step works on no item.
pub open spec fn item_before(stage: StageModel, event: EventModel) -> Option<ItemState> {
    match stage {
        StageModel::Ready => if event is Image || event is Field {
            Some(ItemState::Received)
        } else {
            None
        },
        StageModel::Fetching => Some(ItemState::Received),
        StageModel::Creating { asset, body } => Some(ItemState::Classified),
        StageModel::Streaming { asset } => Some(ItemState::Classified),
        StageModel::Storing { asset, last } => Some(ItemState::Classified),
        StageModel::Thumbnailing { asset } => Some(ItemState::Written),
        StageModel::Done => None,
        StageModel::Failed { failure } => None,
    }
}

/// Where the item that a step works on stands after the step.
pub open spec fn item_after(s: PipelineModel, event: EventModel, token: Seq<char>) -> Option<
    ItemState,
> {
    match step_model(s, event, token).0.stage {
        StageModel::Ready => if s.stage is Thumbnailing {
            Some(ItemState::Thumbnailed)
        } else {
            Some(ItemState::Rejected)
        },
        StageModel::Fetching => Some(ItemState::Received),
        StageModel::Creating { asset, body } => Some(ItemState::Classified),
        StageModel::Streaming { asset } => Some(ItemState::Classified),
        StageModel::Storing { asset, last } => Some(ItemState::Classified),
        StageModel::Thumbnailing { asset } => Some(ItemState::Written),
        StageModel::Done => None,
        StageModel::Failed { failure } => Some(ItemState::Failed),
    }
}

/// The ways an item may go: from received to classified or rejected, from
/// classified to written, from written to thumbnailed, and from any of the
/// three to failed. An item may also stay where it is while the pipeline
/// waits for more.
pub open spec fn may_go(from: ItemState, to: ItemState) -> bool {
    match from {
        ItemState::Received => to == ItemState::Received || to == ItemState::Classified || to
            == ItemState::Rejected || to == ItemState::Failed,
        ItemState::Classified => to == ItemState::Classified || to == ItemState::Written || to
            == ItemState::Failed,
        ItemState::Written => to == ItemState::Thumbnailed || to == ItemState::Failed,
        _ => false,
    }
}

/// `a` is the beginning of `b`.
pub open spec fn is_prefix(a: Seq<Seq<char>>, b: Seq<Seq<char>>) -> bool {
    a.len() <= b.len() && b.take(a.len() as int) == a
}

/// The state after a run of events from `s`. The step on `events[i]` uses
/// `tokens[i]`.
pub open spec fn run(s: PipelineModel, events: Seq<EventModel>, tokens: Seq<Seq<char>>) -> PipelineModel
    decreases events.len(),
{
    if events.len() == 0 {
        s
    } else {
        step_model(
            run(s, events.drop_last(), tokens),
            events.last(),
            tokens[events.len() - 1],
        ).0
    }
}

/// The state of a new pipeline after the first `n` events of a run.
pub open spec fn state_at(events: Seq<EventModel>, tokens: Seq<Seq<char>>, n: int) -> PipelineModel {
    run(initial(), events.take(n), tokens)
}

/// The action a new pipeline asks for in answer to `events[k]` of a run.
pub open spec fn asked_at(events: Seq<EventModel>, tokens: Seq<Seq<char>>, k: int) -> ActionModel {
    step_model(state_at(events, tokens, k), events[k], tokens[k]).1
}

/// The action pulls or writes bytes of the item in progress.
pub open spec fn moves_bytes(action: ActionModel) -> bool {
    action is AwaitChunk || action is WriteChunk || action is Write
}

/// The action writes bytes to the file of the item in progress.
pub open spec fn writes_bytes(action: ActionModel) -> bool {
    action is WriteChunk || action is Write
}

/// In a run, the file of `asset` was asked for at step `c` and reported as
/// created right after, and from then on up to step `k` the pipeline asked
/// for nothing but the bytes of that file, each write of which was reported
/// as done before the pipeline went on.
pub open spec fn written_since(
    events: Seq<EventModel>,
    tokens: Seq<Seq<char>>,
    asset: AssetModel,
    c: int,
    k: int,
) -> bool {
    &&& 0 <= c
    &&& c + 1 < k
    &&& k <= events.len()
    &&& asked_at(events, tokens, c) == ActionModel::Create { path: asset.full_path }
    &&& events[c + 1] == EventModel::Created
    &&& forall|i: int| c < i < k ==> moves_bytes(#[trigger] asked_at(events, tokens, i))
    &&& forall|i: int|
        c < i && i + 1 < k && writes_bytes(#[trigger] asked_at(events, tokens, i)) ==> events[i
            + 1] == EventModel::Written
}

/// The token of `name` is one of the first `n` tokens of a run.
pub open spec fn drawn_before(tokens: Seq<Seq<char>>, n: int, name: Seq<char>) -> bool {
    exists|i: int| 0 <= i < n && #[trigger] tokens[i] == token_part(name)
}

/// No name stands twice in the list.
pub open spec fn no_duplicates(names: Seq<Seq<char>>) -> bool {
    forall|a: int, b: int| 0 <= a < b < names.len() ==> names[a] != names[b]
}

/// A new pipeline is well formed.
pub proof fn lemma_initial_is_well_formed()
    ensures
        well_formed(initial()),
{
}

/// Classification filter: an item whose effective media type is missing or
/// is not an image type is turned away. Nothing is added to the answer, no
/// action is taken on its behalf, and the request does not fail.
pub proof fn lemma_non_image_is_skipped(s: PipelineModel, event: EventModel, token: Seq<char>)
    requires
        classification(s.stage, event) matches Some((mime, body)) && !is_image(mime),
    ensures
        step_model(s, event, token) == reject(s.done),
        step_model(s, event, token).0.done == s.done,
        step_model(s, event, token).0.stage == StageModel::Ready,
        step_model(s, event, token).1 == ActionModel::AwaitItem,
{
}

/// An image whose subtype holds a path separator is turned away like an item
/// that is no image: its name would lead out of the place where images are
/// stored.
pub proof fn lemma_unstorable_is_skipped(s: PipelineModel, event: EventModel, token: Seq<char>)
    requires
        classification(s.stage, event) matches Some((mime, body)) && extension_of(mime) is None,
    ensures
        step_model(s, event, token) == reject(s.done),
{
}

/// An image whose subtype can serve as an extension is stored under a name
/// made of the token and that subtype, and its file is created first.
pub proof fn lemma_image_is_accepted(s: PipelineModel, event: EventModel, token: Seq<char>)
    requires
        classification(s.stage, event) matches Some((mime, body)) && extension_of(mime) is Some,
    ensures
        ({
            let (mime, body) = classification(s.stage, event)->0;
            let name = filename_of(token, mime->0.subtype);
            &&& is_image(mime)
            &&& step_model(s, event, token) == accept(s.done, name, body)
            &&& step_model(s, event, token).0.stage == StageModel::Creating {
                asset: asset_of(name),
                body,
            }
            &&& step_model(s, event, token).1 == ActionModel::Create {
                path: asset_of(name).full_path,
            }
        }),
{
}

/// Names are allocated nowhere but at classification.
pub proof fn lemma_assets_come_from_classification(
    s: PipelineModel,
    event: EventModel,
    token: Seq<char>,
)
    ensures
        ({
            let next = step_model(s, event, token).0;
            asset_in(next.stage) is Some ==> asset_in(next.stage) == asset_in(s.stage) || (
            classification(s.stage, event) matches Some((mime, body)) && extension_of(mime)
                is Some && asset_in(next.stage) == Some(
                asset_of(filename_of(token, mime->0.subtype)),
            ))
        }),
{
}

/// Write-then-thumbnail: a preview is asked for only in answer to the event
/// that completes the file, which is the end of a streamed body or the
/// confirmed write of the one chunk of an inline body. The preview is that
/// of the asset that was being written.
pub proof fn lemma_preview_follows_complete_write(
    s: PipelineModel,
    event: EventModel,
    token: Seq<char>,
)
    requires
        step_model(s, event, token).1 is Thumbnail,
    ensures
        ({
            let asset = step_model(s, event, token).1->Thumbnail_asset;
            &&& (s.stage == StageModel::Streaming { asset } && event == EventModel::BodyEnded) || (
            s.stage == StageModel::Storing { asset, last: true } && event == EventModel::Written)
            &&& step_model(s, event, token).0.stage == StageModel::Thumbnailing { asset }
        }),
{
}

/// Nothing is written before the file is known to exist: the pipeline asks
/// for a chunk or for a write only while it holds an asset whose creation
/// was confirmed, or in answer to that confirmation.
pub proof fn lemma_writes_follow_creation(s: PipelineModel, event: EventModel, token: Seq<char>)
    requires
        ({
            let action = step_model(s, event, token).1;
            action is AwaitChunk || action is WriteChunk || action is Write
        }),
    ensures
        (s.stage is Creating && event == EventModel::Created) || s.stage is Streaming
            || s.stage is Storing,
        asset_in(step_model(s, event, token).0.stage) == asset_in(s.stage),
{
}

/// A name enters the answer only when its preview is confirmed, and it is
/// appended behind the names already there.
pub proof fn lemma_done_grows_by_thumbnailed(s: PipelineModel, event: EventModel, token: Seq<char>)
    ensures
        ({
            let next = step_model(s, event, token).0;
            if s.stage is Thumbnailing && event == EventModel::Thumbnailed {
                next.done == s.done.push(s.stage->Thumbnailing_asset.filename)
            } else {
                next.done == s.done
            }
        }),
{
}

/// The request fails exactly when the pipeline says so, and for the reason
/// it keeps.
pub proof fn lemma_failure_is_kept(s: PipelineModel, event: EventModel, token: Seq<char>)
    ensures
        ({
            let (next, action) = step_model(s, event, token);
            &&& action is Fail <==> next.stage is Failed
            &&& action is Fail ==> next.stage == StageModel::Failed {
                failure: action->Fail_failure,
            }
            &&& action is Respond <==> next.stage is Done
            &&& action is Respond ==> action->Respond_filenames == next.done
        }),
{
}

/// Each kind of failure comes from the one step it belongs to.
pub proof fn lemma_failure_causes(s: PipelineModel, event: EventModel, token: Seq<char>)
    requires
        !is_over(s.stage),
        step_model(s, event, token).1 is Fail,
    ensures
        ({
            let failure = step_model(s, event, token).1->Fail_failure;
            match failure {
                Failure::Fetch => s.stage is Fetching && (event == EventModel::FetchFailed || (
                event matches EventModel::Fetched { status, content_type } && !is_success(status))),
                Failure::Create => s.stage is Creating && event == EventModel::CreateFailed,
                Failure::Transfer => (s.stage is Streaming && event == EventModel::BodyFailed) || (
                s.stage is Ready && event == EventModel::Interrupted),
                Failure::Write => s.stage is Storing && event == EventModel::WriteFailed,
                Failure::Decode => s.stage is Creating && event == EventModel::Created
                    && s.stage->Creating_body is Inline,
                Failure::Thumbnail => s.stage is Thumbnailing && event
                    == EventModel::ThumbnailFailed,
                Failure::OutOfOrder => true,
            }
        }),
{
}

/// Once the request is answered or has failed, no event changes anything.
pub proof fn lemma_over_is_final(s: PipelineModel, event: EventModel, token: Seq<char>)
    requires
        is_over(s.stage),
    ensures
        step_model(s, event, token).0 == s,
{
}

/// Every step moves its item along one of the ways of `may_go`, and the
/// final states are reached as they should be: an item is rejected by its
/// classification alone, it is thumbnailed exactly when its name joins the
/// answer, and it fails exactly when the request does.
pub proof fn lemma_items_go_their_way(s: PipelineModel, event: EventModel, token: Seq<char>)
    requires
        item_before(s.stage, event) is Some,
    ensures
        ({
            let next = step_model(s, event, token).0;
            let from = item_before(s.stage, event)->0;
            let to = item_after(s, event, token)->0;
            &&& item_after(s, event, token) is Some
            &&& may_go(from, to)
            &&& to == ItemState::Rejected <==> (classification(s.stage, event) matches Some(
                (mime, body),
            ) && extension_of(mime) is None)
            &&& to == ItemState::Thumbnailed <==> next.done == s.done.push(
                s.stage->Thumbnailing_asset.filename,
            ) && s.stage is Thumbnailing
            &&& to == ItemState::Thumbnailed || next.done == s.done
            &&& to == ItemState::Failed <==> next.stage is Failed
        }),
{
    let next = step_model(s, event, token).0;
    if s.stage is Thumbnailing && event == EventModel::Thumbnailed {
        assert(next.done.len() == s.done.len() + 1);
    } else {
        assert(next.done == s.done);
        assert(s.done.push(s.stage->Thumbnailing_asset.filename).len() == s.done.len() + 1);
    }
}

/// A step keeps the pipeline well formed.
pub proof fn lemma_step_keeps_well_formed(s: PipelineModel, event: EventModel, token: Seq<char>)
    requires
        well_formed(s),
        is_token(token),
    ensures
        well_formed(step_model(s, event, token).0),
{
    let next = step_model(s, event, token).0;
    match classification(s.stage, event) {
        Some((mime, body)) => {
            if extension_of(mime) is Some {
                lemma_filename_parts(token, mime->0.subtype);
                lemma_name_is_plain(token, mime->0.subtype);
            }
        },
        None => {},
    }
    assert forall|i: int| 0 <= i < next.done.len() implies is_stored_name(
        #[trigger] next.done[i],
    ) by {
        if i < s.done.len() {
            assert(next.done[i] == s.done[i]);
        }
    }
}

/// Nothing is stored outside the two roots: whenever the pipeline asks for a
/// file or for a preview, the paths are the two roots joined to one name,
/// and that name holds no path separator.
pub proof fn lemma_files_stay_in_place(s: PipelineModel, event: EventModel, token: Seq<char>)
    requires
        well_formed(s),
        is_token(token),
    ensures
        ({
            let (next, action) = step_model(s, event, token);
            &&& action matches ActionModel::Create { path } ==> (asset_in(next.stage) matches Some(
                asset,
            ) && path == full_path_of(asset.filename) && is_plain_name(asset.filename))
            &&& action matches ActionModel::Thumbnail { asset } ==> asset == asset_of(
                asset.filename,
            ) && is_plain_name(asset.filename)
        }),
{
    lemma_step_keeps_well_formed(s, event, token);
}

/// A run keeps the pipeline well formed.
pub proof fn lemma_run_keeps_well_formed(
    s: PipelineModel,
    events: Seq<EventModel>,
    tokens: Seq<Seq<char>>,
)
    requires
        well_formed(s),
        tokens.len() >= events.len(),
        forall|i: int| 0 <= i < events.len() ==> is_token(#[trigger] tokens[i]),
    ensures
        well_formed(run(s, events, tokens)),
    decreases events.len(),
{
    if events.len() > 0 {
        lemma_run_keeps_well_formed(s, events.drop_last(), tokens);
        lemma_step_keeps_well_formed(
            run(s, events.drop_last(), tokens),
            events.last(),
            tokens[events.len() - 1],
        );
    }
}

/// The answer only ever grows at its end: whatever happens later, the names
/// gathered so far stay where they are, in the order their items came.
pub proof fn lemma_run_extends_done(
    s: PipelineModel,
    events: Seq<EventModel>,
    tokens: Seq<Seq<char>>,
)
    ensures
        is_prefix(s.done, run(s, events, tokens).done),
    decreases events.len(),
{
    if events.len() == 0 {
        assert(s.done.take(s.done.len() as int) =~= s.done);
    } else {
        let before = run(s, events.drop_last(), tokens);
        lemma_run_extends_done(s, events.drop_last(), tokens);
        lemma_done_grows_by_thumbnailed(before, events.last(), tokens[events.len() - 1]);
        let after = run(s, events, tokens);
        assert(after.done.take(s.done.len() as int) =~= before.done.take(s.done.len() as int));
    }
}

/// Each item adds at most one name: the answer never holds more names than
/// previews were confirmed.
pub proof fn lemma_one_name_per_preview(
    s: PipelineModel,
    events: Seq<EventModel>,
    tokens: Seq<Seq<char>>,
)
    ensures
        run(s, events, tokens).done.len() <= s.done.len() + events.filter(
            |e: EventModel| e == EventModel::Thumbnailed,
        ).len(),
    decreases events.len(),
{
    let confirmed = |e: EventModel| e == EventModel::Thumbnailed;
    if events.len() == 0 {
    } else {
        let before = run(s, events.drop_last(), tokens);
        lemma_one_name_per_preview(s, events.drop_last(), tokens);
        lemma_done_grows_by_thumbnailed(before, events.last(), tokens[events.len() - 1]);
        assert(events =~= events.drop_last().push(events.last()));
        events.drop_last().lemma_filter_push(events.last(), confirmed);
    }
}

/// In a run, each state comes from the one before by one step.
pub proof fn lemma_state_steps(events: Seq<EventModel>, tokens: Seq<Seq<char>>, n: int)
    requires
        0 <= n < events.len(),
    ensures
        state_at(events, tokens, n + 1) == step_model(
            state_at(events, tokens, n),
            events[n],
            tokens[n],
        ).0,
{
    let upto = events.take(n + 1);
    assert(upto.drop_last() =~= events.take(n));
    assert(upto.last() == events[n]);
}

/// What a run remembers of the file in progress: while the file is being
/// created, the step before asked for it; while it is being filled, it was
/// created and nothing but its bytes was asked for since.
spec fn file_history(events: Seq<EventModel>, tokens: Seq<Seq<char>>, n: int) -> bool {
    match state_at(events, tokens, n).stage {
        StageModel::Creating { asset, body } => n >= 1 && asked_at(events, tokens, n - 1)
            == ActionModel::Create { path: asset.full_path },
        StageModel::Streaming { asset } => asked_at(events, tokens, n - 1) is AwaitChunk
            && exists|c: int| written_since(events, tokens, asset, c, n),
        StageModel::Storing { asset, last } => writes_bytes(asked_at(events, tokens, n - 1))
            && exists|c: int| written_since(events, tokens, asset, c, n),
        _ => true,
    }
}

proof fn lemma_file_history(events: Seq<EventModel>, tokens: Seq<Seq<char>>, n: int)
    requires
        0 <= n <= events.len(),
    ensures
        file_history(events, tokens, n),
    decreases n,
{
    if n == 0 {
        assert(events.take(0) =~= Seq::empty());
    } else {
        let m = n - 1;
        lemma_file_history(events, tokens, m);
        lemma_state_steps(events, tokens, m);
        let before = state_at(events, tokens, m);
        let after = state_at(events, tokens, n);
        match after.stage {
            StageModel::Streaming { asset } => {
                if before.stage is Creating {
                    assert(written_since(events, tokens, asset, m - 1, n));
                } else {
                    let c = choose|c: int| written_since(events, tokens, asset, c, m);
                    assert(written_since(events, tokens, asset, c, n));
                }
            },
            StageModel::Storing { asset, last } => {
                if before.stage is Creating {
                    assert(written_since(events, tokens, asset, m - 1, n));
                } else {
                    let c = choose|c: int| written_since(events, tokens, asset, c, m);
                    assert(written_since(events, tokens, asset, c, n));
                }
            },
            _ => {},
        }
    }
}

/// Write-then-thumbnail, over a whole run: whenever a new pipeline asks for a
/// preview, it has asked for the file of that very asset before and was told
/// that the file exists, it has asked for nothing but the bytes of that file
/// since, and every write it asked for was reported as done. The event that
/// prompts the preview is the end of the body or the report of the last
/// write.
pub proof fn lemma_preview_comes_after_all_writes(
    events: Seq<EventModel>,
    tokens: Seq<Seq<char>>,
    k: int,
)
    requires
        0 <= k < events.len(),
        asked_at(events, tokens, k) is Thumbnail,
    ensures
        ({
            let asset = asked_at(events, tokens, k)->Thumbnail_asset;
            &&& exists|c: int| written_since(events, tokens, asset, c, k)
            &&& events[k] == EventModel::BodyEnded || events[k] == EventModel::Written
            &&& writes_bytes(asked_at(events, tokens, k - 1)) ==> events[k] == EventModel::Written
        }),
{
    lemma_file_history(events, tokens, k);
    lemma_preview_follows_complete_write(state_at(events, tokens, k), events[k], tokens[k]);
}

/// What a run remembers of its names: the token of each was drawn at an
/// earlier step, the token of the asset in progress was drawn after those
/// of all names gathered so far, and no name was gathered twice.
spec fn name_history(events: Seq<EventModel>, tokens: Seq<Seq<char>>, n: int) -> bool {
    let s = state_at(events, tokens, n);
    &&& well_formed(s)
    &&& no_duplicates(s.done)
    &&& forall|j: int| 0 <= j < s.done.len() ==> drawn_before(tokens, n, #[trigger] s.done[j])
    &&& asset_in(s.stage) matches Some(asset) ==> exists|m: int|
        0 <= m < n && #[trigger] tokens[m] == token_part(asset.filename) && forall|j: int|
            0 <= j < s.done.len() ==> drawn_before(tokens, m, #[trigger] s.done[j])
}

proof fn lemma_name_history(events: Seq<EventModel>, tokens: Seq<Seq<char>>, n: int)
    requires
        0 <= n <= events.len(),
        tokens.len() >= events.len(),
        forall|i: int| 0 <= i < events.len() ==> is_token(#[trigger] tokens[i]),
        forall|i: int, j: int|
            0 <= i < j < events.len() ==> #[trigger] tokens[i] != #[trigger] tokens[j],
    ensures
        name_history(events, tokens, n),
    decreases n,
{
    if n == 0 {
        assert(events.take(0) =~= Seq::empty());
    } else {
        let m = n - 1;
        lemma_name_history(events, tokens, m);
        lemma_state_steps(events, tokens, m);
        let before = state_at(events, tokens, m);
        let after = state_at(events, tokens, n);
        lemma_step_keeps_well_formed(before, events[m], tokens[m]);
        lemma_done_grows_by_thumbnailed(before, events[m], tokens[m]);
        lemma_assets_come_from_classification(before, events[m], tokens[m]);
        if before.stage is Thumbnailing && events[m] == EventModel::Thumbnailed {
            let asset = before.stage->Thumbnailing_asset;
            let drawn = choose|d: int|
                0 <= d < m && #[trigger] tokens[d] == token_part(asset.filename) && forall|j: int|
                    0 <= j < before.done.len() ==> drawn_before(
                        tokens,
                        d,
                        #[trigger] before.done[j],
                    );
            assert forall|j: int| 0 <= j < after.done.len() implies drawn_before(
                tokens,
                n,
                #[trigger] after.done[j],
            ) by {
                if j < before.done.len() {
                    assert(after.done[j] == before.done[j]);
                    let i = choose|i: int|
                        0 <= i < m && #[trigger] tokens[i] == token_part(before.done[j]);
                    assert(tokens[i] == token_part(after.done[j]));
                } else {
                    assert(tokens[drawn] == token_part(after.done[j]));
                }
            }
            assert forall|a: int, b: int| 0 <= a < b < after.done.len() implies after.done[a]
                != after.done[b] by {
                if b == before.done.len() {
                    assert(after.done[a] == before.done[a]);
                    assert(drawn_before(tokens, drawn, before.done[a]));
                    let i = choose|i: int|
                        0 <= i < drawn && #[trigger] tokens[i] == token_part(before.done[a]);
                    assert(tokens[i] != tokens[drawn]);
                } else {
                    assert(after.done[a] == before.done[a]);
                    assert(after.done[b] == before.done[b]);
                }
            }
        } else {
            assert(after.done == before.done);
            assert forall|j: int| 0 <= j < after.done.len() implies drawn_before(
                tokens,
                n,
                #[trigger] after.done[j],
            ) by {
                let i = choose|i: int|
                    0 <= i < m && #[trigger] tokens[i] == token_part(before.done[j]);
                assert(tokens[i] == token_part(after.done[j]));
            }
            match asset_in(after.stage) {
                Some(asset) => {
                    if asset_in(after.stage) == asset_in(before.stage) {
                        let drawn = choose|d: int|
                            0 <= d < m && #[trigger] tokens[d] == token_part(asset.filename)
                                && forall|j: int|
                                0 <= j < before.done.len() ==> drawn_before(
                                    tokens,
                                    d,
                                    #[trigger] before.done[j],
                                );
                        assert(0 <= drawn < n && tokens[drawn] == token_part(asset.filename));
                    } else {
                        let (mime, body) = classification(before.stage, events[m])->0;
                        lemma_filename_parts(tokens[m], mime->0.subtype);
                        lemma_name_is_plain(tokens[m], mime->0.subtype);
                        assert(0 <= m < n && tokens[m] == token_part(asset.filename));
                    }
                },
                None => {},
            }
        }
    }
}

/// Names never collide: as long as the tokens drawn in a run are pairwise
/// different, a new pipeline never gathers one name twice, and the asset in
/// progress never bears a name that was gathered before.
pub proof fn lemma_run_names_are_distinct(events: Seq<EventModel>, tokens: Seq<Seq<char>>)
    requires
        tokens.len() >= events.len(),
        forall|i: int| 0 <= i < events.len() ==> is_token(#[trigger] tokens[i]),
        forall|i: int, j: int|
            0 <= i < j < events.len() ==> #[trigger] tokens[i] != #[trigger] tokens[j],
    ensures
        no_duplicates(run(initial(), events, tokens).done),
        asset_in(run(initial(), events, tokens).stage) matches Some(asset) ==> !run(
            initial(),
            events,
            tokens,
        ).done.contains(asset.filename),
{
    let n = events.len() as int;
    lemma_name_history(events, tokens, n);
    assert(events.take(n) =~= events);
    let s = run(initial(), events, tokens);
    match asset_in(s.stage) {
        Some(asset) => {
            let drawn = choose|d: int|
                0 <= d < n && #[trigger] tokens[d] == token_part(asset.filename) && forall|j: int|
                    0 <= j < s.done.len() ==> drawn_before(tokens, d, #[trigger] s.done[j]);
            assert forall|j: int| 0 <= j < s.done.len() implies s.done[j] != asset.filename by {
                assert(drawn_before(tokens, drawn, s.done[j]));
                let i = choose|i: int|
                    0 <= i < drawn && #[trigger] tokens[i] == token_part(s.done[j]);
                assert(tokens[i] != tokens[drawn]);
            }
        },
        None => {},
    }
}

} // verus!
