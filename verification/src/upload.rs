//! The upload stream: one leading metadata frame, then the file as data
//! frames of bounded size, produced lazily as the multipart body is read.
//!
//! The driver decides; its caller reads the body and sends the frames. Each
//! thing that the caller reads is handed to [`UploadDriver::step`] as an
//! event, and the action that comes back says what to do next.

use vstd::prelude::*;
use vstd::string::*;
use crate::chunk::{
    chunk_views, chunks_of, concat, full_chunks, lemma_chunk_fidelity, lemma_chunks_append,
    lemma_full_chunks, remainder, ChunkAssembler,
};
use crate::error::{ErrorKind, ResError};
use crate::multipart::{
    classify_field, lemma_roles_distinct, missing_file_text, missing_target_text,
    parse_attach_target, parse_file_size, role_of, size_of, target_of, AttachTarget, FieldRole,
};
use crate::text::text_of;

verus! {

/// What the first frame of an upload says about the file.
#[derive(Debug)]
pub struct UploadMetadata {
    pub owner_id: i32,
    pub file_name: String,
    pub attach_target: AttachTarget,
    pub declared_size: Option<u64>,
}

/// Mathematical content of an [`UploadMetadata`].
pub struct MetadataView {
    pub owner_id: i32,
    pub file_name: Seq<char>,
    pub attach_target: AttachTarget,
    pub declared_size: Option<u64>,
}

impl View for UploadMetadata {
    type V = MetadataView;

    open spec fn view(&self) -> MetadataView {
        MetadataView {
            owner_id: self.owner_id,
            file_name: self.file_name@,
            attach_target: self.attach_target,
            declared_size: self.declared_size,
        }
    }
}

/// One message of the upload stream. The first carries the metadata and no
/// data; every later one carries data and no metadata.
#[derive(Debug)]
pub struct UploadFrame {
    pub metadata: Option<UploadMetadata>,
    pub data: Vec<u8>,
}

/// Mathematical content of an [`UploadFrame`].
pub struct FrameView {
    pub metadata: Option<MetadataView>,
    pub data: Seq<u8>,
}

impl View for UploadFrame {
    type V = FrameView;

    open spec fn view(&self) -> FrameView {
        FrameView {
            metadata: match self.metadata {
                Some(m) => Some(m@),
                None => None,
            },
            data: self.data@,
        }
    }
}

/// The contents of a list of frames.
pub open spec fn frame_views(frames: Seq<UploadFrame>) -> Seq<FrameView> {
    Seq::new(frames.len(), |i: int| frames[i]@)
}

/// The frame that carries the metadata.
pub open spec fn metadata_frame(meta: MetadataView) -> FrameView {
    FrameView { metadata: Some(meta), data: Seq::<u8>::empty() }
}

/// The frame that carries one chunk.
pub open spec fn data_frame(chunk: Seq<u8>) -> FrameView {
    FrameView { metadata: None, data: chunk }
}

/// The frames that carry the given chunks, in order.
pub open spec fn data_frames(chunks: Seq<Seq<u8>>) -> Seq<FrameView> {
    Seq::new(chunks.len(), |i: int| data_frame(chunks[i]))
}

/// The data carried by each of the given frames.
pub open spec fn payloads(frames: Seq<FrameView>) -> Seq<Seq<u8>> {
    Seq::new(frames.len(), |i: int| frames[i].data)
}

/// Whether `sent` is a metadata frame followed by the frames of `chunks`.
pub open spec fn framed(sent: Seq<FrameView>, owner_id: i32, chunks: Seq<Seq<u8>>) -> bool {
    &&& sent.len() == 1 + chunks.len()
    &&& sent[0].metadata is Some
    &&& sent[0].metadata->Some_0.owner_id == owner_id
    &&& sent[0].data.len() == 0
    &&& sent.subrange(1, sent.len() as int) == data_frames(chunks)
}

/// Where an upload stands.
#[derive(Clone, Copy, Debug, PartialEq, Eq, Structural)]
pub enum Stage {
    /// Nothing has been read yet; the target field must come first.
    Start,
    /// The target field was announced; its text is being read.
    TargetText { note: bool },
    /// The target is known; the size field or the file must follow.
    AfterTarget { target: AttachTarget },
    /// The size field was announced; its text is being read.
    SizeText { target: AttachTarget },
    /// Target and size are known; the file must follow.
    AfterSize { target: AttachTarget, size: u64 },
    /// The metadata frame was emitted; no byte of the file has arrived.
    MetadataSent,
    /// The file is arriving.
    Streaming,
    /// The file ended and its last chunk was emitted.
    Done,
    /// The upload failed; nothing is emitted any more.
    Failed,
}

/// The phases of an upload, coarser than its stages.
#[derive(Clone, Copy, Debug, PartialEq, Eq, Structural)]
pub enum UploadPhase {
    Start,
    ParsingFields,
    StreamingMetadata,
    StreamingData,
    Done,
    Failed,
}

/// The phase that a stage belongs to.
pub open spec fn phase_of(stage: Stage) -> UploadPhase {
    match stage {
        Stage::Start => UploadPhase::Start,
        Stage::TargetText { .. } => UploadPhase::ParsingFields,
        Stage::AfterTarget { .. } => UploadPhase::ParsingFields,
        Stage::SizeText { .. } => UploadPhase::ParsingFields,
        Stage::AfterSize { .. } => UploadPhase::ParsingFields,
        Stage::MetadataSent => UploadPhase::StreamingMetadata,
        Stage::Streaming => UploadPhase::StreamingData,
        Stage::Done => UploadPhase::Done,
        Stage::Failed => UploadPhase::Failed,
    }
}

/// What the caller read from the multipart body.
#[derive(Debug)]
pub enum UploadEvent {
    /// The next field was announced, with its name and, for a file part,
    /// the file name that it declares.
    Field { name: Option<String>, file_name: Option<String> },
    /// The text of the field that the driver asked to read.
    Text(String),
    /// The next fragment of the file.
    Fragment(Vec<u8>),
    /// The body has no further field, or the file no further fragment.
    End,
    /// Reading from the client failed.
    ReadError(String),
}

/// Mathematical content of an [`UploadEvent`].
pub enum EventView {
    Field { name: Option<Seq<char>>, file_name: Option<Seq<char>> },
    Text(Seq<char>),
    Fragment(Seq<u8>),
    End,
    ReadError(Seq<char>),
}

impl View for UploadEvent {
    type V = EventView;

    open spec fn view(&self) -> EventView {
        match self {
            UploadEvent::Field { name, file_name } => EventView::Field {
                name: text_of(*name),
                file_name: text_of(*file_name),
            },
            UploadEvent::Text(t) => EventView::Text(t@),
            UploadEvent::Fragment(bytes) => EventView::Fragment(bytes@),
            UploadEvent::End => EventView::End,
            UploadEvent::ReadError(m) => EventView::ReadError(m@),
        }
    }
}

/// What the caller is to do next.
#[derive(Debug)]
pub enum UploadAction {
    /// Read the announced field as text and hand it in.
    ReadText,
    /// Announce the next field.
    NextField,
    /// Send these frames, then hand in the next fragment of the file.
    Send(Vec<UploadFrame>),
    /// Send these frames, then close the stream: the upload is complete.
    Finish(Vec<UploadFrame>),
    /// Send nothing further and abort the stream with this error.
    Abort(ResError),
}

/// Mathematical content of an [`UploadAction`].
pub enum ActionView {
    ReadText,
    NextField,
    Send(Seq<FrameView>),
    Finish(Seq<FrameView>),
    Abort(ErrorKind, Seq<char>),
}

impl View for UploadAction {
    type V = ActionView;

    open spec fn view(&self) -> ActionView {
        match self {
            UploadAction::ReadText => ActionView::ReadText,
            UploadAction::NextField => ActionView::NextField,
            UploadAction::Send(frames) => ActionView::Send(frame_views(frames@)),
            UploadAction::Finish(frames) => ActionView::Finish(frame_views(frames@)),
            UploadAction::Abort(e) => ActionView::Abort(e.spec_kind(), e.detail()),
        }
    }
}

/// The frames that an action tells the caller to send.
pub open spec fn frames_of(action: ActionView) -> Seq<FrameView> {
    match action {
        ActionView::Send(frames) => frames,
        ActionView::Finish(frames) => frames,
        _ => Seq::<FrameView>::empty(),
    }
}

/// Mathematical content of an [`UploadDriver`]: its stage, its settings,
/// the bytes it holds, and the history of the stream: all frames emitted
/// and all bytes of the file received so far.
pub struct DriverView {
    pub stage: Stage,
    pub owner_id: i32,
    pub chunk_size: int,
    pub pending: Seq<u8>,
    pub sent: Seq<FrameView>,
    pub received: Seq<u8>,
}

/// Detail of the error for an event that cannot occur at the current stage.
pub open spec fn unexpected_event_text() -> Seq<char> {
    "Unexpected event in the upload stream"@
}

/// Detail of the error returned once the upload has failed.
pub open spec fn already_failed_text() -> Seq<char> {
    "The upload stream has already failed"@
}

/// The failed state reached from `v`, and the abort that reports it.
pub open spec fn fail(v: DriverView, kind: ErrorKind, detail: Seq<char>) -> (DriverView, ActionView) {
    (DriverView { stage: Stage::Failed, ..v }, ActionView::Abort(kind, detail))
}

/// The start of the stream: the metadata frame is emitted.
pub open spec fn start_stream(
    v: DriverView,
    target: AttachTarget,
    size: Option<u64>,
    file_name: Option<Seq<char>>,
) -> (DriverView, ActionView) {
    let meta = MetadataView {
        owner_id: v.owner_id,
        file_name: match file_name {
            Some(n) => n,
            None => Seq::<char>::empty(),
        },
        attach_target: target,
        declared_size: size,
    };
    (
        DriverView { stage: Stage::MetadataSent, sent: v.sent.push(metadata_frame(meta)), ..v },
        ActionView::Send(seq![metadata_frame(meta)]),
    )
}

/// A fragment of the file arrives: the chunks that it completes are emitted.
pub open spec fn take_fragment(v: DriverView, bytes: Seq<u8>) -> (DriverView, ActionView) {
    let frames = data_frames(full_chunks(v.pending + bytes, v.chunk_size));
    (
        DriverView {
            stage: Stage::Streaming,
            pending: remainder(v.pending + bytes, v.chunk_size),
            sent: v.sent + frames,
            received: v.received + bytes,
            ..v
        },
        ActionView::Send(frames),
    )
}

/// The file ends: the bytes still held are emitted as the last chunk.
pub open spec fn end_stream(v: DriverView) -> (DriverView, ActionView) {
    let frames = if v.pending.len() == 0 {
        Seq::<FrameView>::empty()
    } else {
        seq![data_frame(v.pending)]
    };
    (
        DriverView { stage: Stage::Done, pending: Seq::<u8>::empty(), sent: v.sent + frames, ..v },
        ActionView::Finish(frames),
    )
}

/// The transition function of the upload: the next state and the action
/// for every state and event.
///
/// A body must hold the target field (`note_id` or `shelf_id`, a positive
/// number), then optionally `file_size`, then `file`. Any other field, a
/// missing field or an unacceptable text fails with `InvalidFields`, as
/// does a read error while the fields are parsed. A read error while the
/// file is streamed fails with `ServerError`. A failed upload stays failed.
pub open spec fn spec_step(v: DriverView, e: EventView) -> (DriverView, ActionView) {
    match v.stage {
        Stage::Start => match e {
            EventView::Field { name, .. } => match role_of(name) {
                FieldRole::NoteId => (
                    DriverView { stage: Stage::TargetText { note: true }, ..v },
                    ActionView::ReadText,
                ),
                FieldRole::ShelfId => (
                    DriverView { stage: Stage::TargetText { note: false }, ..v },
                    ActionView::ReadText,
                ),
                _ => fail(v, ErrorKind::InvalidFields, missing_target_text()),
            },
            EventView::End => fail(v, ErrorKind::InvalidFields, missing_target_text()),
            EventView::ReadError(m) => fail(v, ErrorKind::InvalidFields, m),
            _ => fail(v, ErrorKind::ServerError, unexpected_event_text()),
        },
        Stage::TargetText { note } => match e {
            EventView::Text(t) => match target_of(note, t) {
                Ok(target) => (
                    DriverView { stage: Stage::AfterTarget { target }, ..v },
                    ActionView::NextField,
                ),
                Err(detail) => fail(v, ErrorKind::InvalidFields, detail),
            },
            EventView::ReadError(m) => fail(v, ErrorKind::InvalidFields, m),
            _ => fail(v, ErrorKind::ServerError, unexpected_event_text()),
        },
        Stage::AfterTarget { target } => match e {
            EventView::Field { name, file_name } => match role_of(name) {
                FieldRole::FileSize => (
                    DriverView { stage: Stage::SizeText { target }, ..v },
                    ActionView::ReadText,
                ),
                FieldRole::File => start_stream(v, target, None, file_name),
                _ => fail(v, ErrorKind::InvalidFields, missing_file_text()),
            },
            EventView::End => fail(v, ErrorKind::InvalidFields, missing_file_text()),
            EventView::ReadError(m) => fail(v, ErrorKind::InvalidFields, m),
            _ => fail(v, ErrorKind::ServerError, unexpected_event_text()),
        },
        Stage::SizeText { target } => match e {
            EventView::Text(t) => match size_of(t) {
                Ok(size) => (
                    DriverView { stage: Stage::AfterSize { target, size }, ..v },
                    ActionView::NextField,
                ),
                Err(detail) => fail(v, ErrorKind::InvalidFields, detail),
            },
            EventView::ReadError(m) => fail(v, ErrorKind::InvalidFields, m),
            _ => fail(v, ErrorKind::ServerError, unexpected_event_text()),
        },
        Stage::AfterSize { target, size } => match e {
            EventView::Field { name, file_name } => match role_of(name) {
                FieldRole::File => start_stream(v, target, Some(size), file_name),
                _ => fail(v, ErrorKind::InvalidFields, missing_file_text()),
            },
            EventView::End => fail(v, ErrorKind::InvalidFields, missing_file_text()),
            EventView::ReadError(m) => fail(v, ErrorKind::InvalidFields, m),
            _ => fail(v, ErrorKind::ServerError, unexpected_event_text()),
        },
        Stage::MetadataSent | Stage::Streaming => match e {
            EventView::Fragment(bytes) => take_fragment(v, bytes),
            EventView::End => end_stream(v),
            EventView::ReadError(m) => fail(v, ErrorKind::ServerError, m),
            _ => fail(v, ErrorKind::ServerError, unexpected_event_text()),
        },
        Stage::Done => (v, ActionView::Finish(Seq::<FrameView>::empty())),
        Stage::Failed => (v, ActionView::Abort(ErrorKind::ServerError, already_failed_text())),
    }
}

/// What holds of every state that an upload can reach.
///
/// Nothing is emitted before the fields are parsed. From then on the
/// frames emitted are the metadata frame followed by the complete chunks
/// of the bytes received, and the driver holds the bytes after them; when
/// the upload is done, the frames are the metadata frame followed by all
/// chunks of the file. A failed upload has emitted nothing, or such a
/// prefix.
pub open spec fn inv(v: DriverView) -> bool {
    &&& v.chunk_size >= 1
    &&& v.pending.len() < v.chunk_size
    &&& match v.stage {
        Stage::MetadataSent => {
            &&& v.received.len() == 0
            &&& v.pending.len() == 0
            &&& framed(v.sent, v.owner_id, Seq::<Seq<u8>>::empty())
        },
        Stage::Streaming => {
            &&& v.pending == remainder(v.received, v.chunk_size)
            &&& framed(v.sent, v.owner_id, full_chunks(v.received, v.chunk_size))
        },
        Stage::Done => framed(v.sent, v.owner_id, chunks_of(v.received, v.chunk_size)),
        Stage::Failed => v.sent.len() == 0 || framed(
            v.sent,
            v.owner_id,
            full_chunks(v.received, v.chunk_size),
        ),
        _ => v.sent.len() == 0 && v.received.len() == 0 && v.pending.len() == 0,
    }
}

/// The state of an upload before anything was read.
pub open spec fn initial(owner_id: i32, chunk_size: int) -> DriverView {
    DriverView {
        stage: Stage::Start,
        owner_id,
        chunk_size,
        pending: Seq::<u8>::empty(),
        sent: Seq::<FrameView>::empty(),
        received: Seq::<u8>::empty(),
    }
}

/// A new upload satisfies the invariant.
pub proof fn lemma_initial(owner_id: i32, chunk_size: int)
    requires
        chunk_size >= 1,
    ensures
        inv(initial(owner_id, chunk_size)),
{
}

/// Every step keeps the invariant, changes neither the owner nor the chunk
/// size, and adds to the frames emitted exactly those of its action.
pub proof fn lemma_step(v: DriverView, e: EventView)
    requires
        inv(v),
    ensures
        inv(spec_step(v, e).0),
        spec_step(v, e).0.owner_id == v.owner_id,
        spec_step(v, e).0.chunk_size == v.chunk_size,
        spec_step(v, e).0.sent == v.sent + frames_of(spec_step(v, e).1),
{
    let (w, action) = spec_step(v, e);
    let c = v.chunk_size;
    assert(v.sent + Seq::<FrameView>::empty() =~= v.sent);
    lemma_full_chunks(Seq::<u8>::empty(), c);
    assert(full_chunks(Seq::<u8>::empty(), c) =~= Seq::<Seq<u8>>::empty());
    if w.stage == Stage::MetadataSent {
        let frame = w.sent[0];
        assert(v.sent.push(frame) =~= v.sent + seq![frame]);
        assert(w.sent.subrange(1, 1) =~= data_frames(Seq::<Seq<u8>>::empty()));
    } else if v.stage == Stage::MetadataSent || v.stage == Stage::Streaming {
        let held = full_chunks(v.received, c);
        assert(v.stage == Stage::MetadataSent ==> v.received =~= Seq::<u8>::empty());
        assert(v.pending == remainder(v.received, c));
        assert(v.sent.subrange(1, v.sent.len() as int) == data_frames(held));
        match e {
            EventView::Fragment(bytes) => {
                lemma_chunks_append(v.received, bytes, c);
                lemma_full_chunks(v.received + bytes, c);
                let more = full_chunks(v.pending + bytes, c);
                assert(w.sent.subrange(1, w.sent.len() as int) =~= v.sent.subrange(
                    1,
                    v.sent.len() as int,
                ) + data_frames(more));
                assert(data_frames(held) + data_frames(more) =~= data_frames(held + more));
            },
            EventView::End => {
                if v.pending.len() == 0 {
                    assert(w.sent =~= v.sent);
                } else {
                    assert(w.sent.subrange(1, w.sent.len() as int) =~= v.sent.subrange(
                        1,
                        v.sent.len() as int,
                    ).push(data_frame(v.pending)));
                    assert(data_frames(held).push(data_frame(v.pending)) =~= data_frames(
                        held.push(v.pending),
                    ));
                }
            },
            _ => {},
        }
    }
}

/// Frame ordering: in every state that an upload can reach, the first frame
/// emitted carries the metadata, with the authenticated owner, and no data;
/// every later frame carries no metadata and between 1 and `chunk_size`
/// bytes of data, and only the last frame may carry fewer than `chunk_size`
/// bytes. Once the upload is done, the data of the frames joined in
/// order is the file received, and the number of frames is 1 plus the
/// file's length divided by the chunk size, rounded up.
pub proof fn lemma_frame_order(v: DriverView)
    requires
        inv(v),
    ensures
        v.sent.len() > 0 ==> {
            &&& v.sent[0].metadata is Some
            &&& v.sent[0].metadata->Some_0.owner_id == v.owner_id
            &&& v.sent[0].data.len() == 0
        },
        forall|i: int|
            1 <= i < v.sent.len() ==> {
                &&& (#[trigger] v.sent[i]).metadata is None
                &&& 1 <= v.sent[i].data.len() <= v.chunk_size
            },
        forall|i: int| 1 <= i < v.sent.len() - 1 ==> (#[trigger] v.sent[i]).data.len() == v.chunk_size,
        v.stage == Stage::Done ==> {
            &&& concat(payloads(v.sent)) == v.received
            &&& v.sent.len() == 1 + (v.received.len() + v.chunk_size - 1) / v.chunk_size
        },
{
    let c = v.chunk_size;
    lemma_full_chunks(v.received, c);
    lemma_chunk_fidelity(v.received, c);
    if v.sent.len() > 0 {
        let chunks = if v.stage == Stage::Done {
            chunks_of(v.received, c)
        } else if v.stage == Stage::MetadataSent {
            Seq::<Seq<u8>>::empty()
        } else {
            full_chunks(v.received, c)
        };
        assert(framed(v.sent, v.owner_id, chunks));
        let tail = v.sent.subrange(1, v.sent.len() as int);
        assert forall|i: int| 1 <= i < v.sent.len() implies {
            &&& (#[trigger] v.sent[i]).metadata is None
            &&& 1 <= v.sent[i].data.len() <= c
        } by {
            assert(v.sent[i] == tail[i - 1]);
            assert(tail[i - 1] == data_frame(chunks[i - 1]));
        }
        assert forall|i: int| 1 <= i < v.sent.len() - 1 implies (#[trigger] v.sent[i]).data.len()
            == c by {
            assert(v.sent[i] == tail[i - 1]);
            assert(tail[i - 1] == data_frame(chunks[i - 1]));
        }
        if v.stage == Stage::Done {
            let all = payloads(v.sent);
            assert(all =~= seq![Seq::<u8>::empty()] + chunks) by {
                assert forall|i: int| 0 <= i < all.len() implies all[i] == (seq![
                    Seq::<u8>::empty(),
                ] + chunks)[i] by {
                    if i > 0 {
                        assert(v.sent[i] == tail[i - 1]);
                    } else {
                        assert(v.sent[0].data =~= Seq::<u8>::empty());
                    }
                }
            }
            crate::chunk::lemma_concat_prepend(Seq::<u8>::empty(), chunks);
            assert(Seq::<u8>::empty() + concat(chunks) =~= concat(chunks));
        }
    }
}

/// The state after a sequence of events, taken in order.
pub open spec fn run(v: DriverView, events: Seq<EventView>) -> DriverView
    decreases events.len(),
{
    if events.len() == 0 {
        v
    } else {
        spec_step(run(v, events.drop_last()), events.last()).0
    }
}

/// The events of a file that arrives as the given fragments.
pub open spec fn fragment_events(fragments: Seq<Seq<u8>>) -> Seq<EventView> {
    Seq::new(fragments.len(), |i: int| EventView::Fragment(fragments[i]))
}

/// Whatever happens, the invariant holds, and what was emitted stays
/// emitted: the frames only grow at their end.
pub proof fn lemma_run(v: DriverView, events: Seq<EventView>)
    requires
        inv(v),
    ensures
        inv(run(v, events)),
        run(v, events).owner_id == v.owner_id,
        run(v, events).chunk_size == v.chunk_size,
        v.sent.len() <= run(v, events).sent.len(),
        run(v, events).sent.subrange(0, v.sent.len() as int) == v.sent,
    decreases events.len(),
{
    if events.len() == 0 {
        assert(v.sent.subrange(0, v.sent.len() as int) =~= v.sent);
    } else {
        let before = run(v, events.drop_last());
        lemma_run(v, events.drop_last());
        lemma_step(before, events.last());
        let after = run(v, events);
        assert(after.sent.subrange(0, v.sent.len() as int) =~= before.sent.subrange(
            0,
            v.sent.len() as int,
        ));
    }
}

/// While a file arrives, the driver has received exactly the fragments
/// delivered, joined in order.
pub proof fn lemma_fragments_received(v: DriverView, fragments: Seq<Seq<u8>>)
    requires
        inv(v),
        v.stage == Stage::MetadataSent,
    ensures
        run(v, fragment_events(fragments)).received == concat(fragments),
        run(v, fragment_events(fragments)).stage == Stage::MetadataSent || run(
            v,
            fragment_events(fragments),
        ).stage == Stage::Streaming,
    decreases fragments.len(),
{
    let events = fragment_events(fragments);
    if fragments.len() == 0 {
        assert(v.received =~= concat(fragments));
    } else {
        lemma_fragments_received(v, fragments.drop_last());
        assert(events.drop_last() =~= fragment_events(fragments.drop_last()));
        assert(events.last() == EventView::Fragment(fragments.last()));
    }
}

/// The whole stream of an upload: once the metadata frame is out, a file
/// that arrives in any fragments and then ends leaves the upload done, and
/// the frames emitted are the metadata frame followed by one data frame
/// for each chunk of the file. They depend on the file alone, not on the
/// fragments in which it arrived.
pub proof fn lemma_upload_stream(v: DriverView, fragments: Seq<Seq<u8>>)
    requires
        inv(v),
        v.stage == Stage::MetadataSent,
    ensures
        ({
            let done = spec_step(run(v, fragment_events(fragments)), EventView::End).0;
            &&& done.stage == Stage::Done
            &&& done.received == concat(fragments)
            &&& done.sent == v.sent + data_frames(chunks_of(concat(fragments), v.chunk_size))
        }),
{
    let events = fragment_events(fragments);
    let arrived = run(v, events);
    lemma_run(v, events);
    lemma_fragments_received(v, fragments);
    lemma_step(arrived, EventView::End);
    let done = spec_step(arrived, EventView::End).0;
    let chunks = chunks_of(concat(fragments), v.chunk_size);
    assert(done.sent.subrange(0, 1) =~= arrived.sent.subrange(0, 1));
    assert(arrived.sent.subrange(0, 1) =~= v.sent);
    assert(done.sent =~= done.sent.subrange(0, 1) + done.sent.subrange(1, done.sent.len() as int));
}

/// Field-order strictness: a body whose first field is neither `note_id`
/// nor `shelf_id` (such as one that starts with `file`), a body that ends
/// before its file, and a body that names a second target after the first
/// are all rejected with `InvalidFields`, and nothing is emitted for them.
pub proof fn lemma_field_order(v: DriverView, name: Option<Seq<char>>, file_name: Option<Seq<char>>)
    requires
        inv(v),
    ensures
        v.stage == Stage::Start && role_of(name) != FieldRole::NoteId && role_of(name)
            != FieldRole::ShelfId ==> spec_step(v, EventView::Field { name, file_name }).1
            == ActionView::Abort(ErrorKind::InvalidFields, missing_target_text()),
        v.stage == Stage::Start ==> spec_step(
            v,
            EventView::Field { name: Some("file"@), file_name },
        ).1 == ActionView::Abort(ErrorKind::InvalidFields, missing_target_text()),
        v.stage == Stage::Start ==> spec_step(v, EventView::End).1 == ActionView::Abort(
            ErrorKind::InvalidFields,
            missing_target_text(),
        ),
        (v.stage is AfterTarget || v.stage is AfterSize) && (role_of(name) == FieldRole::NoteId
            || role_of(name) == FieldRole::ShelfId) ==> spec_step(
            v,
            EventView::Field { name, file_name },
        ).1 == ActionView::Abort(ErrorKind::InvalidFields, missing_file_text()),
        (v.stage is AfterTarget || v.stage is AfterSize) ==> spec_step(v, EventView::End).1
            == ActionView::Abort(ErrorKind::InvalidFields, missing_file_text()),
        phase_of(v.stage) == UploadPhase::Start || phase_of(v.stage) == UploadPhase::ParsingFields
            ==> v.sent.len() == 0,
{
    lemma_roles_distinct();
}

/// A failed upload is final: whatever happens next, the state stays as it
/// is and nothing is emitted.
pub proof fn lemma_failed_is_final(v: DriverView, e: EventView)
    requires
        v.stage == Stage::Failed,
    ensures
        spec_step(v, e).0 == v,
        spec_step(v, e).1 is Abort,
        frames_of(spec_step(v, e).1).len() == 0,
{
}

/// Wraps chunks into data frames, keeping their order.
pub fn into_data_frames(chunks: Vec<Vec<u8>>) -> (frames: Vec<UploadFrame>)
    ensures
        frame_views(frames@) == data_frames(chunk_views(chunks@)),
{
    let ghost wanted = data_frames(chunk_views(chunks@));
    let n = chunks.len();
    let mut rest = chunks;
    let mut reversed: Vec<UploadFrame> = Vec::new();
    while rest.len() > 0
        invariant
            rest.len() + reversed.len() == n,
            wanted.len() == n,
            forall|j: int| 0 <= j < rest.len() ==> wanted[j] == data_frame(#[trigger] rest@[j]@),
            forall|j: int| 0 <= j < reversed.len() ==> (#[trigger] reversed@[j])@ == wanted[n - 1 - j],
        decreases rest.len(),
    {
        let chunk = rest.pop().unwrap();
        reversed.push(UploadFrame { metadata: None, data: chunk });
    }
    let mut frames: Vec<UploadFrame> = Vec::new();
    while reversed.len() > 0
        invariant
            frames.len() + reversed.len() == n,
            wanted.len() == n,
            forall|j: int| 0 <= j < reversed.len() ==> (#[trigger] reversed@[j])@ == wanted[n - 1 - j],
            forall|j: int| 0 <= j < frames.len() ==> (#[trigger] frames@[j])@ == wanted[j],
        decreases reversed.len(),
    {
        let frame = reversed.pop().unwrap();
        frames.push(frame);
    }
    assert(frame_views(frames@) =~= wanted);
    frames
}

/// The decisions of one upload. It owns the chunk assembler and records
/// what was emitted and received, so that every state can be held against
/// the invariant of the stream.
pub struct UploadDriver {
    stage: Stage,
    owner_id: i32,
    assembler: ChunkAssembler,
    sent: Ghost<Seq<FrameView>>,
    received: Ghost<Seq<u8>>,
}

impl View for UploadDriver {
    type V = DriverView;

    closed spec fn view(&self) -> DriverView {
        DriverView {
            stage: self.stage,
            owner_id: self.owner_id,
            chunk_size: self.assembler.capacity(),
            pending: self.assembler.pending(),
            sent: self.sent@,
            received: self.received@,
        }
    }
}

impl UploadDriver {
    /// The driver is in a state that an upload can reach.
    pub closed spec fn wf(&self) -> bool {
        &&& self.assembler.wf()
        &&& inv(self@)
    }

    /// Every well-formed driver satisfies the invariant of the stream.
    pub proof fn lemma_wf(&self)
        requires
            self.wf(),
        ensures
            inv(self@),
    {
    }

    /// The driver of a new upload by the authenticated owner, with chunks
    /// of `chunk_size` bytes.
    pub fn new(owner_id: i32, chunk_size: usize) -> (driver: UploadDriver)
        requires
            chunk_size >= 1,
        ensures
            driver.wf(),
            driver@ == initial(owner_id, chunk_size as int),
    {
        UploadDriver {
            stage: Stage::Start,
            owner_id,
            assembler: ChunkAssembler::new(chunk_size),
            sent: Ghost(Seq::empty()),
            received: Ghost(Seq::empty()),
        }
    }

    /// The stage at which the upload stands.
    pub fn stage(&self) -> (stage: Stage)
        ensures
            stage == self@.stage,
    {
        self.stage
    }

    /// The phase at which the upload stands.
    pub fn phase(&self) -> (phase: UploadPhase)
        ensures
            phase == phase_of(self@.stage),
    {
        match self.stage {
            Stage::Start => UploadPhase::Start,
            Stage::TargetText { .. } => UploadPhase::ParsingFields,
            Stage::AfterTarget { .. } => UploadPhase::ParsingFields,
            Stage::SizeText { .. } => UploadPhase::ParsingFields,
            Stage::AfterSize { .. } => UploadPhase::ParsingFields,
            Stage::MetadataSent => UploadPhase::StreamingMetadata,
            Stage::Streaming => UploadPhase::StreamingData,
            Stage::Done => UploadPhase::Done,
            Stage::Failed => UploadPhase::Failed,
        }
    }

    fn abort(&mut self, kind: ErrorKind, detail: String) -> (action: UploadAction)
        ensures
            (final(self)@, action@) == fail(old(self)@, kind, detail@),
            final(self).assembler == old(self).assembler,
    {
        self.stage = Stage::Failed;
        UploadAction::Abort(ResError::new(kind, detail))
    }

    fn unexpected(&mut self) -> (action: UploadAction)
        ensures
            (final(self)@, action@) == fail(
                old(self)@,
                ErrorKind::ServerError,
                unexpected_event_text(),
            ),
            final(self).assembler == old(self).assembler,
    {
        self.abort(ErrorKind::ServerError, String::from_str("Unexpected event in the upload stream"))
    }

    fn missing_target(&mut self) -> (action: UploadAction)
        ensures
            (final(self)@, action@) == fail(
                old(self)@,
                ErrorKind::InvalidFields,
                missing_target_text(),
            ),
            final(self).assembler == old(self).assembler,
    {
        self.abort(
            ErrorKind::InvalidFields,
            String::from_str("Could not get either note_id nor shelf_id from the multipart body"),
        )
    }

    fn missing_file(&mut self) -> (action: UploadAction)
        ensures
            (final(self)@, action@) == fail(old(self)@, ErrorKind::InvalidFields, missing_file_text()),
            final(self).assembler == old(self).assembler,
    {
        self.abort(
            ErrorKind::InvalidFields,
            String::from_str("Could not get the file from the multipart body"),
        )
    }

    fn begin(&mut self, target: AttachTarget, size: Option<u64>, file_name: Option<String>) -> (action:
        UploadAction)
        ensures
            (final(self)@, action@) == start_stream(old(self)@, target, size, text_of(file_name)),
            final(self).assembler == old(self).assembler,
    {
        let name = match file_name {
            Some(n) => n,
            None => String::new(),
        };
        let meta = UploadMetadata {
            owner_id: self.owner_id,
            file_name: name,
            attach_target: target,
            declared_size: size,
        };
        let frame = UploadFrame { metadata: Some(meta), data: Vec::new() };
        let ghost shown = frame@;
        assert(shown == metadata_frame(meta@));
        self.stage = Stage::MetadataSent;
        self.sent = Ghost(self.sent@.push(shown));
        let mut frames: Vec<UploadFrame> = Vec::new();
        frames.push(frame);
        assert(frame_views(frames@) =~= seq![shown]);
        UploadAction::Send(frames)
    }

    fn fragment(&mut self, bytes: Vec<u8>) -> (action: UploadAction)
        requires
            old(self).assembler.wf(),
        ensures
            final(self).assembler.wf(),
            (final(self)@, action@) == take_fragment(old(self)@, bytes@),
    {
        let chunks = self.assembler.push(bytes.as_slice());
        let frames = into_data_frames(chunks);
        self.stage = Stage::Streaming;
        self.sent = Ghost(self.sent@ + frame_views(frames@));
        self.received = Ghost(self.received@ + bytes@);
        UploadAction::Send(frames)
    }

    fn end(&mut self) -> (action: UploadAction)
        requires
            old(self).assembler.wf(),
        ensures
            final(self).assembler.wf(),
            (final(self)@, action@) == end_stream(old(self)@),
    {
        let mut frames: Vec<UploadFrame> = Vec::new();
        match self.assembler.finish() {
            Some(last) => {
                frames.push(UploadFrame { metadata: None, data: last });
                assert(frame_views(frames@) =~= seq![data_frame(last@)]);
            },
            None => {
                assert(frame_views(frames@) =~= Seq::<FrameView>::empty());
            },
        }
        self.stage = Stage::Done;
        self.sent = Ghost(self.sent@ + frame_views(frames@));
        UploadAction::Finish(frames)
    }

    /// Takes what the caller read and says what to do next, as the
    /// transition function of the upload lays down.
    pub fn step(&mut self, event: UploadEvent) -> (action: UploadAction)
        requires
            old(self).wf(),
        ensures
            final(self).wf(),
            (final(self)@, action@) == spec_step(old(self)@, event@),
    {
        proof {
            lemma_step(self@, event@);
        }
        let stage = self.stage;
        match stage {
            Stage::Start => match event {
                UploadEvent::Field { name, .. } => match classify_field(&name) {
                    FieldRole::NoteId => {
                        self.stage = Stage::TargetText { note: true };
                        UploadAction::ReadText
                    },
                    FieldRole::ShelfId => {
                        self.stage = Stage::TargetText { note: false };
                        UploadAction::ReadText
                    },
                    _ => self.missing_target(),
                },
                UploadEvent::End => self.missing_target(),
                UploadEvent::ReadError(m) => self.abort(ErrorKind::InvalidFields, m),
                _ => self.unexpected(),
            },
            Stage::TargetText { note } => match event {
                UploadEvent::Text(t) => match parse_attach_target(note, t.as_str()) {
                    Ok(target) => {
                        self.stage = Stage::AfterTarget { target };
                        UploadAction::NextField
                    },
                    Err(e) => {
                        self.stage = Stage::Failed;
                        UploadAction::Abort(e)
                    },
                },
                UploadEvent::ReadError(m) => self.abort(ErrorKind::InvalidFields, m),
                _ => self.unexpected(),
            },
            Stage::AfterTarget { target } => match event {
                UploadEvent::Field { name, file_name } => match classify_field(&name) {
                    FieldRole::FileSize => {
                        self.stage = Stage::SizeText { target };
                        UploadAction::ReadText
                    },
                    FieldRole::File => self.begin(target, None, file_name),
                    _ => self.missing_file(),
                },
                UploadEvent::End => self.missing_file(),
                UploadEvent::ReadError(m) => self.abort(ErrorKind::InvalidFields, m),
                _ => self.unexpected(),
            },
            Stage::SizeText { target } => match event {
                UploadEvent::Text(t) => match parse_file_size(t.as_str()) {
                    Ok(size) => {
                        self.stage = Stage::AfterSize { target, size };
                        UploadAction::NextField
                    },
                    Err(e) => {
                        self.stage = Stage::Failed;
                        UploadAction::Abort(e)
                    },
                },
                UploadEvent::ReadError(m) => self.abort(ErrorKind::InvalidFields, m),
                _ => self.unexpected(),
            },
            Stage::AfterSize { target, size } => match event {
                UploadEvent::Field { name, file_name } => match classify_field(&name) {
                    FieldRole::File => self.begin(target, Some(size), file_name),
                    _ => self.missing_file(),
                },
                UploadEvent::End => self.missing_file(),
                UploadEvent::ReadError(m) => self.abort(ErrorKind::InvalidFields, m),
                _ => self.unexpected(),
            },
            Stage::MetadataSent | Stage::Streaming => match event {
                UploadEvent::Fragment(bytes) => self.fragment(bytes),
                UploadEvent::End => self.end(),
                UploadEvent::ReadError(m) => self.abort(ErrorKind::ServerError, m),
                _ => self.unexpected(),
            },
            Stage::Done => {
                let frames: Vec<UploadFrame> = Vec::new();
                assert(frame_views(frames@) =~= Seq::<FrameView>::empty());
                UploadAction::Finish(frames)
            },
            Stage::Failed => UploadAction::Abort(
                ResError::ServerError(String::from_str("The upload stream has already failed")),
            ),
        }
    }
}

} // verus!
