//! The session: the protocol state machine of one connection.
//!
//! The connection layer hands every message that arrives to [`VideoSession::handle`]
//! and carries out the action that comes back. The session reassembles
//! fragmented frames, takes the producer's identifier out of each and tells
//! which message is owed to the broker.

use vstd::prelude::*;
use crate::client_message::{kind_of_code, ClientMessage, MessageKind, IMAGE_READY_TYPE};
use crate::encoding::{base64_encode, base64_len, base64_text};
use crate::images::{extract, extraction, ExtractionError, Strategy};
use crate::stream_server::{AddMonitorClientEvent, ImageReadyEvent, VideoSessionEndedEvent};

verus! {

/// What the peer of a session has announced itself as.
#[derive(Debug, Clone, Copy, PartialEq, Eq, Structural)]
pub enum Role {
    Unannounced,
    Viewer,
    Device,
}

/// What there is to say in the log about a message that asked for nothing
/// else.
#[derive(Debug, Clone, Copy, PartialEq, Eq, Structural)]
pub enum Note {
    /// A device announced itself under this identifier.
    DeviceAnnounced(u64),
    /// A fragment went into the buffer.
    Buffered,
    /// An unfragmented binary message came; the protocol has none.
    UnsupportedBinary,
    /// A text message that is no envelope.
    MalformedEnvelope,
    /// An envelope of a kind that nobody may announce; its kind code.
    UnknownKind(u8),
    /// A first fragment while a frame was being assembled.
    StrayFirst,
    /// A continuation with no frame being assembled.
    StrayContinue,
    /// A last fragment with no frame being assembled.
    StrayLast,
    /// A frame was assembled and no identifier came out of it.
    FrameDropped(ExtractionError),
    /// The transport reported a protocol violation.
    ProtocolError,
    /// A message that the protocol does not use.
    UnknownMessage,
    /// The session has ended and takes no more messages.
    SessionClosed,
}

/// One message from the peer, as the connection layer hands it over.
#[derive(Debug, Clone, PartialEq, Eq)]
pub enum Inbound {
    /// A text message: the envelope that it holds, or nothing where it holds
    /// none.
    Text(Option<ClientMessage>),
    /// An unfragmented binary message.
    Binary(Vec<u8>),
    /// A keepalive request.
    Ping(Vec<u8>),
    /// A keepalive answer.
    Pong(Vec<u8>),
    /// The peer closes the connection.
    Close,
    /// The first fragment of a fragmented message.
    First(Vec<u8>),
    /// A fragment that is neither the first nor the last.
    Continue(Vec<u8>),
    /// The last fragment of a fragmented message.
    Last(Vec<u8>),
    /// A message without content.
    Nop,
    /// The transport could not read a message.
    ProtocolError,
}

/// What the connection layer is to do after a message.
#[derive(Debug, Clone, PartialEq, Eq)]
pub enum SessionAction {
    /// Nothing, but for a line in the log.
    Nothing(Note),
    /// Hand this registration to the broker.
    Register(AddMonitorClientEvent),
    /// Hand this frame to the broker.
    Publish(ImageReadyEvent),
    /// Answer the keepalive with these bytes.
    Pong(Vec<u8>),
    /// Tell the broker that the connection has ended, and end it.
    Ended(VideoSessionEndedEvent),
}

/// An action as a plain value.
pub enum Effect {
    Nothing(Note),
    Register(AddMonitorClientEvent),
    Publish(u64, Seq<u8>),
    Pong(Seq<u8>),
    Ended,
}

/// The state of a session as a plain value.
pub struct SessionState {
    /// The handle of the channel on which the peer is reached.
    pub sink: u64,
    /// How producers embed their identifier in a frame.
    pub strategy: Strategy,
    /// What the peer has announced itself as.
    pub role: Role,
    /// The fragments of the frame that is being assembled, joined.
    pub buffer: Seq<u8>,
    /// Whether a frame is being assembled.
    pub fragmented: bool,
    /// Whether the session has ended.
    pub closed: bool,
}

/// The session of one connection.
pub struct VideoSession {
    sink: u64,
    strategy: Strategy,
    role: Role,
    buffer: Vec<u8>,
    is_message_fragmented: bool,
    closed: bool,
}

impl View for SessionAction {
    type V = Effect;

    open spec fn view(&self) -> Effect {
        match *self {
            SessionAction::Nothing(note) => Effect::Nothing(note),
            SessionAction::Register(msg) => Effect::Register(msg),
            SessionAction::Publish(frame) => Effect::Publish(frame.0, frame.1@),
            SessionAction::Pong(bytes) => Effect::Pong(bytes@),
            SessionAction::Ended(_) => Effect::Ended,
        }
    }
}

impl View for VideoSession {
    type V = SessionState;

    closed spec fn view(&self) -> SessionState {
        SessionState {
            sink: self.sink,
            strategy: self.strategy,
            role: self.role,
            buffer: self.buffer@,
            fragmented: self.is_message_fragmented,
            closed: self.closed,
        }
    }
}

impl SessionState {
    /// The state of a session that has seen no message.
    pub open spec fn initial(sink: u64, strategy: Strategy) -> SessionState {
        SessionState {
            sink,
            strategy,
            role: Role::Unannounced,
            buffer: Seq::empty(),
            fragmented: false,
            closed: false,
        }
    }

    /// What holds of every state that a session can reach: the buffer is
    /// empty unless a frame is being assembled, and none is being assembled
    /// once the session has ended.
    pub open spec fn wf(self) -> bool {
        &&& !self.fragmented ==> self.buffer.len() == 0
        &&& self.closed ==> !self.fragmented
    }

    /// This state with no frame in assembly.
    pub open spec fn idle(self) -> SessionState {
        SessionState { buffer: Seq::empty(), fragmented: false, ..self }
    }

    /// A session that has ended takes no message: the state stays, and the
    /// log gets the note that the session has ended.
    pub open spec fn refuse(self) -> (SessionState, Effect) {
        (self, Effect::Nothing(Note::SessionClosed))
    }

    /// A message that asks for nothing: the state stays, and the log gets
    /// `note`.
    pub open spec fn pass(self, note: Note) -> (SessionState, Effect) {
        if self.closed {
            self.refuse()
        } else {
            (self, Effect::Nothing(note))
        }
    }

    /// An envelope of kind code `code` with identifier `id` has come. A
    /// viewer's announcement makes the peer a viewer and is owed to the
    /// broker as a registration of `id` with this session's channel; a
    /// device's makes the peer a device; no other kind is taken.
    pub open spec fn announce(self, code: u8, id: u64) -> (SessionState, Effect) {
        if self.closed {
            self.refuse()
        } else {
            match kind_of_code(code) {
                Some(MessageKind::AnnounceViewer) => (
                    SessionState { role: Role::Viewer, ..self },
                    Effect::Register(AddMonitorClientEvent(id, self.sink)),
                ),
                Some(MessageKind::AnnounceDevice) => (
                    SessionState { role: Role::Device, ..self },
                    Effect::Nothing(Note::DeviceAnnounced(id)),
                ),
                _ => self.pass(Note::UnknownKind(code)),
            }
        }
    }

    /// A first fragment has come. It opens the assembly of a frame, unless
    /// one is being assembled: then it is dropped.
    pub open spec fn begin(self, data: Seq<u8>) -> (SessionState, Effect) {
        if self.closed {
            self.refuse()
        } else if self.fragmented {
            self.pass(Note::StrayFirst)
        } else {
            (SessionState { buffer: data, fragmented: true, ..self }, Effect::Nothing(Note::Buffered))
        }
    }

    /// A continuation has come. It is joined to the frame in assembly; with
    /// none in assembly it is dropped.
    pub open spec fn carry_on(self, data: Seq<u8>) -> (SessionState, Effect) {
        if self.closed {
            self.refuse()
        } else if !self.fragmented {
            self.pass(Note::StrayContinue)
        } else {
            (SessionState { buffer: self.buffer + data, ..self }, Effect::Nothing(Note::Buffered))
        }
    }

    /// A last fragment has come. It completes the frame in assembly: the
    /// frame goes through the codec and is owed to the broker where an
    /// identifier comes out, and dropped where none does; either way no
    /// frame is in assembly afterwards. With none in assembly the fragment
    /// is dropped.
    pub open spec fn finish(self, data: Seq<u8>) -> (SessionState, Effect) {
        if self.closed {
            self.refuse()
        } else if !self.fragmented {
            self.pass(Note::StrayLast)
        } else {
            match extraction(self.strategy, self.buffer + data) {
                Ok((id, payload)) => (self.idle(), Effect::Publish(id, payload)),
                Err(e) => (self.idle(), Effect::Nothing(Note::FrameDropped(e))),
            }
        }
    }

    /// A keepalive request has come: the same bytes go back.
    pub open spec fn ping(self, data: Seq<u8>) -> (SessionState, Effect) {
        if self.closed {
            self.refuse()
        } else {
            (self, Effect::Pong(data))
        }
    }

    /// The connection ends: what was in assembly is discarded, and the
    /// broker is owed the news, once.
    pub open spec fn close(self) -> (SessionState, Effect) {
        if self.closed {
            self.refuse()
        } else {
            (SessionState { closed: true, ..self.idle() }, Effect::Ended)
        }
    }

    /// What the message `msg` does to this state, and the action it asks
    /// for.
    pub open spec fn step(self, msg: Inbound) -> (SessionState, Effect) {
        match msg {
            Inbound::Text(Some(envelope)) => self.announce(
                envelope.connection_type,
                envelope.sender_id,
            ),
            Inbound::Text(None) => self.pass(Note::MalformedEnvelope),
            Inbound::Binary(_) => self.pass(Note::UnsupportedBinary),
            Inbound::Ping(data) => self.ping(data@),
            Inbound::Pong(_) => self.pass(Note::UnknownMessage),
            Inbound::Close => self.close(),
            Inbound::First(data) => self.begin(data@),
            Inbound::Continue(data) => self.carry_on(data@),
            Inbound::Last(data) => self.finish(data@),
            Inbound::Nop => self.pass(Note::UnknownMessage),
            Inbound::ProtocolError => self.pass(Note::ProtocolError),
        }
    }
}

/// Joins `data` to the end of `buffer`.
fn append(buffer: &mut Vec<u8>, data: &[u8])
    ensures
        final(buffer)@ == old(buffer)@ + data@,
{
    buffer.extend_from_slice(data);
    assert(buffer@ =~= old(buffer)@ + data@);
}

impl VideoSession {
    /// A session that has seen no message, for a peer that is reached on the
    /// channel `sink` and for producers that append their identifier to the
    /// image.
    pub fn new(sink: u64) -> (session: Self)
        ensures
            session@ == SessionState::initial(sink, Strategy::TrailingDigits),
            session@.wf(),
    {
        Self::with_strategy(sink, Strategy::TrailingDigits)
    }

    /// A session that has seen no message, for a peer that is reached on the
    /// channel `sink` and for producers that embed their identifier as
    /// `strategy` says.
    pub fn with_strategy(sink: u64, strategy: Strategy) -> (session: Self)
        ensures
            session@ == SessionState::initial(sink, strategy),
            session@.wf(),
    {
        Self {
            sink,
            strategy,
            role: Role::Unannounced,
            buffer: Vec::new(),
            is_message_fragmented: false,
            closed: false,
        }
    }

    /// The handle of the channel on which the peer is reached.
    pub fn sink(&self) -> (sink: u64)
        ensures
            sink == self@.sink,
    {
        self.sink
    }

    /// What the peer has announced itself as.
    pub fn role(&self) -> (role: Role)
        ensures
            role == self@.role,
    {
        self.role
    }

    /// Whether a frame is being assembled.
    pub fn is_message_fragmented(&self) -> (fragmented: bool)
        ensures
            fragmented == self@.fragmented,
    {
        self.is_message_fragmented
    }

    /// Whether the session has ended.
    pub fn is_closed(&self) -> (closed: bool)
        ensures
            closed == self@.closed,
    {
        self.closed
    }

    /// The fragments of the frame in assembly, joined.
    pub fn buffer(&self) -> (buffer: &Vec<u8>)
        ensures
            buffer@ == self@.buffer,
    {
        &self.buffer
    }

    /// The registration that is owed to the broker when the peer announces
    /// itself as the viewer `monitor_client_id`.
    pub fn add_monitor_client(&self, monitor_client_id: u64) -> (msg: AddMonitorClientEvent)
        ensures
            msg == AddMonitorClientEvent(monitor_client_id, self@.sink),
    {
        AddMonitorClientEvent(monitor_client_id, self.sink)
    }

    /// Takes the envelope `msg`.
    pub fn handle_text_message(&mut self, msg: &ClientMessage) -> (action: SessionAction)
        ensures
            (final(self)@, action@) == old(self)@.announce(msg.connection_type, msg.sender_id),
            old(self)@.wf() ==> final(self)@.wf(),
    {
        if self.closed {
            return SessionAction::Nothing(Note::SessionClosed);
        }
        let sender_id = msg.sender_id();
        match msg.kind() {
            Some(MessageKind::AnnounceViewer) => {
                self.role = Role::Viewer;
                SessionAction::Register(self.add_monitor_client(sender_id))
            },
            Some(MessageKind::AnnounceDevice) => {
                self.role = Role::Device;
                SessionAction::Nothing(Note::DeviceAnnounced(sender_id))
            },
            _ => SessionAction::Nothing(Note::UnknownKind(msg.connection_type())),
        }
    }

    /// Takes the first fragment of a frame.
    pub fn begin_continuation(&mut self, data: &[u8]) -> (action: SessionAction)
        ensures
            (final(self)@, action@) == old(self)@.begin(data@),
            old(self)@.wf() ==> final(self)@.wf(),
    {
        if self.closed {
            return SessionAction::Nothing(Note::SessionClosed);
        }
        if self.is_message_fragmented {
            return SessionAction::Nothing(Note::StrayFirst);
        }
        self.buffer.clear();
        append(&mut self.buffer, data);
        self.is_message_fragmented = true;
        assert(self.buffer@ =~= data@);
        SessionAction::Nothing(Note::Buffered)
    }

    /// Takes a fragment that is neither the first nor the last of a frame.
    pub fn continue_continuation(&mut self, data: &[u8]) -> (action: SessionAction)
        ensures
            (final(self)@, action@) == old(self)@.carry_on(data@),
            old(self)@.wf() ==> final(self)@.wf(),
    {
        if self.closed {
            return SessionAction::Nothing(Note::SessionClosed);
        }
        if !self.is_message_fragmented {
            return SessionAction::Nothing(Note::StrayContinue);
        }
        append(&mut self.buffer, data);
        SessionAction::Nothing(Note::Buffered)
    }

    /// Takes the last fragment of a frame.
    pub fn end_continuation(&mut self, data: &[u8]) -> (action: SessionAction)
        ensures
            (final(self)@, action@) == old(self)@.finish(data@),
            old(self)@.wf() ==> final(self)@.wf(),
    {
        if self.closed {
            return SessionAction::Nothing(Note::SessionClosed);
        }
        if !self.is_message_fragmented {
            return SessionAction::Nothing(Note::StrayLast);
        }
        self.is_message_fragmented = false;
        append(&mut self.buffer, data);
        let image_data = self.buffer.split_off(0);
        assert(image_data@ =~= old(self)@.buffer + data@);
        assert(self.buffer@ =~= Seq::<u8>::empty());
        match extract(self.strategy, image_data) {
            Ok((sender_id, payload)) => SessionAction::Publish(ImageReadyEvent(sender_id, payload)),
            Err(e) => SessionAction::Nothing(Note::FrameDropped(e)),
        }
    }

    /// The connection is gone: discards what was in assembly and hands back
    /// the message that is owed to the broker, unless the session had ended
    /// before.
    pub fn stopped(&mut self) -> (ended: Option<VideoSessionEndedEvent>)
        ensures
            final(self)@ == old(self)@.close().0,
            ended is Some <==> !old(self)@.closed,
            old(self)@.wf() ==> final(self)@.wf(),
    {
        if self.closed {
            return None;
        }
        self.buffer.clear();
        self.is_message_fragmented = false;
        self.closed = true;
        Some(VideoSessionEndedEvent())
    }

    /// Takes one message from the peer and tells what to do about it.
    pub fn handle(&mut self, msg: Inbound) -> (action: SessionAction)
        ensures
            (final(self)@, action@) == old(self)@.step(msg),
            old(self)@.wf() ==> final(self)@.wf(),
    {
        if self.closed {
            return SessionAction::Nothing(Note::SessionClosed);
        }
        match msg {
            Inbound::Text(Some(envelope)) => self.handle_text_message(&envelope),
            Inbound::Text(None) => SessionAction::Nothing(Note::MalformedEnvelope),
            Inbound::Binary(_) => SessionAction::Nothing(Note::UnsupportedBinary),
            Inbound::Ping(data) => SessionAction::Pong(data),
            Inbound::Pong(_) => SessionAction::Nothing(Note::UnknownMessage),
            Inbound::Close => match self.stopped() {
                Some(ended) => SessionAction::Ended(ended),
                None => SessionAction::Nothing(Note::SessionClosed),
            },
            Inbound::First(data) => self.begin_continuation(data.as_slice()),
            Inbound::Continue(data) => self.continue_continuation(data.as_slice()),
            Inbound::Last(data) => self.end_continuation(data.as_slice()),
            Inbound::Nop => SessionAction::Nothing(Note::UnknownMessage),
            Inbound::ProtocolError => SessionAction::Nothing(Note::ProtocolError),
        }
    }

    /// The broker pushes the frame `msg` to this session: hands back the
    /// envelope to write to the peer, which carries the producer's
    /// identifier and the image as base64 text. A session that has ended
    /// writes nothing, and neither does one that is handed an image whose
    /// base64 text would be longer than any text can be.
    pub fn image_ready(&self, msg: &ImageReadyEvent) -> (envelope: Option<ClientMessage>)
        ensures
            match envelope {
                Some(outbound) => {
                    &&& !self@.closed
                    &&& base64_len(msg.1@.len()) <= usize::MAX
                    &&& outbound.connection_type == IMAGE_READY_TYPE
                    &&& outbound.sender_id == msg.0
                    &&& outbound.data@ == base64_text(msg.1@)
                },
                None => self@.closed || base64_len(msg.1@.len()) > usize::MAX,
            },
    {
        let len: usize = msg.1.len();
        let groups: usize = if len % 3 == 0 {
            len / 3
        } else {
            len / 3 + 1
        };
        if self.closed || groups > usize::MAX / 4 {
            return None;
        }
        let image_data_b64 = base64_encode(msg.1.as_slice());
        Some(ClientMessage::new(IMAGE_READY_TYPE, msg.0, image_data_b64))
    }
}

/// A session that has seen no message is in a well-formed state.
pub proof fn lemma_initial_state_wf(sink: u64, strategy: Strategy)
    ensures
        SessionState::initial(sink, strategy).wf(),
{
}

/// No message leads from a well-formed state to one that is not.
pub proof fn lemma_step_keeps_wf(state: SessionState, msg: Inbound)
    requires
        state.wf(),
    ensures
        state.step(msg).0.wf(),
{
}

/// A first fragment, a continuation and a last fragment, taken in this
/// order by a running session with no frame in assembly, make one frame of
/// the three joined: the first two are buffered, and the third asks for the
/// publication of what the codec takes out of the joined bytes, or drops the
/// frame where the codec takes nothing out. No frame is in assembly
/// afterwards.
pub proof fn lemma_fragments_reassemble(
    state: SessionState,
    first: Seq<u8>,
    middle: Seq<u8>,
    last: Seq<u8>,
)
    requires
        !state.closed,
        !state.fragmented,
    ensures
        ({
            let (begun, on_first) = state.begin(first);
            let (carried, on_middle) = begun.carry_on(middle);
            let (finished, on_last) = carried.finish(last);
            &&& on_first == Effect::Nothing(Note::Buffered)
            &&& on_middle == Effect::Nothing(Note::Buffered)
            &&& carried.buffer == first + middle
            &&& on_last == match extraction(state.strategy, first + middle + last) {
                Ok((id, payload)) => Effect::Publish(id, payload),
                Err(e) => Effect::Nothing(Note::FrameDropped(e)),
            }
            &&& finished == state.idle()
        }),
{
}

/// A continuation that comes with no frame in assembly changes nothing and
/// asks for nothing.
pub proof fn lemma_bare_continue_ignored(state: SessionState, data: Seq<u8>)
    requires
        !state.fragmented,
    ensures
        state.carry_on(data).0 == state,
        state.carry_on(data).1 is Nothing,
{
}

/// A first fragment that comes while a frame is in assembly changes nothing:
/// the frame in assembly is not overwritten.
pub proof fn lemma_stray_first_dropped(state: SessionState, data: Seq<u8>)
    requires
        state.fragmented,
    ensures
        state.begin(data).0 == state,
        state.begin(data).1 is Nothing,
{
}

/// A session that has ended stays as it is and asks for nothing, whatever
/// comes.
pub proof fn lemma_closed_is_final(state: SessionState, msg: Inbound)
    requires
        state.closed,
    ensures
        state.step(msg) == state.refuse(),
{
}

} // verus!
