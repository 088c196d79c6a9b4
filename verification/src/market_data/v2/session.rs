//! The life of a stream: connect, authenticate, subscribe, stream, and on any
//! failure wait and begin again.
//!
//! The session decides; its caller acts. The caller asks the session for its
//! [`Command`], carries it out (opens the socket, sends a frame, reads one,
//! sleeps), and reports what happened as an [`Event`]. [`Session::step`]
//! answers with the items to hand to the consumer and moves to the next
//! state. Nothing ends a session but the consumer going away.
use crate::json::{json_text, parse_value, parsed_json, render, value_model, JsonModel};
use crate::market_data::v2::backoff::{
    backoff_delay, backoff_ms, count_failure, lemma_backoff_shape, next_attempt,
};
use crate::market_data::v2::command::{auth_json, auth_model};
use crate::market_data::v2::decode::{DecodeError, DecodeFault};
use crate::market_data::v2::message::{
    decoded, decoded_all, document_items, frame_items, item_view, Rejection, RejectionView, Role,
    RoleView, WireMessage,
};
use vstd::prelude::*;

verus! {

/// How many items the queue between a session and its consumer holds. When
/// it is full the session waits; it never drops an item.
pub const OUTPUT_CAPACITY: usize = 1024;

/// Why a connection came to its end.
#[derive(Debug, Clone, Copy, PartialEq, Eq)]
pub enum CloseReason {
    /// The socket could not be opened.
    ConnectFailed,
    /// A command could not be sent.
    SendFailed,
    /// The service refused the handshake.
    AuthFailed,
    /// A frame of the handshake could not be decoded.
    DecodeFailed,
    /// Reading from the socket failed.
    ReadFailed,
    /// The service closed the connection.
    RemoteClosed,
}

/// Where a session stands.
#[derive(Debug, Clone, Copy, PartialEq, Eq)]
pub enum Phase {
    /// The socket is being opened.
    Connecting,
    /// The `auth` command is on its way (`sent` is false), or the answer to
    /// it is awaited (`sent` is true).
    Authenticating { sent: bool },
    /// The `subscribe` command is on its way.
    Subscribing,
    /// Frames are read and their messages passed on.
    Streaming,
    /// The connection is over; the session waits `delay_ms` milliseconds
    /// before it connects again.
    Closed { reason: CloseReason, delay_ms: u64 },
    /// The consumer is gone. The session does nothing more.
    Stopped,
}

/// One frame read from the socket.
#[derive(Debug, Clone, PartialEq, Eq)]
pub enum Frame {
    /// A text frame.
    Text(String),
    /// The service closes the connection.
    Close,
    /// A ping, a pong or a binary frame.
    Other,
}

/// What happened when the caller carried out a command.
#[derive(Debug, Clone, PartialEq, Eq)]
pub enum Event {
    /// The socket is open.
    Connected,
    /// The socket could not be opened.
    ConnectFailed(String),
    /// The frame was sent.
    Sent,
    /// The frame could not be sent.
    SendFailed(String),
    /// A frame was read.
    Frame(Frame),
    /// Reading failed.
    ReadFailed(String),
    /// The socket has no more frames.
    Ended,
    /// The wait is over.
    Woke,
    /// Nobody reads the output any more.
    ConsumerGone,
}

/// What the caller is to do next.
#[derive(Debug, Clone, PartialEq, Eq)]
pub enum Command {
    /// Open a socket to this address, dropping any earlier one.
    Connect(String),
    /// Send this text frame.
    Send(String),
    /// Read the next frame.
    Receive,
    /// Wait this many milliseconds.
    Sleep(u64),
    /// Close the socket and end.
    Stop,
}

/// The mathematical content of a [`Command`].
pub ghost enum CommandView {
    Connect(Seq<char>),
    Send(Seq<char>),
    Receive,
    Sleep(u64),
    Stop,
}

impl View for Command {
    type V = CommandView;

    open spec fn view(&self) -> CommandView {
        match self {
            Command::Connect(url) => CommandView::Connect(url@),
            Command::Send(text) => CommandView::Send(text@),
            Command::Receive => CommandView::Receive,
            Command::Sleep(ms) => CommandView::Sleep(*ms),
            Command::Stop => CommandView::Stop,
        }
    }
}

/// A failure that the consumer is told of. None of them ends the stream.
#[derive(Debug, Clone, PartialEq, Eq)]
pub enum StreamError {
    /// The socket could not be opened.
    Connect(String),
    /// The `auth` command could not be sent.
    SendAuth(String),
    /// The service refused the handshake.
    Handshake(Rejection),
    /// A frame of the handshake could not be decoded.
    DecodeDuringAuth(DecodeError),
    /// Reading failed during the handshake.
    ReadDuringAuth(String),
    /// The `subscribe` command could not be sent.
    SendSubscribe(String),
    /// A frame, or one message of it, could not be decoded.
    Decode(DecodeError),
    /// Reading failed while streaming.
    Read(String),
    /// The service closed the connection.
    RemoteClosed,
}

/// The mathematical content of a [`StreamError`].
pub ghost enum StreamFault {
    Connect(Seq<char>),
    SendAuth(Seq<char>),
    Handshake(RejectionView),
    DecodeDuringAuth(DecodeFault),
    ReadDuringAuth(Seq<char>),
    SendSubscribe(Seq<char>),
    Decode(DecodeFault),
    Read(Seq<char>),
    RemoteClosed,
}

impl View for StreamError {
    type V = StreamFault;

    open spec fn view(&self) -> StreamFault {
        match self {
            StreamError::Connect(why) => StreamFault::Connect(why@),
            StreamError::SendAuth(why) => StreamFault::SendAuth(why@),
            StreamError::Handshake(r) => StreamFault::Handshake(r@),
            StreamError::DecodeDuringAuth(e) => StreamFault::DecodeDuringAuth(e@),
            StreamError::ReadDuringAuth(why) => StreamFault::ReadDuringAuth(why@),
            StreamError::SendSubscribe(why) => StreamFault::SendSubscribe(why@),
            StreamError::Decode(e) => StreamFault::Decode(e@),
            StreamError::Read(why) => StreamFault::Read(why@),
            StreamError::RemoteClosed => StreamFault::RemoteClosed,
        }
    }
}

/// The mathematical content of one item handed to the consumer.
pub open spec fn output_view<M: WireMessage>(item: Result<M, StreamError>) -> Result<
    M::V,
    StreamFault,
> {
    match item {
        Ok(x) => Ok(x@),
        Err(e) => Err(e@),
    }
}

/// The mathematical content of a list of items handed to the consumer.
pub open spec fn output_views<M: WireMessage>(items: Seq<Result<M, StreamError>>) -> Seq<
    Result<M::V, StreamFault>,
> {
    Seq::new(items.len(), |i: int| output_view(items[i]))
}

/// The mathematical content of a [`Session`].
pub ghost struct SessionView {
    /// The address of the feed.
    pub url: Seq<char>,
    /// The text of the `auth` command.
    pub auth: Seq<char>,
    /// The text of the `subscribe` command.
    pub subscribe: Seq<char>,
    /// Where the session stands.
    pub phase: Phase,
    /// How many connections in a row have failed.
    pub attempt: nat,
}

/// A step of a session: where it stands afterwards, and what the consumer
/// is handed, in order.
pub ghost struct Outcome<V> {
    pub next: SessionView,
    pub emitted: Seq<Result<V, StreamFault>>,
}

/// What a session has made of the first messages of a handshake frame.
pub ghost struct Scan<V> {
    /// Whether the service has accepted the credentials.
    pub authed: bool,
    /// Why the handshake is over, if it is.
    pub failed: Option<CloseReason>,
    /// What the consumer is handed.
    pub emitted: Seq<Result<V, StreamFault>>,
}

impl SessionView {
    /// A session that has not connected yet.
    pub open spec fn fresh(url: Seq<char>, auth: Seq<char>, subscribe: Seq<char>) -> SessionView {
        SessionView { url, auth, subscribe, phase: Phase::Connecting, attempt: 0 }
    }

    /// What the caller is to do in this state.
    pub open spec fn command(self) -> CommandView {
        match self.phase {
            Phase::Connecting => CommandView::Connect(self.url),
            Phase::Authenticating { sent } => if sent {
                CommandView::Receive
            } else {
                CommandView::Send(self.auth)
            },
            Phase::Subscribing => CommandView::Send(self.subscribe),
            Phase::Streaming => CommandView::Receive,
            Phase::Closed { reason, delay_ms } => CommandView::Sleep(delay_ms),
            Phase::Stopped => CommandView::Stop,
        }
    }

    /// The same session in another phase.
    pub open spec fn at(self, phase: Phase) -> SessionView {
        SessionView { phase, ..self }
    }

    /// The session after its connection ended: it waits out the backoff of
    /// the failures that came before, and counts one more.
    pub open spec fn closed(self, reason: CloseReason) -> SessionView {
        SessionView {
            phase: Phase::Closed { reason, delay_ms: backoff_delay(self.attempt) as u64 },
            attempt: next_attempt(self.attempt),
            ..self
        }
    }

    /// The same session with more failures counted.
    pub open spec fn counting(self, more: nat) -> SessionView {
        SessionView { attempt: self.attempt + more, ..self }
    }

    /// The session once it streams: the failure count starts over.
    pub open spec fn streaming(self) -> SessionView {
        SessionView { phase: Phase::Streaming, attempt: 0, ..self }
    }

    /// A step that changes nothing.
    pub open spec fn stays<V>(self) -> Outcome<V> {
        Outcome { next: self, emitted: Seq::empty() }
    }

    /// A step into another phase that hands the consumer nothing.
    pub open spec fn moves<V>(self, phase: Phase) -> Outcome<V> {
        Outcome { next: self.at(phase), emitted: Seq::empty() }
    }

    /// A step that ends the connection and tells the consumer why.
    pub open spec fn fails<V>(self, reason: CloseReason, fault: StreamFault) -> Outcome<V> {
        Outcome { next: self.closed(reason), emitted: seq![Err(fault)] }
    }
}

/// The handshake after one more message. A greeting is passed over; an
/// acceptance is noted; a refusal, or a message that does not decode, ends the
/// handshake with an error item; anything else is handed to the consumer.
/// Once the handshake is over, nothing more is looked at.
pub open spec fn absorb<M: WireMessage>(h: Scan<M::V>, item: Result<M::V, DecodeFault>) -> Scan<
    M::V,
> {
    if h.failed is Some {
        h
    } else {
        match item {
            Err(f) => Scan {
                failed: Some(CloseReason::DecodeFailed),
                emitted: h.emitted.push(Err(StreamFault::DecodeDuringAuth(f))),
                ..h
            },
            Ok(x) => match M::role_of(x) {
                RoleView::Connected => h,
                RoleView::Authenticated => Scan { authed: true, ..h },
                RoleView::Rejected(r) => Scan {
                    failed: Some(CloseReason::AuthFailed),
                    emitted: h.emitted.push(Err(StreamFault::Handshake(r))),
                    ..h
                },
                RoleView::Data => Scan { emitted: h.emitted.push(Ok(x)), ..h },
            },
        }
    }
}

/// The handshake after the first `n` messages of a frame.
pub open spec fn scan<M: WireMessage>(items: Seq<Result<M::V, DecodeFault>>, n: nat) -> Scan<M::V>
    decreases n,
{
    if n == 0 {
        Scan { authed: false, failed: None, emitted: Seq::empty() }
    } else {
        absorb::<M>(scan::<M>(items, (n - 1) as nat), items[n - 1])
    }
}

/// A step of the handshake on one decoded frame: the connection ends where
/// the handshake failed, the session goes on to subscribe where the service
/// accepted, and waits for the next frame otherwise.
pub open spec fn handshake_step<M: WireMessage>(
    s: SessionView,
    items: Seq<Result<M::V, DecodeFault>>,
) -> Outcome<M::V> {
    let h = scan::<M>(items, items.len());
    Outcome {
        next: match h.failed {
            Some(reason) => s.closed(reason),
            None => if h.authed {
                s.at(Phase::Subscribing)
            } else {
                s
            },
        },
        emitted: h.emitted,
    }
}

/// What the consumer is handed for one decoded frame while streaming: every
/// message, and an error item for every element that is none, in the order
/// of the frame.
pub open spec fn relayed<M: WireMessage>(items: Seq<Result<M::V, DecodeFault>>) -> Seq<
    Result<M::V, StreamFault>,
> {
    Seq::new(
        items.len(),
        |i: int|
            match items[i] {
                Ok(x) => Ok(x),
                Err(f) => Err(StreamFault::Decode(f)),
            },
    )
}

/// What the consumer is handed for one element of a frame while streaming.
pub open spec fn relay_one<M: WireMessage>(m: JsonModel) -> Result<M::V, StreamFault> {
    match decoded::<M>(m) {
        Ok(x) => Ok(x),
        Err(f) => Err(StreamFault::Decode(f)),
    }
}

/// One step of a session.
///
/// An event that the state does not wait for changes nothing. An empty text
/// frame is passed over like a ping.
pub open spec fn step_spec<M: WireMessage>(s: SessionView, e: Event) -> Outcome<M::V> {
    if s.phase is Stopped {
        s.stays()
    } else if e is ConsumerGone {
        s.moves(Phase::Stopped)
    } else {
        match s.phase {
            Phase::Connecting => match e {
                Event::Connected => s.moves(Phase::Authenticating { sent: false }),
                Event::ConnectFailed(why) => s.fails(
                    CloseReason::ConnectFailed,
                    StreamFault::Connect(why@),
                ),
                _ => s.stays(),
            },
            Phase::Authenticating { sent: false } => match e {
                Event::Sent => s.moves(Phase::Authenticating { sent: true }),
                Event::SendFailed(why) => s.fails(
                    CloseReason::SendFailed,
                    StreamFault::SendAuth(why@),
                ),
                _ => s.stays(),
            },
            Phase::Authenticating { sent: true } => match e {
                Event::Frame(Frame::Text(text)) => if text@.len() == 0 {
                    s.stays()
                } else {
                    handshake_step::<M>(s, frame_items::<M>(parsed_json(text@)))
                },
                Event::Frame(Frame::Close) => s.fails(
                    CloseReason::RemoteClosed,
                    StreamFault::RemoteClosed,
                ),
                Event::Ended => s.fails(CloseReason::RemoteClosed, StreamFault::RemoteClosed),
                Event::ReadFailed(why) => s.fails(
                    CloseReason::ReadFailed,
                    StreamFault::ReadDuringAuth(why@),
                ),
                _ => s.stays(),
            },
            Phase::Subscribing => match e {
                Event::Sent => Outcome { next: s.streaming(), emitted: Seq::empty() },
                Event::SendFailed(why) => s.fails(
                    CloseReason::SendFailed,
                    StreamFault::SendSubscribe(why@),
                ),
                _ => s.stays(),
            },
            Phase::Streaming => match e {
                Event::Frame(Frame::Text(text)) => if text@.len() == 0 {
                    s.stays()
                } else {
                    Outcome {
                        next: s,
                        emitted: relayed::<M>(frame_items::<M>(parsed_json(text@))),
                    }
                },
                Event::Frame(Frame::Close) => s.fails(
                    CloseReason::RemoteClosed,
                    StreamFault::RemoteClosed,
                ),
                Event::Ended => s.fails(CloseReason::RemoteClosed, StreamFault::RemoteClosed),
                Event::ReadFailed(why) => s.fails(
                    CloseReason::ReadFailed,
                    StreamFault::Read(why@),
                ),
                _ => s.stays(),
            },
            Phase::Closed { reason, delay_ms } => match e {
                Event::Woke => s.moves(Phase::Connecting),
                _ => s.stays(),
            },
            Phase::Stopped => s.stays(),
        }
    }
}

/// Whether an event ends a connection that streams.
pub open spec fn ends_stream(e: Event) -> bool {
    e == Event::Frame(Frame::Close) || e is Ended || e is ReadFailed
}

/// Whether a step ends a connection.
pub open spec fn is_failure<M: WireMessage>(s: SessionView, e: Event) -> bool {
    !(s.phase is Closed) && step_spec::<M>(s, e).next.phase is Closed
}

/// A step never touches the address of the feed or the two commands: the
/// subscription is sent again after every reconnect exactly as it was given.
pub proof fn lemma_step_keeps_configuration<M: WireMessage>(s: SessionView, e: Event)
    ensures
        step_spec::<M>(s, e).next.url == s.url,
        step_spec::<M>(s, e).next.auth == s.auth,
        step_spec::<M>(s, e).next.subscribe == s.subscribe,
{
}

/// Every step that ends a connection tells the consumer so with an error as
/// its last item, waits `250 * 2^min(n, 6)` milliseconds where `n` failures
/// in a row came before, and counts one failure more.
pub proof fn lemma_failure_waits<M: WireMessage>(s: SessionView, e: Event)
    requires
        is_failure::<M>(s, e),
    ensures
        step_spec::<M>(s, e).next.phase->delay_ms == backoff_delay(s.attempt),
        step_spec::<M>(s, e).next.command() == CommandView::Sleep(backoff_delay(s.attempt) as u64),
        step_spec::<M>(s, e).next.attempt == next_attempt(s.attempt),
        step_spec::<M>(s, e).emitted.len() > 0,
        step_spec::<M>(s, e).emitted.last() is Err,
{
    lemma_backoff_shape(s.attempt);
    if s.phase == (Phase::Authenticating { sent: true }) && e is Frame && e->Frame_0 is Text {
        let items = frame_items::<M>(parsed_json(e->Frame_0->Text_0@));
        lemma_scan_failed_ends_in_error::<M>(items, items.len());
    }
}

/// Where a handshake has failed, the last item handed out is the error.
pub proof fn lemma_scan_failed_ends_in_error<M: WireMessage>(
    items: Seq<Result<M::V, DecodeFault>>,
    n: nat,
)
    requires
        scan::<M>(items, n).failed is Some,
    ensures
        scan::<M>(items, n).emitted.len() > 0,
        scan::<M>(items, n).emitted.last() is Err,
    decreases n,
{
    if n > 0 && scan::<M>(items, (n - 1) as nat).failed is Some {
        lemma_scan_failed_ends_in_error::<M>(items, (n - 1) as nat);
    }
}

/// The failure count changes in two ways only: a failure adds one, and the
/// step into streaming sets it to zero.
pub proof fn lemma_attempt_changes<M: WireMessage>(s: SessionView, e: Event)
    ensures
        step_spec::<M>(s, e).next.attempt == if is_failure::<M>(s, e) {
            next_attempt(s.attempt)
        } else if s.phase is Subscribing && e is Sent {
            0
        } else {
            s.attempt
        },
{
    if s.phase == (Phase::Authenticating { sent: true }) && e is Frame && e->Frame_0 is Text {
    }
}

/// Whatever failed before, the step into streaming sets the failure count
/// to zero, so that the next failure waits a quarter of a second again.
pub proof fn lemma_streaming_resets_backoff<M: WireMessage>(s: SessionView, e: Event)
    requires
        s.phase is Subscribing,
        ends_stream(e),
    ensures
        step_spec::<M>(s, Event::Sent).next == s.streaming(),
        step_spec::<M>(s, Event::Sent).next.attempt == 0,
        is_failure::<M>(s.streaming(), e),
        step_spec::<M>(s.streaming(), e).next.command() == CommandView::Sleep(250),
{
    lemma_backoff_shape(0);
}

/// While a connection streams, the consumer is handed the items of one
/// frame after those of the frame before, and the session stays as it is.
pub proof fn lemma_frames_in_order<M: WireMessage>(s: SessionView, first: String, second: String)
    requires
        s.phase is Streaming,
        first@.len() > 0,
        second@.len() > 0,
    ensures
        step_spec::<M>(s, Event::Frame(Frame::Text(first))).next == s,
        step_spec::<M>(s, Event::Frame(Frame::Text(second))).next == s,
        step_spec::<M>(s, Event::Frame(Frame::Text(first))).emitted + step_spec::<M>(
            step_spec::<M>(s, Event::Frame(Frame::Text(first))).next,
            Event::Frame(Frame::Text(second)),
        ).emitted == relayed::<M>(frame_items::<M>(parsed_json(first@))) + relayed::<M>(
            frame_items::<M>(parsed_json(second@)),
        ),
{
}

/// A frame that is an array yields one item for each element, and the item
/// at a place comes from the element at that place.
pub proof fn lemma_frame_keeps_array_order<M: WireMessage>(
    text: String,
    a: Seq<JsonModel>,
    i: int,
)
    requires
        parsed_json(text@) == Some(JsonModel::Array(a)),
        0 <= i < a.len(),
    ensures
        relayed::<M>(frame_items::<M>(parsed_json(text@))).len() == a.len(),
        relayed::<M>(frame_items::<M>(parsed_json(text@)))[i] == relay_one::<M>(a[i]),
{
}

/// When the service closes a connection that streams, the consumer is told
/// once; the session then waits, connects, sends the same `auth` command and,
/// once the service accepts, the same `subscribe` command, all of its own
/// accord, and the messages of the next data frame reach the consumer as
/// before.
pub proof fn lemma_reconnect_is_transparent<M: WireMessage>(
    s: SessionView,
    accepted: String,
    data: String,
)
    requires
        s.phase is Streaming,
        accepted@.len() > 0,
        data@.len() > 0,
        handshake_step::<M>(
            s.at(Phase::Authenticating { sent: true }),
            frame_items::<M>(parsed_json(accepted@)),
        ).next.phase is Subscribing,
    ensures
        ({
            let closed = step_spec::<M>(s, Event::Frame(Frame::Close));
            let woke = step_spec::<M>(closed.next, Event::Woke);
            let connected = step_spec::<M>(woke.next, Event::Connected);
            let auth_sent = step_spec::<M>(connected.next, Event::Sent);
            let authed = step_spec::<M>(auth_sent.next, Event::Frame(Frame::Text(accepted)));
            let subscribed = step_spec::<M>(authed.next, Event::Sent);
            let streamed = step_spec::<M>(subscribed.next, Event::Frame(Frame::Text(data)));
            &&& closed.emitted == seq![Err::<M::V, StreamFault>(StreamFault::RemoteClosed)]
            &&& closed.next.command() == CommandView::Sleep(backoff_delay(s.attempt) as u64)
            &&& woke.next.command() == CommandView::Connect(s.url)
            &&& connected.next.command() == CommandView::Send(s.auth)
            &&& auth_sent.next.command() == CommandView::Receive
            &&& authed.next.command() == CommandView::Send(s.subscribe)
            &&& subscribed.next == s.streaming()
            &&& subscribed.next.command() == CommandView::Receive
            &&& woke.emitted.len() == 0 && connected.emitted.len() == 0 && auth_sent.emitted.len()
                == 0 && subscribed.emitted.len() == 0
            &&& streamed.next == s.streaming()
            &&& streamed.emitted == relayed::<M>(frame_items::<M>(parsed_json(data@)))
        }),
{
}

/// Once the consumer is gone the session stops, whatever it was doing, and
/// a stopped session stays stopped and hands out nothing.
pub proof fn lemma_stop_is_final<M: WireMessage>(s: SessionView, e: Event)
    ensures
        step_spec::<M>(s, Event::ConsumerGone).next.phase is Stopped,
        step_spec::<M>(s, Event::ConsumerGone).emitted.len() == 0,
        s.phase is Stopped ==> step_spec::<M>(s, e) == s.stays::<M::V>(),
        s.phase is Stopped ==> s.command() == CommandView::Stop,
        !(s.phase is Stopped) && !(e is ConsumerGone) ==> !(step_spec::<M>(s, e).next.phase
            is Stopped),
{
    if s.phase == (Phase::Authenticating { sent: true }) && e is Frame && e->Frame_0 is Text {
    }
}

/// The session after a run of refused connections, each followed by its
/// wait.
pub open spec fn after_refusals<M: WireMessage>(s: SessionView, whys: Seq<String>) -> SessionView
    decreases whys.len(),
{
    if whys.len() == 0 {
        s
    } else {
        let before = after_refusals::<M>(s, whys.drop_last());
        let refused = step_spec::<M>(before, Event::ConnectFailed(whys.last())).next;
        step_spec::<M>(refused, Event::Woke).next
    }
}

/// Failures in a row wait longer and longer: after `k` refused connections
/// the session is about to connect again, has counted `k` failures more, and
/// waits `250 * 2^min(n + k, 6)` milliseconds when the next connection is
/// refused too, where `n` failures came before the run.
pub proof fn lemma_refusals_back_off<M: WireMessage>(s: SessionView, whys: Seq<String>, why: String)
    requires
        s.phase is Connecting,
        s.attempt + whys.len() < u32::MAX,
    ensures
        after_refusals::<M>(s, whys) == s.at(Phase::Connecting).counting(whys.len()),
        step_spec::<M>(after_refusals::<M>(s, whys), Event::ConnectFailed(why)).next.command()
            == CommandView::Sleep(backoff_delay(s.attempt + whys.len()) as u64),
    decreases whys.len(),
{
    if whys.len() > 0 {
        lemma_refusals_back_off::<M>(s, whys.drop_last(), whys.last());
    }
    lemma_backoff_shape(s.attempt + whys.len());
}

/// During a handshake the consumer is handed data and errors only: a
/// greeting or an acceptance never reaches it.
pub proof fn lemma_handshake_forwards_data_only<M: WireMessage>(
    items: Seq<Result<M::V, DecodeFault>>,
    n: nat,
    k: int,
)
    requires
        0 <= k < scan::<M>(items, n).emitted.len(),
    ensures
        scan::<M>(items, n).emitted[k] matches Ok(x) ==> M::role_of(x) is Data,
    decreases n,
{
    if n > 0 {
        let before = scan::<M>(items, (n - 1) as nat);
        if k < before.emitted.len() {
            lemma_handshake_forwards_data_only::<M>(items, (n - 1) as nat, k);
        }
    }
}

/// Once a handshake is over, the rest of the frame changes nothing.
pub proof fn lemma_scan_stops<M: WireMessage>(
    items: Seq<Result<M::V, DecodeFault>>,
    i: nat,
    n: nat,
)
    requires
        i <= n,
        scan::<M>(items, i).failed is Some,
    ensures
        scan::<M>(items, n) == scan::<M>(items, i),
    decreases n,
{
    if i < n {
        lemma_scan_stops::<M>(items, i, (n - 1) as nat);
    }
}

/// What a handshake frame came to: whether the service accepted, why the
/// handshake is over if it is, and the items for the consumer.
#[derive(Debug)]
pub struct Handshake<M> {
    /// Whether the service has accepted the credentials.
    pub authed: bool,
    /// Why the handshake is over, if it is.
    pub failed: Option<CloseReason>,
    /// What the consumer is handed, in order.
    pub emitted: Vec<Result<M, StreamError>>,
}

impl<M: WireMessage> View for Handshake<M> {
    type V = Scan<M::V>;

    open spec fn view(&self) -> Scan<M::V> {
        Scan { authed: self.authed, failed: self.failed, emitted: output_views(self.emitted@) }
    }
}

/// Looks at one more message of a handshake frame.
fn absorb_item<M: WireMessage>(h: &mut Handshake<M>, item: Result<M, DecodeError>)
    requires
        (old(h).failed is None),
    ensures
        final(h)@ == absorb::<M>(old(h)@, item_view(item)),
{
    let ghost before = output_views(h.emitted@);
    match item {
        Err(e) => {
            h.failed = Some(CloseReason::DecodeFailed);
            h.emitted.push(Err(StreamError::DecodeDuringAuth(e)));
            assert(output_views(h.emitted@) =~= before.push(
                Err(StreamFault::DecodeDuringAuth(e@)),
            ));
        },
        Ok(x) => match x.role() {
            Role::Connected => {},
            Role::Authenticated => {
                h.authed = true;
            },
            Role::Rejected(r) => {
                h.failed = Some(CloseReason::AuthFailed);
                h.emitted.push(Err(StreamError::Handshake(r)));
                assert(output_views(h.emitted@) =~= before.push(Err(StreamFault::Handshake(r@))));
            },
            Role::Data => {
                h.emitted.push(Ok(x));
                assert(output_views(h.emitted@) =~= before.push(Ok(x@)));
            },
        },
    }
}

/// A handshake that has looked at nothing yet.
fn no_handshake<M: WireMessage>() -> (h: Handshake<M>)
    ensures
        h@ == scan::<M>(Seq::empty(), 0),
{
    let h = Handshake { authed: false, failed: None, emitted: Vec::new() };
    assert(output_views(h.emitted@) =~= Seq::empty());
    h
}

/// Runs the handshake over a parsed frame: over its elements in order where
/// it is an array, up to the first that ends the handshake.
pub fn handshake_of_document<M: WireMessage>(doc: &serde_json::Value) -> (h: Handshake<M>)
    ensures
        h@ == scan::<M>(
            document_items::<M>(value_model(*doc)),
            document_items::<M>(value_model(*doc)).len(),
        ),
{
    let ghost items = document_items::<M>(value_model(*doc));
    let mut h = no_handshake::<M>();
    match doc.as_array() {
        None => {
            absorb_item(&mut h, Err(DecodeError::NotAnArray));
            assert(items =~= seq![Err(DecodeFault::NotAnArray)]);
            assert(scan::<M>(items, 0) == scan::<M>(Seq::empty(), 0));
        },
        Some(values) => {
            let ghost a = value_model(*doc)->Array_0;
            assert(items == decoded_all::<M>(a));
            let mut i: usize = 0;
            while i < values.len() && h.failed.is_none()
                invariant
                    i <= values.len(),
                    crate::json::models_of(values@) == a,
                    items == decoded_all::<M>(a),
                    h@ == scan::<M>(items, i as nat),
                decreases values.len() - i,
            {
                assert(value_model(values@[i as int]) == a[i as int]);
                let item = M::decode(&values[i]);
                absorb_item(&mut h, item);
                i += 1;
            }
            proof {
                if h.failed is Some {
                    lemma_scan_stops::<M>(items, i as nat, items.len());
                }
            }
        },
    }
    h
}

/// Runs the handshake over a text frame. A frame that is no JSON ends it.
pub fn handshake_of_frame<M: WireMessage>(text: &str) -> (h: Handshake<M>)
    ensures
        h@ == scan::<M>(
            frame_items::<M>(parsed_json(text@)),
            frame_items::<M>(parsed_json(text@)).len(),
        ),
{
    match parse_value(text) {
        Ok(doc) => handshake_of_document(&doc),
        Err(_) => {
            let ghost items = frame_items::<M>(parsed_json(text@));
            let mut h = no_handshake::<M>();
            absorb_item(&mut h, Err(DecodeError::InvalidJson));
            assert(items =~= seq![Err(DecodeFault::InvalidJson)]);
            assert(scan::<M>(items, 0) == scan::<M>(Seq::empty(), 0));
            h
        },
    }
}

/// The items for the consumer of a parsed frame while streaming: every
/// message, and an error for every element that is none.
pub fn relay_document<M: WireMessage>(doc: &serde_json::Value) -> (emitted: Vec<
    Result<M, StreamError>,
>)
    ensures
        output_views(emitted@) == relayed::<M>(document_items::<M>(value_model(*doc))),
{
    let ghost items = document_items::<M>(value_model(*doc));
    let mut emitted: Vec<Result<M, StreamError>> = Vec::new();
    match doc.as_array() {
        None => {
            emitted.push(Err(StreamError::Decode(DecodeError::NotAnArray)));
            assert(output_views(emitted@) =~= relayed::<M>(items));
        },
        Some(values) => {
            let ghost a = value_model(*doc)->Array_0;
            assert(items == decoded_all::<M>(a));
            let mut i: usize = 0;
            while i < values.len()
                invariant
                    i <= values.len(),
                    crate::json::models_of(values@) == a,
                    items == decoded_all::<M>(a),
                    emitted.len() == i,
                    forall|j: int|
                        0 <= j < i ==> output_view(#[trigger] emitted@[j]) == relayed::<M>(
                            items,
                        )[j],
                decreases values.len() - i,
            {
                assert(value_model(values@[i as int]) == a[i as int]);
                match M::decode(&values[i]) {
                    Ok(x) => {
                        emitted.push(Ok(x));
                    },
                    Err(e) => {
                        emitted.push(Err(StreamError::Decode(e)));
                    },
                }
                i += 1;
            }
            assert(output_views(emitted@) =~= relayed::<M>(items));
        },
    }
    emitted
}

/// The items for the consumer of a text frame while streaming. A frame that
/// is no JSON yields one error.
pub fn relay_frame<M: WireMessage>(text: &str) -> (emitted: Vec<Result<M, StreamError>>)
    ensures
        output_views(emitted@) == relayed::<M>(frame_items::<M>(parsed_json(text@))),
{
    match parse_value(text) {
        Ok(doc) => relay_document(&doc),
        Err(_) => {
            let mut emitted: Vec<Result<M, StreamError>> = Vec::new();
            emitted.push(Err(StreamError::Decode(DecodeError::InvalidJson)));
            assert(output_views(emitted@) =~= relayed::<M>(
                frame_items::<M>(parsed_json(text@)),
            ));
            emitted
        },
    }
}

/// One stream: its configuration, where it stands, and how many connections
/// in a row have failed.
#[derive(Debug)]
pub struct Session {
    url: String,
    auth: String,
    subscribe: String,
    phase: Phase,
    attempt: u32,
}

impl View for Session {
    type V = SessionView;

    closed spec fn view(&self) -> SessionView {
        SessionView {
            url: self.url@,
            auth: self.auth@,
            subscribe: self.subscribe@,
            phase: self.phase,
            attempt: self.attempt as nat,
        }
    }
}

impl Session {
    /// A session for a feed, given the texts of its two commands.
    pub fn new(url: String, auth: String, subscribe: String) -> (s: Session)
        ensures
            s@ == SessionView::fresh(url@, auth@, subscribe@),
    {
        Session { url, auth, subscribe, phase: Phase::Connecting, attempt: 0 }
    }

    /// A session for a feed, given the credentials and the subscribe
    /// command.
    pub fn open(url: String, key: &str, secret: &str, subscription: &serde_json::Value) -> (s:
        Session)
        ensures
            s@ == SessionView::fresh(
                url@,
                json_text(auth_model(key@, secret@)),
                json_text(value_model(*subscription)),
            ),
    {
        let auth = render(&auth_json(key, secret));
        let subscribe = render(subscription);
        Session::new(url, auth, subscribe)
    }

    /// Where the session stands.
    pub fn phase(&self) -> (p: Phase)
        ensures
            p == self@.phase,
    {
        self.phase
    }

    /// How many connections in a row have failed.
    pub fn attempt(&self) -> (n: u32)
        ensures
            n == self@.attempt,
    {
        self.attempt
    }

    /// What the caller is to do next.
    pub fn command(&self) -> (c: Command)
        ensures
            c@ == self@.command(),
    {
        match self.phase {
            Phase::Connecting => Command::Connect(self.url.clone()),
            Phase::Authenticating { sent } => if sent {
                Command::Receive
            } else {
                Command::Send(self.auth.clone())
            },
            Phase::Subscribing => Command::Send(self.subscribe.clone()),
            Phase::Streaming => Command::Receive,
            Phase::Closed { reason, delay_ms } => Command::Sleep(delay_ms),
            Phase::Stopped => Command::Stop,
        }
    }

    /// Ends the connection: the session waits out the backoff and counts one
    /// more failure.
    fn close(&mut self, reason: CloseReason)
        ensures
            final(self)@ == old(self)@.closed(reason),
    {
        self.phase = Phase::Closed { reason, delay_ms: backoff_ms(self.attempt) };
        self.attempt = count_failure(self.attempt);
    }

    /// Handles one text frame of the handshake.
    fn handshake_frame<M: WireMessage>(&mut self, text: &str) -> (emitted: Vec<
        Result<M, StreamError>,
    >)
        ensures
            final(self)@ == handshake_step::<M>(
                old(self)@,
                frame_items::<M>(parsed_json(text@)),
            ).next,
            output_views(emitted@) == handshake_step::<M>(
                old(self)@,
                frame_items::<M>(parsed_json(text@)),
            ).emitted,
    {
        let h = handshake_of_frame::<M>(text);
        match h.failed {
            Some(reason) => {
                self.close(reason);
            },
            None => {
                if h.authed {
                    self.phase = Phase::Subscribing;
                }
            },
        }
        h.emitted
    }

    /// Takes in what happened and answers with the items for the consumer,
    /// in the order in which they are to be handed on.
    pub fn step<M: WireMessage>(&mut self, event: Event) -> (emitted: Vec<Result<M, StreamError>>)
        ensures
            final(self)@ == step_spec::<M>(old(self)@, event).next,
            output_views(emitted@) == step_spec::<M>(old(self)@, event).emitted,
            emitted@.len() == step_spec::<M>(old(self)@, event).emitted.len(),
    {
        let mut emitted: Vec<Result<M, StreamError>> = Vec::new();
        assert(output_views(emitted@) =~= Seq::empty());
        match self.phase {
            Phase::Stopped => {},
            Phase::Connecting => match event {
                Event::ConsumerGone => {
                    self.phase = Phase::Stopped;
                },
                Event::Connected => {
                    self.phase = Phase::Authenticating { sent: false };
                },
                Event::ConnectFailed(why) => {
                    self.close(CloseReason::ConnectFailed);
                    emitted.push(Err(StreamError::Connect(why)));
                    assert(output_views(emitted@) =~= seq![Err(StreamFault::Connect(why@))]);
                },
                _ => {},
            },
            Phase::Authenticating { sent: false } => match event {
                Event::ConsumerGone => {
                    self.phase = Phase::Stopped;
                },
                Event::Sent => {
                    self.phase = Phase::Authenticating { sent: true };
                },
                Event::SendFailed(why) => {
                    self.close(CloseReason::SendFailed);
                    emitted.push(Err(StreamError::SendAuth(why)));
                    assert(output_views(emitted@) =~= seq![Err(StreamFault::SendAuth(why@))]);
                },
                _ => {},
            },
            Phase::Authenticating { sent: true } => match event {
                Event::ConsumerGone => {
                    self.phase = Phase::Stopped;
                },
                Event::Frame(Frame::Text(text)) => {
                    if !text.as_str().is_empty() {
                        emitted = self.handshake_frame(text.as_str());
                    }
                },
                Event::Frame(Frame::Close) => {
                    self.close(CloseReason::RemoteClosed);
                    emitted.push(Err(StreamError::RemoteClosed));
                    assert(output_views(emitted@) =~= seq![Err(StreamFault::RemoteClosed)]);
                },
                Event::Ended => {
                    self.close(CloseReason::RemoteClosed);
                    emitted.push(Err(StreamError::RemoteClosed));
                    assert(output_views(emitted@) =~= seq![Err(StreamFault::RemoteClosed)]);
                },
                Event::ReadFailed(why) => {
                    self.close(CloseReason::ReadFailed);
                    emitted.push(Err(StreamError::ReadDuringAuth(why)));
                    assert(output_views(emitted@) =~= seq![
                        Err(StreamFault::ReadDuringAuth(why@)),
                    ]);
                },
                _ => {},
            },
            Phase::Subscribing => match event {
                Event::ConsumerGone => {
                    self.phase = Phase::Stopped;
                },
                Event::Sent => {
                    self.phase = Phase::Streaming;
                    self.attempt = 0;
                },
                Event::SendFailed(why) => {
                    self.close(CloseReason::SendFailed);
                    emitted.push(Err(StreamError::SendSubscribe(why)));
                    assert(output_views(emitted@) =~= seq![
                        Err(StreamFault::SendSubscribe(why@)),
                    ]);
                },
                _ => {},
            },
            Phase::Streaming => match event {
                Event::ConsumerGone => {
                    self.phase = Phase::Stopped;
                },
                Event::Frame(Frame::Text(text)) => {
                    if !text.as_str().is_empty() {
                        emitted = relay_frame(text.as_str());
                    }
                },
                Event::Frame(Frame::Close) => {
                    self.close(CloseReason::RemoteClosed);
                    emitted.push(Err(StreamError::RemoteClosed));
                    assert(output_views(emitted@) =~= seq![Err(StreamFault::RemoteClosed)]);
                },
                Event::Ended => {
                    self.close(CloseReason::RemoteClosed);
                    emitted.push(Err(StreamError::RemoteClosed));
                    assert(output_views(emitted@) =~= seq![Err(StreamFault::RemoteClosed)]);
                },
                Event::ReadFailed(why) => {
                    self.close(CloseReason::ReadFailed);
                    emitted.push(Err(StreamError::Read(why)));
                    assert(output_views(emitted@) =~= seq![Err(StreamFault::Read(why@))]);
                },
                _ => {},
            },
            Phase::Closed { reason, delay_ms } => match event {
                Event::ConsumerGone => {
                    self.phase = Phase::Stopped;
                },
                Event::Woke => {
                    self.phase = Phase::Connecting;
                },
                _ => {},
            },
        }
        assert(output_views(emitted@).len() == emitted@.len());
        emitted
    }
}

} // verus!
