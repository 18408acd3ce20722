//! A chat socket's decisions. The socket actor reports what happened (it
//! started, a heartbeat tick came, the client sent a frame, ...) and
//! `session_step` says what it must do.
use vstd::prelude::*;

verus! {

/// How often the socket pings its client, in seconds.
pub const HEARTBEAT_INTERVAL_SECS: u64 = 5;

/// How long a client may stay silent before its socket closes, in nanoseconds.
pub const CLIENT_TIMEOUT_NANOS: u128 = 10_000_000_000;

/// The heartbeat interval in nanoseconds.
pub open spec fn heartbeat_interval_nanos() -> int {
    HEARTBEAT_INTERVAL_SECS * 1_000_000_000
}

/// Whether `session_step` stops the socket at a tick this long after the
/// client was last heard from.
pub open spec fn tick_stops(silent_for_nanos: int) -> bool {
    silent_for_nanos > CLIENT_TIMEOUT_NANOS
}

/// A tick stops the client exactly when it has been silent for more than ten
/// seconds, and ticks come every five seconds.
pub proof fn heartbeat_timing()
    ensures
        forall|silent: int| #[trigger] tick_stops(silent) <==> silent > 10_000_000_000,
        heartbeat_interval_nanos() == 5_000_000_000,
{
}

/// The heartbeat ticks at `start`, `start + interval`, `start + 2 * interval`, ...
/// (nanoseconds). A client last heard from at `heard` is stopped at tick `k`,
/// the first tick more than the timeout after `heard`, and every earlier tick
/// pings. That tick comes at most timeout + interval (15 s) after `heard`, unless
/// the very first tick is already past the timeout, which then stops the client.
pub proof fn silent_client_stopped_within_bound(start: int, heard: int) -> (k: nat)
    ensures
        tick_stops(start + k * heartbeat_interval_nanos() - heard),
        forall|j: nat| j < k ==> !tick_stops(#[trigger] (start + j * heartbeat_interval_nanos()) - heard),
        k == 0 || start + k * heartbeat_interval_nanos() - heard <= CLIENT_TIMEOUT_NANOS + heartbeat_interval_nanos(),
        k == 0 <==> tick_stops(start - heard),
{
    assert(heartbeat_interval_nanos() == 5_000_000_000);
    if start - heard > CLIENT_TIMEOUT_NANOS {
        return 0;
    }
    let span: int = heard + CLIENT_TIMEOUT_NANOS - start;
    let q: int = span / 5_000_000_000;
    vstd::arithmetic::div_mod::lemma_fundamental_div_mod(span, 5_000_000_000);
    vstd::arithmetic::div_mod::lemma_mod_bound(span, 5_000_000_000);
    vstd::arithmetic::div_mod::lemma_div_pos_is_pos(span, 5_000_000_000);
    let k: nat = (q + 1) as nat;
    assert(k * 5_000_000_000 == q * 5_000_000_000 + 5_000_000_000);
    assert forall|j: nat| j < k implies !tick_stops(#[trigger] (start + j * heartbeat_interval_nanos()) - heard) by {
        assert(j * 5_000_000_000 <= q * 5_000_000_000) by (nonlinear_arith)
            requires
                j <= q,
        ;
    }
    k
}

/// A message a client sent to its room.
#[derive(Debug)]
pub struct ClientMessage {
    pub msg: String,
    pub id: u128,
    pub room: String,
}

/// A frame received from the client.
pub enum WsFrame {
    Ping(Vec<u8>),
    Pong,
    Text(String),
    Binary,
    Close,
    Continuation,
    Nop,
}

/// What happened to the socket.
pub enum SessionEvent {
    /// The socket started.
    Started,
    /// The chat server answered the registration (`false`: it could not be reached).
    Registered { delivered: bool },
    /// A heartbeat tick, this long after the client was last heard from.
    Tick { silent_for_nanos: u128 },
    /// A frame arrived, or reading one failed (`None`).
    Received(Option<WsFrame>),
    /// The chat server sent text for the client.
    ServerText(String),
    /// The socket is stopping.
    Stopping,
}

/// What the socket must do.
pub enum SessionAction {
    /// Start the heartbeat, and register session `self_id` in room `room_id`.
    Register { self_id: u128, room_id: String },
    /// Nothing.
    Nothing,
    /// Stop the socket.
    Stop,
    /// Send a ping carrying `PING`.
    Ping,
    /// Note the client as heard from now, and answer the ping with these bytes.
    Pong(Vec<u8>),
    /// Note the client as heard from now.
    Heard,
    /// Pass the client's message on to the chat server.
    Forward(ClientMessage),
    /// Report an unexpected binary frame.
    ReportBinary,
    /// Close the socket with the client's reason, then stop it.
    CloseAndStop,
    /// Send this text to the client.
    SendText(String),
    /// Tell the chat server that session `id` left, and stop.
    Unregister { id: u128 },
}

/// What the socket of session `id` in room `room` does when `event` happens.
pub fn session_step(id: u128, room: &String, event: SessionEvent) -> (res: SessionAction)
    ensures
        match event {
            SessionEvent::Started => res matches SessionAction::Register { self_id, room_id }
                && self_id == id && room_id@ == room@,
            SessionEvent::Registered { delivered } => if delivered {
                res is Nothing
            } else {
                res is Stop
            },
            SessionEvent::Tick { silent_for_nanos } => if tick_stops(silent_for_nanos as int) {
                res is Stop
            } else {
                res is Ping
            },
            SessionEvent::Received(None) => res is Stop,
            SessionEvent::Received(Some(frame)) => match frame {
                WsFrame::Ping(bytes) => res matches SessionAction::Pong(b) && b@ == bytes@,
                WsFrame::Pong => res is Heard,
                WsFrame::Text(text) => res matches SessionAction::Forward(m) && m.msg@ == text@
                    && m.id == id && m.room@ == room@,
                WsFrame::Binary => res is ReportBinary,
                WsFrame::Close => res is CloseAndStop,
                WsFrame::Continuation => res is Stop,
                WsFrame::Nop => res is Nothing,
            },
            SessionEvent::ServerText(text) => res matches SessionAction::SendText(t) && t@ == text@,
            SessionEvent::Stopping => res matches SessionAction::Unregister { id: u } && u == id,
        },
{
    match event {
        SessionEvent::Started => SessionAction::Register { self_id: id, room_id: room.clone() },
        SessionEvent::Registered { delivered } => {
            if delivered {
                SessionAction::Nothing
            } else {
                SessionAction::Stop
            }
        },
        SessionEvent::Tick { silent_for_nanos } => {
            if silent_for_nanos > CLIENT_TIMEOUT_NANOS {
                SessionAction::Stop
            } else {
                SessionAction::Ping
            }
        },
        SessionEvent::Received(None) => SessionAction::Stop,
        SessionEvent::Received(Some(frame)) => match frame {
            WsFrame::Ping(bytes) => SessionAction::Pong(bytes),
            WsFrame::Pong => SessionAction::Heard,
            WsFrame::Text(text) => SessionAction::Forward(ClientMessage { msg: text, id, room: room.clone() }),
            WsFrame::Binary => SessionAction::ReportBinary,
            WsFrame::Close => SessionAction::CloseAndStop,
            WsFrame::Continuation => SessionAction::Stop,
            WsFrame::Nop => SessionAction::Nothing,
        },
        SessionEvent::ServerText(text) => SessionAction::SendText(text),
        SessionEvent::Stopping => SessionAction::Unregister { id },
    }
}

} // verus!
