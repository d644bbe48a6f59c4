//! Worker-id lease protocol over a persistent connection.
//!
//! A worker asks the allocator for an id over an ordered, bidirectional
//! byte stream with ping/pong keepalive. The allocator binds the id to the
//! connection; when the connection closes for any reason the id goes back
//! to the pool. The transport itself stays outside: it hands the session
//! machines here each received frame and carries their replies back.

use vstd::prelude::*;
use crate::pool::{allocate_post, free_set, release_result, IdManager};

verus! {

/// How often either side pings the other, in milliseconds.
pub const HEARTBEAT_INTERVAL_MS: u64 = 3_000;

/// How long without any received traffic before a peer is presumed gone.
pub const CLIENT_TIMEOUT_MS: u64 = 10_000;

/// Messages a worker sends to the allocator.
#[derive(PartialEq, Eq, Structural, Debug, Clone, Copy)]
pub enum ClientMessage {
    GetId,
}

/// Messages the allocator sends to a worker.
#[derive(PartialEq, Eq, Structural, Debug, Clone, Copy)]
pub enum ServerMessage {
    SetWorkerId(u32),
    NoIdsAvailable,
}

/// Wire form of a client message: a 4-byte little-endian variant tag.
pub open spec fn spec_encode_client(m: ClientMessage) -> Seq<u8> {
    seq![0u8, 0u8, 0u8, 0u8]
}

/// The little-endian byte form of a 32-bit field.
pub open spec fn spec_le32(w: u32) -> Seq<u8> {
    seq![w as u8, (w >> 8) as u8, (w >> 16) as u8, (w >> 24) as u8]
}

/// The 32-bit field four little-endian bytes carry.
pub open spec fn spec_u32_of_le(b0: u8, b1: u8, b2: u8, b3: u8) -> u32 {
    (b0 + b1 * 0x100 + b2 * 0x1_0000 + b3 * 0x100_0000) as u32
}

/// Wire form of a server message: a 4-byte little-endian variant tag, then
/// the variant's fields in little-endian order.
pub open spec fn spec_encode_server(m: ServerMessage) -> Seq<u8> {
    match m {
        ServerMessage::SetWorkerId(w) => seq![0u8, 0u8, 0u8, 0u8] + spec_le32(w),
        ServerMessage::NoIdsAvailable => seq![1u8, 0u8, 0u8, 0u8],
    }
}

/// The client message a frame carries, if any: decoding is strict, a frame
/// of any other shape is malformed.
pub open spec fn spec_decode_client(b: Seq<u8>) -> Option<ClientMessage> {
    if b == spec_encode_client(ClientMessage::GetId) {
        Some(ClientMessage::GetId)
    } else {
        None
    }
}

/// The server message a frame carries, if any.
pub open spec fn spec_decode_server(b: Seq<u8>) -> Option<ServerMessage> {
    if b.len() == 8 && b[0] == 0 && b[1] == 0 && b[2] == 0 && b[3] == 0 {
        Some(ServerMessage::SetWorkerId(spec_u32_of_le(b[4], b[5], b[6], b[7])))
    } else if b.len() == 4 && b[0] == 1 && b[1] == 0 && b[2] == 0 && b[3] == 0 {
        Some(ServerMessage::NoIdsAvailable)
    } else {
        None
    }
}

/// Law: the wire codec round-trips. Decoding an encoded message, on either
/// side of the link, yields the message that was encoded.
pub proof fn lemma_codec_roundtrip(c: ClientMessage, m: ServerMessage)
    ensures
        spec_decode_client(spec_encode_client(c)) == Some(c),
        spec_decode_server(spec_encode_server(m)) == Some(m),
{
    match m {
        ServerMessage::SetWorkerId(w) => {
            let b = spec_encode_server(m);
            assert(b.len() == 8 && b[0] == 0 && b[1] == 0 && b[2] == 0 && b[3] == 0);
            assert(spec_u32_of_le(w as u8, (w >> 8) as u8, (w >> 16) as u8, (w >> 24) as u8)
                == w) by (bit_vector);
        },
        ServerMessage::NoIdsAvailable => {
            let b = spec_encode_server(m);
            assert(b.len() == 4 && b[0] == 1 && b[1] == 0 && b[2] == 0 && b[3] == 0);
        },
    }
}

/// Encode a client message for the wire.
pub fn encode_client_message(m: &ClientMessage) -> (r: Vec<u8>)
    ensures
        r@ == spec_encode_client(*m),
{
    let mut r: Vec<u8> = Vec::new();
    r.push(0);
    r.push(0);
    r.push(0);
    r.push(0);
    proof {
        assert(r@ =~= spec_encode_client(*m));
    }
    r
}

/// Decode a client frame; `None` marks a malformed frame.
pub fn decode_client_message(b: &[u8]) -> (r: Option<ClientMessage>)
    ensures
        r == spec_decode_client(b@),
{
    if b.len() == 4 && b[0] == 0 && b[1] == 0 && b[2] == 0 && b[3] == 0 {
        proof {
            assert(b@ =~= spec_encode_client(ClientMessage::GetId));
        }
        Some(ClientMessage::GetId)
    } else {
        proof {
            if b@ == spec_encode_client(ClientMessage::GetId) {
                assert(b@.len() == 4 && b@[0] == 0 && b@[1] == 0 && b@[2] == 0 && b@[3] == 0);
            }
        }
        None
    }
}

/// Encode a server message for the wire.
pub fn encode_server_message(m: &ServerMessage) -> (r: Vec<u8>)
    ensures
        r@ == spec_encode_server(*m),
{
    let mut r: Vec<u8> = Vec::new();
    match m {
        ServerMessage::SetWorkerId(w) => {
            let w = *w;
            r.push(0);
            r.push(0);
            r.push(0);
            r.push(0);
            r.push(w as u8);
            r.push((w >> 8u32) as u8);
            r.push((w >> 16u32) as u8);
            r.push((w >> 24u32) as u8);
        },
        ServerMessage::NoIdsAvailable => {
            r.push(1);
            r.push(0);
            r.push(0);
            r.push(0);
        },
    }
    proof {
        assert(r@ =~= spec_encode_server(*m));
    }
    r
}

/// Decode a server frame; `None` marks a malformed frame.
pub fn decode_server_message(b: &[u8]) -> (r: Option<ServerMessage>)
    ensures
        r == spec_decode_server(b@),
{
    if b.len() == 8 && b[0] == 0 && b[1] == 0 && b[2] == 0 && b[3] == 0 {
        let b4 = b[4];
        let b5 = b[5];
        let b6 = b[6];
        let b7 = b[7];
        let w = (b4 as u32) | ((b5 as u32) << 8u32) | ((b6 as u32) << 16u32) | ((b7 as u32)
            << 24u32);
        proof {
            assert(w == spec_u32_of_le(b4, b5, b6, b7)) by (bit_vector)
                requires
                    w == (b4 as u32) | ((b5 as u32) << 8u32) | ((b6 as u32) << 16u32) | ((
                    b7 as u32) << 24u32),
            ;
        }
        Some(ServerMessage::SetWorkerId(w))
    } else if b.len() == 4 && b[0] == 1 && b[1] == 0 && b[2] == 0 && b[3] == 0 {
        Some(ServerMessage::NoIdsAvailable)
    } else {
        None
    }
}

/// Whether a peer has fallen silent: more than the timeout has passed since
/// the last received traffic.
pub open spec fn spec_heartbeat_expired(hb_ms: u64, now_ms: u64) -> bool {
    now_ms - hb_ms > CLIENT_TIMEOUT_MS
}

/// The allocator's side of one worker connection: the instant of the last
/// received traffic, and the lease bound to the connection, if any.
pub struct WorkerWsHandler {
    /// When traffic from the worker was last observed, in milliseconds.
    pub hb_ms: u64,
    /// The id leased to this connection, if one is.
    pub worker_id: Option<u32>,
}

/// A session's lease, if any, is a leased id of the pool. The allocator
/// keeps this between every session and its pool.
pub open spec fn session_consistent(s: WorkerWsHandler, p: Seq<bool>) -> bool {
    s.worker_id matches Some(w) ==> w < p.len() && p[w as int]
}

impl WorkerWsHandler {
    /// A fresh session: no lease, traffic observed now.
    pub fn new(now_ms: u64) -> (r: WorkerWsHandler)
        ensures
            r.hb_ms == now_ms,
            r.worker_id is None,
    {
        WorkerWsHandler { hb_ms: now_ms, worker_id: None }
    }

    /// Note traffic from the worker: a ping, a pong, or any data frame.
    pub fn on_traffic(&mut self, now_ms: u64)
        ensures
            final(self).hb_ms == now_ms,
            final(self).worker_id == old(self).worker_id,
    {
        self.hb_ms = now_ms;
    }

    /// Whether this connection should be closed for heartbeat timeout.
    pub fn heartbeat_expired(&self, now_ms: u64) -> (r: bool)
        ensures
            r == spec_heartbeat_expired(self.hb_ms, now_ms),
    {
        now_ms > self.hb_ms && now_ms - self.hb_ms > CLIENT_TIMEOUT_MS
    }

    /// Answer one id request. A connection that already holds a lease gets
    /// the same id again, so a retrying worker cannot leak ids; otherwise
    /// one id is allocated and bound to this connection, and exhaustion is
    /// reported without binding anything.
    pub fn on_request_id(&mut self, pool: &mut IdManager) -> (reply: ServerMessage)
        requires
            old(pool).wf(),
            session_consistent(*old(self), old(pool)@),
        ensures
            final(pool).wf(),
            session_consistent(*final(self), final(pool)@),
            final(self).hb_ms == old(self).hb_ms,
            old(self).worker_id matches Some(w) ==> *final(self) == *old(self) && final(pool)@
                == old(pool)@ && reply == ServerMessage::SetWorkerId(w),
            old(self).worker_id is None ==> match reply {
                ServerMessage::SetWorkerId(w) => allocate_post(old(pool)@, final(pool)@, Some(w))
                    && final(self).worker_id == Some(w),
                ServerMessage::NoIdsAvailable => allocate_post(old(pool)@, final(pool)@, None)
                    && final(self).worker_id is None,
            },
    {
        match self.worker_id {
            Some(w) => ServerMessage::SetWorkerId(w),
            None => {
                match pool.allocate() {
                    Some(w) => {
                        self.worker_id = Some(w);
                        ServerMessage::SetWorkerId(w)
                    },
                    None => ServerMessage::NoIdsAvailable,
                }
            },
        }
    }

    /// Handle one binary frame: a malformed frame is ignored and the
    /// connection stays open; an id request is answered with an encoded
    /// reply.
    pub fn on_binary(&mut self, pool: &mut IdManager, data: &[u8]) -> (reply: Option<Vec<u8>>)
        requires
            old(pool).wf(),
            session_consistent(*old(self), old(pool)@),
        ensures
            final(pool).wf(),
            session_consistent(*final(self), final(pool)@),
            final(self).hb_ms == old(self).hb_ms,
            spec_decode_client(data@) is None ==> *final(self) == *old(self) && final(pool)@ == old(
                pool,
            )@ && reply is None,
            spec_decode_client(data@) == Some(ClientMessage::GetId) ==> (reply matches Some(b)
                && match old(self).worker_id {
                Some(w) => *final(self) == *old(self) && final(pool)@ == old(pool)@ && b@
                    == spec_encode_server(ServerMessage::SetWorkerId(w)),
                None => match final(self).worker_id {
                    Some(w) => allocate_post(old(pool)@, final(pool)@, Some(w)) && b@
                        == spec_encode_server(ServerMessage::SetWorkerId(w)),
                    None => allocate_post(old(pool)@, final(pool)@, None) && b@
                        == spec_encode_server(ServerMessage::NoIdsAvailable),
                },
            }),
    {
        match decode_client_message(data) {
            Some(ClientMessage::GetId) => {
                let reply = self.on_request_id(pool);
                Some(encode_server_message(&reply))
            },
            None => None,
        }
    }

    /// Release the lease bound to this connection, before the connection
    /// counts as closed. This is the sole reclaim path: it runs on graceful
    /// close, protocol error, and heartbeat timeout alike.
    pub fn on_close(&mut self, pool: &mut IdManager)
        ensures
            final(pool)@ == match old(self).worker_id {
                Some(w) => release_result(old(pool)@, w),
                None => old(pool)@,
            },
            final(self).worker_id is None,
            final(self).hb_ms == old(self).hb_ms,
            old(pool).wf() ==> final(pool).wf(),
    {
        match self.worker_id {
            Some(w) => {
                pool.release(w);
                self.worker_id = None;
            },
            None => {},
        }
    }
}

/// Law: reclaim. When a session holding a lease closes, its id is free
/// again at once, and the very next allocation cannot be refused.
pub proof fn lemma_reclaim(pre: Seq<bool>, w: u32)
    requires
        w < pre.len(),
    ensures
        free_set(release_result(pre, w)).contains(w as int),
        forall|post: Seq<bool>, r: Option<u32>|
            allocate_post(release_result(pre, w), post, r) ==> r is Some,
{
    let released = release_result(pre, w);
    assert(!released[w as int]);
    assert forall|post: Seq<bool>, r: Option<u32>|
        allocate_post(released, post, r) implies r is Some by {
        if r is None {
            assert(released[w as int]);
        }
    }
}

/// One frame as the worker's side of the link sees it.
pub enum FrameEvent {
    /// A ping and its payload, to be answered by a pong.
    Ping(Vec<u8>),
    /// A pong for one of our pings.
    Pong,
    /// A binary frame, carrying a server message.
    Binary(Vec<u8>),
    /// A text frame; the protocol never sends one.
    Text(Vec<u8>),
    /// The transport reported the connection reset.
    ConnectionReset,
    /// Anything else the transport may surface.
    Other,
}

/// What the worker's side asks its transport to do after a frame.
#[derive(PartialEq, Eq, Debug)]
pub enum WorkerAction {
    /// Answer a ping, echoing its payload.
    SendPong(Vec<u8>),
    /// Hand the freshly assigned id to the generator.
    PublishId(u32),
    /// Tear the connection down and stop.
    Stop,
    /// Nothing to do.
    Ignore,
}

/// The worker's side of the link: the instant of the last received traffic
/// and the id the allocator assigned, if any.
pub struct WorkerWsClient {
    /// When traffic from the allocator was last observed, in milliseconds.
    pub hb_ms: u64,
    /// The id the allocator assigned, if one was.
    pub worker_id: Option<u32>,
}

impl WorkerWsClient {
    /// A fresh client session.
    pub fn new(now_ms: u64) -> (r: WorkerWsClient)
        ensures
            r.hb_ms == now_ms,
            r.worker_id is None,
    {
        WorkerWsClient { hb_ms: now_ms, worker_id: None }
    }

    /// The first message of a session: ask for an id.
    pub fn init_message() -> (r: Vec<u8>)
        ensures
            r@ == spec_encode_client(ClientMessage::GetId),
    {
        encode_client_message(&ClientMessage::GetId)
    }

    /// React to one received frame. Pings are answered and refresh the
    /// heartbeat, pongs refresh it; an id assignment is recorded and handed
    /// on; exhaustion is terminal for this worker; a malformed or alien
    /// frame is ignored and the connection stays open.
    pub fn on_frame(&mut self, ev: FrameEvent, now_ms: u64) -> (a: WorkerAction)
        ensures
            match ev {
                FrameEvent::Ping(p) => final(self).hb_ms == now_ms && final(self).worker_id == old(
                    self,
                ).worker_id && a == WorkerAction::SendPong(p),
                FrameEvent::Pong => final(self).hb_ms == now_ms && final(self).worker_id == old(
                    self,
                ).worker_id && a == WorkerAction::Ignore,
                FrameEvent::Binary(b) => final(self).hb_ms == old(self).hb_ms && match
                    spec_decode_server(b@) {
                    Some(ServerMessage::SetWorkerId(w)) => final(self).worker_id == Some(w) && a
                        == WorkerAction::PublishId(w),
                    Some(ServerMessage::NoIdsAvailable) => *final(self) == *old(self) && a
                        == WorkerAction::Stop,
                    None => *final(self) == *old(self) && a == WorkerAction::Ignore,
                },
                FrameEvent::Text(_) => *final(self) == *old(self) && a == WorkerAction::Ignore,
                FrameEvent::ConnectionReset => *final(self) == *old(self) && a
                    == WorkerAction::Stop,
                FrameEvent::Other => *final(self) == *old(self) && a == WorkerAction::Ignore,
            },
    {
        match ev {
            FrameEvent::Ping(p) => {
                self.hb_ms = now_ms;
                WorkerAction::SendPong(p)
            },
            FrameEvent::Pong => {
                self.hb_ms = now_ms;
                WorkerAction::Ignore
            },
            FrameEvent::Binary(b) => {
                match decode_server_message(b.as_slice()) {
                    Some(ServerMessage::SetWorkerId(w)) => {
                        self.worker_id = Some(w);
                        WorkerAction::PublishId(w)
                    },
                    Some(ServerMessage::NoIdsAvailable) => WorkerAction::Stop,
                    None => WorkerAction::Ignore,
                }
            },
            FrameEvent::Text(_) => WorkerAction::Ignore,
            FrameEvent::ConnectionReset => WorkerAction::Stop,
            FrameEvent::Other => WorkerAction::Ignore,
        }
    }

    /// One heartbeat tick: a ping goes out each tick, and the session stops
    /// if the allocator has been silent past the timeout.
    pub fn heartbeat_tick(&self, now_ms: u64) -> (stop: bool)
        ensures
            stop == spec_heartbeat_expired(self.hb_ms, now_ms),
    {
        now_ms > self.hb_ms && now_ms - self.hb_ms > CLIENT_TIMEOUT_MS
    }
}

} // verus!
