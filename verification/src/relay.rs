//! The telemetry relay: four independent per-topic pipelines, each bridging
//! one streaming connection against the kernel to one outward event emission.
//!
//! A channel's reader hands every inbound frame to `handle_frame`: well-formed
//! JSON text frames are decoded and queued, malformed ones are silently
//! dropped without ending the channel, a close frame ends it cleanly, a
//! transport error ends it in the failed state. The forwarder drains the
//! queue in arrival order through `next_event`. The coordinator
//! `RelaySession::start_all` builds all four channels together; recording one
//! channel's connect outcome never touches the other three.

use vstd::prelude::*;
use crate::queue::BoundedQueue;
use crate::strutil::dec_str;
use crate::strutil::u64_to_dec;

verus! {

#[verifier::external_type_specification]
#[verifier::external_body]
pub struct ExJsonValue(serde_json::Value);

/// Whether a text frame is a well-formed JSON document, as decided by
/// `serde_json::from_str::<serde_json::Value>`; it depends on the characters
/// alone.
pub uninterp spec fn json_well_formed(s: Seq<char>) -> bool;

/// Relies on `serde_json::from_str::<serde_json::Value>`: the decode of a
/// string succeeds or fails depending on its characters alone.
#[verifier::external_body]
fn decode_json(text: &str) -> (r: Option<serde_json::Value>)
    ensures
        r is Some <==> json_well_formed(text@),
{
    match serde_json::from_str::<serde_json::Value>(text) {
        Ok(v) => Some(v),
        Err(_) => None,
    }
}

/// One named telemetry category of the kernel's streaming endpoint.
#[derive(Clone, Copy, PartialEq, Eq, Structural, Debug)]
pub enum Topic {
    Traffic,
    Memory,
    Logs,
    Connections,
}

pub open spec fn topic_path_spec(t: Topic) -> Seq<char> {
    match t {
        Topic::Traffic => "traffic"@,
        Topic::Memory => "memory"@,
        Topic::Logs => "logs"@,
        Topic::Connections => "connections"@,
    }
}

pub open spec fn event_name_spec(t: Topic) -> Seq<char> {
    match t {
        Topic::Traffic => "traffic-data"@,
        Topic::Memory => "memory-data"@,
        Topic::Logs => "log-data"@,
        Topic::Connections => "connections-data"@,
    }
}

impl Topic {
    /// The path component of this topic's streaming endpoint.
    pub fn path(&self) -> (r: &'static str)
        ensures
            r@ == topic_path_spec(*self),
    {
        match self {
            Topic::Traffic => "traffic",
            Topic::Memory => "memory",
            Topic::Logs => "logs",
            Topic::Connections => "connections",
        }
    }

    /// The name under which this topic's events are emitted outward.
    pub fn event_name(&self) -> (r: &'static str)
        ensures
            r@ == event_name_spec(*self),
    {
        match self {
            Topic::Traffic => "traffic-data",
            Topic::Memory => "memory-data",
            Topic::Logs => "log-data",
            Topic::Connections => "connections-data",
        }
    }
}

/// The streaming endpoint for one topic: the token is captured once, at
/// connect time.
pub open spec fn url_spec(port: u16, t: Topic, token: Seq<char>) -> Seq<char> {
    "ws://127.0.0.1:"@ + dec_str(port as nat) + "/"@ + topic_path_spec(t) + "?token="@ + token
}

/// Builds the connect URL `ws://127.0.0.1:<port>/<topic>?token=<token>`.
pub fn connect_url(port: u16, topic: Topic, token: &str) -> (r: String)
    ensures
        r@ == url_spec(port, topic, token@),
{
    let mut s = String::from_str("ws://127.0.0.1:");
    let p = u64_to_dec(port as u64);
    s.append(p.as_str());
    s.append("/");
    s.append(topic.path());
    s.append("?token=");
    s.append(token);
    s
}

/// One inbound frame of a channel's streaming connection.
pub enum Frame {
    /// A text frame carrying one message.
    Text(String),
    /// The far end closed the stream cleanly.
    Close,
    /// A transport-level read error with its description.
    ReadError(String),
    /// Any other frame kind (binary, ping, pong): ignored.
    Other,
}

/// Connection state of one relay channel.
#[derive(Clone, Copy, PartialEq, Eq, Structural, Debug)]
pub enum ConnState {
    Connecting,
    Streaming,
    Closed,
    Failed,
}

/// What the reader did with one frame.
pub enum ReaderStep {
    /// A decoded event was queued.
    Enqueued,
    /// The queue is full: the reader must suspend, keep the decoded value,
    /// and offer it again through `accept` once the forwarder has drained.
    Suspended(serde_json::Value),
    /// The frame was dropped (malformed text, or a non-text frame).
    Skipped,
    /// The stream ended cleanly.
    Closed,
    /// The stream ended on a transport error, with its description.
    Errored(String),
}

/// One decoded telemetry message, ready to be emitted outward.
pub struct RelayEvent {
    pub topic: Topic,
    pub payload: serde_json::Value,
}

/// Capacity of each channel's internal event queue.
pub const RELAY_QUEUE_CAPACITY: usize = 32;

/// One relay pipeline: a topic, its endpoint, the connection state and the
/// bounded queue shared by the channel's reader and forwarder.
pub struct RelayChannel {
    pub topic: Topic,
    pub endpoint: String,
    pub conn: ConnState,
    pub queue: BoundedQueue<serde_json::Value>,
}

pub open spec fn frame_stops(f: Frame) -> bool {
    f is Close || f is ReadError
}

pub open spec fn frame_delivers(f: Frame) -> bool {
    f matches Frame::Text(t) && json_well_formed(t@)
}

/// How many events the reader queues from `frames`, processed in order up to
/// the first close or error.
pub open spec fn delivered_count(frames: Seq<Frame>) -> nat
    decreases frames.len(),
{
    if frames.len() == 0 {
        0
    } else if frame_stops(frames[0]) {
        0
    } else if frame_delivers(frames[0]) {
        1 + delivered_count(frames.drop_first())
    } else {
        delivered_count(frames.drop_first())
    }
}

/// The connection state the reader is left in after processing `frames`.
pub open spec fn reader_final_conn(frames: Seq<Frame>) -> ConnState
    decreases frames.len(),
{
    if frames.len() == 0 {
        ConnState::Streaming
    } else if frames[0] is Close {
        ConnState::Closed
    } else if frames[0] is ReadError {
        ConnState::Failed
    } else {
        reader_final_conn(frames.drop_first())
    }
}

impl RelayChannel {
    pub open spec fn wf(&self) -> bool {
        self.queue.wf() && self.queue.cap() == RELAY_QUEUE_CAPACITY as nat
    }

    /// A fresh channel for one topic: endpoint built from the port and the
    /// token snapshot, connection attempt not yet resolved, queue empty.
    pub fn open(topic: Topic, port: u16, token: &str) -> (c: RelayChannel)
        ensures
            c.wf(),
            c.topic == topic,
            c.conn == ConnState::Connecting,
            c.queue@ == Seq::<serde_json::Value>::empty(),
            c.endpoint@ == url_spec(port, topic, token@),
    {
        RelayChannel {
            topic,
            endpoint: connect_url(port, topic, token),
            conn: ConnState::Connecting,
            queue: BoundedQueue::new(RELAY_QUEUE_CAPACITY),
        }
    }

    /// Records the outcome of this channel's connect attempt.
    pub fn record_connect(&mut self, ok: bool)
        requires
            old(self).wf(),
            old(self).conn == ConnState::Connecting,
        ensures
            final(self).wf(),
            final(self).topic == old(self).topic,
            final(self).endpoint == old(self).endpoint,
            final(self).queue@ == old(self).queue@,
            final(self).queue.cap() == old(self).queue.cap(),
            final(self).conn == (if ok {
                ConnState::Streaming
            } else {
                ConnState::Failed
            }),
    {
        if ok {
            self.conn = ConnState::Streaming;
        } else {
            self.conn = ConnState::Failed;
        }
    }

    /// The reader's treatment of one inbound frame. A malformed text frame is
    /// dropped without ending the stream; a well-formed one is decoded and
    /// queued (or handed back in `Suspended` when the queue is full); a close
    /// frame ends the channel cleanly; a read error ends it failed.
    pub fn handle_frame(&mut self, f: Frame) -> (step: ReaderStep)
        requires
            old(self).wf(),
            old(self).conn == ConnState::Streaming,
        ensures
            final(self).wf(),
            final(self).topic == old(self).topic,
            final(self).endpoint == old(self).endpoint,
            final(self).queue.cap() == old(self).queue.cap(),
            match f {
                Frame::Text(t) => if !json_well_formed(t@) {
                    step matches ReaderStep::Skipped && final(self).queue@ == old(self).queue@
                        && final(self).conn == ConnState::Streaming
                } else if old(self).queue@.len() < old(self).queue.cap() {
                    step matches ReaderStep::Enqueued && final(self).conn == ConnState::Streaming
                        && final(self).queue@.len() == old(self).queue@.len() + 1 && (exists|
                        v: serde_json::Value,
                    |
                        final(self).queue@ == old(self).queue@.push(v))
                } else {
                    step matches ReaderStep::Suspended(_) && final(self).queue@ == old(
                        self,
                    ).queue@ && final(self).conn == ConnState::Streaming
                },
                Frame::Close => step matches ReaderStep::Closed && final(self).queue@ == old(
                    self,
                ).queue@ && final(self).conn == ConnState::Closed,
                Frame::ReadError(e) => (step matches ReaderStep::Errored(m) && m@ == e@)
                    && final(self).queue@ == old(self).queue@ && final(self).conn
                    == ConnState::Failed,
                Frame::Other => step matches ReaderStep::Skipped && final(self).queue@ == old(
                    self,
                ).queue@ && final(self).conn == ConnState::Streaming,
            },
    {
        match f {
            Frame::Text(t) => {
                match decode_json(t.as_str()) {
                    Some(v) => {
                        if self.queue.is_full() {
                            ReaderStep::Suspended(v)
                        } else {
                            let _ = self.queue.try_enqueue(v);
                            ReaderStep::Enqueued
                        }
                    },
                    None => ReaderStep::Skipped,
                }
            },
            Frame::Close => {
                self.conn = ConnState::Closed;
                ReaderStep::Closed
            },
            Frame::ReadError(e) => {
                self.conn = ConnState::Failed;
                ReaderStep::Errored(e)
            },
            Frame::Other => ReaderStep::Skipped,
        }
    }

    /// Offers a decoded value kept from a `Suspended` step once more.
    pub fn accept(&mut self, v: serde_json::Value) -> (ok: bool)
        requires
            old(self).wf(),
        ensures
            final(self).wf(),
            final(self).topic == old(self).topic,
            final(self).endpoint == old(self).endpoint,
            final(self).conn == old(self).conn,
            final(self).queue.cap() == old(self).queue.cap(),
            ok == (old(self).queue@.len() < old(self).queue.cap()),
            ok ==> final(self).queue@ == old(self).queue@.push(v),
            !ok ==> final(self).queue@ == old(self).queue@,
    {
        self.queue.try_enqueue(v)
    }

    /// The forwarder's step: the oldest queued event, wrapped with this
    /// channel's topic, in strict arrival order.
    pub fn next_event(&mut self) -> (r: Option<RelayEvent>)
        requires
            old(self).wf(),
        ensures
            final(self).wf(),
            final(self).topic == old(self).topic,
            final(self).endpoint == old(self).endpoint,
            final(self).conn == old(self).conn,
            final(self).queue.cap() == old(self).queue.cap(),
            old(self).queue@.len() == 0 ==> (r is None && final(self).queue@ == old(self).queue@),
            old(self).queue@.len() > 0 ==> (r matches Some(ev) && ev.topic == old(self).topic
                && ev.payload == old(self).queue@[0] && final(self).queue@ == old(
                self,
            ).queue@.drop_first()),
    {
        match self.queue.dequeue() {
            Some(v) => Some(RelayEvent { topic: self.topic, payload: v }),
            None => None,
        }
    }

    /// Law: a reader that sees a run of frames — malformed ones included —
    /// queues exactly one event per well-formed text frame up to the first
    /// close or error, in arrival order behind what was already queued, and
    /// only a close or error frame ends the channel. In particular one
    /// malformed message followed by N well-formed ones queues exactly N
    /// events and leaves the channel streaming.
    pub fn run_reader(&mut self, frames: Vec<Frame>)
        requires
            old(self).wf(),
            old(self).conn == ConnState::Streaming,
            old(self).queue@.len() + delivered_count(frames@) <= old(self).queue.cap(),
        ensures
            final(self).wf(),
            final(self).topic == old(self).topic,
            final(self).endpoint == old(self).endpoint,
            final(self).queue.cap() == old(self).queue.cap(),
            final(self).queue@.len() == old(self).queue@.len() + delivered_count(frames@),
            final(self).queue@.subrange(0, old(self).queue@.len() as int) == old(self).queue@,
            final(self).conn == reader_final_conn(frames@),
    {
        let mut fs = frames;
        let mut done = false;
        while !done && fs.len() > 0
            invariant
                self.wf(),
                self.topic == old(self).topic,
                self.endpoint == old(self).endpoint,
                self.queue.cap() == old(self).queue.cap(),
                old(self).queue@.len() <= self.queue@.len(),
                self.queue@.subrange(0, old(self).queue@.len() as int) == old(self).queue@,
                !done ==> self.conn == ConnState::Streaming,
                !done ==> old(self).queue@.len() + delivered_count(frames@) == self.queue@.len()
                    + delivered_count(fs@),
                !done ==> self.queue@.len() + delivered_count(fs@) <= self.queue.cap(),
                !done ==> reader_final_conn(frames@) == reader_final_conn(fs@),
                done ==> self.queue@.len() == old(self).queue@.len() + delivered_count(frames@),
                done ==> self.conn == reader_final_conn(frames@),
            decreases fs.len(),
        {
            let ghost fs_pre = fs@;
            let ghost q_pre = self.queue@;
            let f = fs.remove(0);
            proof {
                assert(fs@ =~= fs_pre.drop_first());
            }
            let step = self.handle_frame(f);
            match step {
                ReaderStep::Closed => {
                    done = true;
                },
                ReaderStep::Errored(_) => {
                    done = true;
                },
                ReaderStep::Suspended(_) => {
                    proof {
                        assert(false);
                    }
                },
                _ => {
                    proof {
                        if frame_delivers(f) {
                            let v = choose|v: serde_json::Value| self.queue@ == q_pre.push(v);
                            assert(self.queue@.subrange(0, old(self).queue@.len() as int)
                                =~= q_pre.subrange(0, old(self).queue@.len() as int));
                        }
                    }
                },
            }
        }
    }
}

pub open spec fn topic_at(i: int) -> Topic {
    if i == 0 {
        Topic::Traffic
    } else if i == 1 {
        Topic::Memory
    } else if i == 2 {
        Topic::Logs
    } else {
        Topic::Connections
    }
}

/// The relay coordinator's session: the four per-topic channels of one
/// "start relaying" operation.
pub struct RelaySession {
    pub channels: Vec<RelayChannel>,
}

impl RelaySession {
    pub open spec fn wf(&self) -> bool {
        self.channels@.len() == 4 && forall|i: int|
            0 <= i < 4 ==> (#[trigger] self.channels@[i]).wf() && self.channels@[i].topic
                == topic_at(i)
    }

    /// Law: starting a relay session builds all four channels — traffic,
    /// memory, logs, connections — unconditionally, each with its own
    /// endpoint and its own empty queue, each with a connect attempt to be
    /// issued; no channel's construction depends on another's.
    pub fn start_all(port: u16, token: &str) -> (s: RelaySession)
        ensures
            s.wf(),
            forall|i: int|
                0 <= i < 4 ==> (#[trigger] s.channels@[i]).conn == ConnState::Connecting
                    && s.channels@[i].queue@.len() == 0 && s.channels@[i].endpoint@ == url_spec(
                    port,
                    topic_at(i),
                    token@,
                ),
    {
        let mut channels: Vec<RelayChannel> = Vec::new();
        channels.push(RelayChannel::open(Topic::Traffic, port, token));
        channels.push(RelayChannel::open(Topic::Memory, port, token));
        channels.push(RelayChannel::open(Topic::Logs, port, token));
        channels.push(RelayChannel::open(Topic::Connections, port, token));
        RelaySession { channels }
    }

    /// Records the outcome of one channel's connect attempt. The other three
    /// channels are untouched: a failure of one connect attempt never
    /// prevents or alters the others.
    pub fn record_connect(&mut self, index: usize, ok: bool)
        requires
            old(self).wf(),
            index < 4,
            old(self).channels@[index as int].conn == ConnState::Connecting,
        ensures
            final(self).wf(),
            forall|j: int|
                0 <= j < 4 && j != index ==> final(self).channels@[j] == old(self).channels@[j],
            final(self).channels@[index as int].topic == old(self).channels@[index as int].topic,
            final(self).channels@[index as int].endpoint == old(self).channels@[
                index as int
            ].endpoint,
            final(self).channels@[index as int].queue@ == old(self).channels@[index as int].queue@,
            final(self).channels@[index as int].conn == (if ok {
                ConnState::Streaming
            } else {
                ConnState::Failed
            }),
    {
        let ghost s0 = self.channels@;
        let mut ch = self.channels.remove(index);
        ch.record_connect(ok);
        self.channels.insert(index, ch);
        proof {
            assert forall|j: int| 0 <= j < 4 && j != index implies self.channels@[j] == s0[j] by {
                if j < index {
                    assert(self.channels@[j] == s0.remove(index as int)[j]);
                } else {
                    assert(self.channels@[j] == s0.remove(index as int)[j - 1]);
                }
            }
        }
    }
}

} // verus!
