//! The chat transport manager, as a state machine.
//!
//! The manager owns one connection at a time, registers on it, answers the
//! server's liveness probes, issues its own probe after an idle period, and
//! recovers from every transport fault by reconnecting after a fixed
//! backoff. The surrounding event loop performs the actions this machine
//! returns (connect, write a line, forward a chat message) and feeds the
//! outcome back in as the next event.

use vstd::prelude::*;

use crate::codec::{
    join_line_of, parse_line, parsed_of, ping_line_of, pong_line_of, privmsg_line_of,
    register_lines_of, reply_line_of, ChatMessage, ParsedMessage,
};
use crate::codec::{encode_join, encode_ping, encode_pong, encode_privmsg, encode_register,
    encode_reply};

verus! {

/// How long to wait after a transport fault before the next connect attempt.
pub const RECONNECT_BACKOFF_MS: u64 = 10_000;

/// How long the streaming loop may stay idle before a liveness probe is due.
pub const IDLE_TIMEOUT_MS: u64 = 60_000;

/// Credentials and the channel to join, supplied already validated.
pub struct Config {
    pub name: String,
    pub pass: String,
    pub channel: String,
}

/// Whether a liveness probe is outstanding. At most one can be: an
/// outstanding probe is either answered (clearing it) or unanswered by the
/// next idle timeout, which tears the connection down.
#[derive(Debug, PartialEq)]
pub enum KeepaliveState {
    Idle,
    AwaitingPong { token: String },
}

/// The manager's position in the connection lifecycle.
#[derive(Debug, PartialEq)]
pub enum Phase {
    /// No connection and no attempt under way.
    Disconnected,
    /// A connect attempt is under way.
    Connecting,
    /// Connected; the registration handshake has been written.
    Registering,
    /// The join command has been written.
    Joined,
    /// Chat traffic has been observed on the joined channel.
    Streaming,
    /// Terminal: the outbound queue or the internal bus is closed.
    Stopped,
}

/// One outbound command, consumed at most once per connection generation.
#[derive(Debug)]
pub enum WriteKind {
    Reply { id: String, data: String },
    Say { data: String },
}

/// What the surrounding event loop observed, handed to `step`.
#[derive(Debug)]
pub enum TransportEvent {
    /// Begin (or resume) the connect loop.
    Start,
    /// The connect attempt succeeded.
    Connected,
    /// The connect attempt failed.
    ConnectFailed,
    /// One inbound line arrived.
    Line { line: String },
    /// The inbound stream ended or failed.
    StreamClosed,
    /// One outbound command was read off the queue.
    Outbound { kind: WriteKind },
    /// The outbound queue is closed: every producer is gone.
    QueueClosed,
    /// No input arrived within the idle window; `token` is the fresh random
    /// token for the probe this may issue.
    IdleTimeout { token: String },
    /// A write of an earlier `SendLine` action failed.
    WriteFailed,
    /// A `Forward` action failed: the internal bus is closed.
    ForwardFailed,
}

/// What the surrounding event loop must perform.
#[derive(Debug, PartialEq)]
pub enum TransportAction {
    /// Sleep for `RECONNECT_BACKOFF_MS` before the `Connect` that follows.
    Backoff,
    /// Open a fresh connection to the fixed endpoint.
    Connect,
    /// Write this line to the connection and flush it.
    SendLine { line: String },
    /// Republish this chat message on the internal bus.
    Forward { msg: ChatMessage },
}

/// A `TransportAction` with the line reduced to its character sequence, so
/// that the machine's output can be stated in full.
pub enum ActionView {
    Backoff,
    Connect,
    Send(Seq<char>),
    Forward(ChatMessage),
}

/// The view of one action.
pub open spec fn action_view(a: TransportAction) -> ActionView {
    match a {
        TransportAction::Backoff => ActionView::Backoff,
        TransportAction::Connect => ActionView::Connect,
        TransportAction::SendLine { line } => ActionView::Send(line@),
        TransportAction::Forward { msg } => ActionView::Forward(msg),
    }
}

/// The views of a sequence of actions.
pub open spec fn views_of(s: Seq<TransportAction>) -> Seq<ActionView> {
    s.map_values(|a: TransportAction| action_view(a))
}

/// What every transport fault emits: one backoff, then a reconnect attempt.
pub open spec fn fault_output() -> Seq<ActionView> {
    seq![ActionView::Backoff, ActionView::Connect]
}

/// The chat transport manager.
pub struct Transport {
    pub config: Config,
    pub phase: Phase,
    pub keepalive: KeepaliveState,
    /// The identity the server assigned on this connection, once announced.
    pub our_name: Option<String>,
    /// Whether a connect attempt was ever begun; every attempt after the
    /// first is preceded by the backoff sleep.
    pub attempted: bool,
}

impl Transport {
    /// The manager holds a live connection in these phases.
    pub open spec fn connected(self) -> bool {
        self.phase is Registering || self.phase is Joined || self.phase is Streaming
    }

    /// A probe can be outstanding only on a live connection.
    pub open spec fn wf(self) -> bool {
        self.keepalive is AwaitingPong ==> self.connected()
    }

    /// The state after a transport fault: the connection and everything
    /// tied to it is discarded, and a new attempt begins.
    pub open spec fn faulted(self) -> Transport {
        Transport {
            phase: Phase::Connecting,
            keepalive: KeepaliveState::Idle,
            our_name: None,
            attempted: true,
            config: self.config,
        }
    }

    /// The encoded line an outbound command is written as.
    pub open spec fn write_line_of(self, kind: WriteKind) -> Seq<char> {
        match kind {
            WriteKind::Reply { id, data } => reply_line_of(id@, self.config.channel@, data@),
            WriteKind::Say { data } => privmsg_line_of(self.config.channel@, data@),
        }
    }

    /// The state transition on a parsed inbound message.
    pub open spec fn next_parsed(self, m: ParsedMessage) -> Transport {
        if !self.connected() {
            self
        } else {
            match m {
                ParsedMessage::Invalid => self.faulted(),
                ParsedMessage::Chat(_) => if self.phase is Joined {
                    Transport { phase: Phase::Streaming, ..self }
                } else {
                    self
                },
                ParsedMessage::Ping(_) => self,
                ParsedMessage::Pong(token) => match self.keepalive {
                    KeepaliveState::AwaitingPong { token: t } => if t@ == token@ {
                        Transport { keepalive: KeepaliveState::Idle, ..self }
                    } else {
                        self.faulted()
                    },
                    KeepaliveState::Idle => self.faulted(),
                },
                ParsedMessage::Ready(name) => Transport { our_name: Some(name), ..self },
                ParsedMessage::Welcome => Transport { phase: Phase::Joined, ..self },
                ParsedMessage::Other => self,
            }
        }
    }

    /// The actions emitted on a parsed inbound message.
    pub open spec fn output_parsed(self, m: ParsedMessage) -> Seq<ActionView> {
        if !self.connected() {
            seq![]
        } else {
            match m {
                ParsedMessage::Invalid => fault_output(),
                ParsedMessage::Chat(c) => seq![ActionView::Forward(c)],
                ParsedMessage::Ping(token) => seq![ActionView::Send(pong_line_of(token@))],
                ParsedMessage::Pong(token) => match self.keepalive {
                    KeepaliveState::AwaitingPong { token: t } => if t@ == token@ {
                        seq![]
                    } else {
                        fault_output()
                    },
                    KeepaliveState::Idle => fault_output(),
                },
                ParsedMessage::Ready(_) => seq![],
                ParsedMessage::Welcome => seq![
                    ActionView::Send(join_line_of(self.config.channel@)),
                ],
                ParsedMessage::Other => seq![],
            }
        }
    }

    /// The state transition on an event.
    pub open spec fn next(self, ev: TransportEvent) -> Transport {
        if self.phase is Stopped {
            self
        } else {
            match ev {
                TransportEvent::Start => if self.phase is Disconnected {
                    Transport {
                        phase: Phase::Connecting,
                        keepalive: KeepaliveState::Idle,
                        our_name: None,
                        attempted: true,
                        config: self.config,
                    }
                } else {
                    self
                },
                TransportEvent::Connected => if self.phase is Connecting {
                    Transport {
                        phase: Phase::Registering,
                        keepalive: KeepaliveState::Idle,
                        our_name: None,
                        ..self
                    }
                } else {
                    self
                },
                TransportEvent::ConnectFailed => if self.phase is Connecting {
                    self.faulted()
                } else {
                    self
                },
                TransportEvent::Line { line } => self.next_parsed(parsed_of(line@)),
                TransportEvent::StreamClosed => if self.connected() {
                    self.faulted()
                } else {
                    self
                },
                TransportEvent::Outbound { .. } => self,
                TransportEvent::QueueClosed => Transport {
                    phase: Phase::Stopped,
                    keepalive: KeepaliveState::Idle,
                    ..self
                },
                TransportEvent::IdleTimeout { token } => if self.connected() {
                    match self.keepalive {
                        KeepaliveState::Idle => Transport {
                            keepalive: KeepaliveState::AwaitingPong { token },
                            ..self
                        },
                        KeepaliveState::AwaitingPong { .. } => self.faulted(),
                    }
                } else {
                    self
                },
                TransportEvent::WriteFailed => if self.connected() {
                    self.faulted()
                } else {
                    self
                },
                TransportEvent::ForwardFailed => Transport {
                    phase: Phase::Stopped,
                    keepalive: KeepaliveState::Idle,
                    ..self
                },
            }
        }
    }

    /// The actions emitted on an event.
    pub open spec fn output(self, ev: TransportEvent) -> Seq<ActionView> {
        if self.phase is Stopped {
            seq![]
        } else {
            match ev {
                TransportEvent::Start => if self.phase is Disconnected {
                    if self.attempted {
                        fault_output()
                    } else {
                        seq![ActionView::Connect]
                    }
                } else {
                    seq![]
                },
                TransportEvent::Connected => if self.phase is Connecting {
                    seq![
                        ActionView::Send(
                            register_lines_of(self.config.name@, self.config.pass@),
                        ),
                    ]
                } else {
                    seq![]
                },
                TransportEvent::ConnectFailed => if self.phase is Connecting {
                    fault_output()
                } else {
                    seq![]
                },
                TransportEvent::Line { line } => self.output_parsed(parsed_of(line@)),
                TransportEvent::StreamClosed => if self.connected() {
                    fault_output()
                } else {
                    seq![]
                },
                TransportEvent::Outbound { kind } => if self.connected() {
                    seq![ActionView::Send(self.write_line_of(kind))]
                } else {
                    seq![]
                },
                TransportEvent::QueueClosed => seq![],
                TransportEvent::IdleTimeout { token } => if self.connected() {
                    match self.keepalive {
                        KeepaliveState::Idle => seq![ActionView::Send(ping_line_of(token@))],
                        KeepaliveState::AwaitingPong { .. } => fault_output(),
                    }
                } else {
                    seq![]
                },
                TransportEvent::WriteFailed => if self.connected() {
                    fault_output()
                } else {
                    seq![]
                },
                TransportEvent::ForwardFailed => seq![],
            }
        }
    }

    /// A fresh manager: disconnected, no probe outstanding, no attempt yet.
    pub fn new(config: Config) -> (t: Transport)
        ensures
            t.phase is Disconnected,
            t.keepalive is Idle,
            t.our_name is None,
            !t.attempted,
            t.config == config,
            t.wf(),
    {
        Transport {
            config,
            phase: Phase::Disconnected,
            keepalive: KeepaliveState::Idle,
            our_name: None,
            attempted: false,
        }
    }

    /// Whether the manager has terminated for good.
    pub fn is_stopped(&self) -> (r: bool)
        ensures
            r == (self.phase is Stopped),
    {
        matches!(self.phase, Phase::Stopped)
    }

    /// Discard the connection and begin a new attempt after one backoff.
    fn do_fault(&mut self) -> (acts: Vec<TransportAction>)
        ensures
            *final(self) == old(self).faulted(),
            views_of(acts@) == fault_output(),
    {
        self.phase = Phase::Connecting;
        self.keepalive = KeepaliveState::Idle;
        self.our_name = None;
        self.attempted = true;
        let mut acts: Vec<TransportAction> = Vec::new();
        acts.push(TransportAction::Backoff);
        acts.push(TransportAction::Connect);
        proof {
            assert(views_of(acts@) =~= fault_output());
        }
        acts
    }

    /// Dispatch one parsed inbound message, exactly as `next_parsed` and
    /// `output_parsed` state.
    pub fn on_parsed(&mut self, m: ParsedMessage) -> (acts: Vec<TransportAction>)
        ensures
            *final(self) == old(self).next_parsed(m),
            views_of(acts@) == old(self).output_parsed(m),
    {
        let connected = matches!(
            self.phase,
            Phase::Registering | Phase::Joined | Phase::Streaming,
        );
        let mut acts: Vec<TransportAction> = Vec::new();
        if !connected {
            proof {
                assert(views_of(acts@) =~= Seq::<ActionView>::empty());
            }
            return acts;
        }
        match m {
            ParsedMessage::Invalid => {
                return self.do_fault();
            }
            ParsedMessage::Chat(c) => {
                if matches!(self.phase, Phase::Joined) {
                    self.phase = Phase::Streaming;
                }
                acts.push(TransportAction::Forward { msg: c });
            }
            ParsedMessage::Ping(token) => {
                let line = encode_pong(token.as_str());
                acts.push(TransportAction::SendLine { line });
            }
            ParsedMessage::Pong(token) => {
                let answers_probe = match &self.keepalive {
                    KeepaliveState::AwaitingPong { token: t } => *t == token,
                    KeepaliveState::Idle => false,
                };
                if answers_probe {
                    self.keepalive = KeepaliveState::Idle;
                } else {
                    // mismatched or unexpected: a protocol violation
                    return self.do_fault();
                }
            }
            ParsedMessage::Ready(name) => {
                self.our_name = Some(name);
            }
            ParsedMessage::Welcome => {
                let line = encode_join(self.config.channel.as_str());
                acts.push(TransportAction::SendLine { line });
                self.phase = Phase::Joined;
            }
            ParsedMessage::Other => {}
        }
        proof {
            assert(views_of(acts@) =~= old(self).output_parsed(m));
        }
        acts
    }

    /// Advance the machine by one event; the caller performs the returned
    /// actions in order and feeds their outcomes back in as events.
    pub fn step(&mut self, ev: TransportEvent) -> (acts: Vec<TransportAction>)
        ensures
            *final(self) == old(self).next(ev),
            views_of(acts@) == old(self).output(ev),
    {
        let mut acts: Vec<TransportAction> = Vec::new();
        if matches!(self.phase, Phase::Stopped) {
            proof {
                assert(views_of(acts@) =~= Seq::<ActionView>::empty());
            }
            return acts;
        }
        match ev {
            TransportEvent::Start => {
                if matches!(self.phase, Phase::Disconnected) {
                    self.phase = Phase::Connecting;
                    self.keepalive = KeepaliveState::Idle;
                    self.our_name = None;
                    if self.attempted {
                        acts.push(TransportAction::Backoff);
                    }
                    self.attempted = true;
                    acts.push(TransportAction::Connect);
                }
            }
            TransportEvent::Connected => {
                if matches!(self.phase, Phase::Connecting) {
                    self.phase = Phase::Registering;
                    self.keepalive = KeepaliveState::Idle;
                    self.our_name = None;
                    let line = encode_register(
                        self.config.name.as_str(),
                        self.config.pass.as_str(),
                    );
                    acts.push(TransportAction::SendLine { line });
                }
            }
            TransportEvent::ConnectFailed => {
                if matches!(self.phase, Phase::Connecting) {
                    return self.do_fault();
                }
            }
            TransportEvent::Line { line } => {
                let m = parse_line(line.as_str());
                return self.on_parsed(m);
            }
            TransportEvent::StreamClosed => {
                if matches!(self.phase, Phase::Registering | Phase::Joined | Phase::Streaming) {
                    return self.do_fault();
                }
            }
            TransportEvent::Outbound { kind } => {
                if matches!(self.phase, Phase::Registering | Phase::Joined | Phase::Streaming) {
                    let line = match kind {
                        WriteKind::Reply { id, data } => encode_reply(
                            id.as_str(),
                            self.config.channel.as_str(),
                            data.as_str(),
                        ),
                        WriteKind::Say { data } => encode_privmsg(
                            self.config.channel.as_str(),
                            data.as_str(),
                        ),
                    };
                    acts.push(TransportAction::SendLine { line });
                }
            }
            TransportEvent::QueueClosed => {
                self.phase = Phase::Stopped;
                self.keepalive = KeepaliveState::Idle;
            }
            TransportEvent::IdleTimeout { token } => {
                if matches!(self.phase, Phase::Registering | Phase::Joined | Phase::Streaming) {
                    match &self.keepalive {
                        KeepaliveState::Idle => {
                            let line = encode_ping(token.as_str());
                            self.keepalive = KeepaliveState::AwaitingPong { token };
                            acts.push(TransportAction::SendLine { line });
                        }
                        KeepaliveState::AwaitingPong { .. } => {
                            return self.do_fault();
                        }
                    }
                }
            }
            TransportEvent::WriteFailed => {
                if matches!(self.phase, Phase::Registering | Phase::Joined | Phase::Streaming) {
                    return self.do_fault();
                }
            }
            TransportEvent::ForwardFailed => {
                self.phase = Phase::Stopped;
                self.keepalive = KeepaliveState::Idle;
            }
        }
        proof {
            assert(views_of(acts@) =~= old(self).output(ev));
        }
        acts
    }
}

/// Whether this event, in this state, is a transport fault: a failed
/// connect attempt, a failed write, a closed stream, an unparseable line,
/// a pong that is mismatched or answers no outstanding probe, or an idle
/// window that passed with a probe still outstanding.
pub open spec fn is_transport_fault(s: Transport, ev: TransportEvent) -> bool {
    match ev {
        TransportEvent::ConnectFailed => s.phase is Connecting,
        TransportEvent::WriteFailed => s.connected(),
        TransportEvent::StreamClosed => s.connected(),
        TransportEvent::Line { line } => s.connected() && match parsed_of(line@) {
            ParsedMessage::Invalid => true,
            ParsedMessage::Pong(token) => match s.keepalive {
                KeepaliveState::AwaitingPong { token: t } => t@ != token@,
                KeepaliveState::Idle => true,
            },
            _ => false,
        },
        TransportEvent::IdleTimeout { .. } => s.connected() && s.keepalive is AwaitingPong,
        _ => false,
    }
}

/// Keepalive safety: a step never leaves more than one probe outstanding.
/// A probe becomes outstanding only through an idle timeout that found none
/// outstanding, and an outstanding probe is never replaced by a new one: it
/// is either answered (clearing it) or the connection is torn down.
pub proof fn lemma_at_most_one_probe(s: Transport, ev: TransportEvent)
    ensures
        s.next(ev).keepalive is AwaitingPong ==> {
            ||| (s.keepalive is AwaitingPong && s.next(ev).keepalive == s.keepalive)
            ||| (s.keepalive is Idle && ev is IdleTimeout)
        },
{
}

/// Keepalive safety: a second idle timeout while a probe is outstanding
/// always tears the connection down and reconnects.
pub proof fn lemma_unanswered_probe_reconnects(s: Transport, token: String)
    requires
        s.connected(),
        s.keepalive is AwaitingPong,
    ensures
        s.next(TransportEvent::IdleTimeout { token }) == s.faulted(),
        s.next(TransportEvent::IdleTimeout { token }).phase is Connecting,
        s.output(TransportEvent::IdleTimeout { token }) == fault_output(),
{
}

/// Reconnect liveness: after any transport fault the manager re-enters
/// `Connecting` with exactly one backoff before the next attempt, with the
/// probe cleared and the connection's identity discarded.
pub proof fn lemma_reconnect_after_fault(s: Transport, ev: TransportEvent)
    requires
        is_transport_fault(s, ev),
    ensures
        s.next(ev) == s.faulted(),
        s.next(ev).phase is Connecting,
        s.next(ev).keepalive is Idle,
        s.output(ev) == fault_output(),
{
}

/// Reconnect liveness: the manager never halts except on queue closure —
/// its own outbound queue, or the internal bus a `Forward` publishes to.
pub proof fn lemma_halts_only_on_queue_closure(s: Transport, ev: TransportEvent)
    requires
        !(s.phase is Stopped),
        !(ev is QueueClosed),
        !(ev is ForwardFailed),
    ensures
        !(s.next(ev).phase is Stopped),
{
}

/// Every step preserves well-formedness: a probe can be outstanding only on
/// a live connection.
pub proof fn lemma_step_preserves_wf(s: Transport, ev: TransportEvent)
    requires
        s.wf(),
    ensures
        s.next(ev).wf(),
{
}

/// How many probes are outstanding: the state can hold at most one.
pub open spec fn probes_outstanding(s: Transport) -> nat {
    match s.keepalive {
        KeepaliveState::AwaitingPong { .. } => 1,
        KeepaliveState::Idle => 0,
    }
}

/// The state after a whole run of events.
pub open spec fn run(s: Transport, evs: Seq<TransportEvent>) -> Transport
    decreases evs.len(),
{
    if evs.len() == 0 {
        s
    } else {
        run(s.next(evs[0]), evs.skip(1))
    }
}

/// Keepalive safety, over every sequence of events (idle periods included):
/// at most one probe is ever outstanding — the keepalive state cannot hold
/// more, and `lemma_at_most_one_probe` shows no step replaces one.
pub proof fn lemma_at_most_one_probe_in_any_run(s: Transport, evs: Seq<TransportEvent>)
    ensures
        probes_outstanding(run(s, evs)) <= 1,
{
}

/// Well-formedness holds along every run.
pub proof fn lemma_run_preserves_wf(s: Transport, evs: Seq<TransportEvent>)
    requires
        s.wf(),
    ensures
        run(s, evs).wf(),
    decreases evs.len(),
{
    if evs.len() > 0 {
        lemma_step_preserves_wf(s, evs[0]);
        lemma_run_preserves_wf(s.next(evs[0]), evs.skip(1));
    }
}

/// Reconnect liveness, over every run of events: the manager never halts
/// while neither its outbound queue nor the internal bus closes.
pub proof fn lemma_run_never_halts(s: Transport, evs: Seq<TransportEvent>)
    requires
        !(s.phase is Stopped),
        forall|i: int| 0 <= i < evs.len() ==> !(#[trigger] evs[i] is QueueClosed),
        forall|i: int| 0 <= i < evs.len() ==> !(#[trigger] evs[i] is ForwardFailed),
    ensures
        !(run(s, evs).phase is Stopped),
    decreases evs.len(),
{
    if evs.len() > 0 {
        lemma_halts_only_on_queue_closure(s, evs[0]);
        assert(forall|i: int|
            0 <= i < evs.skip(1).len() ==> #[trigger] evs.skip(1)[i] == evs[i + 1]);
        lemma_run_never_halts(s.next(evs[0]), evs.skip(1));
    }
}

} // verus!
