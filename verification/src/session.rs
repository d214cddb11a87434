//! The server's control loop as a state machine: from its state and an
//! event (a command from the user, a datagram from the client, a tick of the
//! 5 ms streaming timer) to its next state and the actions to perform.
use vstd::prelude::*;

use crate::protocol::{ClientMessage, PROTOCOL_PORT};

verus! {

/// The bitrate a session uses until a client asks for another.
pub const DEFAULT_BITRATE: i32 = 160_000;

/// The encoder complexity a session uses until a client asks for another.
pub const DEFAULT_COMPLEXITY: i32 = 5;

/// A client that has sent nothing for more than this many whole seconds is dropped.
pub const CLIENT_TIMEOUT_SECS: u64 = 5;

/// Silent audio packets sent right after a configuration change, so that the
/// client wakes up and locks on to the restarted sequence numbers.
pub const WARMUP_PACKETS: u8 = 10;

/// Statistics are published at most this often, in milliseconds.
pub const STATS_INTERVAL_MS: u128 = 200;

/// An IP address, by its octets.
#[derive(Clone, Copy, Debug, PartialEq, Eq)]
pub enum IpAddress {
    V4([u8; 4]),
    V6([u8; 16]),
}

/// A UDP endpoint.
#[derive(Clone, Copy, Debug, PartialEq, Eq)]
pub struct Endpoint {
    pub ip: IpAddress,
    pub port: u16,
}

/// Where the server stands.
#[derive(Clone, Copy, Debug, PartialEq, Eq)]
pub enum Phase {
    /// Stopped by the user: no socket is open.
    Idle,
    /// Waiting on port 12345 for a client to discover the server and ask for a stream.
    Listening,
    /// Capturing, encoding and sending audio to the client.
    Streaming,
    /// Stopped by the user while streaming: fading out and saying goodbye.
    Stopping,
}

/// What happened.
#[derive(Clone, Copy, Debug, PartialEq, Eq)]
pub enum Event {
    /// The user pressed start/stop.
    ToggleServer,
    /// The user switched double sending on or off.
    SetRedundancy(bool),
    /// A datagram arrived from `sender`.
    Datagram { message: ClientMessage, sender: Endpoint },
    /// The streaming timer fired: whole seconds since the client was last
    /// heard, milliseconds since statistics were last published, and whether
    /// the window that shows them is visible.
    Tick { secs_since_activity: u64, ms_since_stats: u128, ui_visible: bool },
    /// An encoded frame was sent under the current sequence number.
    FrameSent,
    /// The goodbye of a stop has been sent.
    StopFinished,
}

/// What the server does in response.
#[derive(Clone, Copy, Debug, PartialEq, Eq)]
pub enum Action {
    /// Bind the UDP socket on port 12345 (afresh).
    Listen,
    /// Close the UDP socket.
    CloseSocket,
    /// Answer a discovery with `AS2P_OFFER` at this endpoint.
    SendOffer(Endpoint),
    /// Start streaming to this endpoint: sender, capturer, and an encoder set
    /// up with the current configuration; empty sample buffer; clocks restarted.
    StartSession(Endpoint),
    /// Apply a changed configuration: fade out, wait 20 ms, create and set up
    /// a new encoder, restart capture, empty the sample buffer.
    Reconfigure,
    /// Encode this many frames of silence and send each as an audio packet
    /// (each one sent is a `FrameSent`).
    SendWarmup(u8),
    /// Note that the client was heard now.
    RefreshActivity,
    /// Show these statistics.
    PublishStats { packets: u64, bitrate: i32, client: Option<Endpoint> },
    /// Note that statistics were due now.
    RestartStatsClock,
    /// Capture, encode and send what audio is ready.
    PumpAudio,
    /// Fade out, wait 20 ms, and send `AS2P_GOODBYE` to the client.
    SayGoodbye,
    /// Release the sender, the capturer and the encoder of the session.
    EndSession,
}

/// The server's state.
#[derive(Clone, Copy, Debug, PartialEq, Eq)]
pub struct ServerCore {
    pub phase: Phase,
    /// Whether audio packets are sent twice.
    pub redundancy: bool,
    /// The bitrate last asked for by a client (validated only when the encoder is set up).
    pub bitrate: i32,
    /// The complexity last asked for by a client (validated only when the encoder is set up).
    pub complexity: i32,
    /// The client that discovered the server while listening, or is being streamed to.
    pub target: Option<Endpoint>,
    /// The sequence number of the next audio packet; also the count of packets sent.
    pub sequence: u64,
}

/// Statistics that say nothing is streaming.
pub open spec fn zero_stats() -> Action {
    Action::PublishStats { packets: 0, bitrate: 0, client: None }
}

/// Offers go to the discovering host, always on the protocol port.
pub open spec fn offer_destination(sender: Endpoint) -> Endpoint {
    Endpoint { ip: sender.ip, port: PROTOCOL_PORT }
}

/// The consistent states: nothing is remembered of a client while idle, and
/// streaming (or stopping a stream) always has a client.
pub open spec fn consistent(s: ServerCore) -> bool {
    match s.phase {
        Phase::Idle => s.target is None,
        Phase::Listening => true,
        Phase::Streaming => s.target is Some,
        Phase::Stopping => s.target is Some,
    }
}

/// The state at start-up: listening, sending twice, default configuration.
pub open spec fn initial_core() -> ServerCore {
    ServerCore {
        phase: Phase::Listening,
        redundancy: true,
        bitrate: DEFAULT_BITRATE,
        complexity: DEFAULT_COMPLEXITY,
        target: None,
        sequence: 0,
    }
}

/// A datagram while listening.
pub open spec fn on_listening_datagram(s: ServerCore, message: ClientMessage, sender: Endpoint) -> (ServerCore, Seq<Action>) {
    match message {
        ClientMessage::Discover => {
            let to = offer_destination(sender);
            (ServerCore { target: Some(to), ..s }, seq![Action::SendOffer(to)])
        },
        ClientMessage::Config { bitrate, complexity } => match s.target {
            Some(to) => (
                ServerCore { phase: Phase::Streaming, bitrate, complexity, sequence: 0, ..s },
                seq![Action::StartSession(to)],
            ),
            None => (
                ServerCore { phase: Phase::Idle, bitrate, complexity, ..s },
                seq![Action::CloseSocket],
            ),
        },
        _ => (s, Seq::empty()),
    }
}

/// A datagram while streaming: any datagram shows that the client is there.
pub open spec fn on_streaming_datagram(s: ServerCore, message: ClientMessage) -> (ServerCore, Seq<Action>) {
    match message {
        ClientMessage::Config { bitrate, complexity } => if bitrate == s.bitrate && complexity
            == s.complexity {
            (s, seq![Action::RefreshActivity])
        } else {
            (
                ServerCore { bitrate, complexity, sequence: 0, ..s },
                seq![Action::RefreshActivity, Action::Reconfigure, Action::SendWarmup(WARMUP_PACKETS)],
            )
        },
        ClientMessage::Goodbye => (
            ServerCore { phase: Phase::Listening, target: None, ..s },
            seq![Action::RefreshActivity, Action::EndSession, zero_stats(), Action::Listen],
        ),
        _ => (s, seq![Action::RefreshActivity]),
    }
}

/// A tick of the streaming timer.
pub open spec fn on_tick(s: ServerCore, secs_since_activity: u64, ms_since_stats: u128, ui_visible: bool) -> (ServerCore, Seq<Action>) {
    if secs_since_activity > CLIENT_TIMEOUT_SECS {
        (
            ServerCore { phase: Phase::Listening, target: None, ..s },
            seq![zero_stats(), Action::EndSession, zero_stats(), Action::Listen],
        )
    } else {
        let stats = if ms_since_stats >= STATS_INTERVAL_MS {
            if ui_visible {
                seq![
                    Action::PublishStats { packets: s.sequence, bitrate: s.bitrate, client: s.target },
                    Action::RestartStatsClock,
                ]
            } else {
                seq![Action::RestartStatsClock]
            }
        } else {
            Seq::empty()
        };
        (s, stats.push(Action::PumpAudio))
    }
}

/// The next state and the actions for an event.
pub open spec fn transition(s: ServerCore, e: Event) -> (ServerCore, Seq<Action>) {
    match s.phase {
        Phase::Idle => match e {
            Event::ToggleServer => (
                ServerCore { phase: Phase::Listening, target: None, ..s },
                seq![Action::Listen],
            ),
            Event::SetRedundancy(r) => (ServerCore { redundancy: r, ..s }, Seq::empty()),
            _ => (s, Seq::empty()),
        },
        Phase::Listening => match e {
            Event::ToggleServer => (
                ServerCore { phase: Phase::Idle, target: None, ..s },
                seq![Action::CloseSocket],
            ),
            Event::SetRedundancy(r) => (ServerCore { redundancy: r, ..s }, Seq::empty()),
            Event::Datagram { message, sender } => on_listening_datagram(s, message, sender),
            _ => (s, Seq::empty()),
        },
        Phase::Streaming => match e {
            Event::ToggleServer => (ServerCore { phase: Phase::Stopping, ..s }, seq![Action::SayGoodbye]),
            Event::SetRedundancy(r) => (ServerCore { redundancy: r, ..s }, Seq::empty()),
            Event::Datagram { message, sender } => on_streaming_datagram(s, message),
            Event::Tick { secs_since_activity, ms_since_stats, ui_visible } => on_tick(
                s,
                secs_since_activity,
                ms_since_stats,
                ui_visible,
            ),
            Event::FrameSent => (ServerCore { sequence: (s.sequence + 1) as u64, ..s }, Seq::empty()),
            Event::StopFinished => (s, Seq::empty()),
        },
        Phase::Stopping => match e {
            Event::StopFinished => (
                ServerCore { phase: Phase::Idle, target: None, ..s },
                seq![Action::EndSession, zero_stats(), Action::CloseSocket],
            ),
            _ => (s, Seq::empty()),
        },
    }
}

/// Whether the server can take `e` in state `s` without overflowing the sequence number.
pub open spec fn can_take(s: ServerCore, e: Event) -> bool {
    s.phase == Phase::Streaming && e == Event::FrameSent ==> s.sequence < u64::MAX
}

fn zero_stats_action() -> (res: Action)
    ensures
        res == zero_stats(),
{
    Action::PublishStats { packets: 0, bitrate: 0, client: None }
}

impl ServerCore {
    /// The server at start-up, listening, with the action that opens its socket.
    pub fn start() -> (res: (ServerCore, Vec<Action>))
        ensures
            res.0 == initial_core(),
            res.1@ == seq![Action::Listen],
            consistent(res.0),
    {
        let core = ServerCore {
            phase: Phase::Listening,
            redundancy: true,
            bitrate: DEFAULT_BITRATE,
            complexity: DEFAULT_COMPLEXITY,
            target: None,
            sequence: 0,
        };
        (core, vec![Action::Listen])
    }

    /// Whether the server is running (listening or streaming), as shown to the user.
    pub fn is_running(&self) -> (res: bool)
        ensures
            res == (self.phase != Phase::Idle),
    {
        match self.phase {
            Phase::Idle => false,
            _ => true,
        }
    }

    /// Takes one event: moves to the next state and returns the actions to perform, in order.
    pub fn step(&mut self, event: Event) -> (actions: Vec<Action>)
        requires
            can_take(*old(self), event),
        ensures
            (*final(self), actions@) == transition(*old(self), event),
    {
        let mut actions: Vec<Action> = Vec::new();
        match self.phase {
            Phase::Idle => match event {
                Event::ToggleServer => {
                    self.phase = Phase::Listening;
                    self.target = None;
                    actions.push(Action::Listen);
                },
                Event::SetRedundancy(r) => {
                    self.redundancy = r;
                },
                _ => {},
            },
            Phase::Listening => match event {
                Event::ToggleServer => {
                    self.phase = Phase::Idle;
                    self.target = None;
                    actions.push(Action::CloseSocket);
                },
                Event::SetRedundancy(r) => {
                    self.redundancy = r;
                },
                Event::Datagram { message, sender } => match message {
                    ClientMessage::Discover => {
                        let to = Endpoint { ip: sender.ip, port: PROTOCOL_PORT };
                        self.target = Some(to);
                        actions.push(Action::SendOffer(to));
                    },
                    ClientMessage::Config { bitrate, complexity } => {
                        self.bitrate = bitrate;
                        self.complexity = complexity;
                        match self.target {
                            Some(to) => {
                                self.phase = Phase::Streaming;
                                self.sequence = 0;
                                actions.push(Action::StartSession(to));
                            },
                            None => {
                                self.phase = Phase::Idle;
                                actions.push(Action::CloseSocket);
                            },
                        }
                    },
                    _ => {},
                },
                _ => {},
            },
            Phase::Streaming => match event {
                Event::ToggleServer => {
                    self.phase = Phase::Stopping;
                    actions.push(Action::SayGoodbye);
                },
                Event::SetRedundancy(r) => {
                    self.redundancy = r;
                },
                Event::Datagram { message, sender: _ } => {
                    actions.push(Action::RefreshActivity);
                    match message {
                        ClientMessage::Config { bitrate, complexity } => {
                            if bitrate != self.bitrate || complexity != self.complexity {
                                self.bitrate = bitrate;
                                self.complexity = complexity;
                                self.sequence = 0;
                                actions.push(Action::Reconfigure);
                                actions.push(Action::SendWarmup(WARMUP_PACKETS));
                            }
                        },
                        ClientMessage::Goodbye => {
                            self.phase = Phase::Listening;
                            self.target = None;
                            actions.push(Action::EndSession);
                            actions.push(zero_stats_action());
                            actions.push(Action::Listen);
                        },
                        _ => {},
                    }
                },
                Event::Tick { secs_since_activity, ms_since_stats, ui_visible } => {
                    if secs_since_activity > CLIENT_TIMEOUT_SECS {
                        self.phase = Phase::Listening;
                        self.target = None;
                        actions.push(zero_stats_action());
                        actions.push(Action::EndSession);
                        actions.push(zero_stats_action());
                        actions.push(Action::Listen);
                    } else {
                        if ms_since_stats >= STATS_INTERVAL_MS {
                            if ui_visible {
                                actions.push(
                                    Action::PublishStats {
                                        packets: self.sequence,
                                        bitrate: self.bitrate,
                                        client: self.target,
                                    },
                                );
                            }
                            actions.push(Action::RestartStatsClock);
                        }
                        actions.push(Action::PumpAudio);
                    }
                },
                Event::FrameSent => {
                    self.sequence = self.sequence + 1;
                },
                Event::StopFinished => {},
            },
            Phase::Stopping => match event {
                Event::StopFinished => {
                    self.phase = Phase::Idle;
                    self.target = None;
                    actions.push(Action::EndSession);
                    actions.push(zero_stats_action());
                    actions.push(Action::CloseSocket);
                },
                _ => {},
            },
        }
        proof {
            let (next, acts) = transition(*old(self), event);
            assert(actions@ =~= acts);
        }
        actions
    }
}

/// Every event keeps the state consistent: nothing is remembered of a client
/// while idle, and a stream always has a client to go to.
pub proof fn lemma_transition_keeps_consistency(s: ServerCore, e: Event)
    requires
        consistent(s),
    ensures
        consistent(transition(s, e).0),
{
}

/// A config that repeats the configuration in use is ignored while
/// streaming: the state stays as it is and the client is only noted as present.
pub proof fn lemma_repeated_config_is_ignored(s: ServerCore, sender: Endpoint)
    requires
        s.phase == Phase::Streaming,
    ensures
        transition(
            s,
            Event::Datagram {
                message: ClientMessage::Config { bitrate: s.bitrate, complexity: s.complexity },
                sender,
            },
        ) == (s, seq![Action::RefreshActivity]),
{
}

/// A config that changes the bitrate or the complexity while streaming is
/// applied at once: the stream goes on with the new configuration, the
/// encoder is set up again, sequence numbers start over at 0, and ten silent
/// packets follow at once.
pub proof fn lemma_new_config_restarts_stream(s: ServerCore, bitrate: i32, complexity: i32, sender: Endpoint)
    requires
        s.phase == Phase::Streaming,
        bitrate != s.bitrate || complexity != s.complexity,
    ensures
        ({
            let (next, actions) = transition(
                s,
                Event::Datagram { message: ClientMessage::Config { bitrate, complexity }, sender },
            );
            &&& next.phase == Phase::Streaming
            &&& next.bitrate == bitrate
            &&& next.complexity == complexity
            &&& next.sequence == 0
            &&& next.target == s.target
            &&& actions == seq![
                Action::RefreshActivity,
                Action::Reconfigure,
                Action::SendWarmup(WARMUP_PACKETS),
            ]
        }),
{
}

/// Each frame sent takes the next sequence number: the count goes up by exactly one.
pub proof fn lemma_frames_are_numbered_in_order(s: ServerCore)
    requires
        s.phase == Phase::Streaming,
        s.sequence < u64::MAX,
    ensures
        transition(s, Event::FrameSent).0 == (ServerCore { sequence: (s.sequence + 1) as u64, ..s }),
        transition(s, Event::FrameSent).1 == Seq::<Action>::empty(),
{
}

/// A discovery is answered with an offer to the discovering host on port
/// 12345, whatever port it was sent from, and that host becomes the client.
pub proof fn lemma_offer_goes_to_protocol_port(s: ServerCore, sender: Endpoint)
    requires
        s.phase == Phase::Listening,
    ensures
        ({
            let (next, actions) = transition(
                s,
                Event::Datagram { message: ClientMessage::Discover, sender },
            );
            let to = Endpoint { ip: sender.ip, port: PROTOCOL_PORT };
            &&& next.target == Some(to)
            &&& next.phase == Phase::Listening
            &&& actions == seq![Action::SendOffer(to)]
        }),
{
}

/// A config from a client that has not discovered the server starts no
/// stream: the server stops listening and goes idle.
pub proof fn lemma_config_needs_discovery(s: ServerCore, bitrate: i32, complexity: i32, sender: Endpoint)
    requires
        s.phase == Phase::Listening,
        s.target is None,
    ensures
        transition(
            s,
            Event::Datagram { message: ClientMessage::Config { bitrate, complexity }, sender },
        ).0.phase == Phase::Idle,
{
}

/// A config after a discovery starts streaming to the discovering client
/// with the requested configuration, from sequence number 0.
pub proof fn lemma_config_starts_stream(s: ServerCore, bitrate: i32, complexity: i32, sender: Endpoint)
    requires
        s.phase == Phase::Listening,
        s.target is Some,
    ensures
        transition(
            s,
            Event::Datagram { message: ClientMessage::Config { bitrate, complexity }, sender },
        ) == (
            ServerCore { phase: Phase::Streaming, bitrate, complexity, sequence: 0, ..s },
            seq![Action::StartSession(s.target.unwrap())],
        ),
{
}

/// A heartbeat changes nothing but the time the client was last heard.
pub proof fn lemma_heartbeat_keeps_stream(s: ServerCore, sender: Endpoint)
    requires
        s.phase == Phase::Streaming,
    ensures
        transition(s, Event::Datagram { message: ClientMessage::Alive, sender }) == (
            s,
            seq![Action::RefreshActivity],
        ),
{
}

/// A client silent for more than five seconds is dropped: the session ends
/// and the server listens for a client again.
pub proof fn lemma_silent_client_is_dropped(s: ServerCore, secs: u64, ms: u128, visible: bool)
    requires
        s.phase == Phase::Streaming,
        secs > CLIENT_TIMEOUT_SECS,
    ensures
        ({
            let (next, actions) = transition(
                s,
                Event::Tick { secs_since_activity: secs, ms_since_stats: ms, ui_visible: visible },
            );
            &&& next.phase == Phase::Listening
            &&& next.target is None
            &&& actions.contains(Action::EndSession)
            &&& actions.last() == Action::Listen
        }),
{
    let actions = transition(
        s,
        Event::Tick { secs_since_activity: secs, ms_since_stats: ms, ui_visible: visible },
    ).1;
    assert(actions[1] == Action::EndSession);
}

/// While the client keeps talking, every tick pumps audio, and the published
/// statistics are the packets sent, the bitrate in use and the client.
pub proof fn lemma_tick_pumps_audio(s: ServerCore, secs: u64, ms: u128)
    requires
        s.phase == Phase::Streaming,
        secs <= CLIENT_TIMEOUT_SECS,
    ensures
        transition(s, Event::Tick { secs_since_activity: secs, ms_since_stats: ms, ui_visible: true }).0 == s,
        transition(s, Event::Tick { secs_since_activity: secs, ms_since_stats: ms, ui_visible: true }).1.last()
            == Action::PumpAudio,
        ms >= STATS_INTERVAL_MS ==> transition(
            s,
            Event::Tick { secs_since_activity: secs, ms_since_stats: ms, ui_visible: true },
        ).1[0] == (Action::PublishStats { packets: s.sequence, bitrate: s.bitrate, client: s.target }),
        ms < STATS_INTERVAL_MS ==> transition(
            s,
            Event::Tick { secs_since_activity: secs, ms_since_stats: ms, ui_visible: true },
        ).1 == seq![Action::PumpAudio],
{
}

/// Stopping a stream says goodbye to the client first, and once the goodbye
/// is sent the server is idle.
pub proof fn lemma_stop_says_goodbye(s: ServerCore)
    requires
        s.phase == Phase::Streaming,
    ensures
        transition(s, Event::ToggleServer) == (
            ServerCore { phase: Phase::Stopping, ..s },
            seq![Action::SayGoodbye],
        ),
        transition(transition(s, Event::ToggleServer).0, Event::StopFinished).0.phase == Phase::Idle,
        transition(transition(s, Event::ToggleServer).0, Event::StopFinished).1 == seq![
            Action::EndSession,
            zero_stats(),
            Action::CloseSocket,
        ],
{
}

/// Start/stop twice from idle comes back to the same idle state.
pub proof fn lemma_toggle_twice_from_idle(s: ServerCore)
    requires
        s.phase == Phase::Idle,
        consistent(s),
    ensures
        transition(transition(s, Event::ToggleServer).0, Event::ToggleServer).0 == s,
{
}

/// Switching double sending changes that setting and nothing else, in every
/// phase but the short one of saying goodbye.
pub proof fn lemma_redundancy_switch(s: ServerCore, r: bool)
    requires
        s.phase != Phase::Stopping,
    ensures
        transition(s, Event::SetRedundancy(r)) == (ServerCore { redundancy: r, ..s }, Seq::<Action>::empty()),
{
}

/// While streaming, a tick from a client heard within the last five seconds
/// never changes the state (the stream goes on to the same client), and
/// whether or not statistics are shown, its actions end in pumping audio:
/// audio is captured, encoded and sent on every tick. Statistics are
/// published only when 200 ms have passed and they are shown; the stats
/// clock restarts whenever 200 ms have passed.
pub proof fn lemma_live_tick_streams_audio(s: ServerCore, secs: u64, ms: u128, visible: bool)
    requires
        s.phase == Phase::Streaming,
        secs <= 5,
    ensures
        ({
            let (next, actions) = transition(
                s,
                Event::Tick { secs_since_activity: secs, ms_since_stats: ms, ui_visible: visible },
            );
            &&& next == s
            &&& next.phase == Phase::Streaming
            &&& next.target == s.target
            &&& actions.len() >= 1
            &&& actions.last() == Action::PumpAudio
            &&& (ms < 200 ==> actions == seq![Action::PumpAudio])
            &&& (ms >= 200 && !visible ==> actions == seq![Action::RestartStatsClock, Action::PumpAudio])
            &&& (ms >= 200 && visible ==> actions == seq![
                Action::PublishStats { packets: s.sequence, bitrate: s.bitrate, client: s.target },
                Action::RestartStatsClock,
                Action::PumpAudio,
            ])
        }),
{
}

/// While streaming, a tick after more than five seconds of silence from the
/// client ends the session and goes back to listening, forgetting the
/// client, whatever the stats clock and the window say.
pub proof fn lemma_timeout_after_five_seconds(s: ServerCore, secs: u64, ms: u128, visible: bool)
    requires
        s.phase == Phase::Streaming,
        secs > 5,
    ensures
        transition(
            s,
            Event::Tick { secs_since_activity: secs, ms_since_stats: ms, ui_visible: visible },
        ) == (
            ServerCore { phase: Phase::Listening, target: None, ..s },
            seq![
                Action::PublishStats { packets: 0, bitrate: 0, client: None },
                Action::EndSession,
                Action::PublishStats { packets: 0, bitrate: 0, client: None },
                Action::Listen,
            ],
        ),
{
}

/// Stopping the server while it listens always works, whether or not a
/// client has discovered it: it goes idle, forgets the client and closes its
/// socket; it then no longer counts as running.
pub proof fn lemma_stop_while_listening(s: ServerCore)
    requires
        s.phase == Phase::Listening,
    ensures
        transition(s, Event::ToggleServer) == (
            ServerCore { phase: Phase::Idle, target: None, ..s },
            seq![Action::CloseSocket],
        ),
        transition(s, Event::ToggleServer).0.phase != Phase::Listening,
{
}

/// Starting the server from idle opens a fresh socket and listens, with no
/// client remembered.
pub proof fn lemma_start_from_idle(s: ServerCore)
    requires
        s.phase == Phase::Idle,
    ensures
        transition(s, Event::ToggleServer) == (
            ServerCore { phase: Phase::Listening, target: None, ..s },
            seq![Action::Listen],
        ),
{
}

/// The server starts listening, sending twice, at 160 kbps and complexity 5,
/// with no client and packet count 0.
pub proof fn lemma_initial_state()
    ensures
        initial_core() == (ServerCore {
            phase: Phase::Listening,
            redundancy: true,
            bitrate: 160_000,
            complexity: 5,
            target: None,
            sequence: 0,
        }),
{
}

/// A client that says goodbye while being streamed to ends the session; the
/// server forgets it and listens again on a fresh socket.
pub proof fn lemma_client_goodbye(s: ServerCore, sender: Endpoint)
    requires
        s.phase == Phase::Streaming,
    ensures
        transition(s, Event::Datagram { message: ClientMessage::Goodbye, sender }) == (
            ServerCore { phase: Phase::Listening, target: None, ..s },
            seq![
                Action::RefreshActivity,
                Action::EndSession,
                Action::PublishStats { packets: 0, bitrate: 0, client: None },
                Action::Listen,
            ],
        ),
{
}

/// While streaming, a datagram that is not a config nor a goodbye (a
/// heartbeat, a discovery, anything unknown) only shows the client is there.
pub proof fn lemma_other_datagrams_while_streaming(s: ServerCore, message: ClientMessage, sender: Endpoint)
    requires
        s.phase == Phase::Streaming,
        !(message is Config),
        message != ClientMessage::Goodbye,
    ensures
        transition(s, Event::Datagram { message, sender }) == (s, seq![Action::RefreshActivity]),
{
}

/// While listening, only discoveries and configs matter: heartbeats,
/// goodbyes and unknown datagrams, ticks and frame or stop reports change
/// nothing and call for nothing.
pub proof fn lemma_listening_ignores_the_rest(s: ServerCore, e: Event)
    requires
        s.phase == Phase::Listening,
        e != Event::ToggleServer,
        !(e is SetRedundancy),
        e matches Event::Datagram { message, sender } ==> message == ClientMessage::Alive || message
            == ClientMessage::Goodbye || message == ClientMessage::Unrecognized,
    ensures
        transition(s, e) == (s, Seq::<Action>::empty()),
{
}

/// While idle, nothing but the user's start and redundancy switch has any effect.
pub proof fn lemma_idle_ignores_the_rest(s: ServerCore, e: Event)
    requires
        s.phase == Phase::Idle,
        e != Event::ToggleServer,
        !(e is SetRedundancy),
    ensures
        transition(s, e) == (s, Seq::<Action>::empty()),
{
}

/// While saying goodbye, only the report that the goodbye was sent has an effect.
pub proof fn lemma_stopping_waits_for_goodbye(s: ServerCore, e: Event)
    requires
        s.phase == Phase::Stopping,
        e != Event::StopFinished,
    ensures
        transition(s, e) == (s, Seq::<Action>::empty()),
{
}

/// While streaming, a report that a goodbye was sent changes nothing.
pub proof fn lemma_streaming_ignores_stop_report(s: ServerCore)
    requires
        s.phase == Phase::Streaming,
    ensures
        transition(s, Event::StopFinished) == (s, Seq::<Action>::empty()),
{
}

} // verus!
