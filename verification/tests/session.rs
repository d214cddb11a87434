use as2p_server::protocol::ClientMessage;
use as2p_server::session::{Action, Endpoint, Event, IpAddress, Phase, ServerCore};

fn phone() -> Endpoint {
    Endpoint { ip: IpAddress::V4([192, 168, 1, 20]), port: 40000 }
}

fn at_port(port: u16) -> Endpoint {
    Endpoint { ip: IpAddress::V4([192, 168, 1, 20]), port }
}

fn datagram(message: ClientMessage) -> Event {
    Event::Datagram { message, sender: phone() }
}

fn tick(secs: u64, ms: u128) -> Event {
    Event::Tick { secs_since_activity: secs, ms_since_stats: ms, ui_visible: true }
}

fn streaming() -> ServerCore {
    let (mut core, _) = ServerCore::start();
    core.step(datagram(ClientMessage::Discover));
    core.step(datagram(ClientMessage::Config { bitrate: 128_000, complexity: 5 }));
    core
}

#[test]
fn starts_listening() {
    let (core, actions) = ServerCore::start();
    assert_eq!(core.phase, Phase::Listening);
    assert!(core.redundancy);
    assert_eq!(core.bitrate, 160_000);
    assert_eq!(core.complexity, 5);
    assert_eq!(actions, vec![Action::Listen]);
    assert!(core.is_running());
}

#[test]
fn discovery_then_config_starts_stream() {
    let (mut core, _) = ServerCore::start();
    let actions = core.step(datagram(ClientMessage::Discover));
    assert_eq!(actions, vec![Action::SendOffer(at_port(12345))]);
    let actions = core.step(datagram(ClientMessage::Config { bitrate: 96_000, complexity: 3 }));
    assert_eq!(actions, vec![Action::StartSession(at_port(12345))]);
    assert_eq!(core.phase, Phase::Streaming);
    assert_eq!((core.bitrate, core.complexity, core.sequence), (96_000, 3, 0));
}

#[test]
fn config_without_discovery_goes_idle() {
    let (mut core, _) = ServerCore::start();
    let actions = core.step(datagram(ClientMessage::Config { bitrate: 96_000, complexity: 3 }));
    assert_eq!(actions, vec![Action::CloseSocket]);
    assert_eq!(core.phase, Phase::Idle);
    assert!(!core.is_running());
}

#[test]
fn frames_count_and_config_change_restarts_count() {
    let mut core = streaming();
    core.step(Event::FrameSent);
    core.step(Event::FrameSent);
    assert_eq!(core.sequence, 2);
    // The same configuration again changes nothing.
    let actions = core.step(datagram(ClientMessage::Config { bitrate: 128_000, complexity: 5 }));
    assert_eq!(actions, vec![Action::RefreshActivity]);
    assert_eq!(core.sequence, 2);
    // A new one is applied and numbering restarts.
    let actions = core.step(datagram(ClientMessage::Config { bitrate: 1_000_000, complexity: 5 }));
    assert_eq!(actions, vec![Action::RefreshActivity, Action::Reconfigure, Action::SendWarmup(10)]);
    assert_eq!(core.sequence, 0);
    assert_eq!(core.bitrate, 1_000_000);
    assert_eq!(core.phase, Phase::Streaming);
}

#[test]
fn heartbeat_and_stats() {
    let mut core = streaming();
    core.step(Event::FrameSent);
    assert_eq!(core.step(datagram(ClientMessage::Alive)), vec![Action::RefreshActivity]);
    assert_eq!(core.step(tick(0, 100)), vec![Action::PumpAudio]);
    assert_eq!(
        core.step(tick(5, 200)),
        vec![
            Action::PublishStats { packets: 1, bitrate: 128_000, client: Some(at_port(12345)) },
            Action::RestartStatsClock,
            Action::PumpAudio,
        ]
    );
    let hidden = Event::Tick { secs_since_activity: 1, ms_since_stats: 250, ui_visible: false };
    assert_eq!(core.step(hidden), vec![Action::RestartStatsClock, Action::PumpAudio]);
}

#[test]
fn silent_client_times_out() {
    let mut core = streaming();
    let actions = core.step(tick(6, 0));
    let zero = Action::PublishStats { packets: 0, bitrate: 0, client: None };
    assert_eq!(actions, vec![zero, Action::EndSession, zero, Action::Listen]);
    assert_eq!(core.phase, Phase::Listening);
    assert_eq!(core.target, None);
}

#[test]
fn client_goodbye_returns_to_listening() {
    let mut core = streaming();
    let actions = core.step(datagram(ClientMessage::Goodbye));
    let zero = Action::PublishStats { packets: 0, bitrate: 0, client: None };
    assert_eq!(actions, vec![Action::RefreshActivity, Action::EndSession, zero, Action::Listen]);
    assert_eq!(core.phase, Phase::Listening);
}

#[test]
fn stop_while_streaming_says_goodbye() {
    let mut core = streaming();
    assert_eq!(core.step(Event::ToggleServer), vec![Action::SayGoodbye]);
    assert_eq!(core.phase, Phase::Stopping);
    let zero = Action::PublishStats { packets: 0, bitrate: 0, client: None };
    assert_eq!(core.step(Event::StopFinished), vec![Action::EndSession, zero, Action::CloseSocket]);
    assert_eq!(core.phase, Phase::Idle);
    assert_eq!(core.step(Event::ToggleServer), vec![Action::Listen]);
    assert_eq!(core.phase, Phase::Listening);
}

#[test]
fn redundancy_switch_in_every_phase() {
    let (mut core, _) = ServerCore::start();
    core.step(Event::SetRedundancy(false));
    assert!(!core.redundancy);
    core.step(Event::ToggleServer);
    assert_eq!(core.phase, Phase::Idle);
    core.step(Event::SetRedundancy(true));
    assert!(core.redundancy);
    let mut core = streaming();
    assert_eq!(core.step(Event::SetRedundancy(false)), vec![]);
    assert!(!core.redundancy);
}

#[test]
fn toggle_twice_from_idle() {
    let (mut core, _) = ServerCore::start();
    core.step(Event::ToggleServer);
    let idle = core;
    core.step(Event::ToggleServer);
    core.step(Event::ToggleServer);
    assert_eq!(core, idle);
}
