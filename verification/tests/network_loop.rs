use mstarplayer_mqtt_plugin::config::Configuration;
use mstarplayer_mqtt_plugin::network::{
    step, LoopAction, LoopInput, NetworkEvent, Phase, Step, BACKOFF_SECONDS,
};
use mstarplayer_mqtt_plugin::router::{Command, Invocation, Rejection};
use mstarplayer_mqtt_plugin::topic::TopicError;

const LIVE: [Phase; 3] = [Phase::Connecting, Phase::Subscribed, Phase::Reconnecting];

fn config() -> Configuration {
    Configuration::new("127.0.0.1".to_string(), 1883, "c".to_string(), "T".to_string()).unwrap()
}

fn publish(topic: &str) -> NetworkEvent {
    NetworkEvent::Publish { topic: topic.to_string() }
}

#[test]
fn the_worker_starts_connecting() {
    assert_eq!(Phase::start(), Phase::Connecting);
}

#[test]
fn the_pause_is_one_second() {
    assert_eq!(BACKOFF_SECONDS, 1);
}

#[test]
fn subscribing_completes_connecting() {
    assert_eq!(
        step(Phase::Connecting, &LoopInput::SubscribeQueued, None),
        Step { phase: Phase::Subscribed, action: LoopAction::Continue }
    );
}

#[test]
fn an_inbound_command_calls_the_player_once() {
    let stored = config();
    let event = publish("T/control/P/play");
    assert_eq!(
        step(Phase::Subscribed, &LoopInput::Event(&event), Some(&stored)),
        Step {
            phase: Phase::Subscribed,
            action: LoopAction::Invoke(Invocation {
                command: Command::Play,
                player_name: "P".to_string(),
            }),
        }
    );
}

#[test]
fn a_rejected_message_calls_nothing() {
    let stored = config();
    let cases = [
        ("T/control/P/bogus", Rejection::UnknownCommand),
        ("T/control/P", Rejection::Topic(TopicError::MalformedSegmentCount)),
        ("X/control/P/play", Rejection::Topic(TopicError::PrefixMismatch)),
        ("T/monitor/P/play", Rejection::Topic(TopicError::UnexpectedScope)),
        ("T/control/\0/play", Rejection::InvalidPlayerName),
    ];
    for (topic, rejection) in cases {
        let event = publish(topic);
        assert_eq!(
            step(Phase::Subscribed, &LoopInput::Event(&event), Some(&stored)),
            Step { phase: Phase::Subscribed, action: LoopAction::Discard(rejection) }
        );
    }
}

#[test]
fn a_message_without_configuration_calls_nothing() {
    let event = publish("T/control/P/play");
    assert_eq!(
        step(Phase::Subscribed, &LoopInput::Event(&event), None),
        Step { phase: Phase::Subscribed, action: LoopAction::Discard(Rejection::NotConfigured) }
    );
}

#[test]
fn the_disconnect_ends_the_loop() {
    for phase in LIVE {
        assert_eq!(
            step(phase, &LoopInput::Event(&NetworkEvent::Disconnect), None),
            Step { phase: Phase::Stopped, action: LoopAction::Exit }
        );
    }
}

#[test]
fn other_events_change_nothing() {
    for phase in LIVE {
        assert_eq!(
            step(phase, &LoopInput::Event(&NetworkEvent::Other), None),
            Step { phase, action: LoopAction::Continue }
        );
    }
}

#[test]
fn a_transport_error_starts_the_pause() {
    for phase in LIVE {
        assert_eq!(
            step(phase, &LoopInput::Event(&NetworkEvent::TransportError), None),
            Step { phase: Phase::Reconnecting, action: LoopAction::Backoff { seconds: 1 } }
        );
    }
}

#[test]
fn after_the_pause_the_worker_subscribes_again() {
    assert_eq!(
        step(Phase::Reconnecting, &LoopInput::BackoffElapsed, None),
        Step { phase: Phase::Connecting, action: LoopAction::Resubscribe }
    );
}

#[test]
fn retries_never_run_out() {
    let mut phase = Phase::start();
    for _ in 0..1000 {
        phase = step(phase, &LoopInput::SubscribeQueued, None).phase;
        assert_eq!(phase, Phase::Subscribed);
        let failed = step(phase, &LoopInput::Event(&NetworkEvent::TransportError), None);
        assert_eq!(failed.action, LoopAction::Backoff { seconds: 1 });
        phase = failed.phase;
        let resumed = step(phase, &LoopInput::BackoffElapsed, None);
        assert_eq!(resumed.action, LoopAction::Resubscribe);
        phase = resumed.phase;
        assert_eq!(phase, Phase::Connecting);
    }
}

#[test]
fn inputs_out_of_turn_change_nothing() {
    assert_eq!(
        step(Phase::Subscribed, &LoopInput::SubscribeQueued, None),
        Step { phase: Phase::Subscribed, action: LoopAction::Continue }
    );
    assert_eq!(
        step(Phase::Reconnecting, &LoopInput::SubscribeQueued, None),
        Step { phase: Phase::Reconnecting, action: LoopAction::Continue }
    );
    assert_eq!(
        step(Phase::Connecting, &LoopInput::BackoffElapsed, None),
        Step { phase: Phase::Connecting, action: LoopAction::Continue }
    );
    assert_eq!(
        step(Phase::Subscribed, &LoopInput::BackoffElapsed, None),
        Step { phase: Phase::Subscribed, action: LoopAction::Continue }
    );
}

#[test]
fn a_stopped_worker_stays_stopped() {
    let stored = config();
    let message = publish("T/control/P/play");
    let inputs = [
        LoopInput::SubscribeQueued,
        LoopInput::BackoffElapsed,
        LoopInput::Event(&NetworkEvent::Disconnect),
        LoopInput::Event(&NetworkEvent::Other),
        LoopInput::Event(&NetworkEvent::TransportError),
        LoopInput::Event(&message),
    ];
    for input in inputs {
        assert_eq!(
            step(Phase::Stopped, &input, Some(&stored)),
            Step { phase: Phase::Stopped, action: LoopAction::Exit }
        );
    }
}
