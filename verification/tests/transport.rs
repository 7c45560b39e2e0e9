use songreq::codec::{fresh_token, parse_line, ChatMessage, ParsedMessage};
use songreq::transport::{
    Config, KeepaliveState, Phase, Transport, TransportAction, TransportEvent, WriteKind,
};

fn config() -> Config {
    Config {
        name: String::from("botname"),
        pass: String::from("hunter2"),
        channel: String::from("museun"),
    }
}

fn connected() -> Transport {
    let mut t = Transport::new(config());
    let acts = t.step(TransportEvent::Start);
    assert_eq!(acts, vec![TransportAction::Connect]);
    let acts = t.step(TransportEvent::Connected);
    assert_eq!(acts.len(), 1);
    t
}

fn line(s: &str) -> TransportEvent {
    TransportEvent::Line { line: String::from(s) }
}

#[test]
fn first_attempt_has_no_backoff() {
    let mut t = Transport::new(config());
    let acts = t.step(TransportEvent::Start);
    assert_eq!(acts, vec![TransportAction::Connect]);
    assert_eq!(t.phase, Phase::Connecting);
}

#[test]
fn failed_connect_retries_after_backoff() {
    let mut t = Transport::new(config());
    let _ = t.step(TransportEvent::Start);
    let acts = t.step(TransportEvent::ConnectFailed);
    assert_eq!(acts, vec![TransportAction::Backoff, TransportAction::Connect]);
    assert_eq!(t.phase, Phase::Connecting);
}

#[test]
fn register_is_written_on_connect() {
    let mut t = Transport::new(config());
    let _ = t.step(TransportEvent::Start);
    let acts = t.step(TransportEvent::Connected);
    assert_eq!(
        acts,
        vec![TransportAction::SendLine {
            line: String::from(
                "CAP REQ twitch.tv/commands\r\nCAP REQ twitch.tv/membership\r\n\
                 CAP REQ twitch.tv/tags\r\nPASS hunter2\r\nNICK botname\r\n"
            ),
        }]
    );
    assert_eq!(t.phase, Phase::Registering);
}

#[test]
fn welcome_joins_the_channel() {
    let mut t = connected();
    let acts = t.step(line(":tmi.twitch.tv GLOBALUSERSTATE\r\n"));
    assert_eq!(
        acts,
        vec![TransportAction::SendLine { line: String::from("JOIN #museun\r\n") }]
    );
    assert_eq!(t.phase, Phase::Joined);
}

#[test]
fn ready_records_our_name() {
    let mut t = connected();
    let acts = t.step(line(":tmi.twitch.tv 376 botname :>\r\n"));
    assert!(acts.is_empty());
    assert_eq!(t.our_name.as_deref(), Some("botname"));
}

#[test]
fn server_ping_is_answered_with_same_token() {
    let mut t = connected();
    let acts = t.step(line("PING :12345\r\n"));
    assert_eq!(
        acts,
        vec![TransportAction::SendLine { line: String::from("PONG :12345\r\n") }]
    );
    assert_eq!(t.phase, Phase::Registering);
}

#[test]
fn idle_timeout_issues_one_probe() {
    let mut t = connected();
    let acts = t.step(TransportEvent::IdleTimeout { token: String::from("tok0123456") });
    assert_eq!(
        acts,
        vec![TransportAction::SendLine { line: String::from("PING tok0123456\r\n") }]
    );
    assert_eq!(
        t.keepalive,
        KeepaliveState::AwaitingPong { token: String::from("tok0123456") }
    );
}

#[test]
fn second_idle_timeout_with_probe_outstanding_reconnects() {
    let mut t = connected();
    let _ = t.step(TransportEvent::IdleTimeout { token: String::from("aaaa") });
    let acts = t.step(TransportEvent::IdleTimeout { token: String::from("bbbb") });
    assert_eq!(acts, vec![TransportAction::Backoff, TransportAction::Connect]);
    assert_eq!(t.phase, Phase::Connecting);
    assert_eq!(t.keepalive, KeepaliveState::Idle);
}

#[test]
fn matching_pong_clears_the_probe() {
    let mut t = connected();
    let _ = t.step(TransportEvent::IdleTimeout { token: String::from("abc") });
    let acts = t.step(line(":tmi.twitch.tv PONG tmi.twitch.tv :abc\r\n"));
    assert!(acts.is_empty());
    assert_eq!(t.keepalive, KeepaliveState::Idle);
    // the next idle timeout issues a fresh probe instead of reconnecting
    let acts = t.step(TransportEvent::IdleTimeout { token: String::from("def") });
    assert_eq!(
        acts,
        vec![TransportAction::SendLine { line: String::from("PING def\r\n") }]
    );
}

#[test]
fn mismatched_pong_forces_reconnect() {
    let mut t = connected();
    let _ = t.step(TransportEvent::IdleTimeout { token: String::from("abc") });
    let acts = t.step(line(":tmi.twitch.tv PONG tmi.twitch.tv :wrong\r\n"));
    assert_eq!(acts, vec![TransportAction::Backoff, TransportAction::Connect]);
    assert_eq!(t.phase, Phase::Connecting);
}

#[test]
fn unexpected_pong_forces_reconnect() {
    // a pong that answers no outstanding probe is a protocol violation
    let mut t = connected();
    let acts = t.step(line(":tmi.twitch.tv PONG tmi.twitch.tv :stray\r\n"));
    assert_eq!(acts, vec![TransportAction::Backoff, TransportAction::Connect]);
    assert_eq!(t.phase, Phase::Connecting);
}

#[test]
fn chat_message_is_forwarded() {
    let mut t = connected();
    let acts = t.step(line(
        "@color=#AABBCC;id=m-1;user-id=u-9 :viewer!viewer@viewer.tmi.twitch.tv \
         PRIVMSG #museun :play something\r\n",
    ));
    assert_eq!(
        acts,
        vec![TransportAction::Forward {
            msg: ChatMessage {
                sender: String::from("viewer"),
                channel: String::from("#museun"),
                data: String::from("play something"),
                msg_id: Some(String::from("m-1")),
                user_id: Some(String::from("u-9")),
                color: Some((0xAA, 0xBB, 0xCC)),
            },
        }]
    );
}

#[test]
fn unrecognised_kinds_are_ignored() {
    let mut t = connected();
    let acts = t.step(line(":tmi.twitch.tv USERSTATE #museun\r\n"));
    assert!(acts.is_empty());
    assert_eq!(t.phase, Phase::Registering);
}

#[test]
fn unparseable_line_forces_reconnect() {
    let mut t = connected();
    // a numeric command too large for the parser's numeric type
    let acts = t.step(line("99999999999999999999 :x\r\n"));
    assert_eq!(acts, vec![TransportAction::Backoff, TransportAction::Connect]);
    assert_eq!(t.phase, Phase::Connecting);
}

#[test]
fn outbound_say_is_encoded_and_written_once() {
    let mut t = connected();
    let acts = t.step(TransportEvent::Outbound {
        kind: WriteKind::Say { data: String::from("hello, world") },
    });
    assert_eq!(
        acts,
        vec![TransportAction::SendLine {
            line: String::from("PRIVMSG #museun :hello, world\r\n"),
        }]
    );
}

#[test]
fn outbound_reply_carries_the_parent_id() {
    let mut t = connected();
    let acts = t.step(TransportEvent::Outbound {
        kind: WriteKind::Reply { id: String::from("m-7"), data: String::from("Kappa") },
    });
    assert_eq!(
        acts,
        vec![TransportAction::SendLine {
            line: String::from("@reply-parent-msg-id=m-7 PRIVMSG #museun :Kappa\r\n"),
        }]
    );
}

#[test]
fn write_failure_reconnects_and_resumes_forwarding() {
    // Scenario: a write fails mid-stream; the manager discards the
    // connection, reconnects, and keeps forwarding chat without duplicates.
    let mut t = connected();
    let before = t.step(line(
        ":a!a@a.tmi.twitch.tv PRIVMSG #museun :one\r\n",
    ));
    assert_eq!(before.len(), 1);
    let acts = t.step(TransportEvent::WriteFailed);
    assert_eq!(acts, vec![TransportAction::Backoff, TransportAction::Connect]);
    assert_eq!(t.phase, Phase::Connecting);
    let _ = t.step(TransportEvent::Connected);
    let after = t.step(line(
        ":a!a@a.tmi.twitch.tv PRIVMSG #museun :two\r\n",
    ));
    // exactly one forward per inbound chat line, before and after the fault
    assert_eq!(after.len(), 1);
    match &after[0] {
        TransportAction::Forward { msg } => assert_eq!(msg.data, "two"),
        other => panic!("expected a forward, got {other:?}"),
    }
}

#[test]
fn stream_close_reconnects() {
    let mut t = connected();
    let acts = t.step(TransportEvent::StreamClosed);
    assert_eq!(acts, vec![TransportAction::Backoff, TransportAction::Connect]);
}

#[test]
fn queue_closure_is_terminal() {
    let mut t = connected();
    let acts = t.step(TransportEvent::QueueClosed);
    assert!(acts.is_empty());
    assert!(t.is_stopped());
    // a stopped manager reacts to nothing
    let acts = t.step(TransportEvent::Start);
    assert!(acts.is_empty());
    assert!(t.is_stopped());
}

#[test]
fn closed_bus_is_terminal() {
    let mut t = connected();
    let acts = t.step(TransportEvent::ForwardFailed);
    assert!(acts.is_empty());
    assert!(t.is_stopped());
}

#[test]
fn fresh_token_has_ten_alphanumeric_chars() {
    let token = fresh_token();
    assert_eq!(token.chars().count(), 10);
    assert!(token.chars().all(|c| c.is_ascii_alphanumeric()));
}

#[test]
fn parse_line_classifies_kinds() {
    assert_eq!(
        parse_line("PING :tok\r\n"),
        ParsedMessage::Ping(String::from("tok"))
    );
    assert_eq!(
        parse_line(":tmi.twitch.tv PONG tmi.twitch.tv :tok\r\n"),
        ParsedMessage::Pong(String::from("tok"))
    );
    assert_eq!(
        parse_line(":tmi.twitch.tv 376 somebody :>\r\n"),
        ParsedMessage::Ready(String::from("somebody"))
    );
    assert_eq!(parse_line(":tmi.twitch.tv GLOBALUSERSTATE\r\n"), ParsedMessage::Welcome);
    assert_eq!(parse_line(":tmi.twitch.tv RECONNECT\r\n"), ParsedMessage::Other);
    assert_eq!(parse_line("99999999999999999999 :x\r\n"), ParsedMessage::Invalid);
}

#[test]
fn outbound_while_disconnected_is_dropped() {
    // at-most-once delivery: an item read while no connection is up is
    // lost, never queued for the next generation
    let mut t = Transport::new(config());
    let _ = t.step(TransportEvent::Start);
    let acts = t.step(TransportEvent::Outbound {
        kind: WriteKind::Say { data: String::from("lost") },
    });
    assert!(acts.is_empty());
}

#[test]
fn chat_after_join_marks_streaming() {
    let mut t = connected();
    let _ = t.step(line(":tmi.twitch.tv GLOBALUSERSTATE\r\n"));
    assert_eq!(t.phase, Phase::Joined);
    let _ = t.step(line(":v!v@v.tmi.twitch.tv PRIVMSG #museun :hi\r\n"));
    assert_eq!(t.phase, Phase::Streaming);
}
