use noob::client::stream::{ConnectionPhase, GatewayAction, GatewayInput, ReconnectInfo};
use noob::client::GatewayConnection;
use noob::events::{Myself, ReadyData};
use noob::{Event, Message, User};

const HELLO: &str = "{\"op\":10,\"d\":{\"heartbeat_interval\":1000}}";

const IDENTIFY_TOK: &str = "{\"op\":2,\"d\":{\"token\":\"tok\",\"properties\":{\"$os\":\"linux\",\"$browser\":\"noob\",\"$device\":\"noob\"},\"compress\":false}}";

fn connected(token: &str) -> GatewayConnection {
    let mut gw = GatewayConnection::connect_new("wss://gateway.example".to_string(), token.to_string());
    assert_eq!(gw.step(GatewayInput::SocketOpened), GatewayAction::Nothing);
    let reply = gw.handle_frame(HELLO);
    assert!(matches!(reply, GatewayAction::SendFrame(_)));
    assert_eq!(gw.step(GatewayInput::SendCompleted), GatewayAction::Nothing);
    assert!(matches!(gw.phase, ConnectionPhase::Connected { heartbeat_interval: 1000 }));
    gw
}

#[test]
fn end_to_end_scenario() {
    let mut gw = GatewayConnection::connect_new(
        "wss://gateway.example".to_string(),
        "tok".to_string(),
    );
    assert!(matches!(gw.phase, ConnectionPhase::Opening));
    assert_eq!(gw.step(GatewayInput::SocketOpened), GatewayAction::Nothing);

    // Hello -> exactly one Identify, with the exact frame text
    let reply = gw.handle_frame(HELLO);
    assert_eq!(reply, GatewayAction::SendFrame(IDENTIFY_TOK.to_string()));
    assert_eq!(gw.step(GatewayInput::SendCompleted), GatewayAction::Nothing);

    // READY dispatch yields the Ready event
    let ready = gw.handle_frame(
        "{\"op\":0,\"s\":1,\"t\":\"READY\",\"d\":{\"user\":{\"id\":\"42\",\
         \"username\":\"alice\",\"discriminator\":\"0001\",\"avatar\":null,\
         \"mfa_enabled\":false,\"verified\":true,\"email\":null}}}",
    );
    let expected_user = Myself {
        id: "42".to_string(),
        username: "alice".to_string(),
        discriminator: "0001".to_string(),
        avatar: None,
        bot: false,
        mfa_enabled: false,
        verified: true,
        email: None,
    };
    assert_eq!(
        ready,
        GatewayAction::YieldEvent(Event::Ready(ReadyData { user: expected_user }))
    );

    // MESSAGE_CREATE dispatch yields the MessageCreate event with its fields
    let created = gw.handle_frame(
        "{\"op\":0,\"s\":2,\"t\":\"MESSAGE_CREATE\",\"d\":{\"id\":\"100\",\
         \"channel_id\":\"200\",\"author\":{\"id\":\"42\",\"username\":\"alice\",\
         \"discriminator\":\"0001\",\"avatar\":null},\"content\":\"hi\",\
         \"timestamp\":\"now\",\"edited_timestamp\":null,\"tts\":false,\
         \"mention_everyone\":false,\"mentions\":[],\"mention_roles\":[]}}",
    );
    let expected_message = Message {
        id: "100".to_string(),
        channel_id: "200".to_string(),
        author: User {
            id: "42".to_string(),
            username: "alice".to_string(),
            discriminator: "0001".to_string(),
            avatar: None,
        },
        content: "hi".to_string(),
        timestamp: "now".to_string(),
        edited_timestamp: None,
        tts: false,
        mention_everyone: false,
        mentions: vec![],
        mention_roles: vec![],
    };
    assert_eq!(created, GatewayAction::YieldEvent(Event::MessageCreate(expected_message)));

    // stream closed by peer -> a fresh handshake attempt starts
    assert_eq!(gw.step(GatewayInput::StreamEnded), GatewayAction::OpenSocket);
    assert!(matches!(gw.phase, ConnectionPhase::Opening));
    assert_eq!(gw.step(GatewayInput::SocketOpened), GatewayAction::Nothing);
    let reply2 = gw.handle_frame(HELLO);
    assert_eq!(reply2, GatewayAction::SendFrame(IDENTIFY_TOK.to_string()));
}

#[test]
fn heartbeat_uses_last_sequence_until_superseded() {
    let mut gw = connected("tok");
    // no sequence seen yet: heartbeat carries null
    assert_eq!(
        gw.step(GatewayInput::HeartbeatTick),
        GatewayAction::SendFrame("{\"op\":1,\"d\":null}".to_string())
    );
    // a dispatch with s=5 updates the session even when its type is unknown
    let a = gw.handle_frame("{\"op\":0,\"s\":5,\"t\":\"UNKNOWN_THING\",\"d\":{}}");
    assert_eq!(a, GatewayAction::Nothing);
    assert_eq!(gw.session.last_sequence, Some(5));
    assert_eq!(
        gw.step(GatewayInput::HeartbeatTick),
        GatewayAction::SendFrame("{\"op\":1,\"d\":5}".to_string())
    );
    // unchanged until superseded
    assert_eq!(
        gw.step(GatewayInput::HeartbeatTick),
        GatewayAction::SendFrame("{\"op\":1,\"d\":5}".to_string())
    );
    let a = gw.handle_frame("{\"op\":0,\"s\":6,\"t\":\"UNKNOWN_THING\",\"d\":{}}");
    assert_eq!(a, GatewayAction::Nothing);
    assert_eq!(
        gw.step(GatewayInput::HeartbeatTick),
        GatewayAction::SendFrame("{\"op\":1,\"d\":6}".to_string())
    );
}

#[test]
fn resume_handshake_sends_resume_frame() {
    let mut gw = GatewayConnection::connect_resume(
        "wss://gateway.example".to_string(),
        "tok".to_string(),
        ReconnectInfo { session_id: "sess".to_string(), last_event: 9 },
    );
    assert_eq!(gw.step(GatewayInput::SocketOpened), GatewayAction::Nothing);
    let reply = gw.handle_frame(HELLO);
    assert_eq!(
        reply,
        GatewayAction::SendFrame(
            "{\"op\":6,\"d\":{\"token\":\"tok\",\"session_id\":\"sess\",\"seq\":9}}".to_string()
        )
    );
}

#[test]
fn unrecognized_packets_do_not_abort() {
    let mut gw = connected("tok");
    // unrecognized opcode
    assert_eq!(gw.handle_frame("{\"op\":7,\"d\":null}"), GatewayAction::Nothing);
    // heartbeat ACK is discarded
    assert_eq!(gw.handle_frame("{\"op\":11,\"d\":null}"), GatewayAction::Nothing);
    // unrecognized event type
    assert_eq!(
        gw.handle_frame("{\"op\":0,\"t\":\"NO_SUCH_EVENT\",\"d\":{},\"s\":3}"),
        GatewayAction::Nothing
    );
    // malformed JSON is discarded, not fatal
    assert_eq!(gw.handle_frame("{oops"), GatewayAction::Nothing);
    // dispatch without an event type is discarded
    assert_eq!(gw.handle_frame("{\"op\":0,\"d\":{}}"), GatewayAction::Nothing);
    assert!(matches!(gw.phase, ConnectionPhase::Connected { .. }));
    // one subsequent valid dispatch still yields its event
    let ready = gw.handle_frame(
        "{\"op\":0,\"s\":4,\"t\":\"READY\",\"d\":{\"user\":{\"id\":\"1\",\
         \"username\":\"u\",\"discriminator\":\"0\",\"mfa_enabled\":true,\
         \"verified\":false,\"bot\":true}}}",
    );
    assert!(matches!(ready, GatewayAction::YieldEvent(Event::Ready(_))));
}

#[test]
fn handshake_rejection_is_terminal() {
    let mut gw = GatewayConnection::connect_new(
        "wss://gateway.example".to_string(),
        "tok".to_string(),
    );
    assert_eq!(gw.step(GatewayInput::SocketOpened), GatewayAction::Nothing);
    // the first message must be a Hello; anything else ends the sequence
    let a = gw.handle_frame("{\"op\":0,\"t\":\"READY\",\"d\":{},\"s\":1}");
    assert_eq!(
        a,
        GatewayAction::Fatal(noob::Error::Other("Failed to parse hello message".to_string()))
    );
    assert!(matches!(gw.phase, ConnectionPhase::Closed));
    // no further items, whatever arrives
    assert_eq!(gw.handle_frame(HELLO), GatewayAction::Nothing);
    assert_eq!(gw.step(GatewayInput::StreamEnded), GatewayAction::Nothing);
    assert_eq!(gw.step(GatewayInput::HeartbeatTick), GatewayAction::Nothing);
    assert!(matches!(gw.phase, ConnectionPhase::Closed));
}

#[test]
fn socket_failure_during_handshake_is_fatal() {
    let mut gw = GatewayConnection::connect_new(
        "wss://gateway.example".to_string(),
        "tok".to_string(),
    );
    let a = gw.step(GatewayInput::SocketFailed { detail: "boom".to_string() });
    assert_eq!(
        a,
        GatewayAction::Fatal(noob::Error::Other("WebSocket Failure: boom".to_string()))
    );
    assert!(matches!(gw.phase, ConnectionPhase::Closed));
}

#[test]
fn send_failure_during_handshake_is_fatal() {
    let mut gw = GatewayConnection::connect_new(
        "wss://gateway.example".to_string(),
        "tok".to_string(),
    );
    assert_eq!(gw.step(GatewayInput::SocketOpened), GatewayAction::Nothing);
    assert!(matches!(gw.handle_frame(HELLO), GatewayAction::SendFrame(_)));
    let a = gw.step(GatewayInput::SendFailed { detail: "closed".to_string() });
    assert_eq!(
        a,
        GatewayAction::Fatal(noob::Error::Other("WebSocket Failure: closed".to_string()))
    );
}

#[test]
fn mid_stream_errors_are_items_not_termination() {
    let mut gw = connected("tok");
    let a = gw.step(GatewayInput::StreamError { detail: "blip".to_string() });
    assert_eq!(
        a,
        GatewayAction::YieldError(noob::Error::Other("WebSocket Failure: blip".to_string()))
    );
    assert!(matches!(gw.phase, ConnectionPhase::Connected { .. }));
    // heartbeat send failures are swallowed
    assert_eq!(
        gw.step(GatewayInput::SendFailed { detail: "late".to_string() }),
        GatewayAction::Nothing
    );
}

#[test]
fn repeated_reconnects_never_terminate() {
    let mut gw = connected("tok");
    for _ in 0..3 {
        assert_eq!(gw.step(GatewayInput::StreamEnded), GatewayAction::OpenSocket);
        assert_eq!(gw.step(GatewayInput::SocketOpened), GatewayAction::Nothing);
        assert!(matches!(gw.handle_frame(HELLO), GatewayAction::SendFrame(_)));
        assert_eq!(gw.step(GatewayInput::SendCompleted), GatewayAction::Nothing);
        assert!(matches!(gw.phase, ConnectionPhase::Connected { .. }));
    }
    // a reconnect resets the session: the next heartbeat carries null again
    assert_eq!(
        gw.step(GatewayInput::HeartbeatTick),
        GatewayAction::SendFrame("{\"op\":1,\"d\":null}".to_string())
    );
}
