//! The gateway connection: a restartable stream of events, driven as a
//! state machine.
//!
//! One live connection exists at a time. The machine starts in a pending
//! (handshake) phase, sends exactly one Identify or Resume reply to the
//! server's Hello, then serves decoded events until the transport stream
//! ends, at which point it starts a fresh handshake attempt; only a
//! handshake-phase failure terminates the sequence. An automatic
//! reconnect identifies anew rather than resuming: the session state is
//! reset when the stream ends, and resumption info is used only for the
//! attempt it was handed to.

use crate::codec::{
    event_decodable, event_matches, heartbeat_frame, heartbeat_text, identify_frame, identify_text,
    resume_frame, resume_text, spec_envelope, spec_hello_interval, decode_envelope, hello_interval,
    decode_event, Envelope,
};
use crate::error::Error;
use crate::events::Event;
use crate::json::{json_of, parse_json, JsonValue};
use vstd::prelude::*;
use vstd::string::StringExecFns;

verus! {

/// Shared state of one logical session: the last observed sequence
/// number, read by the heartbeat and written by the dispatcher, and the
/// session identifier needed to resume.
#[derive(Debug, PartialEq)]
pub struct SessionState {
    /// Sequence number of the last dispatch envelope that carried one
    pub last_sequence: Option<u64>,
    /// Identifier of the session; held for resumption, though the
    /// dispatcher does not record one, so automatic reconnects identify
    /// anew
    pub session_id: Option<String>,
}

impl SessionState {
    /// A fresh session: nothing observed yet.
    pub fn new() -> (r: Self)
        ensures
            r.last_sequence is None,
            r.session_id is None,
    {
        SessionState { last_sequence: None, session_id: None }
    }
}

/// What is needed to resume a prior session instead of identifying anew.
#[derive(Debug, PartialEq)]
pub struct ReconnectInfo {
    /// Identifier of the session to resume
    pub session_id: String,
    /// Sequence number of the last event seen in that session
    pub last_event: u64,
}

/// The fixed parameters of a connection: where to connect, and as whom.
#[derive(Debug, PartialEq)]
pub struct ConnParams {
    /// Gateway URL
    pub url: String,
    /// Authentication token
    pub token: String,
}

/// Where one gateway connection stands.
#[derive(Debug, PartialEq)]
pub enum ConnectionPhase {
    /// A transport socket is being opened
    Opening,
    /// The socket is open; the server's first message is awaited
    AwaitingHello,
    /// Hello was answered; the reply is in flight
    Identifying {
        /// The negotiated heartbeat interval, in milliseconds
        heartbeat_interval: u64,
    },
    /// The handshake is complete; events are served
    Connected {
        /// The negotiated heartbeat interval, in milliseconds
        heartbeat_interval: u64,
    },
    /// A fatal handshake error ended the sequence
    Closed,
}

/// One thing the transport reports to the machine.
#[derive(Debug, PartialEq)]
pub enum GatewayInput {
    /// The transport socket finished opening
    SocketOpened,
    /// The transport socket could not be opened
    SocketFailed {
        /// Description of the transport error
        detail: String,
    },
    /// A text frame arrived; `parsed` is its JSON parse outcome
    Frame {
        /// The frame's JSON parse outcome
        parsed: Option<JsonValue>,
    },
    /// A non-text frame arrived
    NonTextFrame,
    /// The stream reported an error without ending
    StreamError {
        /// Description of the transport error
        detail: String,
    },
    /// The stream ended: the peer closed, or the transport dropped
    StreamEnded,
    /// The heartbeat period elapsed
    HeartbeatTick,
    /// The last requested frame send completed
    SendCompleted,
    /// The last requested frame send failed
    SendFailed {
        /// Description of the transport error
        detail: String,
    },
}

/// What the machine asks of its driver in return.
#[derive(Debug, PartialEq)]
pub enum GatewayAction {
    /// Nothing to do
    Nothing,
    /// Open a fresh transport socket to the connection's URL
    OpenSocket,
    /// Send this text frame
    SendFrame(String),
    /// Hand this event to the caller
    YieldEvent(Event),
    /// Hand this non-fatal error to the caller; the stream goes on
    YieldError(Error),
    /// Hand this error to the caller; the sequence has ended
    Fatal(Error),
}

/// Whether a parse outcome is the server's Hello envelope.
pub open spec fn frame_is_hello(parsed: Option<JsonValue>) -> bool {
    match parsed {
        Some(j) => match spec_envelope(j) {
            Some(env) => spec_hello_interval(env) is Some,
            None => false,
        },
        None => false,
    }
}

/// The heartbeat interval a Hello envelope carries.
pub open spec fn hello_interval_of(parsed: Option<JsonValue>) -> u64
    recommends
        frame_is_hello(parsed),
{
    match parsed {
        Some(j) => match spec_envelope(j) {
            Some(env) => match spec_hello_interval(env) {
                Some(n) => n,
                None => 0,
            },
            None => 0,
        },
        None => 0,
    }
}

/// The handshake reply owed to a Hello: Resume when resumption info is
/// at hand, Identify otherwise.
pub open spec fn reply_text(params: ConnParams, resume: Option<ReconnectInfo>) -> Seq<char> {
    match resume {
        Some(info) => resume_text(params.token@, info.session_id@, info.last_event),
        None => identify_text(params.token@),
    }
}

/// Whether an action is the sending of a handshake reply (an Identify or
/// Resume frame) for these connection parameters.
pub open spec fn sends_handshake_reply(
    a: GatewayAction,
    params: ConnParams,
    resume: Option<ReconnectInfo>,
) -> bool {
    a matches GatewayAction::SendFrame(f) && f@ == reply_text(params, resume)
}

/// A fatal transition: the phase closes and the given description is
/// reported, prefixed as a transport failure.
pub open spec fn fatal_transport(
    pre: GatewayConnection,
    post: GatewayConnection,
    a: GatewayAction,
    detail: String,
) -> bool {
    &&& post == (GatewayConnection { phase: ConnectionPhase::Closed, ..pre })
    &&& a matches GatewayAction::Fatal(e) && e matches Error::Other(m) && m@ == "WebSocket Failure: "@
        + detail@
}

/// A fatal transition reporting a handshake protocol violation.
pub open spec fn fatal_protocol(
    pre: GatewayConnection,
    post: GatewayConnection,
    a: GatewayAction,
    msg: Seq<char>,
) -> bool {
    &&& post == (GatewayConnection { phase: ConnectionPhase::Closed, ..pre })
    &&& a matches GatewayAction::Fatal(e) && e matches Error::Other(m) && m@ == msg
}

/// No transition: the machine is unchanged and asks nothing.
pub open spec fn no_step(pre: GatewayConnection, post: GatewayConnection, a: GatewayAction) -> bool {
    post == pre && a is Nothing
}

/// The transitions available while the socket is being opened.
pub open spec fn opening_step(
    pre: GatewayConnection,
    input: GatewayInput,
    post: GatewayConnection,
    a: GatewayAction,
) -> bool {
    match input {
        GatewayInput::SocketOpened => post == (GatewayConnection {
            phase: ConnectionPhase::AwaitingHello,
            ..pre
        }) && a is Nothing,
        GatewayInput::SocketFailed { detail } => fatal_transport(pre, post, a, detail),
        _ => no_step(pre, post, a),
    }
}

/// The transitions available while the server's first message is
/// awaited: a Hello is answered with exactly one Identify or Resume;
/// anything else is a fatal handshake error.
pub open spec fn awaiting_hello_step(
    pre: GatewayConnection,
    input: GatewayInput,
    post: GatewayConnection,
    a: GatewayAction,
) -> bool {
    match input {
        GatewayInput::Frame { parsed } => if frame_is_hello(parsed) {
            &&& post == (GatewayConnection {
                phase: ConnectionPhase::Identifying {
                    heartbeat_interval: hello_interval_of(parsed),
                },
                ..pre
            })
            &&& sends_handshake_reply(a, pre.conn_params, pre.resume)
        } else {
            fatal_protocol(pre, post, a, "Failed to parse hello message"@)
        },
        GatewayInput::NonTextFrame => fatal_protocol(pre, post, a, "Unexpected first message"@),
        GatewayInput::StreamEnded => fatal_protocol(pre, post, a, "Unexpected first message"@),
        GatewayInput::StreamError { detail } => fatal_transport(pre, post, a, detail),
        GatewayInput::SocketFailed { detail } => fatal_transport(pre, post, a, detail),
        _ => no_step(pre, post, a),
    }
}

/// The transitions available while the handshake reply is in flight: its
/// completion connects; its failure, or the transport's, is fatal.
pub open spec fn identifying_step(
    pre: GatewayConnection,
    hb: u64,
    input: GatewayInput,
    post: GatewayConnection,
    a: GatewayAction,
) -> bool {
    match input {
        GatewayInput::SendCompleted => post == (GatewayConnection {
            phase: ConnectionPhase::Connected { heartbeat_interval: hb },
            ..pre
        }) && a is Nothing,
        GatewayInput::SendFailed { detail } => fatal_transport(pre, post, a, detail),
        GatewayInput::StreamError { detail } => fatal_transport(pre, post, a, detail),
        GatewayInput::SocketFailed { detail } => fatal_transport(pre, post, a, detail),
        GatewayInput::StreamEnded => fatal_protocol(pre, post, a, "Unexpected first message"@),
        _ => no_step(pre, post, a),
    }
}

/// How a dispatch envelope advances the session state: a present
/// sequence number is recorded, anything else leaves it.
pub open spec fn session_after(pre: SessionState, env: Envelope) -> SessionState {
    if env.op == 0 && env.s is Some {
        SessionState { last_sequence: env.s, ..pre }
    } else {
        pre
    }
}

/// What a decoded envelope yields in the connected phase: an event when
/// a dispatch envelope carries a recognized, well-formed payload, and
/// nothing for protocol-internal or unrecognized packets.
pub open spec fn dispatch_action(env: Envelope, a: GatewayAction) -> bool {
    if env.op == 0 {
        match env.t {
            Some(t) => if event_decodable(t, env.d) {
                a matches GatewayAction::YieldEvent(ev) && event_matches(t, env.d, ev)
            } else {
                a is Nothing
            },
            None => a is Nothing,
        }
    } else {
        a is Nothing
    }
}

/// The transitions available while connected: frames are dispatched,
/// heartbeats carry the last observed sequence number, stream errors are
/// surfaced as items, and the stream's end starts a fresh handshake.
pub open spec fn connected_step(
    pre: GatewayConnection,
    hb: u64,
    input: GatewayInput,
    post: GatewayConnection,
    a: GatewayAction,
) -> bool {
    match input {
        GatewayInput::Frame { parsed } => match parsed {
            Some(j) => match spec_envelope(j) {
                Some(env) => {
                    &&& post == (GatewayConnection { session: session_after(pre.session, env), ..pre })
                    &&& dispatch_action(env, a)
                },
                None => no_step(pre, post, a),
            },
            None => no_step(pre, post, a),
        },
        GatewayInput::HeartbeatTick => {
            &&& post == pre
            &&& a matches GatewayAction::SendFrame(f) && f@ == heartbeat_text(
                pre.session.last_sequence,
            )
        },
        GatewayInput::StreamError { detail } => {
            &&& post == pre
            &&& a matches GatewayAction::YieldError(e) && e matches Error::Other(m) && m@
                == "WebSocket Failure: "@ + detail@
        },
        GatewayInput::StreamEnded => {
            &&& post == (GatewayConnection {
                phase: ConnectionPhase::Opening,
                session: SessionState { last_sequence: None, session_id: None },
                resume: None,
                ..pre
            })
            &&& a is OpenSocket
        },
        _ => no_step(pre, post, a),
    }
}

/// The machine's whole transition relation, by phase.
pub open spec fn step_ok(
    pre: GatewayConnection,
    input: GatewayInput,
    post: GatewayConnection,
    a: GatewayAction,
) -> bool {
    match pre.phase {
        ConnectionPhase::Opening => opening_step(pre, input, post, a),
        ConnectionPhase::AwaitingHello => awaiting_hello_step(pre, input, post, a),
        ConnectionPhase::Identifying { heartbeat_interval } => identifying_step(
            pre,
            heartbeat_interval,
            input,
            post,
            a,
        ),
        ConnectionPhase::Connected { heartbeat_interval } => connected_step(
            pre,
            heartbeat_interval,
            input,
            post,
            a,
        ),
        ConnectionPhase::Closed => no_step(pre, post, a),
    }
}

/// Stream of gateway events: the state machine that owns one live
/// connection at a time and restarts the handshake when its transport
/// stream ends.
pub struct GatewayConnection {
    /// The fixed connection parameters
    pub conn_params: ConnParams,
    /// Where the connection stands
    pub phase: ConnectionPhase,
    /// The current session's shared state
    pub session: SessionState,
    /// Resumption info for the current handshake attempt, if any
    pub resume: Option<ReconnectInfo>,
}

impl GatewayConnection {
    /// A fresh connection that will identify anew.
    pub fn connect_new(url: String, token: String) -> (r: Self)
        ensures
            r.conn_params.url == url,
            r.conn_params.token == token,
            r.phase is Opening,
            r.session.last_sequence is None,
            r.session.session_id is None,
            r.resume is None,
    {
        GatewayConnection {
            conn_params: ConnParams { url, token },
            phase: ConnectionPhase::Opening,
            session: SessionState::new(),
            resume: None,
        }
    }

    /// A connection that will try to resume a prior session.
    pub fn connect_resume(url: String, token: String, resume: ReconnectInfo) -> (r: Self)
        ensures
            r.conn_params.url == url,
            r.conn_params.token == token,
            r.phase is Opening,
            r.session.last_sequence is None,
            r.session.session_id is None,
            r.resume == Some(resume),
    {
        GatewayConnection {
            conn_params: ConnParams { url, token },
            phase: ConnectionPhase::Opening,
            session: SessionState::new(),
            resume: Some(resume),
        }
    }

    /// Advances the machine by one transport report and returns what the
    /// driver must do.
    pub fn step(&mut self, input: GatewayInput) -> (a: GatewayAction)
        ensures
            step_ok(*old(self), input, *final(self), a),
    {
        match &self.phase {
            ConnectionPhase::Opening => match input {
                GatewayInput::SocketOpened => {
                    self.phase = ConnectionPhase::AwaitingHello;
                    GatewayAction::Nothing
                },
                GatewayInput::SocketFailed { detail } => self.fail_transport(detail),
                _ => GatewayAction::Nothing,
            },
            ConnectionPhase::AwaitingHello => match input {
                GatewayInput::Frame { parsed } => self.handle_first_frame(parsed),
                GatewayInput::NonTextFrame => self.fail_protocol_first(),
                GatewayInput::StreamEnded => self.fail_protocol_first(),
                GatewayInput::StreamError { detail } => self.fail_transport(detail),
                GatewayInput::SocketFailed { detail } => self.fail_transport(detail),
                _ => GatewayAction::Nothing,
            },
            ConnectionPhase::Identifying { heartbeat_interval } => {
                let hb = *heartbeat_interval;
                match input {
                    GatewayInput::SendCompleted => {
                        self.phase = ConnectionPhase::Connected { heartbeat_interval: hb };
                        GatewayAction::Nothing
                    },
                    GatewayInput::SendFailed { detail } => self.fail_transport(detail),
                    GatewayInput::StreamError { detail } => self.fail_transport(detail),
                    GatewayInput::SocketFailed { detail } => self.fail_transport(detail),
                    GatewayInput::StreamEnded => self.fail_protocol_first(),
                    _ => GatewayAction::Nothing,
                }
            },
            ConnectionPhase::Connected { heartbeat_interval: _ } => match input {
                GatewayInput::Frame { parsed } => self.handle_connected_frame(parsed),
                GatewayInput::HeartbeatTick => GatewayAction::SendFrame(
                    heartbeat_frame(self.session.last_sequence),
                ),
                GatewayInput::StreamError { detail } => {
                    let mut m: String = "WebSocket Failure: ".to_owned();
                    m.append(detail.as_str());
                    GatewayAction::YieldError(Error::Other(m))
                },
                GatewayInput::StreamEnded => {
                    self.phase = ConnectionPhase::Opening;
                    self.session = SessionState::new();
                    self.resume = None;
                    GatewayAction::OpenSocket
                },
                _ => GatewayAction::Nothing,
            },
            ConnectionPhase::Closed => GatewayAction::Nothing,
        }
    }

    /// Parses a text frame and advances the machine on it.
    pub fn handle_frame(&mut self, text: &str) -> (a: GatewayAction)
        ensures
            step_ok(
                *old(self),
                GatewayInput::Frame { parsed: json_of(text@) },
                *final(self),
                a,
            ),
    {
        let parsed = parse_json(text);
        self.step(GatewayInput::Frame { parsed })
    }

    /// Closes the machine over a transport failure description.
    fn fail_transport(&mut self, detail: String) -> (a: GatewayAction)
        ensures
            fatal_transport(*old(self), *final(self), a, detail),
    {
        self.phase = ConnectionPhase::Closed;
        let mut m: String = "WebSocket Failure: ".to_owned();
        m.append(detail.as_str());
        GatewayAction::Fatal(Error::Other(m))
    }

    /// Closes the machine over an unexpected first message.
    fn fail_protocol_first(&mut self) -> (a: GatewayAction)
        ensures
            fatal_protocol(*old(self), *final(self), a, "Unexpected first message"@),
    {
        self.phase = ConnectionPhase::Closed;
        GatewayAction::Fatal(Error::Other("Unexpected first message".to_owned()))
    }

    /// Answers the server's first message: a Hello gets exactly one
    /// Identify or Resume reply; anything else is fatal.
    fn handle_first_frame(&mut self, parsed: Option<JsonValue>) -> (a: GatewayAction)
        requires
            old(self).phase is AwaitingHello,
        ensures
            awaiting_hello_step(
                *old(self),
                GatewayInput::Frame { parsed },
                *final(self),
                a,
            ),
    {
        let hello = match parsed {
            Some(j) => match decode_envelope(j) {
                Some(env) => hello_interval(&env),
                None => None,
            },
            None => None,
        };
        match hello {
            Some(hb) => {
                let reply: String = match &self.resume {
                    Some(info) => resume_frame(
                        self.conn_params.token.as_str(),
                        info.session_id.as_str(),
                        info.last_event,
                    ),
                    None => identify_frame(self.conn_params.token.as_str()),
                };
                self.phase = ConnectionPhase::Identifying { heartbeat_interval: hb };
                GatewayAction::SendFrame(reply)
            },
            None => {
                self.phase = ConnectionPhase::Closed;
                GatewayAction::Fatal(Error::Other("Failed to parse hello message".to_owned()))
            },
        }
    }

    /// Dispatches one frame in the connected phase.
    fn handle_connected_frame(&mut self, parsed: Option<JsonValue>) -> (a: GatewayAction)
        requires
            old(self).phase is Connected,
        ensures
            connected_step(
                *old(self),
                old(self).phase->Connected_heartbeat_interval,
                GatewayInput::Frame { parsed },
                *final(self),
                a,
            ),
    {
        let j = match parsed {
            Some(j) => j,
            None => {
                return GatewayAction::Nothing;
            },
        };
        let env = match decode_envelope(j) {
            Some(env) => env,
            None => {
                return GatewayAction::Nothing;
            },
        };
        if env.op != 0 {
            return GatewayAction::Nothing;
        }
        if let Some(n) = env.s {
            self.session.last_sequence = Some(n);
        }
        match &env.t {
            Some(t) => match decode_event(t, &env.d) {
                Some(ev) => GatewayAction::YieldEvent(ev),
                None => GatewayAction::Nothing,
            },
            None => GatewayAction::Nothing,
        }
    }
}

/// One recorded step of a run: the input that arrived, the state it
/// left, and the action it asked for.
pub type TraceStep = (GatewayInput, GatewayConnection, GatewayAction);

/// Whether a recorded run is a chain of legal transitions from `s0`.
pub open spec fn run_ok(s0: GatewayConnection, steps: Seq<TraceStep>) -> bool
    decreases steps.len(),
{
    steps.len() == 0 || {
        &&& step_ok(s0, steps[0].0, steps[0].1, steps[0].2)
        &&& run_ok(steps[0].1, steps.drop_first())
    }
}

/// The state a run ends in.
pub open spec fn last_state(s0: GatewayConnection, steps: Seq<TraceStep>) -> GatewayConnection
    decreases steps.len(),
{
    if steps.len() == 0 {
        s0
    } else {
        last_state(steps[0].1, steps.drop_first())
    }
}

/// No two of the three outbound frame shapes coincide: a heartbeat is
/// never a handshake reply.
pub proof fn lemma_heartbeat_is_no_reply(
    s: Option<u64>,
    params: ConnParams,
    resume: Option<ReconnectInfo>,
)
    ensures
        heartbeat_text(s) != reply_text(params, resume),
{
    reveal_strlit("{\"op\":1,\"d\":");
    reveal_strlit("{\"op\":2,\"d\":{\"token\":\"");
    reveal_strlit("{\"op\":6,\"d\":{\"token\":\"");
    assert(heartbeat_text(s)[6] == '1');
    match resume {
        Some(info) => {
            assert(reply_text(params, resume)[6] == '6');
        },
        None => {
            assert(reply_text(params, resume)[6] == '2');
        },
    }
}

/// Whether an input is the arrival of a Hello frame.
pub open spec fn hello_frame_input(input: GatewayInput) -> bool {
    input matches GatewayInput::Frame { parsed } && frame_is_hello(parsed)
}

/// A handshake attempt issues exactly one Identify or Resume: a
/// transition sends a handshake reply precisely when the machine stands
/// before the server's Hello and that Hello arrives, and that
/// transition leaves the awaiting phase, so it cannot fire again before
/// a new attempt; subsequent traffic is only accepted once connected.
pub proof fn lemma_one_reply_per_attempt(
    pre: GatewayConnection,
    input: GatewayInput,
    post: GatewayConnection,
    a: GatewayAction,
)
    requires
        step_ok(pre, input, post, a),
    ensures
        sends_handshake_reply(a, pre.conn_params, pre.resume) <==> (pre.phase is AwaitingHello
            && hello_frame_input(input)),
        (pre.phase is AwaitingHello && hello_frame_input(input)) ==> post.phase is Identifying,
        a is YieldEvent ==> pre.phase is Connected,
{
    if pre.phase matches ConnectionPhase::Connected { heartbeat_interval } {
        if input is HeartbeatTick {
            lemma_heartbeat_is_no_reply(pre.session.last_sequence, pre.conn_params, pre.resume);
        }
    }
}

/// The connection parameters never change: every transition keeps them.
pub proof fn lemma_params_preserved(
    pre: GatewayConnection,
    input: GatewayInput,
    post: GatewayConnection,
    a: GatewayAction,
)
    requires
        step_ok(pre, input, post, a),
    ensures
        post.conn_params == pre.conn_params,
{
}

/// How many steps of a run send a handshake reply.
pub open spec fn count_replies(s0: GatewayConnection, steps: Seq<TraceStep>) -> int
    decreases steps.len(),
{
    if steps.len() == 0 {
        0
    } else {
        (if sends_handshake_reply(steps[0].2, s0.conn_params, s0.resume) {
            1int
        } else {
            0int
        }) + count_replies(steps[0].1, steps.drop_first())
    }
}

/// How many steps of a run accept a Hello while awaiting one.
pub open spec fn count_hellos_accepted(s0: GatewayConnection, steps: Seq<TraceStep>) -> int
    decreases steps.len(),
{
    if steps.len() == 0 {
        0
    } else {
        (if s0.phase is AwaitingHello && hello_frame_input(steps[0].0) {
            1int
        } else {
            0int
        }) + count_hellos_accepted(steps[0].1, steps.drop_first())
    }
}

/// Over a whole run, exactly one Identify or Resume goes out per
/// accepted Hello: the reply count equals the count of steps that stand
/// before a Hello and receive it.
pub proof fn lemma_run_one_reply_per_hello(s0: GatewayConnection, steps: Seq<TraceStep>)
    requires
        run_ok(s0, steps),
    ensures
        count_replies(s0, steps) == count_hellos_accepted(s0, steps),
    decreases steps.len(),
{
    if steps.len() > 0 {
        lemma_one_reply_per_attempt(s0, steps[0].0, steps[0].1, steps[0].2);
        lemma_run_one_reply_per_hello(steps[0].1, steps.drop_first());
    }
}

/// A dispatch envelope's sequence number is recorded, and the next
/// heartbeat carries it.
pub proof fn lemma_heartbeat_carries_last_sequence(
    s0: GatewayConnection,
    j: JsonValue,
    env: Envelope,
    n: u64,
    s1: GatewayConnection,
    a1: GatewayAction,
    s2: GatewayConnection,
    a2: GatewayAction,
)
    requires
        s0.phase is Connected,
        spec_envelope(j) == Some(env),
        env.op == 0,
        env.s == Some(n),
        step_ok(s0, GatewayInput::Frame { parsed: Some(j) }, s1, a1),
        step_ok(s1, GatewayInput::HeartbeatTick, s2, a2),
    ensures
        s1.session.last_sequence == Some(n),
        a2 matches GatewayAction::SendFrame(f) && f@ == heartbeat_text(Some(n)),
        s2 == s1,
{
}

/// The recorded sequence number changes only when a dispatch envelope
/// carries a new one, or when a reconnect resets the session.
pub proof fn lemma_sequence_superseded_only_by_dispatch(
    pre: GatewayConnection,
    input: GatewayInput,
    post: GatewayConnection,
    a: GatewayAction,
)
    requires
        step_ok(pre, input, post, a),
        post.session.last_sequence != pre.session.last_sequence,
    ensures
        (input matches GatewayInput::Frame { parsed: Some(j) } && spec_envelope(j) matches Some(env)
            && env.op == 0 && env.s is Some && post.session.last_sequence == env.s) || (input
            is StreamEnded && post.session.last_sequence is None),
{
}

/// Each end of the transport stream in the connected phase starts
/// exactly one fresh handshake attempt, and nothing else starts one; the
/// reconnect itself never terminates the sequence.
pub proof fn lemma_reconnect(
    pre: GatewayConnection,
    input: GatewayInput,
    post: GatewayConnection,
    a: GatewayAction,
)
    requires
        step_ok(pre, input, post, a),
    ensures
        (a is OpenSocket) <==> (pre.phase is Connected && input is StreamEnded),
        (pre.phase is Connected && input is StreamEnded) ==> (post.phase is Opening && !(a
            is Fatal) && !(post.phase is Closed)),
{
}

/// Without a fatal action the sequence does not terminate: no transition
/// closes the machine silently.
pub proof fn lemma_no_fatal_no_termination(
    pre: GatewayConnection,
    input: GatewayInput,
    post: GatewayConnection,
    a: GatewayAction,
)
    requires
        step_ok(pre, input, post, a),
        !(pre.phase is Closed),
        !(a is Fatal),
    ensures
        !(post.phase is Closed),
{
}

/// How many steps of a run ask for a fresh socket.
pub open spec fn count_opens(steps: Seq<TraceStep>) -> int
    decreases steps.len(),
{
    if steps.len() == 0 {
        0
    } else {
        (if steps[0].2 is OpenSocket {
            1int
        } else {
            0int
        }) + count_opens(steps.drop_first())
    }
}

/// How many steps of a run see the transport stream end while connected.
pub open spec fn count_stream_ends(s0: GatewayConnection, steps: Seq<TraceStep>) -> int
    decreases steps.len(),
{
    if steps.len() == 0 {
        0
    } else {
        (if s0.phase is Connected && steps[0].0 is StreamEnded {
            1int
        } else {
            0int
        }) + count_stream_ends(steps[0].1, steps.drop_first())
    }
}

/// Reconnect idempotence over a whole run: however often the transport
/// stream ends while connected, exactly that many fresh handshake
/// attempts are started, and if no step was fatal the sequence has not
/// terminated.
pub proof fn lemma_run_reconnects(s0: GatewayConnection, steps: Seq<TraceStep>)
    requires
        run_ok(s0, steps),
        !(s0.phase is Closed),
        forall|i: int| 0 <= i < steps.len() ==> !((#[trigger] steps[i]).2 is Fatal),
    ensures
        count_opens(steps) == count_stream_ends(s0, steps),
        !(last_state(s0, steps).phase is Closed),
    decreases steps.len(),
{
    if steps.len() > 0 {
        lemma_reconnect(s0, steps[0].0, steps[0].1, steps[0].2);
        lemma_no_fatal_no_termination(s0, steps[0].0, steps[0].1, steps[0].2);
        assert(forall|i: int| 0 <= i < steps.drop_first().len() ==> !((#[trigger] steps.drop_first()[i]).2
            is Fatal));
        lemma_run_reconnects(steps[0].1, steps.drop_first());
    }
}

/// An unrecognized opcode or event type never aborts the sequence: the
/// packet is discarded with no event and no error, the machine stays
/// connected, and one subsequent valid dispatch envelope still yields
/// its event.
pub proof fn lemma_unrecognized_discarded(
    s0: GatewayConnection,
    j1: JsonValue,
    env1: Envelope,
    s1: GatewayConnection,
    a1: GatewayAction,
    j2: JsonValue,
    env2: Envelope,
    t2: String,
    s2: GatewayConnection,
    a2: GatewayAction,
)
    requires
        s0.phase is Connected,
        spec_envelope(j1) == Some(env1),
        env1.op == 0 ==> (env1.t matches Some(t) && !event_decodable(t, env1.d)),
        step_ok(s0, GatewayInput::Frame { parsed: Some(j1) }, s1, a1),
        spec_envelope(j2) == Some(env2),
        env2.op == 0,
        env2.t == Some(t2),
        event_decodable(t2, env2.d),
        step_ok(s1, GatewayInput::Frame { parsed: Some(j2) }, s2, a2),
    ensures
        a1 is Nothing,
        s1.phase is Connected,
        a2 matches GatewayAction::YieldEvent(ev) && event_matches(t2, env2.d, ev),
        s2.phase is Connected,
{
}

/// A fatal error is terminal, and terminal is final: after the phase
/// closes, every step does nothing and yields nothing.
pub proof fn lemma_fatal_is_terminal(
    pre: GatewayConnection,
    input: GatewayInput,
    post: GatewayConnection,
    a: GatewayAction,
)
    requires
        step_ok(pre, input, post, a),
    ensures
        a is Fatal ==> post.phase is Closed,
        pre.phase is Closed ==> post == pre && a is Nothing,
{
}

/// After the sequence has ended, a run yields no further items: every
/// later step does nothing.
pub proof fn lemma_closed_run(s0: GatewayConnection, steps: Seq<TraceStep>)
    requires
        run_ok(s0, steps),
        s0.phase is Closed,
    ensures
        forall|i: int| 0 <= i < steps.len() ==> (#[trigger] steps[i]).2 is Nothing && steps[i].1.phase
            is Closed,
    decreases steps.len(),
{
    if steps.len() > 0 {
        lemma_fatal_is_terminal(s0, steps[0].0, steps[0].1, steps[0].2);
        lemma_closed_run(steps[0].1, steps.drop_first());
        assert forall|i: int| 0 <= i < steps.len() implies (#[trigger] steps[i]).2 is Nothing
            && steps[i].1.phase is Closed by {
            if i > 0 {
                assert(steps[i] == steps.drop_first()[i - 1]);
            }
        }
    }
}

} // verus!
