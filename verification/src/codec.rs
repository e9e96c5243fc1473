//! The gateway's envelope codec: decoding inbound `{op, d, s, t}`
//! envelopes and the event payloads they carry, and building the outbound
//! Identify, Resume and Heartbeat frames as exact text.

use crate::events::{Event, Myself, ReadyData};
use crate::json::{
    get_bool, get_bool_default, get_opt_str, get_opt_u64, get_str, jbool, jbool_default, jopt_str,
    jopt_u64, jstr, lookup, lookup_index, obj_get, JsonValue,
};
use crate::text::{append_dec, append_escaped, dec_str, esc};
use crate::types::{Message, User};
use vstd::prelude::*;
use vstd::string::StringExecFns;

verus! {

/// The envelope wrapping every gateway packet: an opcode, a payload, and
/// on dispatch packets a sequence number and an event type name.
#[derive(Debug, PartialEq)]
pub struct Envelope {
    /// Opcode
    pub op: u8,
    /// Sequence number, present on dispatch envelopes
    pub s: Option<u64>,
    /// Event type name, present on dispatch envelopes
    pub t: Option<String>,
    /// Payload, interpreted according to `op` and `t`
    pub d: JsonValue,
}

/// How a decoded JSON document reads as an envelope: an object whose
/// `op` fits a byte, whose `s` and `t` are absent, `null`, or of their
/// type, and whose `d` is present.
pub open spec fn spec_envelope(j: JsonValue) -> Option<Envelope> {
    match j {
        JsonValue::Obj(fields) => {
            match obj_get(fields@, "op"@) {
                Some(JsonValue::UInt(op)) => {
                    if op <= 255 {
                        match (jopt_u64(obj_get(fields@, "s"@)), jopt_str(obj_get(fields@, "t"@))) {
                            (Some(s), Some(t)) => match obj_get(fields@, "d"@) {
                                Some(d) => Some(Envelope { op: op as u8, s, t, d }),
                                None => None,
                            },
                            _ => None,
                        }
                    } else {
                        None
                    }
                },
                _ => None,
            }
        },
        _ => None,
    }
}

/// Decodes a JSON document as an envelope, taking the payload by value.
pub fn decode_envelope(j: JsonValue) -> (r: Option<Envelope>)
    ensures
        r == spec_envelope(j),
{
    let mut fields = match j {
        JsonValue::Obj(fields) => fields,
        _ => {
            return None;
        },
    };
    let op: u8 = match lookup(&fields, "op") {
        Some(v) => match v {
            JsonValue::UInt(n) => {
                if *n <= 255 {
                    *n as u8
                } else {
                    return None;
                }
            },
            _ => {
                return None;
            },
        },
        None => {
            return None;
        },
    };
    let s: Option<u64> = match get_opt_u64(&fields, "s") {
        Some(s) => s,
        None => {
            return None;
        },
    };
    let t: Option<String> = match get_opt_str(&fields, "t") {
        Some(t) => t,
        None => {
            return None;
        },
    };
    let d: JsonValue = match lookup_index(&fields, "d") {
        Some(i) => fields.swap_remove(i).1,
        None => {
            return None;
        },
    };
    Some(Envelope { op, s, t, d })
}

/// The negotiated heartbeat interval, when an envelope is the server's
/// Hello: opcode ten with a payload object carrying `heartbeat_interval`.
pub open spec fn spec_hello_interval(env: Envelope) -> Option<u64> {
    if env.op == 10 {
        match env.d {
            JsonValue::Obj(fields) => match obj_get(fields@, "heartbeat_interval"@) {
                Some(JsonValue::UInt(n)) => Some(n),
                _ => None,
            },
            _ => None,
        }
    } else {
        None
    }
}

/// Reads the heartbeat interval out of a Hello envelope.
pub fn hello_interval(env: &Envelope) -> (r: Option<u64>)
    ensures
        r == spec_hello_interval(*env),
{
    if env.op != 10 {
        return None;
    }
    match &env.d {
        JsonValue::Obj(fields) => match lookup(fields, "heartbeat_interval") {
            Some(v) => match v {
                JsonValue::UInt(n) => Some(*n),
                _ => None,
            },
            _ => None,
        },
        _ => None,
    }
}

/// The heartbeat frame: opcode one, carrying the last seen sequence
/// number or `null`.
pub open spec fn heartbeat_text(s: Option<u64>) -> Seq<char> {
    "{\"op\":1,\"d\":"@ + (match s {
        Some(n) => dec_str(n as nat),
        None => "null"@,
    }) + "}"@
}

/// Builds a heartbeat frame.
pub fn heartbeat_frame(s: Option<u64>) -> (r: String)
    ensures
        r@ == heartbeat_text(s),
{
    let mut out = String::new();
    out.append("{\"op\":1,\"d\":");
    match s {
        Some(n) => append_dec(&mut out, n),
        None => out.append("null"),
    }
    out.append("}");
    proof {
        assert(out@ =~= heartbeat_text(s));
    }
    out
}

/// The identify frame: opcode two, carrying the authentication token, the
/// fixed client properties, and no compression.
pub open spec fn identify_text(token: Seq<char>) -> Seq<char> {
    "{\"op\":2,\"d\":{\"token\":\""@ + esc(token)
        + "\",\"properties\":{\"$os\":\"linux\",\"$browser\":\"noob\",\"$device\":\"noob\"},\"compress\":false}}"@
}

/// Builds an identify frame for a fresh session.
pub fn identify_frame(token: &str) -> (r: String)
    ensures
        r@ == identify_text(token@),
{
    let mut out = String::new();
    out.append("{\"op\":2,\"d\":{\"token\":\"");
    append_escaped(&mut out, token);
    out.append(
        "\",\"properties\":{\"$os\":\"linux\",\"$browser\":\"noob\",\"$device\":\"noob\"},\"compress\":false}}",
    );
    proof {
        assert(out@ =~= identify_text(token@));
    }
    out
}

/// The resume frame: opcode six, carrying the token, the session to
/// resume and the last seen sequence number.
pub open spec fn resume_text(token: Seq<char>, session_id: Seq<char>, seq_num: u64) -> Seq<char> {
    "{\"op\":6,\"d\":{\"token\":\""@ + esc(token) + "\",\"session_id\":\""@ + esc(session_id)
        + "\",\"seq\":"@ + dec_str(seq_num as nat) + "}}"@
}

/// Builds a resume frame for a previously established session.
pub fn resume_frame(token: &str, session_id: &str, seq_num: u64) -> (r: String)
    ensures
        r@ == resume_text(token@, session_id@, seq_num),
{
    let mut out = String::new();
    out.append("{\"op\":6,\"d\":{\"token\":\"");
    append_escaped(&mut out, token);
    out.append("\",\"session_id\":\"");
    append_escaped(&mut out, session_id);
    out.append("\",\"seq\":");
    append_dec(&mut out, seq_num);
    out.append("}}");
    proof {
        assert(out@ =~= resume_text(token@, session_id@, seq_num));
    }
    out
}

/// How a JSON document reads as a user object.
pub open spec fn spec_user(j: JsonValue) -> Option<User> {
    match j {
        JsonValue::Obj(fields) => {
            match (
                jstr(obj_get(fields@, "id"@)),
                jstr(obj_get(fields@, "username"@)),
                jstr(obj_get(fields@, "discriminator"@)),
                jopt_str(obj_get(fields@, "avatar"@)),
            ) {
                (Some(id), Some(username), Some(discriminator), Some(avatar)) => Some(
                    User { id, username, discriminator, avatar },
                ),
                _ => None,
            }
        },
        _ => None,
    }
}

/// Decodes a user object.
pub fn decode_user(j: &JsonValue) -> (r: Option<User>)
    ensures
        r == spec_user(*j),
{
    let fields = match j {
        JsonValue::Obj(fields) => fields,
        _ => {
            return None;
        },
    };
    let id = match get_str(fields, "id") {
        Some(v) => v,
        None => {
            return None;
        },
    };
    let username = match get_str(fields, "username") {
        Some(v) => v,
        None => {
            return None;
        },
    };
    let discriminator = match get_str(fields, "discriminator") {
        Some(v) => v,
        None => {
            return None;
        },
    };
    let avatar = match get_opt_str(fields, "avatar") {
        Some(v) => v,
        None => {
            return None;
        },
    };
    Some(User { id, username, discriminator, avatar })
}

/// How a JSON document reads as the authenticated user's data.
pub open spec fn spec_myself(j: JsonValue) -> Option<Myself> {
    match j {
        JsonValue::Obj(fields) => {
            match (
                jstr(obj_get(fields@, "id"@)),
                jstr(obj_get(fields@, "username"@)),
                jstr(obj_get(fields@, "discriminator"@)),
                jopt_str(obj_get(fields@, "avatar"@)),
                jbool_default(obj_get(fields@, "bot"@)),
                jbool(obj_get(fields@, "mfa_enabled"@)),
                jbool(obj_get(fields@, "verified"@)),
                jopt_str(obj_get(fields@, "email"@)),
            ) {
                (
                    Some(id),
                    Some(username),
                    Some(discriminator),
                    Some(avatar),
                    Some(bot),
                    Some(mfa_enabled),
                    Some(verified),
                    Some(email),
                ) => Some(
                    Myself { id, username, discriminator, avatar, bot, mfa_enabled, verified, email },
                ),
                _ => None,
            }
        },
        _ => None,
    }
}

/// Decodes the authenticated user's data.
pub fn decode_myself(j: &JsonValue) -> (r: Option<Myself>)
    ensures
        r == spec_myself(*j),
{
    let fields = match j {
        JsonValue::Obj(fields) => fields,
        _ => {
            return None;
        },
    };
    let id = match get_str(fields, "id") {
        Some(v) => v,
        None => {
            return None;
        },
    };
    let username = match get_str(fields, "username") {
        Some(v) => v,
        None => {
            return None;
        },
    };
    let discriminator = match get_str(fields, "discriminator") {
        Some(v) => v,
        None => {
            return None;
        },
    };
    let avatar = match get_opt_str(fields, "avatar") {
        Some(v) => v,
        None => {
            return None;
        },
    };
    let bot = match get_bool_default(fields, "bot") {
        Some(v) => v,
        None => {
            return None;
        },
    };
    let mfa_enabled = match get_bool(fields, "mfa_enabled") {
        Some(v) => v,
        None => {
            return None;
        },
    };
    let verified = match get_bool(fields, "verified") {
        Some(v) => v,
        None => {
            return None;
        },
    };
    let email = match get_opt_str(fields, "email") {
        Some(v) => v,
        None => {
            return None;
        },
    };
    Some(Myself { id, username, discriminator, avatar, bot, mfa_enabled, verified, email })
}

/// How a JSON array reads as a list of users: every element must read as
/// one.
pub open spec fn spec_users(s: Seq<JsonValue>) -> Option<Seq<User>>
    decreases s.len(),
{
    if s.len() == 0 {
        Some(Seq::empty())
    } else {
        match (spec_users(s.drop_last()), spec_user(s.last())) {
            (Some(init), Some(u)) => Some(init.push(u)),
            _ => None,
        }
    }
}

/// Decodes a list of users.
pub fn decode_users(items: &Vec<JsonValue>) -> (r: Option<Vec<User>>)
    ensures
        match r {
            Some(us) => spec_users(items@) == Some(us@),
            None => spec_users(items@) is None,
        },
{
    let n = items.len();
    let mut out: Vec<User> = Vec::new();
    let mut i: usize = 0;
    while i < n
        invariant
            i <= n,
            n == items@.len(),
            spec_users(items@.subrange(0, i as int)) == Some(out@),
        decreases n - i,
    {
        match decode_user(&items[i]) {
            Some(u) => out.push(u),
            None => {
                proof {
                    lemma_users_prefix_fail(items@, i as int);
                }
                return None;
            },
        }
        proof {
            assert(items@.subrange(0, i as int + 1).drop_last() =~= items@.subrange(0, i as int));
            assert(items@.subrange(0, i as int + 1).last() == items@[i as int]);
        }
        i = i + 1;
    }
    proof {
        assert(items@.subrange(0, n as int) =~= items@);
    }
    Some(out)
}

/// When one element fails to read as a user, the whole list fails.
proof fn lemma_users_prefix_fail(s: Seq<JsonValue>, i: int)
    requires
        0 <= i < s.len(),
        spec_user(s[i]) is None,
    ensures
        spec_users(s) is None,
    decreases s.len(),
{
    if s.len() > 0 {
        if i == s.len() - 1 {
        } else {
            lemma_users_prefix_fail(s.drop_last(), i);
        }
    }
}

/// How a JSON array reads as a list of strings.
pub open spec fn spec_strings(s: Seq<JsonValue>) -> Option<Seq<String>>
    decreases s.len(),
{
    if s.len() == 0 {
        Some(Seq::empty())
    } else {
        match (spec_strings(s.drop_last()), s.last()) {
            (Some(init), JsonValue::Str(v)) => Some(init.push(v)),
            _ => None,
        }
    }
}

/// Decodes a list of strings.
pub fn decode_strings(items: &Vec<JsonValue>) -> (r: Option<Vec<String>>)
    ensures
        match r {
            Some(vs) => spec_strings(items@) == Some(vs@),
            None => spec_strings(items@) is None,
        },
{
    let n = items.len();
    let mut out: Vec<String> = Vec::new();
    let mut i: usize = 0;
    while i < n
        invariant
            i <= n,
            n == items@.len(),
            spec_strings(items@.subrange(0, i as int)) == Some(out@),
        decreases n - i,
    {
        match &items[i] {
            JsonValue::Str(v) => out.push(v.clone()),
            _ => {
                proof {
                    lemma_strings_prefix_fail(items@, i as int);
                }
                return None;
            },
        }
        proof {
            assert(items@.subrange(0, i as int + 1).drop_last() =~= items@.subrange(0, i as int));
            assert(items@.subrange(0, i as int + 1).last() == items@[i as int]);
        }
        i = i + 1;
    }
    proof {
        assert(items@.subrange(0, n as int) =~= items@);
    }
    Some(out)
}

/// When one element is not a string, the whole list fails.
proof fn lemma_strings_prefix_fail(s: Seq<JsonValue>, i: int)
    requires
        0 <= i < s.len(),
        !(s[i] is Str),
    ensures
        spec_strings(s) is None,
    decreases s.len(),
{
    if s.len() > 0 {
        if i == s.len() - 1 {
        } else {
            lemma_strings_prefix_fail(s.drop_last(), i);
        }
    }
}

/// Whether a JSON document carries all the fields of a channel message,
/// each of its required type.
pub open spec fn message_decodable(j: JsonValue) -> bool {
    match j {
        JsonValue::Obj(fields) => {
            &&& jstr(obj_get(fields@, "id"@)) is Some
            &&& jstr(obj_get(fields@, "channel_id"@)) is Some
            &&& match obj_get(fields@, "author"@) {
                Some(a) => spec_user(a) is Some,
                None => false,
            }
            &&& jstr(obj_get(fields@, "content"@)) is Some
            &&& jstr(obj_get(fields@, "timestamp"@)) is Some
            &&& jopt_str(obj_get(fields@, "edited_timestamp"@)) is Some
            &&& jbool(obj_get(fields@, "tts"@)) is Some
            &&& jbool(obj_get(fields@, "mention_everyone"@)) is Some
            &&& match obj_get(fields@, "mentions"@) {
                Some(JsonValue::Arr(items)) => spec_users(items@) is Some,
                _ => false,
            }
            &&& match obj_get(fields@, "mention_roles"@) {
                Some(JsonValue::Arr(items)) => spec_strings(items@) is Some,
                _ => false,
            }
        },
        _ => false,
    }
}

/// Whether `m` is the channel message that the JSON document `j` carries,
/// field by field.
pub open spec fn message_matches(j: JsonValue, m: Message) -> bool {
    match j {
        JsonValue::Obj(fields) => {
            &&& jstr(obj_get(fields@, "id"@)) == Some(m.id)
            &&& jstr(obj_get(fields@, "channel_id"@)) == Some(m.channel_id)
            &&& match obj_get(fields@, "author"@) {
                Some(a) => spec_user(a) == Some(m.author),
                None => false,
            }
            &&& jstr(obj_get(fields@, "content"@)) == Some(m.content)
            &&& jstr(obj_get(fields@, "timestamp"@)) == Some(m.timestamp)
            &&& jopt_str(obj_get(fields@, "edited_timestamp"@)) == Some(m.edited_timestamp)
            &&& jbool(obj_get(fields@, "tts"@)) == Some(m.tts)
            &&& jbool(obj_get(fields@, "mention_everyone"@)) == Some(m.mention_everyone)
            &&& match obj_get(fields@, "mentions"@) {
                Some(JsonValue::Arr(items)) => spec_users(items@) == Some(m.mentions@),
                _ => false,
            }
            &&& match obj_get(fields@, "mention_roles"@) {
                Some(JsonValue::Arr(items)) => spec_strings(items@) == Some(m.mention_roles@),
                _ => false,
            }
        },
        _ => false,
    }
}

/// Decodes a channel message: succeeds exactly when every field is there
/// with its required type, and then returns that message.
pub fn decode_message(j: &JsonValue) -> (r: Option<Message>)
    ensures
        match r {
            Some(m) => message_decodable(*j) && message_matches(*j, m),
            None => !message_decodable(*j),
        },
{
    let fields = match j {
        JsonValue::Obj(fields) => fields,
        _ => {
            return None;
        },
    };
    let id = match get_str(fields, "id") {
        Some(v) => v,
        None => {
            return None;
        },
    };
    let channel_id = match get_str(fields, "channel_id") {
        Some(v) => v,
        None => {
            return None;
        },
    };
    let author = match lookup(fields, "author") {
        Some(a) => match decode_user(a) {
            Some(u) => u,
            None => {
                return None;
            },
        },
        None => {
            return None;
        },
    };
    let content = match get_str(fields, "content") {
        Some(v) => v,
        None => {
            return None;
        },
    };
    let timestamp = match get_str(fields, "timestamp") {
        Some(v) => v,
        None => {
            return None;
        },
    };
    let edited_timestamp = match get_opt_str(fields, "edited_timestamp") {
        Some(v) => v,
        None => {
            return None;
        },
    };
    let tts = match get_bool(fields, "tts") {
        Some(v) => v,
        None => {
            return None;
        },
    };
    let mention_everyone = match get_bool(fields, "mention_everyone") {
        Some(v) => v,
        None => {
            return None;
        },
    };
    let mentions = match lookup(fields, "mentions") {
        Some(v) => match v {
            JsonValue::Arr(items) => match decode_users(items) {
                Some(us) => us,
                None => {
                    return None;
                },
            },
            _ => {
                return None;
            },
        },
        None => {
            return None;
        },
    };
    let mention_roles = match lookup(fields, "mention_roles") {
        Some(v) => match v {
            JsonValue::Arr(items) => match decode_strings(items) {
                Some(vs) => vs,
                None => {
                    return None;
                },
            },
            _ => {
                return None;
            },
        },
        None => {
            return None;
        },
    };
    Some(
        Message {
            id,
            channel_id,
            author,
            content,
            timestamp,
            edited_timestamp,
            tts,
            mention_everyone,
            mentions,
            mention_roles,
        },
    )
}

/// What a dispatch envelope's payload yields under a given event type
/// name: whether an event is owed, and which.
pub open spec fn event_decodable(t: String, d: JsonValue) -> bool {
    if t@ == "READY"@ {
        match d {
            JsonValue::Obj(fields) => match obj_get(fields@, "user"@) {
                Some(u) => spec_myself(u) is Some,
                None => false,
            },
            _ => false,
        }
    } else if t@ == "MESSAGE_CREATE"@ {
        message_decodable(d)
    } else {
        false
    }
}

/// Whether `ev` is the event that the payload `d` yields under the event
/// type name `t`.
pub open spec fn event_matches(t: String, d: JsonValue, ev: Event) -> bool {
    if t@ == "READY"@ {
        match d {
            JsonValue::Obj(fields) => match obj_get(fields@, "user"@) {
                Some(u) => ev matches Event::Ready(rd) && spec_myself(u) == Some(rd.user),
                None => false,
            },
            _ => false,
        }
    } else if t@ == "MESSAGE_CREATE"@ {
        ev matches Event::MessageCreate(m) && message_matches(d, m)
    } else {
        false
    }
}

/// Maps a dispatch payload to a domain event: a `READY` payload's `user`
/// becomes [`Event::Ready`], a `MESSAGE_CREATE` payload becomes
/// [`Event::MessageCreate`]; an unrecognized name, or a payload that does
/// not decode, yields nothing.
pub fn decode_event(t: &String, d: &JsonValue) -> (r: Option<Event>)
    ensures
        match r {
            Some(ev) => event_decodable(*t, *d) && event_matches(*t, *d, ev),
            None => !event_decodable(*t, *d),
        },
{
    let ready: String = "READY".to_owned();
    let message_create: String = "MESSAGE_CREATE".to_owned();
    if *t == ready {
        match d {
            JsonValue::Obj(fields) => match lookup(fields, "user") {
                Some(u) => match decode_myself(u) {
                    Some(m) => Some(Event::Ready(ReadyData { user: m })),
                    None => None,
                },
                None => None,
            },
            _ => None,
        }
    } else if *t == message_create {
        match decode_message(d) {
            Some(m) => Some(Event::MessageCreate(m)),
            None => None,
        }
    } else {
        None
    }
}

} // verus!
