use noob::codec::{decode_envelope, decode_event, heartbeat_frame, identify_frame, resume_frame};
use noob::json::{parse_json, JsonValue};
use noob::text::dec_string;

#[test]
fn decimal_rendering_is_exact() {
    assert_eq!(dec_string(0), "0");
    assert_eq!(dec_string(7), "7");
    assert_eq!(dec_string(12345), "12345");
    assert_eq!(dec_string(u64::MAX), "18446744073709551615");
}

#[test]
fn heartbeat_frames_are_exact() {
    assert_eq!(heartbeat_frame(None), "{\"op\":1,\"d\":null}");
    assert_eq!(heartbeat_frame(Some(0)), "{\"op\":1,\"d\":0}");
    assert_eq!(heartbeat_frame(Some(41258)), "{\"op\":1,\"d\":41258}");
}

#[test]
fn identify_frame_escapes_the_token() {
    assert_eq!(
        identify_frame("a\"b\\c"),
        "{\"op\":2,\"d\":{\"token\":\"a\\\"b\\\\c\",\"properties\":{\"$os\":\"linux\",\"$browser\":\"noob\",\"$device\":\"noob\"},\"compress\":false}}"
    );
    assert_eq!(
        identify_frame("x\ny\t\r"),
        "{\"op\":2,\"d\":{\"token\":\"x\\ny\\t\\r\",\"properties\":{\"$os\":\"linux\",\"$browser\":\"noob\",\"$device\":\"noob\"},\"compress\":false}}"
    );
    assert_eq!(
        identify_frame("\u{1}\u{1f}"),
        "{\"op\":2,\"d\":{\"token\":\"\\u0001\\u001f\",\"properties\":{\"$os\":\"linux\",\"$browser\":\"noob\",\"$device\":\"noob\"},\"compress\":false}}"
    );
}

#[test]
fn identify_frame_round_trips_through_json() {
    // the built frame is valid JSON carrying the original token
    let frame = identify_frame("a\"b\\c\nd");
    let parsed = parse_json(&frame).expect("frame must parse");
    let env = decode_envelope(parsed).expect("frame must be an envelope");
    assert_eq!(env.op, 2);
    match &env.d {
        JsonValue::Obj(d) => {
            let token = d.iter().find(|f| f.0 == "token").expect("token field");
            assert_eq!(token.1, JsonValue::Str("a\"b\\c\nd".to_string()));
            let compress = d.iter().find(|f| f.0 == "compress").expect("compress field");
            assert_eq!(compress.1, JsonValue::Bool(false));
        }
        other => panic!("unexpected payload: {:?}", other),
    }
}

#[test]
fn empty_token_still_frames() {
    assert_eq!(
        identify_frame(""),
        "{\"op\":2,\"d\":{\"token\":\"\",\"properties\":{\"$os\":\"linux\",\"$browser\":\"noob\",\"$device\":\"noob\"},\"compress\":false}}"
    );
}

#[test]
fn resume_frame_is_exact() {
    assert_eq!(
        resume_frame("tok", "abc", 1234),
        "{\"op\":6,\"d\":{\"token\":\"tok\",\"session_id\":\"abc\",\"seq\":1234}}"
    );
}

#[test]
fn parse_json_models_every_kind_of_value() {
    let parsed = parse_json("{\"a\":[1,-2,true,null,\"s\",2.5]}").expect("must parse");
    assert_eq!(
        parsed,
        JsonValue::Obj(vec![(
            "a".to_string(),
            JsonValue::Arr(vec![
                JsonValue::UInt(1),
                JsonValue::NInt(-2),
                JsonValue::Bool(true),
                JsonValue::Null,
                JsonValue::Str("s".to_string()),
                JsonValue::Frac,
            ]),
        )])
    );
    assert_eq!(parse_json("{oops"), None);
    assert_eq!(parse_json("18446744073709551615"), Some(JsonValue::UInt(u64::MAX)));
    assert_eq!(parse_json("-9223372036854775808"), Some(JsonValue::NInt(i64::MIN)));
}

#[test]
fn envelope_rejects_malformed_documents() {
    // opcode too large for a byte
    let doc = parse_json("{\"op\":300,\"d\":null}").unwrap();
    assert_eq!(decode_envelope(doc), None);
    // missing payload
    let doc = parse_json("{\"op\":0}").unwrap();
    assert_eq!(decode_envelope(doc), None);
    // sequence of the wrong type
    let doc = parse_json("{\"op\":0,\"d\":null,\"s\":\"x\"}").unwrap();
    assert_eq!(decode_envelope(doc), None);
    // not an object
    let doc = parse_json("[1,2]").unwrap();
    assert_eq!(decode_envelope(doc), None);
}

#[test]
fn envelope_accepts_the_largest_opcode() {
    let doc = parse_json("{\"op\":255,\"d\":null}").unwrap();
    let env = decode_envelope(doc).expect("must decode");
    assert_eq!(env.op, 255);
}

#[test]
fn duplicate_keys_keep_the_last_value() {
    let parsed = parse_json("{\"a\":1,\"a\":2}").expect("must parse");
    assert_eq!(
        parsed,
        JsonValue::Obj(vec![("a".to_string(), JsonValue::UInt(2))])
    );
}

#[test]
fn envelope_accepts_null_and_absent_optionals() {
    let doc = parse_json("{\"op\":11,\"d\":null,\"s\":null,\"t\":null}").unwrap();
    let env = decode_envelope(doc).expect("must decode");
    assert_eq!(env.op, 11);
    assert_eq!(env.s, None);
    assert_eq!(env.t, None);
    assert_eq!(env.d, JsonValue::Null);

    let doc = parse_json("{\"op\":0,\"d\":{},\"s\":3,\"t\":\"X\",\"extra\":1}").unwrap();
    let env = decode_envelope(doc).expect("must decode");
    assert_eq!(env.op, 0);
    assert_eq!(env.s, Some(3));
    assert_eq!(env.t, Some("X".to_string()));
}

#[test]
fn event_decoding_rejects_incomplete_payloads() {
    // READY whose user misses a required field yields nothing
    let d = parse_json("{\"user\":{\"id\":\"1\",\"username\":\"u\"}}").unwrap();
    assert_eq!(decode_event(&"READY".to_string(), &d), None);
    // MESSAGE_CREATE whose mentions hold a non-user yields nothing
    let d = parse_json(
        "{\"id\":\"1\",\"channel_id\":\"2\",\"author\":{\"id\":\"a\",\"username\":\"u\",\
         \"discriminator\":\"0\"},\"content\":\"c\",\"timestamp\":\"t\",\"tts\":false,\
         \"mention_everyone\":false,\"mentions\":[42],\"mention_roles\":[]}",
    )
    .unwrap();
    assert_eq!(decode_event(&"MESSAGE_CREATE".to_string(), &d), None);
    // unknown event types yield nothing
    let d = parse_json("{}").unwrap();
    assert_eq!(decode_event(&"TYPING_START".to_string(), &d), None);
}
