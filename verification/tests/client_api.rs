use noob::client::{
    auth_header_value, build_messages_url, channel_messages_url, interpret_api_response,
    interpret_gateway_response, interpret_message_list, ListAnchor,
};
use noob::Error;

#[test]
fn auth_header_is_exact() {
    assert_eq!(auth_header_value("abc"), "Bot abc");
}

#[test]
fn bootstrap_unauthorized_is_the_terminal_error() {
    assert_eq!(
        interpret_gateway_response(401, "{\"url\":\"wss://x\"}"),
        Err(Error::AuthenticationFailed)
    );
}

#[test]
fn bootstrap_ok_returns_the_gateway_url() {
    assert_eq!(
        interpret_gateway_response(200, "{\"url\":\"wss://gateway.example/?v=6\"}"),
        Ok("wss://gateway.example/?v=6".to_string())
    );
}

#[test]
fn bootstrap_rejects_malformed_bodies() {
    assert_eq!(
        interpret_gateway_response(200, "{oops"),
        Err(Error::Other("Unable to parse Gateway API response".to_string()))
    );
    assert_eq!(
        interpret_gateway_response(200, "{\"url\":7}"),
        Err(Error::Other("Unable to parse Gateway API response".to_string()))
    );
    assert_eq!(
        interpret_gateway_response(200, "{\"url\":\"no scheme at all\"}"),
        Err(Error::Other("Unable to parse Gateway URL".to_string()))
    );
}

#[test]
fn bootstrap_reports_unexpected_statuses() {
    assert_eq!(
        interpret_gateway_response(502, "irrelevant"),
        Err(Error::Other("Gateway request returned unexpected status 502".to_string()))
    );
}

#[test]
fn api_responses_fail_with_their_body() {
    assert_eq!(interpret_api_response(200, ""), Ok(()));
    assert_eq!(interpret_api_response(204, ""), Ok(()));
    assert_eq!(
        interpret_api_response(404, "missing"),
        Err(Error::Other("Error in remote response: missing".to_string()))
    );
}

#[test]
fn message_post_url_is_exact() {
    assert_eq!(
        channel_messages_url("123"),
        "https://discordapp.com/api/v6/channels/123/messages"
    );
}

#[test]
fn message_list_url_encodes_its_parts() {
    let id = "1 2".to_string();
    let url = build_messages_url("a b", &ListAnchor::Around(&id), Some(50));
    assert_eq!(
        url,
        "https://discordapp.com/api/v6/channels/a%20b/messages?around=1+2&limit=50"
    );
    let id = "77".to_string();
    let url = build_messages_url("chan", &ListAnchor::Before(&id), None);
    assert_eq!(url, "https://discordapp.com/api/v6/channels/chan/messages?before=77");
    let url = build_messages_url("chan", &ListAnchor::After(&id), None);
    assert_eq!(url, "https://discordapp.com/api/v6/channels/chan/messages?after=77");
}

#[test]
fn message_list_bodies_decode() {
    let body = "[{\"id\":\"1\",\"channel_id\":\"2\",\"author\":{\"id\":\"a\",\
                \"username\":\"u\",\"discriminator\":\"0\",\"avatar\":null},\
                \"content\":\"c\",\"timestamp\":\"t\",\"edited_timestamp\":null,\
                \"tts\":false,\"mention_everyone\":true,\"mentions\":[],\
                \"mention_roles\":[\"r1\"]}]";
    let ms = interpret_message_list(body).expect("must decode");
    assert_eq!(ms.len(), 1);
    assert_eq!(ms[0].id, "1");
    assert_eq!(ms[0].channel_id, "2");
    assert_eq!(ms[0].author.username, "u");
    assert_eq!(ms[0].content, "c");
    assert!(ms[0].mention_everyone);
    assert_eq!(ms[0].mention_roles, vec!["r1".to_string()]);

    assert_eq!(
        interpret_message_list("{\"not\":\"a list\"}"),
        Err(Error::Other("Unable to parse Gateway API response".to_string()))
    );
    assert_eq!(
        interpret_message_list("[{\"id\":\"1\"}]"),
        Err(Error::Other("Unable to parse Gateway API response".to_string()))
    );
}
