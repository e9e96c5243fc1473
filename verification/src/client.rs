//! Client-side logic around the gateway: interpreting the bootstrap
//! response that discovers the gateway URL, interpreting API responses,
//! and building API request paths and queries.

use vstd::prelude::*;

pub mod objects;
pub mod stream;

pub use stream::GatewayConnection;

use crate::error::Error;
use crate::json::{json_of, obj_get, parse_json, JsonValue};
use crate::text::{append_dec, dec_str};
use crate::types::Snowflake;
use vstd::string::StringExecFns;

verus! {

/// The authorization header value sent with every API request: the word
/// `Bot`, a space, and the token.
pub open spec fn auth_value_text(token: Seq<char>) -> Seq<char> {
    "Bot "@ + token
}

/// Builds the authorization header value for a bot token.
pub fn auth_header_value(token: &str) -> (r: String)
    ensures
        r@ == auth_value_text(token@),
{
    let mut out: String = "Bot ".to_owned();
    out.append(token);
    out
}

/// Whether a string parses as an absolute URL; a function of the string
/// alone.
pub uninterp spec fn url_ok(s: Seq<char>) -> bool;

/// Relies on `url::Url::parse`: whether it accepts the string, which
/// depends on the string alone.
#[verifier::external_body]
fn url_parse_ok(s: &str) -> (r: bool)
    ensures
        r == url_ok(s@),
{
    url::Url::parse(s).is_ok()
}

/// The gateway URL carried by a well-formed bootstrap response body: a
/// JSON object whose `url` field is a string.
pub open spec fn gateway_url_of(body: Seq<char>) -> Option<String> {
    match json_of(body) {
        Some(JsonValue::Obj(fields)) => match obj_get(fields@, "url"@) {
            Some(JsonValue::Str(u)) => Some(u),
            _ => None,
        },
        _ => None,
    }
}

/// What interpreting the bootstrap response must yield: a 401 is an
/// authentication failure; a 200 yields the body's gateway URL when the
/// body and the URL are well formed, and a described error otherwise;
/// any other status is a described unexpected-status error.
pub open spec fn bootstrap_outcome_ok(status: u16, body: Seq<char>, r: Result<String, Error>) -> bool {
    if status == 401 {
        r == Err::<String, Error>(Error::AuthenticationFailed)
    } else if status == 200 {
        match gateway_url_of(body) {
            Some(u) => if url_ok(u@) {
                r == Ok::<String, Error>(u)
            } else {
                r matches Err(Error::Other(m)) && m@ == "Unable to parse Gateway URL"@
            },
            None => r matches Err(Error::Other(m)) && m@ == "Unable to parse Gateway API response"@,
        }
    } else {
        r matches Err(Error::Other(m)) && m@ == "Gateway request returned unexpected status "@
            + dec_str(status as nat)
    }
}

/// Interprets the response to the gateway-discovery request.
///
/// The transport hands in the HTTP status and the response body text;
/// this decides between the one terminal authentication failure, a
/// usable gateway URL, and a described error.
pub fn interpret_gateway_response(status: u16, body: &str) -> (r: Result<String, Error>)
    ensures
        bootstrap_outcome_ok(status, body@, r),
{
    if status == 401 {
        return Err(Error::AuthenticationFailed);
    }
    if status != 200 {
        let mut m: String = "Gateway request returned unexpected status ".to_owned();
        append_dec(&mut m, status as u64);
        return Err(Error::Other(m));
    }
    let url: Option<String> = match parse_json(body) {
        Some(JsonValue::Obj(fields)) => match crate::json::get_str(&fields, "url") {
            Some(u) => Some(u),
            None => None,
        },
        _ => None,
    };
    match url {
        Some(u) => {
            if url_parse_ok(u.as_str()) {
                Ok(u)
            } else {
                Err(Error::Other("Unable to parse Gateway URL".to_owned()))
            }
        },
        None => Err(Error::Other("Unable to parse Gateway API response".to_owned())),
    }
}

/// The description of a non-success API response.
pub open spec fn remote_error_text(body: Seq<char>) -> Seq<char> {
    "Error in remote response: "@ + body
}

/// Interprets a plain API response: success statuses pass, anything else
/// becomes an error describing the response body.
pub fn interpret_api_response(status: u16, body: &str) -> (r: Result<(), Error>)
    ensures
        200 <= status < 300 ==> r == Ok::<(), Error>(()),
        !(200 <= status < 300) ==> (r matches Err(Error::Other(m)) && m@ == remote_error_text(
            body@,
        )),
{
    if 200 <= status && status < 300 {
        Ok(())
    } else {
        let mut m: String = "Error in remote response: ".to_owned();
        m.append(body);
        Err(Error::Other(m))
    }
}

/// The path of a channel's message collection.
pub open spec fn channel_messages_url_text(channel: Seq<char>) -> Seq<char> {
    "https://discordapp.com/api/v6/channels/"@ + channel + "/messages"@
}

/// Builds the URL messages are posted to for a channel.
pub fn channel_messages_url(channel: &str) -> (r: String)
    ensures
        r@ == channel_messages_url_text(channel@),
{
    let mut out: String = "https://discordapp.com/api/v6/channels/".to_owned();
    out.append(channel);
    out.append("/messages");
    out
}

/// What percent-encoding a string with the non-alphanumeric set yields;
/// a function of the string alone.
pub uninterp spec fn pct_encoded(s: Seq<char>) -> Seq<char>;

/// Relies on `percent_encoding::utf8_percent_encode` with
/// `NON_ALPHANUMERIC`: the encoded text depends on the input alone.
#[verifier::external_body]
fn percent_encode_str(s: &str) -> (r: String)
    ensures
        r@ == pct_encoded(s@),
{
    percent_encoding::utf8_percent_encode(s, percent_encoding::NON_ALPHANUMERIC).to_string()
}

/// What form-urlencoding a string yields; a function of the string
/// alone.
pub uninterp spec fn form_encoded(s: Seq<char>) -> Seq<char>;

/// Relies on `form_urlencoded::byte_serialize`: the encoded text depends
/// on the input alone.
#[verifier::external_body]
fn form_encode_str(s: &str) -> (r: String)
    ensures
        r@ == form_encoded(s@),
{
    form_urlencoded::byte_serialize(s.as_bytes()).collect()
}

/// How the message list should be paginated.
pub enum ListAnchor<'a> {
    /// Retrieve messages around the specified ID
    Around(&'a Snowflake),
    /// Retrieve messages before the specified ID
    Before(&'a Snowflake),
    /// Retrieve messages after the specified ID
    After(&'a Snowflake),
}

/// The query pair an anchor contributes: its key, an equals sign, and
/// its form-encoded ID.
pub open spec fn anchor_query_text(a: ListAnchor<'_>) -> Seq<char> {
    match a {
        ListAnchor::Around(id) => "around="@ + form_encoded(id@),
        ListAnchor::Before(id) => "before="@ + form_encoded(id@),
        ListAnchor::After(id) => "after="@ + form_encoded(id@),
    }
}

impl<'a> ListAnchor<'a> {
    /// Appends this anchor's query pair to a query under construction.
    pub fn write_to_query(&self, out: &mut String)
        ensures
            final(out)@ == old(out)@ + anchor_query_text(*self),
    {
        match self {
            ListAnchor::Around(id) => {
                out.append("around=");
                out.append(form_encode_str(id.as_str()).as_str());
            },
            ListAnchor::Before(id) => {
                out.append("before=");
                out.append(form_encode_str(id.as_str()).as_str());
            },
            ListAnchor::After(id) => {
                out.append("after=");
                out.append(form_encode_str(id.as_str()).as_str());
            },
        }
    }
}

/// The URL the message listing request is sent to: the channel's
/// percent-encoded message collection, the anchor's query pair, and,
/// when a limit is given, its form-encoded decimal rendering.
pub open spec fn messages_query_url_text(
    channel: Seq<char>,
    anchor: ListAnchor<'_>,
    limit: Option<u8>,
) -> Seq<char> {
    "https://discordapp.com/api/v6/channels/"@ + pct_encoded(channel) + "/messages?"@
        + anchor_query_text(anchor) + (match limit {
        Some(n) => "&limit="@ + form_encoded(dec_str(n as nat)),
        None => Seq::<char>::empty(),
    })
}

/// Builds the URL for listing a channel's messages.
pub fn build_messages_url(channel: &str, anchor: &ListAnchor<'_>, limit: Option<u8>) -> (r: String)
    ensures
        r@ == messages_query_url_text(channel@, *anchor, limit),
{
    let mut out: String = "https://discordapp.com/api/v6/channels/".to_owned();
    out.append(percent_encode_str(channel).as_str());
    out.append("/messages?");
    anchor.write_to_query(&mut out);
    match limit {
        Some(n) => {
            out.append("&limit=");
            let rendered = crate::text::dec_string(n as u64);
            out.append(form_encode_str(rendered.as_str()).as_str());
        },
        None => {},
    }
    proof {
        assert(out@ =~= messages_query_url_text(channel@, *anchor, limit));
    }
    out
}

/// Whether every element of a JSON array reads as a channel message.
pub open spec fn messages_decodable(items: Seq<JsonValue>) -> bool {
    forall|i: int| 0 <= i < items.len() ==> crate::codec::message_decodable(#[trigger] items[i])
}

/// Whether `ms` is, element by element, the message list a JSON array
/// carries.
pub open spec fn messages_match(items: Seq<JsonValue>, ms: Seq<crate::types::Message>) -> bool {
    &&& items.len() == ms.len()
    &&& forall|i: int| 0 <= i < items.len() ==> crate::codec::message_matches(
        #[trigger] items[i],
        ms[i],
    )
}

/// Decodes a JSON array as a message list.
pub fn decode_messages(items: &Vec<JsonValue>) -> (r: Option<Vec<crate::types::Message>>)
    ensures
        match r {
            Some(ms) => messages_decodable(items@) && messages_match(items@, ms@),
            None => !messages_decodable(items@),
        },
{
    let n = items.len();
    let mut out: Vec<crate::types::Message> = Vec::new();
    let mut i: usize = 0;
    while i < n
        invariant
            i <= n,
            n == items@.len(),
            out@.len() == i,
            forall|k: int| 0 <= k < i ==> crate::codec::message_decodable(#[trigger] items@[k]),
            forall|k: int| 0 <= k < i ==> crate::codec::message_matches(
                #[trigger] items@[k],
                out@[k],
            ),
        decreases n - i,
    {
        match crate::codec::decode_message(&items[i]) {
            Some(m) => out.push(m),
            None => {
                return None;
            },
        }
        i = i + 1;
    }
    Some(out)
}

/// What interpreting the message-listing response body must yield: the
/// decoded list when the body is a well-formed array of messages, and a
/// described error otherwise.
pub open spec fn message_list_outcome_ok(
    body: Seq<char>,
    r: Result<Vec<crate::types::Message>, Error>,
) -> bool {
    match json_of(body) {
        Some(JsonValue::Arr(items)) => if messages_decodable(items@) {
            r matches Ok(ms) && messages_match(items@, ms@)
        } else {
            r matches Err(Error::Other(m)) && m@ == "Unable to parse Gateway API response"@
        },
        _ => r matches Err(Error::Other(m)) && m@ == "Unable to parse Gateway API response"@,
    }
}

/// Interprets the response body of the message-listing request.
pub fn interpret_message_list(body: &str) -> (r: Result<Vec<crate::types::Message>, Error>)
    ensures
        message_list_outcome_ok(body@, r),
{
    match parse_json(body) {
        Some(JsonValue::Arr(items)) => match decode_messages(&items) {
            Some(ms) => Ok(ms),
            None => Err(Error::Other("Unable to parse Gateway API response".to_owned())),
        },
        _ => Err(Error::Other("Unable to parse Gateway API response".to_owned())),
    }
}

} // verus!
