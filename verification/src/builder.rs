//! Objects for constructing outgoing messages, and the exact request
//! body they serialize to.

use crate::error::Error;
use crate::text::{append_dec, append_escaped, dec_str, esc};
use vstd::prelude::*;
use vstd::string::StringExecFns;

verus! {

/// A string rendered as a JSON string literal.
pub open spec fn quoted(s: Seq<char>) -> Seq<char> {
    "\""@ + esc(s) + "\""@
}

/// An optional string rendered as a JSON string literal or `null`.
pub open spec fn opt_quoted(o: Option<&str>) -> Seq<char> {
    match o {
        Some(s) => quoted(s@),
        None => "null"@,
    }
}

/// A boolean rendered as a JSON literal.
pub open spec fn bool_text(b: bool) -> Seq<char> {
    if b {
        "true"@
    } else {
        "false"@
    }
}

/// Appends a JSON string literal.
fn append_quoted(out: &mut String, s: &str)
    ensures
        final(out)@ == old(out)@ + quoted(s@),
{
    out.append("\"");
    append_escaped(out, s);
    out.append("\"");
}

/// Appends a JSON string literal or `null`.
fn append_opt_quoted(out: &mut String, o: Option<&str>)
    ensures
        final(out)@ == old(out)@ + opt_quoted(o),
{
    match o {
        Some(s) => append_quoted(out, s),
        None => out.append("null"),
    }
}

/// Object used to construct outgoing messages.
pub struct MessageBuilder<'a> {
    /// Text content of the message
    pub content: &'a str,
    /// Embed attached to the message, if any
    pub embed: Option<&'a EmbedBuilder<'a>>,
}

/// How a message creation body is rendered: an object carrying the
/// content, the target channel, and the embed or `null`.
pub open spec fn body_text(
    content: Seq<char>,
    channel: Seq<char>,
    embed: Option<&EmbedBuilder<'_>>,
) -> Seq<char> {
    "{\"content\":"@ + quoted(content) + ",\"channel\":"@ + quoted(channel) + ",\"embed\":"@
        + (match embed {
        Some(e) => embed_text(*e),
        None => "null"@,
    }) + "}"@
}

impl<'a> MessageBuilder<'a> {
    /// Create a new MessageBuilder.
    pub fn new(content: &'a str) -> (r: Self)
        ensures
            r.content == content,
            r.embed is None,
    {
        MessageBuilder { content, embed: None }
    }

    /// Set an embed for this message.
    pub fn set_embed(&mut self, embed: &'a EmbedBuilder<'a>)
        ensures
            *final(self) == (MessageBuilder { embed: Some(embed), ..*old(self) }),
    {
        self.embed = Some(embed);
    }

    /// Set an embed for this message.
    pub fn with_embed(self, embed: &'a EmbedBuilder<'a>) -> (r: Self)
        ensures
            r == (MessageBuilder { embed: Some(embed), ..self }),
    {
        let mut s = self;
        s.set_embed(embed);
        s
    }

    /// Renders the message creation request body for a channel.
    pub fn to_request_body(&self, channel: &str) -> (r: Result<String, Error>)
        ensures
            r matches Ok(b) && b@ == body_text(self.content@, channel@, self.embed),
    {
        let mut out: String = String::new();
        out.append("{\"content\":");
        append_quoted(&mut out, self.content);
        out.append(",\"channel\":");
        append_quoted(&mut out, channel);
        out.append(",\"embed\":");
        match self.embed {
            Some(e) => append_embed(&mut out, e),
            None => out.append("null"),
        }
        out.append("}");
        proof {
            assert(out@ =~= body_text(self.content@, channel@, self.embed));
        }
        Ok(out)
    }
}

/// Builder for a message embed.
pub struct EmbedBuilder<'a> {
    /// Title, if any
    pub title: Option<&'a str>,
    /// Description, if any
    pub description: Option<&'a str>,
    /// Link target, if any
    pub url: Option<&'a str>,
    /// Timestamp shown with the embed, if any
    pub timestamp: Option<&'a str>,
    /// Accent color, if any
    pub color: Option<u32>,
    /// Footer, if any
    pub footer: Option<&'a EmbedFooter<'a>>,
    /// Image URL, if any
    pub image: Option<&'a str>,
    /// Thumbnail URL, if any
    pub thumbnail: Option<&'a str>,
    /// Author, if any
    pub author: Option<&'a EmbedAuthor<'a>>,
    /// Fields, in display order
    pub fields: Vec<&'a EmbedField<'a>>,
}

/// How an embed footer is rendered.
pub open spec fn footer_text(f: EmbedFooter<'_>) -> Seq<char> {
    "{\"text\":"@ + quoted(f.text@) + ",\"icon_url\":"@ + opt_quoted(f.icon_url) + "}"@
}

/// How an embed author is rendered.
pub open spec fn author_text(a: EmbedAuthor<'_>) -> Seq<char> {
    "{\"name\":"@ + opt_quoted(a.name) + ",\"url\":"@ + opt_quoted(a.url) + ",\"icon_url\":"@
        + opt_quoted(a.icon_url) + "}"@
}

/// How one embed field is rendered.
pub open spec fn field_text(f: EmbedField<'_>) -> Seq<char> {
    "{\"name\":"@ + quoted(f.name@) + ",\"value\":"@ + quoted(f.value@) + ",\"inline\":"@
        + bool_text(f.inline) + "}"@
}

/// How the first `n` embed fields are rendered, comma separated.
pub open spec fn fields_prefix_text(s: Seq<&EmbedField<'_>>, n: int) -> Seq<char>
    decreases n,
{
    if n <= 0 {
        Seq::empty()
    } else if n == 1 {
        field_text(*s[0])
    } else {
        fields_prefix_text(s, n - 1) + ","@ + field_text(*s[n - 1])
    }
}

/// How an embed's text parts are rendered: title, description, link and
/// timestamp, in declaration order, the absent ones as `null`.
pub open spec fn embed_texts_text(e: EmbedBuilder<'_>) -> Seq<char> {
    "{\"title\":"@ + opt_quoted(e.title) + ",\"description\":"@ + opt_quoted(e.description)
        + ",\"url\":"@ + opt_quoted(e.url) + ",\"timestamp\":"@ + opt_quoted(e.timestamp)
}

/// How an embed's color and footer are rendered.
pub open spec fn embed_color_footer_text(e: EmbedBuilder<'_>) -> Seq<char> {
    ",\"color\":"@ + (match e.color {
        Some(c) => dec_str(c as nat),
        None => "null"@,
    }) + ",\"footer\":"@ + (match e.footer {
        Some(f) => footer_text(*f),
        None => "null"@,
    })
}

/// How an embed's media and author are rendered.
pub open spec fn embed_media_author_text(e: EmbedBuilder<'_>) -> Seq<char> {
    ",\"image\":"@ + opt_quoted(e.image) + ",\"thumbnail\":"@ + opt_quoted(e.thumbnail)
        + ",\"author\":"@ + (match e.author {
        Some(a) => author_text(*a),
        None => "null"@,
    })
}

/// How an embed's scalar parts are rendered: every part up to the field
/// list, in declaration order.
pub open spec fn embed_head_text(e: EmbedBuilder<'_>) -> Seq<char> {
    embed_texts_text(e) + embed_color_footer_text(e) + embed_media_author_text(e)
}

/// How a whole embed is rendered: its scalar parts, then its fields.
pub open spec fn embed_text(e: EmbedBuilder<'_>) -> Seq<char> {
    embed_head_text(e) + ",\"fields\":["@ + fields_prefix_text(e.fields@, e.fields@.len() as int)
        + "]}"@
}

/// Appends a rendered embed footer.
fn append_footer(out: &mut String, f: &EmbedFooter<'_>)
    ensures
        final(out)@ == old(out)@ + footer_text(*f),
{
    out.append("{\"text\":");
    append_quoted(out, f.text);
    out.append(",\"icon_url\":");
    append_opt_quoted(out, f.icon_url);
    out.append("}");
    proof {
        assert(out@ =~= old(out)@ + footer_text(*f));
    }
}

/// Appends a rendered embed author.
fn append_author(out: &mut String, a: &EmbedAuthor<'_>)
    ensures
        final(out)@ == old(out)@ + author_text(*a),
{
    out.append("{\"name\":");
    append_opt_quoted(out, a.name);
    out.append(",\"url\":");
    append_opt_quoted(out, a.url);
    out.append(",\"icon_url\":");
    append_opt_quoted(out, a.icon_url);
    out.append("}");
    proof {
        assert(out@ =~= old(out)@ + author_text(*a));
    }
}

/// Appends one rendered embed field.
fn append_field(out: &mut String, f: &EmbedField<'_>)
    ensures
        final(out)@ == old(out)@ + field_text(*f),
{
    out.append("{\"name\":");
    append_quoted(out, f.name);
    out.append(",\"value\":");
    append_quoted(out, f.value);
    out.append(",\"inline\":");
    if f.inline {
        out.append("true");
    } else {
        out.append("false");
    }
    out.append("}");
    proof {
        assert(out@ =~= old(out)@ + field_text(*f));
    }
}

/// Appends an embed's text parts.
fn append_embed_texts(out: &mut String, e: &EmbedBuilder<'_>)
    ensures
        final(out)@ == old(out)@ + embed_texts_text(*e),
{
    let ghost base = out@;
    out.append("{\"title\":");
    append_opt_quoted(out, e.title);
    out.append(",\"description\":");
    append_opt_quoted(out, e.description);
    out.append(",\"url\":");
    append_opt_quoted(out, e.url);
    out.append(",\"timestamp\":");
    append_opt_quoted(out, e.timestamp);
    proof {
        assert(out@ =~= base + embed_texts_text(*e));
    }
}

/// Appends an embed's color and footer.
fn append_embed_color_footer(out: &mut String, e: &EmbedBuilder<'_>)
    ensures
        final(out)@ == old(out)@ + embed_color_footer_text(*e),
{
    let ghost base = out@;
    out.append(",\"color\":");
    match e.color {
        Some(c) => append_dec(out, c as u64),
        None => out.append("null"),
    }
    out.append(",\"footer\":");
    match e.footer {
        Some(f) => append_footer(out, f),
        None => out.append("null"),
    }
    proof {
        assert(out@ =~= base + embed_color_footer_text(*e));
    }
}

/// Appends an embed's media and author.
fn append_embed_media_author(out: &mut String, e: &EmbedBuilder<'_>)
    ensures
        final(out)@ == old(out)@ + embed_media_author_text(*e),
{
    let ghost base = out@;
    out.append(",\"image\":");
    append_opt_quoted(out, e.image);
    out.append(",\"thumbnail\":");
    append_opt_quoted(out, e.thumbnail);
    out.append(",\"author\":");
    match e.author {
        Some(a) => append_author(out, a),
        None => out.append("null"),
    }
    proof {
        assert(out@ =~= base + embed_media_author_text(*e));
    }
}

/// Appends an embed's scalar parts.
fn append_embed_head(out: &mut String, e: &EmbedBuilder<'_>)
    ensures
        final(out)@ == old(out)@ + embed_head_text(*e),
{
    let ghost base = out@;
    append_embed_texts(out, e);
    append_embed_color_footer(out, e);
    append_embed_media_author(out, e);
    proof {
        assert(out@ =~= base + embed_head_text(*e));
    }
}

/// Appends a whole rendered embed.
fn append_embed(out: &mut String, e: &EmbedBuilder<'_>)
    ensures
        final(out)@ == old(out)@ + embed_text(*e),
{
    let ghost base = out@;
    append_embed_head(out, e);
    out.append(",\"fields\":[");
    let ghost list_base = out@;
    let n = e.fields.len();
    let mut i: usize = 0;
    while i < n
        invariant
            i <= n,
            n == e.fields@.len(),
            out@ == list_base + fields_prefix_text(e.fields@, i as int),
        decreases n - i,
    {
        if i > 0 {
            out.append(",");
        }
        append_field(out, e.fields[i]);
        i = i + 1;
    }
    out.append("]}");
    proof {
        assert(out@ =~= base + embed_text(*e));
    }
}

impl<'a> EmbedBuilder<'a> {
    /// A builder with nothing set.
    pub fn new() -> (r: Self)
        ensures
            r.title is None,
            r.description is None,
            r.url is None,
            r.timestamp is None,
            r.color is None,
            r.footer is None,
            r.image is None,
            r.thumbnail is None,
            r.author is None,
            r.fields@ == Seq::<&'a EmbedField<'a>>::empty(),
    {
        EmbedBuilder {
            title: None,
            description: None,
            url: None,
            timestamp: None,
            color: None,
            footer: None,
            image: None,
            thumbnail: None,
            author: None,
            fields: Vec::new(),
        }
    }

    /// Sets the title.
    pub fn set_title(&mut self, title: &'a str)
        ensures
            *final(self) == (EmbedBuilder { title: Some(title), ..*old(self) }),
    {
        self.title = Some(title);
    }

    /// Sets the title.
    pub fn with_title(self, title: &'a str) -> (r: Self)
        ensures
            r == (EmbedBuilder { title: Some(title), ..self }),
    {
        let mut s = self;
        s.set_title(title);
        s
    }

    /// Sets the author.
    pub fn set_author(&mut self, author: &'a EmbedAuthor<'a>)
        ensures
            *final(self) == (EmbedBuilder { author: Some(author), ..*old(self) }),
    {
        self.author = Some(author);
    }

    /// Sets the author.
    pub fn with_author(self, author: &'a EmbedAuthor<'a>) -> (r: Self)
        ensures
            r == (EmbedBuilder { author: Some(author), ..self }),
    {
        let mut s = self;
        s.set_author(author);
        s
    }

    /// Sets the accent color.
    pub fn set_color(&mut self, color: u32)
        ensures
            *final(self) == (EmbedBuilder { color: Some(color), ..*old(self) }),
    {
        self.color = Some(color);
    }

    /// Sets the accent color.
    pub fn with_color(self, color: u32) -> (r: Self)
        ensures
            r == (EmbedBuilder { color: Some(color), ..self }),
    {
        let mut s = self;
        s.set_color(color);
        s
    }

    /// Appends a field.
    pub fn add_field(&mut self, field: &'a EmbedField<'a>)
        ensures
            final(self).fields@ == old(self).fields@.push(field),
            *final(self) == (EmbedBuilder { fields: final(self).fields, ..*old(self) }),
    {
        self.fields.push(field);
    }

    /// Appends a field.
    pub fn with_field(self, field: &'a EmbedField<'a>) -> (r: Self)
        ensures
            r.fields@ == self.fields@.push(field),
            r == (EmbedBuilder { fields: r.fields, ..self }),
    {
        let mut s = self;
        s.add_field(field);
        s
    }

    /// Sets the footer.
    pub fn set_footer(&mut self, footer: &'a EmbedFooter<'a>)
        ensures
            *final(self) == (EmbedBuilder { footer: Some(footer), ..*old(self) }),
    {
        self.footer = Some(footer);
    }

    /// Sets the footer.
    pub fn with_footer(self, footer: &'a EmbedFooter<'a>) -> (r: Self)
        ensures
            r == (EmbedBuilder { footer: Some(footer), ..self }),
    {
        let mut s = self;
        s.set_footer(footer);
        s
    }

    /// Sets the description.
    pub fn set_description(&mut self, description: &'a str)
        ensures
            *final(self) == (EmbedBuilder { description: Some(description), ..*old(self) }),
    {
        self.description = Some(description);
    }

    /// Sets the description.
    pub fn with_description(self, description: &'a str) -> (r: Self)
        ensures
            r == (EmbedBuilder { description: Some(description), ..self }),
    {
        let mut s = self;
        s.set_description(description);
        s
    }

    /// Sets the timestamp.
    pub fn set_timestamp(&mut self, timestamp: &'a str)
        ensures
            *final(self) == (EmbedBuilder { timestamp: Some(timestamp), ..*old(self) }),
    {
        self.timestamp = Some(timestamp);
    }

    /// Sets the timestamp.
    pub fn with_timestamp(self, timestamp: &'a str) -> (r: Self)
        ensures
            r == (EmbedBuilder { timestamp: Some(timestamp), ..self }),
    {
        let mut s = self;
        s.set_timestamp(timestamp);
        s
    }
}

/// Representation of an embed author.
pub struct EmbedAuthor<'a> {
    /// Name of author
    pub name: Option<&'a str>,
    /// URL of author
    pub url: Option<&'a str>,
    /// URL of author icon
    pub icon_url: Option<&'a str>,
}

impl<'a> EmbedAuthor<'a> {
    /// Create an empty embed author.
    pub fn new() -> (r: Self)
        ensures
            r.name is None,
            r.url is None,
            r.icon_url is None,
    {
        EmbedAuthor { name: None, url: None, icon_url: None }
    }
}

/// Representation of an embed footer.
pub struct EmbedFooter<'a> {
    /// Footer text
    pub text: &'a str,
    /// URL of footer icon, if any
    pub icon_url: Option<&'a str>,
}

impl<'a> EmbedFooter<'a> {
    /// Create a text-only footer.
    pub fn new(text: &'a str) -> (r: Self)
        ensures
            r.text == text,
            r.icon_url is None,
    {
        EmbedFooter { text, icon_url: None }
    }

    /// Create a footer with an icon.
    pub fn new_with_icon(text: &'a str, icon_url: &'a str) -> (r: Self)
        ensures
            r.text == text,
            r.icon_url == Some(icon_url),
    {
        EmbedFooter { text, icon_url: Some(icon_url) }
    }
}

/// Representation of an embed field.
pub struct EmbedField<'a> {
    /// Field name
    pub name: &'a str,
    /// Field value
    pub value: &'a str,
    /// Whether the field is shown inline
    pub inline: bool,
}

impl<'a> EmbedField<'a> {
    /// Create a new embed field.
    pub fn new(name: &'a str, value: &'a str) -> (r: Self)
        ensures
            r == (EmbedField { name, value, inline: false }),
    {
        EmbedField::new_internal(name, value, false)
    }

    /// Create a new inline embed field.
    pub fn new_inline(name: &'a str, value: &'a str) -> (r: Self)
        ensures
            r == (EmbedField { name, value, inline: true }),
    {
        EmbedField::new_internal(name, value, true)
    }

    fn new_internal(name: &'a str, value: &'a str, inline: bool) -> (r: Self)
        ensures
            r == (EmbedField { name, value, inline }),
    {
        EmbedField { name, value, inline }
    }
}

} // verus!
