//! Owned embed objects attached to outgoing messages.

use vstd::prelude::*;

verus! {

/// A message embed: a block of rich content with optional title, text,
/// media and fields.
#[derive(Debug, PartialEq)]
pub struct Embed {
    /// Title, if any
    pub title: Option<String>,
    /// Description, if any
    pub description: Option<String>,
    /// Link target, if any
    pub url: Option<String>,
    /// Timestamp shown with the embed, if any
    pub timestamp: Option<String>,
    /// Accent color, if any
    pub color: Option<u32>,
    /// Footer, if any
    pub footer: Option<EmbedFooter>,
    /// Image URL, if any
    pub image: Option<String>,
    /// Thumbnail URL, if any
    pub thumbnail: Option<String>,
    /// Author, if any
    pub author: Option<EmbedAuthor>,
    /// Fields, in display order
    pub fields: Vec<EmbedField>,
}

impl Embed {
    /// An embed with nothing set.
    pub fn new() -> (r: Self)
        ensures
            r.title is None,
            r.description is None,
            r.url is None,
            r.timestamp is None,
            r.color is None,
            r.footer is None,
            r.image is None,
            r.thumbnail is None,
            r.author is None,
            r.fields@ == Seq::<EmbedField>::empty(),
    {
        Embed {
            title: None,
            description: None,
            url: None,
            timestamp: None,
            color: None,
            footer: None,
            image: None,
            thumbnail: None,
            author: None,
            fields: Vec::new(),
        }
    }

    /// Sets the title.
    pub fn set_title(&mut self, value: String)
        ensures
            *final(self) == (Embed { title: Some(value), ..*old(self) }),
    {
        self.title = Some(value);
    }

    /// Sets the description.
    pub fn set_description(&mut self, value: String)
        ensures
            *final(self) == (Embed { description: Some(value), ..*old(self) }),
    {
        self.description = Some(value);
    }

    /// Sets the link target.
    pub fn set_url(&mut self, value: String)
        ensures
            *final(self) == (Embed { url: Some(value), ..*old(self) }),
    {
        self.url = Some(value);
    }

    /// Sets the timestamp.
    pub fn set_timestamp(&mut self, value: String)
        ensures
            *final(self) == (Embed { timestamp: Some(value), ..*old(self) }),
    {
        self.timestamp = Some(value);
    }

    /// Sets the accent color.
    pub fn set_color(&mut self, value: u32)
        ensures
            *final(self) == (Embed { color: Some(value), ..*old(self) }),
    {
        self.color = Some(value);
    }

    /// Sets the footer.
    pub fn set_footer(&mut self, value: EmbedFooter)
        ensures
            *final(self) == (Embed { footer: Some(value), ..*old(self) }),
    {
        self.footer = Some(value);
    }

    /// Sets the image URL.
    pub fn set_image(&mut self, value: String)
        ensures
            *final(self) == (Embed { image: Some(value), ..*old(self) }),
    {
        self.image = Some(value);
    }

    /// Sets the thumbnail URL.
    pub fn set_thumbnail(&mut self, value: String)
        ensures
            *final(self) == (Embed { thumbnail: Some(value), ..*old(self) }),
    {
        self.thumbnail = Some(value);
    }

    /// Sets the author.
    pub fn set_author(&mut self, value: EmbedAuthor)
        ensures
            *final(self) == (Embed { author: Some(value), ..*old(self) }),
    {
        self.author = Some(value);
    }

    /// Appends a field.
    pub fn add_field(&mut self, field: EmbedField)
        ensures
            final(self).fields@ == old(self).fields@.push(field),
            *final(self) == (Embed { fields: final(self).fields, ..*old(self) }),
    {
        self.fields.push(field);
    }
}

/// The author block of an embed.
#[derive(Debug, PartialEq)]
pub struct EmbedAuthor {
    /// Name, if any
    pub name: Option<String>,
    /// Link target, if any
    pub url: Option<String>,
    /// Icon URL, if any
    pub icon_url: Option<String>,
}

impl EmbedAuthor {
    /// An author block with nothing set.
    pub fn new() -> (r: Self)
        ensures
            r.name is None,
            r.url is None,
            r.icon_url is None,
    {
        EmbedAuthor { name: None, url: None, icon_url: None }
    }

    /// Sets the name.
    pub fn set_name(&mut self, name: String)
        ensures
            *final(self) == (EmbedAuthor { name: Some(name), ..*old(self) }),
    {
        self.name = Some(name);
    }

    /// Sets the link target.
    pub fn set_url(&mut self, url: String)
        ensures
            *final(self) == (EmbedAuthor { url: Some(url), ..*old(self) }),
    {
        self.url = Some(url);
    }

    /// Sets the icon URL.
    pub fn set_icon_url(&mut self, url: String)
        ensures
            *final(self) == (EmbedAuthor { icon_url: Some(url), ..*old(self) }),
    {
        self.icon_url = Some(url);
    }
}

/// The footer block of an embed.
#[derive(Debug, PartialEq)]
pub struct EmbedFooter {
    /// Footer text
    pub text: String,
    /// Icon URL, if any
    pub icon_url: Option<String>,
}

impl EmbedFooter {
    /// A text-only footer.
    pub fn new(text: String) -> (r: Self)
        ensures
            r.text == text,
            r.icon_url is None,
    {
        EmbedFooter { text, icon_url: None }
    }

    /// Sets the icon URL.
    pub fn set_icon_url(&mut self, url: String)
        ensures
            *final(self) == (EmbedFooter { icon_url: Some(url), ..*old(self) }),
    {
        self.icon_url = Some(url);
    }
}

/// One field of an embed: a named value, optionally shown inline.
#[derive(Debug, PartialEq)]
pub struct EmbedField {
    /// Field name
    pub name: String,
    /// Field value
    pub value: String,
    /// Whether the field is shown inline
    pub inline: bool,
}

impl EmbedField {
    /// A field shown on its own row.
    pub fn new(name: String, value: String) -> (r: Self)
        ensures
            r == (EmbedField { name, value, inline: false }),
    {
        EmbedField::new_internal(name, value, false)
    }

    /// A field shown inline.
    pub fn new_inline(name: String, value: String) -> (r: Self)
        ensures
            r == (EmbedField { name, value, inline: true }),
    {
        EmbedField::new_internal(name, value, true)
    }

    fn new_internal(name: String, value: String, inline: bool) -> (r: Self)
        ensures
            r == (EmbedField { name, value, inline }),
    {
        EmbedField { name, value, inline }
    }
}

} // verus!
