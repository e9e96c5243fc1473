use noob::builder::{EmbedAuthor, EmbedBuilder, EmbedField, EmbedFooter, MessageBuilder};
use noob::events::Myself;
use noob::User;

#[test]
fn plain_message_body_is_exact() {
    let b = MessageBuilder::new("hello");
    assert_eq!(
        b.to_request_body("chan"),
        Ok("{\"content\":\"hello\",\"channel\":\"chan\",\"embed\":null}".to_string())
    );
}

#[test]
fn message_content_is_escaped() {
    let b = MessageBuilder::new("a\"b\\c\nd");
    assert_eq!(
        b.to_request_body("c"),
        Ok("{\"content\":\"a\\\"b\\\\c\\nd\",\"channel\":\"c\",\"embed\":null}".to_string())
    );
}

#[test]
fn embed_body_renders_every_part() {
    let field = EmbedField::new_inline("n", "v");
    let footer = EmbedFooter::new_with_icon("foot", "https://icon.example");
    let mut author = EmbedAuthor::new();
    author.name = Some("auth");
    let embed = EmbedBuilder::new()
        .with_title("T")
        .with_description("D")
        .with_timestamp("2020-01-01")
        .with_color(255)
        .with_footer(&footer)
        .with_author(&author)
        .with_field(&field);
    let b = MessageBuilder::new("hi").with_embed(&embed);
    assert_eq!(
        b.to_request_body("c"),
        Ok("{\"content\":\"hi\",\"channel\":\"c\",\"embed\":{\"title\":\"T\",\
            \"description\":\"D\",\"url\":null,\"timestamp\":\"2020-01-01\",\
            \"color\":255,\"footer\":{\"text\":\"foot\",\"icon_url\":\"https://icon.example\"},\
            \"image\":null,\"thumbnail\":null,\"author\":{\"name\":\"auth\",\"url\":null,\
            \"icon_url\":null},\"fields\":[{\"name\":\"n\",\"value\":\"v\",\"inline\":true}]}}"
            .to_string())
    );
}

#[test]
fn embed_fields_are_comma_separated() {
    let f1 = EmbedField::new("a", "1");
    let f2 = EmbedField::new_inline("b", "2");
    let embed = EmbedBuilder::new().with_field(&f1).with_field(&f2);
    let b = MessageBuilder::new("x").with_embed(&embed);
    let body = b.to_request_body("c").unwrap();
    assert!(body.contains(
        "\"fields\":[{\"name\":\"a\",\"value\":\"1\",\"inline\":false},\
         {\"name\":\"b\",\"value\":\"2\",\"inline\":true}]"
    ));
}

#[test]
fn owned_embed_setters_build_up() {
    let mut e = noob::embed::Embed::new();
    e.set_title("t".to_string());
    e.set_color(7);
    e.add_field(noob::embed::EmbedField::new("n".to_string(), "v".to_string()));
    assert_eq!(e.title, Some("t".to_string()));
    assert_eq!(e.color, Some(7));
    assert_eq!(e.fields.len(), 1);
    assert!(!e.fields[0].inline);
    let mut a = noob::embed::EmbedAuthor::new();
    a.set_name("x".to_string());
    assert_eq!(a.name, Some("x".to_string()));
    let mut f = noob::embed::EmbedFooter::new("ft".to_string());
    f.set_icon_url("u".to_string());
    assert_eq!(f.icon_url, Some("u".to_string()));
}

#[test]
fn myself_narrows_to_user() {
    let me = Myself {
        id: "1".to_string(),
        username: "u".to_string(),
        discriminator: "0001".to_string(),
        avatar: Some("h".to_string()),
        bot: true,
        mfa_enabled: false,
        verified: true,
        email: None,
    };
    let u: User = User::from(me);
    assert_eq!(u.id, "1");
    assert_eq!(u.username, "u");
    assert_eq!(u.discriminator, "0001");
    assert_eq!(u.avatar, Some("h".to_string()));
}
