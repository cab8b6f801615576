use starboard::numeral::u64_to_dec;
use starboard::snapshot::{
    Attachment, AuthorInfo, EmbedInfo, MessageSnapshot, QuotedRef, ReactionKind, ReactionTally,
};
use starboard::synthesize::{author_label, build_payload, footer_text, message_link};

fn plain_author() -> AuthorInfo {
    AuthorInfo {
        account_name: "starfan".to_string(),
        display_name: "Star Fan".to_string(),
        avatar_url: None,
    }
}

fn plain_snapshot() -> MessageSnapshot {
    MessageSnapshot {
        id: 42,
        channel_id: 7,
        guild_id: Some(3),
        author: plain_author(),
        content: "hello there".to_string(),
        attachments: Vec::new(),
        embeds: Vec::new(),
        quoted: None,
        reactions: vec![ReactionTally { kind: ReactionKind::Endorsement, count: 5 }],
        timestamp: 1700000000,
    }
}

#[test]
fn dec_rendering_exact() {
    assert_eq!(u64_to_dec(0), "0");
    assert_eq!(u64_to_dec(9), "9");
    assert_eq!(u64_to_dec(10), "10");
    assert_eq!(u64_to_dec(305), "305");
    assert_eq!(u64_to_dec(u64::MAX), "18446744073709551615");
}

#[test]
fn link_inside_community() {
    assert_eq!(message_link(Some(3), 7, 42), "https://discord.com/channels/3/7/42");
}

#[test]
fn link_outside_community() {
    assert_eq!(message_link(None, 7, 42), "https://discord.com/channels/@me/7/42");
}

#[test]
fn footer_renders_live_count() {
    assert_eq!(footer_text(3), "\u{2b50} 3");
    assert_eq!(footer_text(0), "\u{2b50} 0");
}

#[test]
fn label_format() {
    assert_eq!(
        author_label(&"Star Fan".to_string(), &"starfan".to_string()),
        "Star Fan (starfan)"
    );
}

#[test]
fn body_uses_own_content_verbatim() {
    let p = build_payload(&plain_snapshot(), None);
    assert_eq!(
        p.body,
        "hello there\n\n\u{1f449} [Original Message](https://discord.com/channels/3/7/42)"
    );
    assert_eq!(p.author_label, "Star Fan (starfan)");
    assert_eq!(p.source_link, "https://discord.com/channels/3/7/42");
    assert_eq!(p.star_count, 5);
    assert_eq!(p.footer, "\u{2b50} 5");
    assert_eq!(p.timestamp, 1700000000);
    assert_eq!(p.image_url, None);
}

#[test]
fn empty_body_falls_back_to_embed_title() {
    let mut s = plain_snapshot();
    s.content = String::new();
    s.embeds = vec![EmbedInfo {
        title: Some("Hello".to_string()),
        thumbnail_url: None,
        image_url: None,
        video_url: None,
    }];
    let p = build_payload(&s, None);
    assert!(p.body.starts_with("Hello\n\n"));
}

#[test]
fn empty_body_and_untitled_embed_yield_empty_text() {
    let mut s = plain_snapshot();
    s.content = String::new();
    s.embeds = vec![EmbedInfo { title: None, thumbnail_url: None, image_url: None, video_url: None }];
    let p = build_payload(&s, None);
    assert!(p.body.starts_with("\n\n\u{1f449} [Original Message]("));
}

#[test]
fn quoted_reply_prepends_citation() {
    let mut s = plain_snapshot();
    s.quoted = Some(QuotedRef { author_name: "Ann".to_string(), content: "first!".to_string() });
    let p = build_payload(&s, None);
    assert!(p.body.starts_with("> Ann said: first!\n\nhello there"));
}

#[test]
fn attachment_beats_embed_thumbnail() {
    let mut s = plain_snapshot();
    s.attachments = vec![Attachment { url: "https://cdn.example/a.png".to_string() }];
    s.embeds = vec![EmbedInfo {
        title: None,
        thumbnail_url: Some("https://cdn.example/thumb.png".to_string()),
        image_url: None,
        video_url: None,
    }];
    let p = build_payload(&s, None);
    assert_eq!(p.image_url, Some("https://cdn.example/a.png".to_string()));
}

#[test]
fn embed_thumbnail_beats_embed_image() {
    let mut s = plain_snapshot();
    s.embeds = vec![EmbedInfo {
        title: None,
        thumbnail_url: Some("https://cdn.example/thumb.png".to_string()),
        image_url: Some("https://cdn.example/image.png".to_string()),
        video_url: None,
    }];
    let p = build_payload(&s, None);
    assert_eq!(p.image_url, Some("https://cdn.example/thumb.png".to_string()));
}

#[test]
fn embed_image_beats_embed_video() {
    let mut s = plain_snapshot();
    s.embeds = vec![EmbedInfo {
        title: None,
        thumbnail_url: None,
        image_url: Some("https://cdn.example/image.png".to_string()),
        video_url: Some("https://cdn.example/clip.mp4".to_string()),
    }];
    let p = build_payload(&s, None);
    assert_eq!(p.image_url, Some("https://cdn.example/image.png".to_string()));
}

#[test]
fn embed_video_is_last_resort() {
    let mut s = plain_snapshot();
    s.embeds = vec![EmbedInfo {
        title: None,
        thumbnail_url: None,
        image_url: None,
        video_url: Some("https://cdn.example/clip.mp4".to_string()),
    }];
    let p = build_payload(&s, None);
    assert_eq!(p.image_url, Some("https://cdn.example/clip.mp4".to_string()));
}

#[test]
fn nickname_overrides_display_name() {
    let p = build_payload(&plain_snapshot(), Some("Nicky".to_string()));
    assert_eq!(p.author_label, "Nicky (starfan)");
}

#[test]
fn avatar_is_carried_over() {
    let mut s = plain_snapshot();
    s.author.avatar_url = Some("https://cdn.example/avatar.png".to_string());
    let p = build_payload(&s, None);
    assert_eq!(p.avatar_url, Some("https://cdn.example/avatar.png".to_string()));
}
