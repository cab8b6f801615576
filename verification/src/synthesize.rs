//! Content synthesizer: a pure transformation from a message snapshot (plus
//! one optional, externally resolved nickname) to the canonical display
//! payload that is published to the curated feed.
//!
//! The image reference is picked by an explicit ordered list of extractor
//! rules evaluated in sequence — first match wins — rather than nested
//! conditionals, so the precedence is stated once and is testable.

use vstd::prelude::*;

use crate::numeral::{dec_digits, u64_to_dec};
use crate::snapshot::{AuthorInfo, MessageSnapshot, QuotedRef};
use crate::snapshot::EmbedInfo;
use crate::threshold::endorsement_count;

verus! {

/// The durable display payload derived from one snapshot. Ephemeral: rebuilt
/// on every publish or update call, never stored.
pub struct CurationPayload {
    /// `"{effectiveDisplayName} ({accountName})"`.
    pub author_label: String,
    /// The author's avatar reference, if any.
    pub avatar_url: Option<String>,
    /// Body text with the quoted-message citation and the source-link line.
    pub body: String,
    /// The single image reference picked by the precedence rules.
    pub image_url: Option<String>,
    /// The live endorsement count, rendered for display.
    pub footer: String,
    /// Link back to the source message.
    pub source_link: String,
    /// The live endorsement count.
    pub star_count: u64,
    /// Creation timestamp of the source message.
    pub timestamp: i64,
}

/// `"{display} ({account})"`.
pub open spec fn label_of(display: Seq<char>, account: Seq<char>) -> Seq<char> {
    display + " ("@ + account + ")"@
}

/// The display name used in the author label: the community-scoped nickname
/// when one was resolved, else the generic display name.
pub open spec fn effective_display(author: AuthorInfo, nickname: Option<String>) -> Seq<char> {
    match nickname {
        Some(n) => n@,
        None => author.display_name@,
    }
}

/// Body text precedence: the message's own body verbatim when non-empty; else
/// the first rich-embed's title (empty when the title is absent); else empty.
pub open spec fn base_body(content: Seq<char>, embeds: Seq<EmbedInfo>) -> Seq<char> {
    if content.len() > 0 {
        content
    } else if embeds.len() > 0 {
        match embeds[0].title {
            Some(t) => t@,
            None => Seq::<char>::empty(),
        }
    } else {
        Seq::<char>::empty()
    }
}

/// The quoted-message citation: when the snapshot references a quoted message,
/// `"> {quotedAuthor} said: {quotedBody}\n\n"` is prepended to the body.
pub open spec fn cited_body(quoted: Option<QuotedRef>, body: Seq<char>) -> Seq<char> {
    match quoted {
        Some(q) => "> "@ + q.author_name@ + " said: "@ + q.content@ + "\n\n"@ + body,
        None => body,
    }
}

/// The community segment of a source link: the guild identity in decimal, or
/// the direct-message marker when the message is outside any community.
pub open spec fn guild_segment(guild: Option<u64>) -> Seq<char> {
    match guild {
        Some(g) => dec_digits(g as nat),
        None => "@me"@,
    }
}

/// The link back to the source message.
pub open spec fn link_of(guild: Option<u64>, channel: u64, message: u64) -> Seq<char> {
    "https://discord.com/channels/"@ + guild_segment(guild) + "/"@ + dec_digits(channel as nat)
        + "/"@ + dec_digits(message as nat)
}

/// The footer renders the live endorsement count. This build is
/// update-capable (the ledger stores publication identities and re-triggers
/// edit the publication), so a live count stays accurate; a static marker is
/// only sound for builds that never update.
pub open spec fn footer_of(count: u64) -> Seq<char> {
    "⭐ "@ + dec_digits(count as nat)
}

/// The final body: the cited body followed by the source-link line.
pub open spec fn body_of(s: MessageSnapshot) -> Seq<char> {
    cited_body(s.quoted, base_body(s.content@, s.embeds@)) + "\n\n👉 [Original Message]("@
        + link_of(s.guild_id, s.channel_id, s.id) + ")"@
}

/// One place an image reference can live in a snapshot.
#[derive(Clone, Copy, PartialEq, Eq, Structural, Debug)]
pub enum ImageRule {
    FirstAttachment,
    FirstEmbedThumbnail,
    FirstEmbedImage,
    FirstEmbedVideo,
}

/// The image reference one rule extracts from a snapshot, if any.
pub open spec fn rule_image(rule: ImageRule, s: MessageSnapshot) -> Option<Seq<char>> {
    match rule {
        ImageRule::FirstAttachment => if s.attachments@.len() > 0 {
            Some(s.attachments@[0].url@)
        } else {
            None
        },
        ImageRule::FirstEmbedThumbnail => if s.embeds@.len() > 0 {
            match s.embeds@[0].thumbnail_url {
                Some(u) => Some(u@),
                None => None,
            }
        } else {
            None
        },
        ImageRule::FirstEmbedImage => if s.embeds@.len() > 0 {
            match s.embeds@[0].image_url {
                Some(u) => Some(u@),
                None => None,
            }
        } else {
            None
        },
        ImageRule::FirstEmbedVideo => if s.embeds@.len() > 0 {
            match s.embeds@[0].video_url {
                Some(u) => Some(u@),
                None => None,
            }
        } else {
            None
        },
    }
}

/// The first rule in the list that extracts an image, first match wins.
pub open spec fn first_image(rules: Seq<ImageRule>, s: MessageSnapshot) -> Option<Seq<char>>
    decreases rules.len(),
{
    if rules.len() == 0 {
        None
    } else if rule_image(rules[0], s) is Some {
        rule_image(rules[0], s)
    } else {
        first_image(rules.skip(1), s)
    }
}

/// The configured precedence: first attachment, then the first rich-embed's
/// thumbnail, image, and video references, in that order.
pub open spec fn image_precedence() -> Seq<ImageRule> {
    seq![
        ImageRule::FirstAttachment,
        ImageRule::FirstEmbedThumbnail,
        ImageRule::FirstEmbedImage,
        ImageRule::FirstEmbedVideo,
    ]
}

/// The image reference of a snapshot under the configured precedence.
pub open spec fn image_of(s: MessageSnapshot) -> Option<Seq<char>> {
    first_image(image_precedence(), s)
}

/// The extractor rules in their configured order of precedence.
pub fn image_rules() -> (r: Vec<ImageRule>)
    ensures
        r@ == image_precedence(),
{
    let mut rules: Vec<ImageRule> = Vec::new();
    rules.push(ImageRule::FirstAttachment);
    rules.push(ImageRule::FirstEmbedThumbnail);
    rules.push(ImageRule::FirstEmbedImage);
    rules.push(ImageRule::FirstEmbedVideo);
    proof {
        assert(rules@ =~= image_precedence());
    }
    rules
}

/// Apply one extractor rule to a snapshot.
fn apply_image_rule(rule: ImageRule, message: &MessageSnapshot) -> (r: Option<String>)
    ensures
        match r {
            Some(u) => rule_image(rule, *message) == Some(u@),
            None => rule_image(rule, *message) is None,
        },
{
    match rule {
        ImageRule::FirstAttachment => {
            if message.attachments.len() > 0 {
                Some(message.attachments[0].url.clone())
            } else {
                None
            }
        },
        ImageRule::FirstEmbedThumbnail => {
            if message.embeds.len() > 0 {
                match &message.embeds[0].thumbnail_url {
                    Some(u) => Some(u.clone()),
                    None => None,
                }
            } else {
                None
            }
        },
        ImageRule::FirstEmbedImage => {
            if message.embeds.len() > 0 {
                match &message.embeds[0].image_url {
                    Some(u) => Some(u.clone()),
                    None => None,
                }
            } else {
                None
            }
        },
        ImageRule::FirstEmbedVideo => {
            if message.embeds.len() > 0 {
                match &message.embeds[0].video_url {
                    Some(u) => Some(u.clone()),
                    None => None,
                }
            } else {
                None
            }
        },
    }
}

proof fn lemma_first_image_step(rules: Seq<ImageRule>, s: MessageSnapshot, i: int)
    requires
        0 <= i < rules.len(),
        rule_image(rules[i], s) is None,
    ensures
        first_image(rules.skip(i), s) == first_image(rules.skip(i + 1), s),
{
    assert(rules.skip(i)[0] == rules[i]);
    assert(rules.skip(i).skip(1) =~= rules.skip(i + 1));
}

/// Extract the image reference of a snapshot: the rules are evaluated in
/// their configured order and the first match wins.
pub fn extract_image(message: &MessageSnapshot) -> (r: Option<String>)
    ensures
        match r {
            Some(u) => image_of(*message) == Some(u@),
            None => image_of(*message) is None,
        },
{
    let rules = image_rules();
    let mut i: usize = 0;
    proof {
        assert(rules@.skip(0) =~= rules@);
    }
    while i < rules.len()
        invariant
            0 <= i <= rules@.len(),
            rules@ == image_precedence(),
            image_of(*message) == first_image(rules@.skip(i as int), *message),
        decreases rules@.len() - i,
    {
        let picked = apply_image_rule(rules[i], message);
        if picked.is_some() {
            proof {
                assert(rules@.skip(i as int)[0] == rules@[i as int]);
            }
            return picked;
        }
        proof {
            lemma_first_image_step(rules@, *message, i as int);
        }
        i += 1;
    }
    proof {
        assert(rules@.skip(i as int) =~= Seq::<ImageRule>::empty());
    }
    None
}

/// Build the author label `"{display} ({account})"`.
pub fn author_label(display: &String, account: &String) -> (r: String)
    ensures
        r@ == label_of(display@, account@),
{
    let mut s = display.clone();
    s.append(" (");
    s.append(account.as_str());
    s.append(")");
    s
}

/// Build the link back to the source message.
pub fn message_link(guild_id: Option<u64>, channel_id: u64, message_id: u64) -> (r: String)
    ensures
        r@ == link_of(guild_id, channel_id, message_id),
{
    let mut s = String::new();
    s.append("https://discord.com/channels/");
    match guild_id {
        Some(g) => {
            let gs = u64_to_dec(g);
            s.append(gs.as_str());
        },
        None => {
            s.append("@me");
        },
    }
    s.append("/");
    let cs = u64_to_dec(channel_id);
    s.append(cs.as_str());
    s.append("/");
    let ms = u64_to_dec(message_id);
    s.append(ms.as_str());
    proof {
        assert(s@ =~= link_of(guild_id, channel_id, message_id));
    }
    s
}

/// Render the live endorsement count for the footer.
pub fn footer_text(count: u64) -> (r: String)
    ensures
        r@ == footer_of(count),
{
    let mut s = String::new();
    s.append("⭐ ");
    let cs = u64_to_dec(count);
    s.append(cs.as_str());
    proof {
        assert(s@ =~= footer_of(count));
    }
    s
}

/// Pick the body text under the configured precedence.
fn choose_base_body(message: &MessageSnapshot) -> (r: String)
    ensures
        r@ == base_body(message.content@, message.embeds@),
{
    if !message.content.as_str().is_empty() {
        message.content.clone()
    } else if message.embeds.len() > 0 {
        match &message.embeds[0].title {
            Some(t) => t.clone(),
            None => String::new(),
        }
    } else {
        String::new()
    }
}

/// Prepend the quoted-message citation when the snapshot carries one.
fn apply_citation(quoted: &Option<QuotedRef>, body: String) -> (r: String)
    ensures
        r@ == cited_body(*quoted, body@),
{
    match quoted {
        Some(q) => {
            let mut s = String::new();
            s.append("> ");
            s.append(q.author_name.as_str());
            s.append(" said: ");
            s.append(q.content.as_str());
            s.append("\n\n");
            s.append(body.as_str());
            proof {
                assert(s@ =~= cited_body(*quoted, body@));
            }
            s
        },
        None => body,
    }
}

/// Whether a payload is the canonical display payload of a snapshot, given
/// the nickname the collaborator resolved (or `None` when it resolved none).
pub open spec fn payload_matches(
    s: MessageSnapshot,
    nickname: Option<String>,
    p: CurationPayload,
) -> bool {
    &&& p.author_label@ == label_of(effective_display(s.author, nickname), s.author.account_name@)
    &&& (match (p.avatar_url, s.author.avatar_url) {
        (Some(a), Some(b)) => a@ == b@,
        (None, None) => true,
        _ => false,
    })
    &&& p.body@ == body_of(s)
    &&& (match p.image_url {
        Some(u) => image_of(s) == Some(u@),
        None => image_of(s) is None,
    })
    &&& p.footer@ == footer_of(endorsement_count(s))
    &&& p.source_link@ == link_of(s.guild_id, s.channel_id, s.id)
    &&& p.star_count == endorsement_count(s)
    &&& p.timestamp == s.timestamp
}

/// Synthesize the canonical display payload of a snapshot. Deterministic: no
/// network calls; the one nickname-resolution result is passed in by the
/// caller.
pub fn build_payload(message: &MessageSnapshot, nickname: Option<String>) -> (p: CurationPayload)
    ensures
        payload_matches(*message, nickname, p),
{
    let display = match &nickname {
        Some(n) => n.clone(),
        None => message.author.display_name.clone(),
    };
    let label = author_label(&display, &message.author.account_name);
    let avatar = match &message.author.avatar_url {
        Some(u) => Some(u.clone()),
        None => None,
    };
    let link = message_link(message.guild_id, message.channel_id, message.id);
    let base = choose_base_body(message);
    let cited = apply_citation(&message.quoted, base);
    let mut body = cited;
    body.append("\n\n👉 [Original Message](");
    body.append(link.as_str());
    body.append(")");
    let image = extract_image(message);
    let stars = crate::threshold::total_star_reactions(message);
    let footer = footer_text(stars);
    proof {
        assert(body@ =~= body_of(*message));
    }
    CurationPayload {
        author_label: label,
        avatar_url: avatar,
        body,
        image_url: image,
        footer,
        source_link: link,
        star_count: stars,
        timestamp: message.timestamp,
    }
}

} // verus!
