use oliviabot::compose::FIELD_LIMIT;
use oliviabot::context::{Author, Channel, ErrorContext, Guild};
use oliviabot::errors::{ErrorError, ErrorReport};
use oliviabot::payload::{Attachment, EmbedField};
use oliviabot::time::Timestamp;
use oliviabot::severity::Severity;
use poise::serenity_prelude::{ChannelId, Mentionable};

fn bare(severity: Severity, short_message: &str) -> ErrorReport {
    ErrorReport {
        severity,
        error: ErrorError {
            short_message: short_message.to_string(),
            detailed_message: None,
            backtrace: None,
        },
        context: ErrorContext::default(),
        timestamp: Timestamp { unix_nanos: 1_700_000_000_123_456_789 },
    }
}

fn full() -> ErrorReport {
    ErrorReport {
        severity: Severity::Degraded,
        error: ErrorError {
            short_message: "boom".to_string(),
            detailed_message: Some("boom\n\nCaused by:\n    fuse".to_string()),
            backtrace: Some("0: main".to_string()),
        },
        context: ErrorContext {
            invocation_text: Some("!source help".to_string()),
            author: Some(Author { display_name: "olivia".to_string(), id: 42 }),
            channel: Some(Channel { id: 7 }),
            guild: Some(Guild { name: "Testing Grounds".to_string() }),
            command_name: Some("source".to_string()),
            permalink: Some("https://discord.com/channels/1/7/9".to_string()),
        },
        timestamp: Timestamp { unix_nanos: 1_700_000_000_123_456_789 },
    }
}

fn field(name: &str, value: &str) -> EmbedField {
    EmbedField { name: name.to_string(), value: value.to_string(), inline: true }
}

#[test]
fn title_names_the_command_where_it_is_known() {
    assert_eq!(full().into_payload().embed.title, "Error in source: boom");
}

#[test]
fn title_without_a_command_has_the_message_alone() {
    assert_eq!(bare(Severity::Notice, "boom").into_payload().embed.title, "Error: boom");
    assert_eq!(bare(Severity::Notice, "").into_payload().embed.title, "Error: ");
}

#[test]
fn body_is_the_full_report_or_nothing() {
    assert_eq!(
        full().into_payload().embed.description,
        Some("boom\n\nCaused by:\n    fuse".to_string())
    );
    assert_eq!(bare(Severity::Degraded, "boom").into_payload().embed.description, None);
}

#[test]
fn full_report_has_four_fields_in_order() {
    assert_eq!(
        full().into_payload().embed.fields,
        vec![
            field("Invocation", "!source help"),
            field("Author", "olivia (ID: 42)"),
            field("Location", "Testing Grounds / <#7>"),
            field("Jump", "[Jump to message](https://discord.com/channels/1/7/9)"),
        ]
    );
}

#[test]
fn bare_report_has_no_fields() {
    assert!(bare(Severity::Degraded, "boom").into_payload().embed.fields.is_empty());
}

#[test]
fn each_field_stands_on_its_own() {
    let mut report = bare(Severity::Degraded, "boom");
    report.context.author = Some(Author { display_name: "olivia#0001".to_string(), id: 0 });
    assert_eq!(report.into_payload().embed.fields, vec![field("Author", "olivia#0001 (ID: 0)")]);

    let mut report = bare(Severity::Degraded, "boom");
    report.context.permalink = Some("https://example.org/m".to_string());
    assert_eq!(
        report.into_payload().embed.fields,
        vec![field("Jump", "[Jump to message](https://example.org/m)")]
    );

    let mut report = bare(Severity::Degraded, "boom");
    report.context.invocation_text = Some(String::new());
    assert_eq!(report.into_payload().embed.fields, vec![field("Invocation", "")]);
}

#[test]
fn location_without_guild_is_the_channel_alone() {
    let mut report = full();
    report.context.guild = None;
    let payload = report.into_payload();
    assert_eq!(payload.embed.fields[2], field("Location", "<#7>"));
    assert!(!payload.embed.fields[2].value.contains(" / "));
}

#[test]
fn location_without_channel_is_left_out() {
    let mut report = full();
    report.context.channel = None;
    let payload = report.into_payload();
    let names: Vec<&str> = payload.embed.fields.iter().map(|f| f.name.as_str()).collect();
    assert_eq!(names, vec!["Invocation", "Author", "Jump"]);
}

#[test]
fn channel_mention_is_the_one_of_the_chat_platform() {
    for id in [1u64, 7, 112, 381_870_553_235_193_857, u64::MAX] {
        let channel = Channel { id };
        assert_eq!(channel.mention(), ChannelId::new(id).mention().to_string());
    }
    assert_eq!(Channel { id: 0 }.mention(), "<#0>");
    let mut out = String::from("in ");
    Channel { id: 112 }.append_mention(&mut out);
    assert_eq!(out, "in <#112>");
}

#[test]
fn author_id_is_written_in_decimal() {
    let mut report = bare(Severity::Degraded, "boom");
    report.context.author = Some(Author { display_name: "o".to_string(), id: u64::MAX });
    assert_eq!(
        report.into_payload().embed.fields,
        vec![field("Author", "o (ID: 18446744073709551615)")]
    );
}

#[test]
fn invocation_is_cut_to_the_limit() {
    assert_eq!(FIELD_LIMIT, 1024);
    let exactly = "a".repeat(1024);
    let longer = format!("{}bcd", exactly);
    let mut report = bare(Severity::Degraded, "boom");
    report.context.invocation_text = Some(exactly.clone());
    assert_eq!(report.into_payload().embed.fields[0].value, exactly);
    let mut report = bare(Severity::Degraded, "boom");
    report.context.invocation_text = Some(longer);
    assert_eq!(report.into_payload().embed.fields[0].value, exactly);
}

#[test]
fn invocation_is_cut_by_characters() {
    let text = "\u{1f600}".repeat(1030);
    let mut report = bare(Severity::Degraded, "boom");
    report.context.invocation_text = Some(text);
    let value = &report.into_payload().embed.fields[0].value;
    assert_eq!(value.chars().count(), 1024);
    assert_eq!(value.len(), 4096);
}

#[test]
fn every_field_is_cut_to_the_limit() {
    let long = "z".repeat(3000);
    let mut report = full();
    report.context.invocation_text = Some(long.clone());
    report.context.author = Some(Author { display_name: long.clone(), id: 42 });
    report.context.guild = Some(Guild { name: long.clone() });
    report.context.permalink = Some(long.clone());
    let payload = report.into_payload();
    assert_eq!(payload.embed.fields.len(), 4);
    for field in &payload.embed.fields {
        assert_eq!(field.value.chars().count(), 1024);
    }
    assert_eq!(payload.embed.fields[1].value, "z".repeat(1024));
    assert!(payload.embed.fields[3].value.starts_with("[Jump to message](zzz"));
}

#[test]
fn colour_follows_the_severity() {
    assert_eq!(bare(Severity::Notice, "x").into_payload().embed.color, 0x20E0E0);
    assert_eq!(bare(Severity::Degraded, "x").into_payload().embed.color, 0xFF8020);
    assert_eq!(bare(Severity::Critical, "x").into_payload().embed.color, 0xFF2040);
}

#[test]
fn timestamp_is_the_one_of_the_report() {
    assert_eq!(
        full().into_payload().embed.timestamp,
        Timestamp { unix_nanos: 1_700_000_000_123_456_789 }
    );
}

#[test]
fn backtrace_is_attached_as_a_text_file() {
    assert_eq!(
        full().into_payload().attachment,
        Some(Attachment { filename: "backtrace.txt".to_string(), data: "0: main".to_string() })
    );
    assert_eq!(bare(Severity::Critical, "boom").into_payload().attachment, None);
}

#[test]
fn only_a_critical_report_mentions_everyone() {
    let payload = bare(Severity::Critical, "boom").into_payload();
    assert_eq!(payload.content, Some("@everyone".to_string()));
    assert!(payload.mention_everyone);
    for severity in [Severity::Notice, Severity::Degraded] {
        let payload = bare(severity, "boom").into_payload();
        assert_eq!(payload.content, None);
        assert!(!payload.mention_everyone);
    }
}

#[test]
fn composing_the_same_report_twice_gives_the_same_payload() {
    let first = full().into_payload();
    let second = full().into_payload();
    assert_eq!(first, second);
    assert_eq!(format!("{:?}", first).into_bytes(), format!("{:?}", second).into_bytes());
    let report = full();
    assert_eq!(report.clone().into_payload(), report.into_payload());
}

#[test]
fn panic_without_text_composes_without_body_and_attachment() {
    let mut report = full();
    report.error = ErrorError::panicked(&None);
    let payload = report.into_payload();
    assert_eq!(payload.embed.title, "Error in source: Command panicked");
    assert_eq!(payload.embed.description, None);
    assert_eq!(payload.attachment, None);
}
