//! Composing the notification that announces a report.

use crate::context::{channel_mention, Channel, ErrorContext};
use crate::errors::{ErrorError, ErrorReport, ReportModel};
use crate::payload::{
    Attachment, AttachmentModel, Embed, EmbedField, EmbedModel, FieldModel, Payload, PayloadModel,
};
use crate::severity::Severity;
use crate::text::{append_decimal, decimal, lemma_decimal_len, truncate, truncated};
use vstd::prelude::*;
use vstd::string::*;

verus! {

/// The most characters that the text of one embed field may have.
pub const FIELD_LIMIT: usize = 1024;

/// An inline field whose text is cut to `FIELD_LIMIT` characters.
pub open spec fn capped_field(name: Seq<char>, text: Seq<char>) -> FieldModel {
    FieldModel { name, value: truncated(text, FIELD_LIMIT as nat), inline: true }
}

/// A sequence of the field, if there is one, and else of nothing.
pub open spec fn entries(field: Option<FieldModel>) -> Seq<FieldModel> {
    match field {
        Some(f) => seq![f],
        None => Seq::empty(),
    }
}

impl ReportModel {
    /// The headline: the message, and the command's name where it is
    /// known.
    pub open spec fn title(self) -> Seq<char> {
        match self.context.command_name {
            Some(command) => "Error in "@ + command + ": "@ + self.error.short_message,
            None => "Error: "@ + self.error.short_message,
        }
    }

    /// The field that shows what the user typed.
    pub open spec fn invocation_field(self) -> Option<FieldModel> {
        match self.context.invocation_text {
            Some(text) => Some(capped_field("Invocation"@, text)),
            None => None,
        }
    }

    /// The field that names the user.
    pub open spec fn author_field(self) -> Option<FieldModel> {
        match self.context.author {
            Some(author) => Some(
                capped_field(
                    "Author"@,
                    author.display_name + " (ID: "@ + decimal(author.id as nat) + ")"@,
                ),
            ),
            None => None,
        }
    }

    /// The field that says where the command ran: guild and channel where
    /// both are known, the channel alone where only it is known, and no
    /// field without a channel.
    pub open spec fn location_field(self) -> Option<FieldModel> {
        match self.context.channel {
            Some(channel) => match self.context.guild {
                Some(guild) => Some(
                    capped_field("Location"@, guild + " / "@ + channel_mention(channel)),
                ),
                None => Some(capped_field("Location"@, channel_mention(channel))),
            },
            None => None,
        }
    }

    /// The field that links back to the message.
    pub open spec fn jump_field(self) -> Option<FieldModel> {
        match self.context.permalink {
            Some(link) => Some(capped_field("Jump"@, "[Jump to message]("@ + link + ")"@)),
            None => None,
        }
    }

    /// The fields that are present, in their fixed order.
    pub open spec fn fields(self) -> Seq<FieldModel> {
        entries(self.invocation_field()) + entries(self.author_field()) + entries(
            self.location_field(),
        ) + entries(self.jump_field())
    }

    /// The embed of the notification. It has a body only where the error
    /// has a full report.
    pub open spec fn embed(self) -> EmbedModel {
        EmbedModel {
            color: self.severity.accent(),
            timestamp: self.timestamp,
            title: self.title(),
            description: self.error.detailed_message,
            fields: self.fields(),
        }
    }

    /// The backtrace as a text file, where there is one.
    pub open spec fn attachment(self) -> Option<AttachmentModel> {
        match self.error.backtrace {
            Some(trace) => Some(AttachmentModel { filename: "backtrace.txt"@, data: trace }),
            None => None,
        }
    }

    /// The notification that announces this report. Only a report of the
    /// gravest level mentions everyone, and only then may the mention
    /// notify them.
    pub open spec fn payload(self) -> PayloadModel {
        PayloadModel {
            embed: self.embed(),
            attachment: self.attachment(),
            content: if self.severity.pages_everyone() {
                Some("@everyone"@)
            } else {
                None
            },
            mention_everyone: self.severity.pages_everyone(),
        }
    }
}

/// Builds the field `name` with `text` cut to the limit.
fn make_field(name: &str, text: &str) -> (field: EmbedField)
    ensures
        field@ == capped_field(name@, text@),
{
    EmbedField { name: String::from_str(name), value: truncate(text, FIELD_LIMIT), inline: true }
}

impl ErrorReport {
    /// Composes the notification for this report.
    pub fn into_payload(self) -> (payload: Payload)
        ensures
            payload@ == self@.payload(),
    {
        let ghost model = self@;
        let ErrorReport { severity, error, context, timestamp } = self;
        let ErrorError { short_message, detailed_message, backtrace } = error;
        let ErrorContext { invocation_text, author, channel, guild, command_name, permalink } =
            context;

        let mut title = String::new();
        match command_name {
            Some(command) => {
                title.append("Error in ");
                title.append(command.as_str());
                title.append(": ");
            },
            None => {
                title.append("Error: ");
            },
        }
        title.append(short_message.as_str());
        assert(title@ =~= model.title());

        let mut fields: Vec<EmbedField> = Vec::new();
        if let Some(text) = invocation_text {
            fields.push(make_field("Invocation", text.as_str()));
        }
        assert(fields.deep_view() =~= entries(model.invocation_field()));
        if let Some(author) = author {
            let mut text = author.display_name;
            text.append(" (ID: ");
            append_decimal(&mut text, author.id);
            text.append(")");
            fields.push(make_field("Author", text.as_str()));
        }
        assert(fields.deep_view() =~= entries(model.invocation_field()) + entries(
            model.author_field(),
        ));
        if let Some(channel) = channel {
            let mut text = String::new();
            if let Some(guild) = guild {
                text.append(guild.name.as_str());
                text.append(" / ");
            }
            channel.append_mention(&mut text);
            fields.push(make_field("Location", text.as_str()));
        }
        assert(fields.deep_view() =~= entries(model.invocation_field()) + entries(
            model.author_field(),
        ) + entries(model.location_field()));
        if let Some(link) = permalink {
            let mut text = String::from_str("[Jump to message](");
            text.append(link.as_str());
            text.append(")");
            fields.push(make_field("Jump", text.as_str()));
        }
        assert(fields.deep_view() =~= model.fields());

        let embed = Embed {
            color: severity.color(),
            timestamp,
            title,
            description: detailed_message,
            fields,
        };
        let attachment = match backtrace {
            Some(trace) => Some(
                Attachment { filename: String::from_str("backtrace.txt"), data: trace },
            ),
            None => None,
        };
        let escalate = match severity {
            Severity::Critical => true,
            _ => false,
        };
        let content = if escalate {
            Some(String::from_str("@everyone"))
        } else {
            None
        };
        Payload { embed, attachment, content, mention_everyone: escalate }
    }
}

/// The mention of a channel is at most twenty-three characters long, so
/// that no field cuts it.
pub proof fn lemma_mention_fits(channel: Channel)
    ensures
        channel_mention(channel).len() <= 23,
        truncated(channel_mention(channel), FIELD_LIMIT as nat) == channel_mention(channel),
{
    reveal_strlit("<#");
    reveal_strlit(">");
    lemma_decimal_len(channel.id as nat);
}

/// Where the channel is known and the guild is not, the location shown is
/// the channel alone: its mention, with nothing before or after it.
pub proof fn lemma_location_without_guild(report: ReportModel)
    requires
        report.context.channel is Some,
        report.context.guild is None,
    ensures
        report.location_field() == Some(
            FieldModel {
                name: "Location"@,
                value: channel_mention(report.context.channel->0),
                inline: true,
            },
        ),
{
    lemma_mention_fits(report.context.channel->0);
}

/// A notification has at most four fields, and none of them has more than
/// `FIELD_LIMIT` characters of text.
pub proof fn lemma_fields_are_capped(report: ReportModel, i: int)
    requires
        0 <= i < report.fields().len(),
    ensures
        report.fields()[i].value.len() <= FIELD_LIMIT,
        report.fields().len() <= 4,
{
}

/// Composing is a function of what the report holds: two notifications
/// composed from reports that hold the same are the same in every part.
pub proof fn lemma_composing_twice(
    first: ErrorReport,
    second: ErrorReport,
    composed_first: Payload,
    composed_second: Payload,
)
    requires
        first@ == second@,
        call_ensures(ErrorReport::into_payload, (first,), composed_first),
        call_ensures(ErrorReport::into_payload, (second,), composed_second),
    ensures
        composed_first@ == composed_second@,
{
}

/// Only the gravest level notifies everyone: the mention and the
/// permission for it come together, and with no other level.
pub proof fn lemma_only_critical_pages(report: ReportModel)
    ensures
        report.payload().mention_everyone <==> report.severity == Severity::Critical,
        report.payload().content is Some <==> report.severity == Severity::Critical,
        report.payload().content matches Some(text) ==> text == "@everyone"@,
{
}

/// The notification of a panic that carried no text has neither body nor
/// attachment.
pub proof fn lemma_silent_panic_is_bare(report: ReportModel)
    requires
        report.error.detailed_message is None,
        report.error.backtrace is None,
    ensures
        report.payload().embed.description is None,
        report.payload().attachment is None,
{
}

} // verus!
