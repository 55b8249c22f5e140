//! The notification as plain data: an embed with its fields, an
//! attachment, and what may be mentioned.

use crate::time::Timestamp;
use vstd::prelude::*;

verus! {

/// One titled entry of an embed.
#[derive(Clone, Debug, PartialEq, Eq)]
pub struct EmbedField {
    pub name: String,
    pub value: String,
    pub inline: bool,
}

/// What an `EmbedField` holds.
pub struct FieldModel {
    pub name: Seq<char>,
    pub value: Seq<char>,
    pub inline: bool,
}

impl View for EmbedField {
    type V = FieldModel;

    open spec fn view(&self) -> FieldModel {
        FieldModel { name: self.name@, value: self.value@, inline: self.inline }
    }
}

impl DeepView for EmbedField {
    type V = FieldModel;

    open spec fn deep_view(&self) -> FieldModel {
        self@
    }
}

/// The framed part of a notification.
#[derive(Clone, Debug, PartialEq, Eq)]
pub struct Embed {
    /// Accent colour, red in bits 16 to 23, green in 8 to 15, blue in 0 to 7.
    pub color: u32,
    pub timestamp: Timestamp,
    pub title: String,
    /// The body; `None` leaves the embed without one.
    pub description: Option<String>,
    pub fields: Vec<EmbedField>,
}

/// What an `Embed` holds.
pub struct EmbedModel {
    pub color: u32,
    pub timestamp: Timestamp,
    pub title: Seq<char>,
    pub description: Option<Seq<char>>,
    pub fields: Seq<FieldModel>,
}

impl View for Embed {
    type V = EmbedModel;

    open spec fn view(&self) -> EmbedModel {
        EmbedModel {
            color: self.color,
            timestamp: self.timestamp,
            title: self.title@,
            description: self.description.deep_view(),
            fields: self.fields.deep_view(),
        }
    }
}

/// A text file sent along with a notification.
#[derive(Clone, Debug, PartialEq, Eq)]
pub struct Attachment {
    pub filename: String,
    pub data: String,
}

/// What an `Attachment` holds.
pub struct AttachmentModel {
    pub filename: Seq<char>,
    pub data: Seq<char>,
}

impl View for Attachment {
    type V = AttachmentModel;

    open spec fn view(&self) -> AttachmentModel {
        AttachmentModel { filename: self.filename@, data: self.data@ }
    }
}

impl DeepView for Attachment {
    type V = AttachmentModel;

    open spec fn deep_view(&self) -> AttachmentModel {
        self@
    }
}

/// A notification as it is handed to the delivery channel.
#[derive(Clone, Debug, PartialEq, Eq)]
pub struct Payload {
    pub embed: Embed,
    pub attachment: Option<Attachment>,
    /// Plain text above the embed.
    pub content: Option<String>,
    /// Whether a mention of everyone in `content` may notify them.
    pub mention_everyone: bool,
}

/// What a `Payload` holds.
pub struct PayloadModel {
    pub embed: EmbedModel,
    pub attachment: Option<AttachmentModel>,
    pub content: Option<Seq<char>>,
    pub mention_everyone: bool,
}

impl View for Payload {
    type V = PayloadModel;

    open spec fn view(&self) -> PayloadModel {
        PayloadModel {
            embed: self.embed@,
            attachment: self.attachment.deep_view(),
            content: self.content.deep_view(),
            mention_everyone: self.mention_everyone,
        }
    }
}

} // verus!
