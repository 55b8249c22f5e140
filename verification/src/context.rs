//! Who ran a command, where and how: the invocation as the command
//! framework knows it, and what a report keeps of it.

use crate::time::Timestamp;
use crate::text::{append_decimal, decimal};
use vstd::prelude::*;
use vstd::string::*;

verus! {

/// Who ran a command, as they were known when it failed.
#[derive(Clone, Debug, PartialEq, Eq)]
pub struct Author {
    pub display_name: String,
    pub id: u64,
}

/// What an `Author` holds.
pub struct AuthorModel {
    pub display_name: Seq<char>,
    pub id: u64,
}

impl View for Author {
    type V = AuthorModel;

    open spec fn view(&self) -> AuthorModel {
        AuthorModel { display_name: self.display_name@, id: self.id }
    }
}

impl DeepView for Author {
    type V = AuthorModel;

    open spec fn deep_view(&self) -> AuthorModel {
        self@
    }
}

/// The channel that a command was run in.
#[derive(Clone, Copy, Debug, PartialEq, Eq, Structural)]
pub struct Channel {
    pub id: u64,
}

/// The text that links to a channel inside a message.
pub open spec fn channel_mention(channel: Channel) -> Seq<char> {
    "<#"@ + decimal(channel.id as nat) + ">"@
}

impl Channel {
    /// Writes the mention of the channel at the end of `out`.
    pub fn append_mention(&self, out: &mut String)
        ensures
            final(out)@ == old(out)@ + channel_mention(*self),
    {
        out.append("<#");
        append_decimal(out, self.id);
        out.append(">");
        assert(final(out)@ =~= old(out)@ + channel_mention(*self));
    }

    /// The text that links to the channel inside a message.
    pub fn mention(&self) -> (text: String)
        ensures
            text@ == channel_mention(*self),
    {
        let mut text = String::new();
        self.append_mention(&mut text);
        text
    }
}

/// The guild that a command was run in.
#[derive(Clone, Debug, PartialEq, Eq)]
pub struct Guild {
    pub name: String,
}

impl View for Guild {
    type V = Seq<char>;

    open spec fn view(&self) -> Seq<char> {
        self.name@
    }
}

impl DeepView for Guild {
    type V = Seq<char>;

    open spec fn deep_view(&self) -> Seq<char> {
        self@
    }
}

/// How an invocation reached the bot.
#[derive(Clone, Debug, PartialEq, Eq)]
pub enum Origin {
    /// A text message with the command prefix; `message_link` leads to it.
    Prefix { message_link: String },
    /// An interaction, which has no message to link to.
    Application,
}

/// A command invocation as it stood when the command failed.
#[derive(Clone, Debug, PartialEq, Eq)]
pub struct Invocation {
    /// What the user typed.
    pub invocation_string: String,
    pub author: Author,
    /// The channel of the invocation, where it is a channel of a guild
    /// and could be resolved.
    pub guild_channel: Option<Channel>,
    pub guild: Option<Guild>,
    /// The name or alias that the command was called by.
    pub invoked_command_name: String,
    pub origin: Origin,
    pub created_at: Timestamp,
}

/// What is known of the invocation that failed. Each part may be missing.
#[derive(Clone, Debug, PartialEq, Eq)]
pub struct ErrorContext {
    pub invocation_text: Option<String>,
    pub author: Option<Author>,
    pub channel: Option<Channel>,
    pub guild: Option<Guild>,
    pub command_name: Option<String>,
    pub permalink: Option<String>,
}

/// What an `ErrorContext` holds.
pub struct ContextModel {
    pub invocation_text: Option<Seq<char>>,
    pub author: Option<AuthorModel>,
    pub channel: Option<Channel>,
    pub guild: Option<Seq<char>>,
    pub command_name: Option<Seq<char>>,
    pub permalink: Option<Seq<char>>,
}

impl View for ErrorContext {
    type V = ContextModel;

    open spec fn view(&self) -> ContextModel {
        ContextModel {
            invocation_text: self.invocation_text.deep_view(),
            author: self.author.deep_view(),
            channel: self.channel,
            guild: self.guild.deep_view(),
            command_name: self.command_name.deep_view(),
            permalink: self.permalink.deep_view(),
        }
    }
}

/// A context of which nothing is known.
pub open spec fn no_context() -> ContextModel {
    ContextModel {
        invocation_text: None,
        author: None,
        channel: None,
        guild: None,
        command_name: None,
        permalink: None,
    }
}

impl Invocation {
    /// The context that this invocation gives to a report: all of it but
    /// a link, which only a prefix invocation has.
    pub open spec fn context(self) -> ContextModel {
        ContextModel {
            invocation_text: Some(self.invocation_string@),
            author: Some(self.author@),
            channel: self.guild_channel,
            guild: self.guild.deep_view(),
            command_name: Some(self.invoked_command_name@),
            permalink: match self.origin {
                Origin::Prefix { message_link } => Some(message_link@),
                Origin::Application => None,
            },
        }
    }
}

impl Default for ErrorContext {
    /// A context of which nothing is known.
    fn default() -> (context: ErrorContext)
        ensures
            context@ == no_context(),
    {
        ErrorContext {
            invocation_text: None,
            author: None,
            channel: None,
            guild: None,
            command_name: None,
            permalink: None,
        }
    }
}

impl ErrorContext {
    /// Records what `ctx` tells of the invocation. Channel and guild are
    /// kept where `ctx` has them, each on its own; the link is kept for an
    /// invocation that came as a message.
    pub fn from_context(ctx: &Invocation) -> (context: ErrorContext)
        ensures
            context@ == ctx.context(),
    {
        ErrorContext {
            invocation_text: Some(ctx.invocation_string.clone()),
            author: Some(
                Author { display_name: ctx.author.display_name.clone(), id: ctx.author.id },
            ),
            channel: ctx.guild_channel,
            guild: match &ctx.guild {
                Some(guild) => Some(Guild { name: guild.name.clone() }),
                None => None,
            },
            command_name: Some(ctx.invoked_command_name.clone()),
            permalink: match &ctx.origin {
                Origin::Prefix { message_link } => Some(message_link.clone()),
                Origin::Application => None,
            },
        }
    }
}

} // verus!
