//! What the bot tells about itself: how long messages take on their way,
//! and which commits it was built from.

use crate::text::{
    append_decimal, decimal, pad, padded, trim, trimmed, truncate, truncated,
};
use crate::time::{between, elapsed_between, Elapsed, OutOfRange, Timestamp, NANOS_PER_SEC};
use vstd::prelude::*;
use vstd::string::*;

verus! {

/// One commit of the bot's repository, as it is shown.
#[derive(Clone, Debug, PartialEq, Eq)]
pub struct Commit {
    /// The commit's name: forty hexadecimal digits.
    pub oid: String,
    /// The commit message, where it is valid text.
    pub message: Option<String>,
    /// The commit's time, already in the form in which the chat shows it.
    pub timestamp: String,
}

/// What a `Commit` holds.
pub struct CommitModel {
    pub oid: Seq<char>,
    pub message: Option<Seq<char>>,
    pub timestamp: Seq<char>,
}

impl View for Commit {
    type V = CommitModel;

    open spec fn view(&self) -> CommitModel {
        CommitModel {
            oid: self.oid@,
            message: self.message.deep_view(),
            timestamp: self.timestamp@,
        }
    }
}

impl DeepView for Commit {
    type V = CommitModel;

    open spec fn deep_view(&self) -> CommitModel {
        self@
    }
}

/// The most commits that are shown.
pub const MAX_COMMITS_SHOWN: usize = 4;

/// The number of digits that a commit's name is shortened to.
pub const SHORT_SHA_LENGTH: usize = 6;

/// The most characters of a commit message that are shown.
pub const MAX_COMMIT_MESSAGE_LENGTH: usize = 50;

/// The most commits that are shown in the plain list.
pub const MAX_PLAIN_COMMITS_SHOWN: usize = 6;

/// The least width of a commit's name in the plain list.
pub const PLAIN_SHA_WIDTH: usize = 6;

/// The least width of a commit message in the plain list.
pub const PLAIN_MESSAGE_WIDTH: usize = 16;

/// The text that `{:?}` prints for a `Duration` of `secs` seconds and
/// `nanos` nanoseconds.
pub uninterp spec fn duration_debug(secs: u64, nanos: u32) -> Seq<char>;

/// Prints a length of time.
///
/// Trusted: makes a `std::time::Duration` of the two numbers and formats
/// it with `Debug`. With less than a second's worth of nanoseconds nothing
/// is carried over, so that making the duration cannot fail. The text is a
/// function of the two numbers; it is named, not spelt out.
#[verifier::external_body]
fn debug_duration(secs: u64, nanos: u32) -> (text: String)
    requires
        nanos < NANOS_PER_SEC,
    ensures
        text@ == duration_debug(secs, nanos),
{
    format!("{:?}", std::time::Duration::new(secs, nanos))
}

/// The text for the time that `elapsed` holds, where it holds one.
pub open spec fn shown(elapsed: Option<Elapsed>) -> Option<Seq<char>> {
    match elapsed {
        Some(e) => Some(duration_debug(e.secs, e.nanos)),
        None => None,
    }
}

/// The lines that tell how long a message took to the bot, how long the
/// answer took back, and, where the time of the gateway is given, how long
/// the gateway takes.
pub open spec fn ping_lines_text(
    inbound: Seq<char>,
    outbound: Seq<char>,
    gateway: Option<Seq<char>>,
) -> Seq<char> {
    "Discord -> Bot: "@ + inbound + "\nBot -> Discord: "@ + outbound + match gateway {
        Some(gateway) => "\nGateway: "@ + gateway,
        None => Seq::empty(),
    }
}

/// What is told of a message that was sent at `received` and seen at
/// `now`, and of the answer to it, which arrived at `sent`. While the
/// answer is not sent yet, its time reads `...`. There is no text where
/// one of the times is out of range.
pub open spec fn ping_text(
    received: Timestamp,
    now: Timestamp,
    sent: Option<Timestamp>,
    gateway: Option<Elapsed>,
) -> Option<Seq<char>> {
    let inbound = shown(between(received, now));
    let outbound = match sent {
        Some(sent) => shown(between(now, sent)),
        None => Some("..."@),
    };
    let turnaround = match gateway {
        Some(gateway) => shown(gateway.settled()),
        None => None,
    };
    if inbound is Some && outbound is Some && (gateway is Some ==> turnaround is Some) {
        Some(ping_lines_text(inbound->0, outbound->0, turnaround))
    } else {
        None
    }
}

/// Prints the time from `start` to `end`. An `end` before `start` is an
/// error, and so is a time too long to hold.
pub fn format_duration(start: Timestamp, end: Timestamp) -> (r: Result<String, OutOfRange>)
    ensures
        match shown(between(start, end)) {
            Some(text) => r matches Ok(printed) && printed@ == text,
            None => r == Err::<String, OutOfRange>(OutOfRange),
        },
{
    match elapsed_between(start, end) {
        Ok(elapsed) => Ok(debug_duration(elapsed.secs, elapsed.nanos)),
        Err(e) => Err(e),
    }
}

/// Lays the times of a ping out in lines: the time to the bot, the time
/// back, and the time of the gateway, if that is given.
pub fn ping_lines(inbound: &str, outbound: &str, gateway: Option<&str>) -> (text: String)
    ensures
        text@ == ping_lines_text(
            inbound@,
            outbound@,
            match gateway {
                Some(gateway) => Some(gateway@),
                None => None,
            },
        ),
{
    let mut text = String::from_str("Discord -> Bot: ");
    text.append(inbound);
    text.append("\nBot -> Discord: ");
    text.append(outbound);
    match gateway {
        Some(gateway) => {
            text.append("\nGateway: ");
            text.append(gateway);
            assert(text@ =~= ping_lines_text(inbound@, outbound@, Some(gateway@)));
        },
        None => {
            assert(text@ =~= ping_lines_text(inbound@, outbound@, None));
        },
    }
    text
}

/// Tells how long a message that was sent at `received` took to the bot,
/// which saw it at `now`, how long the answer took back, which arrived at
/// `sent`, and how long the gateway takes, if that is given.
pub fn format_ping(
    received: Timestamp,
    now: Timestamp,
    sent: Option<Timestamp>,
    gateway: Option<Elapsed>,
) -> (r: Result<String, OutOfRange>)
    ensures
        match ping_text(received, now, sent, gateway) {
            Some(text) => r matches Ok(printed) && printed@ == text,
            None => r == Err::<String, OutOfRange>(OutOfRange),
        },
{
    let inbound = match format_duration(received, now) {
        Ok(text) => text,
        Err(e) => {
            return Err(e);
        },
    };
    let outbound = match sent {
        Some(sent) => match format_duration(now, sent) {
            Ok(text) => text,
            Err(e) => {
                return Err(e);
            },
        },
        None => String::from_str("..."),
    };
    match gateway {
        Some(gateway) => {
            let turnaround = match gateway.settle() {
                Ok(settled) => debug_duration(settled.secs, settled.nanos),
                Err(e) => {
                    return Err(e);
                },
            };
            Ok(ping_lines(inbound.as_str(), outbound.as_str(), Some(turnaround.as_str())))
        },
        None => Ok(ping_lines(inbound.as_str(), outbound.as_str(), None)),
    }
}

impl CommitModel {
    /// The message that is shown: the commit's own, or a note that it has
    /// none that is valid text.
    pub open spec fn shown_message(self) -> Seq<char> {
        match self.message {
            Some(message) => message,
            None => "<invalid UTF-8>"@,
        }
    }

    /// The line that shows the commit with the message `message`: its
    /// shortened name as a link to the commit under `url`, its time, and
    /// the start of the message.
    pub open spec fn line_with(self, url: Seq<char>, message: Seq<char>) -> Seq<char> {
        "\n[`"@ + truncated(self.oid, SHORT_SHA_LENGTH as nat) + "`]("@ + url + "/commit/"@
            + self.oid + ") "@ + self.timestamp + ": "@ + truncated(
            message,
            MAX_COMMIT_MESSAGE_LENGTH as nat,
        )
    }

    /// The line that shows the commit: with its message, less the white
    /// space around it.
    pub open spec fn line(self, url: Seq<char>) -> Seq<char> {
        self.line_with(url, trimmed(self.shown_message()))
    }
}

impl CommitModel {
    /// The plain line that shows the commit: its name as a link to the
    /// repository at `url`, its time, and its message as it is, each of
    /// name and message filled up to its least width.
    pub open spec fn plain_line(self, url: Seq<char>) -> Seq<char> {
        "\n[`"@ + padded(self.oid, PLAIN_SHA_WIDTH as nat) + "`]("@ + url + ") "@ + self.timestamp
            + ": "@ + padded(self.shown_message(), PLAIN_MESSAGE_WIDTH as nat)
    }
}

/// The plain lines of `commits`, one after another.
pub open spec fn plain_lines(url: Seq<char>, commits: Seq<CommitModel>) -> Seq<char>
    decreases commits.len(),
{
    if commits.len() == 0 {
        Seq::empty()
    } else {
        plain_lines(url, commits.drop_last()) + commits.last().plain_line(url)
    }
}

/// The commits that the plain list shows of `commits`: the first few.
pub open spec fn first_plain_commits(commits: Seq<CommitModel>) -> Seq<CommitModel> {
    if commits.len() <= MAX_PLAIN_COMMITS_SHOWN {
        commits
    } else {
        commits.take(MAX_PLAIN_COMMITS_SHOWN as int)
    }
}

/// The text of the plain list of the recent commits of the repository at
/// `url`, or the note that there is no repository.
pub open spec fn plain_commits_text(repo: Option<(Seq<char>, Seq<CommitModel>)>) -> Seq<char> {
    match repo {
        Some((url, commits)) => plain_lines(url, first_plain_commits(commits)),
        None => "*No Git repository found*"@,
    }
}

/// The lines of `commits`, one after another.
pub open spec fn commit_lines(url: Seq<char>, commits: Seq<CommitModel>) -> Seq<char>
    decreases commits.len(),
{
    if commits.len() == 0 {
        Seq::empty()
    } else {
        commit_lines(url, commits.drop_last()) + commits.last().line(url)
    }
}

/// The commits that are shown of `commits`: the first few.
pub open spec fn first_commits(commits: Seq<CommitModel>) -> Seq<CommitModel> {
    if commits.len() <= MAX_COMMITS_SHOWN {
        commits
    } else {
        commits.take(MAX_COMMITS_SHOWN as int)
    }
}

/// The text that lists the recent commits of the repository at `url`, or
/// says that there is no repository.
pub open spec fn commits_text(repo: Option<(Seq<char>, Seq<CommitModel>)>) -> Seq<char> {
    match repo {
        Some((url, commits)) => commit_lines(url, first_commits(commits)),
        None => "*No Git repository found*"@,
    }
}

impl Commit {
    /// Writes the line that shows the commit with the message `message`
    /// at the end of `out`.
    pub fn append_line_with(&self, url: &str, message: &str, out: &mut String)
        ensures
            final(out)@ == old(out)@ + self@.line_with(url@, message@),
    {
        out.append("\n[`");
        out.append(truncate(self.oid.as_str(), SHORT_SHA_LENGTH).as_str());
        out.append("`](");
        out.append(url);
        out.append("/commit/");
        out.append(self.oid.as_str());
        out.append(") ");
        out.append(self.timestamp.as_str());
        out.append(": ");
        out.append(truncate(message, MAX_COMMIT_MESSAGE_LENGTH).as_str());
        assert(final(out)@ =~= old(out)@ + self@.line_with(url@, message@));
    }

    /// Writes the line that shows the commit at the end of `out`.
    pub fn append_line(&self, url: &str, out: &mut String)
        ensures
            final(out)@ == old(out)@ + self@.line(url@),
    {
        let message = match &self.message {
            Some(message) => trim(message.as_str()),
            None => trim("<invalid UTF-8>"),
        };
        self.append_line_with(url, message, out);
    }
}

impl Commit {
    /// Writes the plain line that shows the commit at the end of `out`.
    pub fn append_plain_line(&self, url: &str, out: &mut String)
        ensures
            final(out)@ == old(out)@ + self@.plain_line(url@),
    {
        out.append("\n[`");
        out.append(pad(self.oid.as_str(), PLAIN_SHA_WIDTH).as_str());
        out.append("`](");
        out.append(url);
        out.append(") ");
        out.append(self.timestamp.as_str());
        out.append(": ");
        let message = match &self.message {
            Some(message) => pad(message.as_str(), PLAIN_MESSAGE_WIDTH),
            None => pad("<invalid UTF-8>", PLAIN_MESSAGE_WIDTH),
        };
        out.append(message.as_str());
        assert(final(out)@ =~= old(out)@ + self@.plain_line(url@));
    }
}

/// Lists the most recent commits of the repository plainly: at most
/// `MAX_PLAIN_COMMITS_SHOWN` of `commits`, which come newest first, each
/// on a line of its own with a link to the repository at `url`. Without a
/// repository the text says so.
pub fn plain_commits(repo: Option<(&str, &Vec<Commit>)>) -> (text: String)
    ensures
        text@ == plain_commits_text(
            match repo {
                Some((url, commits)) => Some((url@, commits.deep_view())),
                None => None,
            },
        ),
{
    match repo {
        Some((url, commits)) => {
            let count = if commits.len() <= MAX_PLAIN_COMMITS_SHOWN {
                commits.len()
            } else {
                MAX_PLAIN_COMMITS_SHOWN
            };
            let ghost listed = first_plain_commits(commits.deep_view());
            let mut text = String::new();
            let mut i: usize = 0;
            while i < count
                invariant
                    i <= count,
                    count == listed.len(),
                    count <= commits.len(),
                    forall|k: int| 0 <= k < count ==> listed[k] == (#[trigger] commits@[k])@,
                    text@ == plain_lines(url@, listed.take(i as int)),
                decreases count - i,
            {
                commits[i].append_plain_line(url, &mut text);
                assert(listed.take(i + 1).drop_last() =~= listed.take(i as int));
                i = i + 1;
            }
            assert(listed.take(count as int) =~= listed);
            text
        },
        None => String::from_str("*No Git repository found*"),
    }
}

/// Lists the most recent commits of the repository: at most
/// `MAX_COMMITS_SHOWN` of `commits`, which come newest first, each on a
/// line of its own with a link under the repository's `url`. Without a
/// repository the text says so.
pub fn recent_commits(repo: Option<(&str, &Vec<Commit>)>) -> (text: String)
    ensures
        text@ == commits_text(
            match repo {
                Some((url, commits)) => Some((url@, commits.deep_view())),
                None => None,
            },
        ),
{
    match repo {
        Some((url, commits)) => {
            let count = if commits.len() <= MAX_COMMITS_SHOWN {
                commits.len()
            } else {
                MAX_COMMITS_SHOWN
            };
            let ghost listed = first_commits(commits.deep_view());
            let mut text = String::new();
            let mut i: usize = 0;
            while i < count
                invariant
                    i <= count,
                    count == listed.len(),
                    count <= commits.len(),
                    forall|k: int| 0 <= k < count ==> listed[k] == (#[trigger] commits@[k])@,
                    text@ == commit_lines(url@, listed.take(i as int)),
                decreases count - i,
            {
                commits[i].append_line(url, &mut text);
                assert(listed.take(i + 1).drop_last() =~= listed.take(i as int));
                i = i + 1;
            }
            assert(listed.take(count as int) =~= listed);
            text
        },
        None => String::from_str("*No Git repository found*"),
    }
}

/// The line that says how many servers the bot is in.
pub open spec fn stats_text(servers: nat) -> Seq<char> {
    decimal(servers) + " servers\n"@
}

/// Says how many servers the bot is in.
pub fn stats(servers: u64) -> (text: String)
    ensures
        text@ == stats_text(servers as nat),
{
    let mut text = String::new();
    append_decimal(&mut text, servers);
    text.append(" servers\n");
    text
}

} // verus!
