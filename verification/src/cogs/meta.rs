//! Looking a command up in the registry and answering where it is
//! defined.

use crate::span::{site_of, Command, Site};
use crate::text::{append_decimal, decimal, occurs_in};
use vstd::prelude::*;
use vstd::string::*;

verus! {

impl Command {
    /// Whether `name` is the command's name or one of its aliases.
    pub open spec fn answers_to(self, name: Seq<char>) -> bool {
        self.name@ == name || exists|k: int|
            0 <= k < self.aliases@.len() && (#[trigger] self.aliases@[k])@ == name
    }

    /// Whether the command is invoked by `name`.
    pub fn is_called(&self, name: &String) -> (called: bool)
        ensures
            called == self.answers_to(name@),
    {
        if self.name == *name {
            return true;
        }
        let mut k: usize = 0;
        while k < self.aliases.len()
            invariant
                k <= self.aliases@.len(),
                forall|j: int| 0 <= j < k ==> (#[trigger] self.aliases@[j])@ != name@,
                self.name@ != name@,
            decreases self.aliases.len() - k,
        {
            if self.aliases[k] == *name {
                return true;
            }
            k = k + 1;
        }
        false
    }
}

/// Whether `commands[i]` answers to `name` and no command before it does.
pub open spec fn is_first_match(commands: Seq<Command>, name: Seq<char>, i: int) -> bool {
    &&& 0 <= i < commands.len()
    &&& commands[i].answers_to(name)
    &&& forall|j: int| 0 <= j < i ==> !(#[trigger] commands[j]).answers_to(name)
}

/// The command that `name` invokes: the first in the registry that answers
/// to it.
pub open spec fn lookup(commands: Seq<Command>, name: Seq<char>) -> Option<Command> {
    if exists|i: int| is_first_match(commands, name, i) {
        Some(commands[choose|i: int| is_first_match(commands, name, i)])
    } else {
        None
    }
}

/// The place where the command that `name` invokes is defined: the place
/// on the tag that its metadata slot holds. There is none where no command
/// answers to `name`, and none where the slot holds no tag.
pub open spec fn located(commands: Seq<Command>, name: Seq<char>) -> Option<Site> {
    match lookup(commands, name) {
        Some(command) => match command.custom_data.span() {
            Some(tag) => Some(tag.site()),
            None => None,
        },
        None => None,
    }
}

/// The address under which the files of the bot's source are shown.
pub const REPOSITORY_URL: &'static str = "https://github.com/RocketRace/oliviabot/blob/main/";

/// The reply that shows where the command `name` is defined.
pub open spec fn found_reply(name: Seq<char>, site: Site) -> Seq<char> {
    "Command `"@ + name + "` is defined in [`"@ + site.file + "`, line "@ + decimal(
        site.line as nat,
    ) + "](<"@ + REPOSITORY_URL@ + site.file + "#L"@ + decimal(
        site.line as nat,
    ) + ">)"@
}

/// The reply for a name whose definition is not known.
pub open spec fn not_found_reply(name: Seq<char>) -> Seq<char> {
    "Command `"@ + name + "` not found"@
}

/// The reply to a request for the source of the command `name`.
pub open spec fn source_reply(commands: Seq<Command>, name: Seq<char>) -> Seq<char> {
    match located(commands, name) {
        Some(site) => found_reply(name, site),
        None => not_found_reply(name),
    }
}

/// At most one index is the first match.
pub proof fn lemma_first_match_unique(commands: Seq<Command>, name: Seq<char>, i: int, j: int)
    requires
        is_first_match(commands, name, i),
        is_first_match(commands, name, j),
    ensures
        i == j,
{
    if i < j {
        assert(!commands[i].answers_to(name));
    } else if j < i {
        assert(!commands[j].answers_to(name));
    }
}

/// Looks `name` up in the registry, by name and by alias. Where several
/// commands answer to it, the first one in the registry is returned.
pub fn find_command<'a>(commands: &'a Vec<Command>, name: &str) -> (found: Option<&'a Command>)
    ensures
        found == match lookup(commands@, name@) {
            Some(command) => Some(&command),
            None => None,
        },
        found matches Some(command) ==> exists|i: int|
            is_first_match(commands@, name@, i) && commands@[i] == *command,
        found is None ==> forall|i: int|
            0 <= i < commands@.len() ==> !(#[trigger] commands@[i]).answers_to(name@),
{
    let needle = String::from_str(name);
    let mut i: usize = 0;
    while i < commands.len()
        invariant
            i <= commands@.len(),
            needle@ == name@,
            forall|j: int| 0 <= j < i ==> !(#[trigger] commands@[j]).answers_to(name@),
        decreases commands.len() - i,
    {
        if commands[i].is_called(&needle) {
            proof {
                assert(is_first_match(commands@, name@, i as int));
                let chosen = choose|k: int| is_first_match(commands@, name@, k);
                lemma_first_match_unique(commands@, name@, i as int, chosen);
            }
            return Some(&commands[i]);
        }
        i = i + 1;
    }
    assert forall|k: int| !is_first_match(commands@, name@, k) by {
        if 0 <= k < commands@.len() {
            assert(!commands@[k].answers_to(name@));
        }
    }
    None
}

/// Answers a request for the source of the command `command`: a link to
/// the place named on the tag in the command's metadata slot. Where no
/// command answers to the name, and where the slot of the one that does
/// holds no tag, the answer is the same: that the command was not found.
pub fn source(commands: &Vec<Command>, command: &str) -> (reply: String)
    ensures
        reply@ == source_reply(commands@, command@),
{
    let span = match find_command(commands, command) {
        Some(resolved) => resolved.custom_data.as_span(),
        None => None,
    };
    let mut reply = String::from_str("Command `");
    reply.append(command);
    match span {
        Some(span) => {
            reply.append("` is defined in [`");
            reply.append(span.file);
            reply.append("`, line ");
            append_decimal(&mut reply, span.line as u64);
            reply.append("](<");
            reply.append(REPOSITORY_URL);
            reply.append(span.file);
            reply.append("#L");
            append_decimal(&mut reply, span.line as u64);
            reply.append(">)");
            assert(reply@ =~= found_reply(command@, span.site()));
        },
        None => {
            reply.append("` not found");
        },
    }
    reply
}

/// The resolver reads the tag on top. Where the first command that
/// answers to `name` was tagged with `places` one after another, the place
/// that is found is the last of them, the chain of tags in the command's
/// slot is as many tags deeper as there are places, and the reply links to
/// the place that was found.
pub proof fn lemma_resolver_recovers_outermost(
    commands: Seq<Command>,
    name: Seq<char>,
    i: int,
    untagged: Command,
    places: Seq<(&'static str, u32)>,
)
    requires
        is_first_match(commands, name, i),
        commands[i] == untagged.wrapped(places),
        places.len() > 0,
    ensures
        located(commands, name) == Some(site_of(places.last())),
        commands[i].custom_data.depth() == untagged.custom_data.depth() + places.len(),
        !(untagged.custom_data is Span) ==> commands[i].custom_data.depth() == places.len(),
        source_reply(commands, name) == found_reply(name, site_of(places.last())),
{
    crate::span::lemma_wraps_nest(untagged.custom_data, places);
    lemma_first_match_unique(
        commands,
        name,
        i,
        choose|k: int| is_first_match(commands, name, k),
    );
}

/// A name that no command answers to and a name whose command carries no
/// tag get the same reply. No place is found in exactly these two cases,
/// and the reply then depends on the name alone.
pub proof fn lemma_unknown_and_untagged_alike(commands: Seq<Command>, name: Seq<char>)
    ensures
        located(commands, name) is None <==> {
            ||| forall|i: int|
                0 <= i < commands.len() ==> !(#[trigger] commands[i]).answers_to(name)
            ||| exists|i: int|
                is_first_match(commands, name, i) && !(commands[i].custom_data is Span)
        },
        located(commands, name) is None ==> source_reply(commands, name) == not_found_reply(name),
{
    if exists|i: int| is_first_match(commands, name, i) {
        let chosen = choose|i: int| is_first_match(commands, name, i);
        assert(commands[chosen].answers_to(name));
        if located(commands, name) is Some {
            assert forall|i: int| is_first_match(commands, name, i) implies commands[i].custom_data
                is Span by {
                lemma_first_match_unique(commands, name, i, chosen);
            }
        }
    } else {
        if exists|i: int| 0 <= i < commands.len() && (#[trigger] commands[i]).answers_to(name) {
            lemma_some_match_has_first(commands, name, commands.len() as int);
        }
    }
}

/// Where one of the first `n` commands answers to `name`, one of them is
/// the first to do so.
proof fn lemma_some_match_has_first(commands: Seq<Command>, name: Seq<char>, n: int)
    requires
        0 <= n <= commands.len(),
        exists|i: int| 0 <= i < n && (#[trigger] commands[i]).answers_to(name),
    ensures
        exists|i: int| is_first_match(commands, name, i),
    decreases n,
{
    if exists|i: int| 0 <= i < n - 1 && (#[trigger] commands[i]).answers_to(name) {
        lemma_some_match_has_first(commands, name, n - 1);
    } else {
        assert(commands[n - 1].answers_to(name));
        assert(is_first_match(commands, name, n - 1));
    }
}

/// The reply for a command that was found names the line of its
/// definition in words.
pub proof fn lemma_found_reply_names_line(name: Seq<char>, site: Site)
    ensures
        occurs_in("line "@ + decimal(site.line as nat), found_reply(name, site)),
{
    let line = "line "@ + decimal(site.line as nat);
    let head = "Command `"@ + name + "` is defined in [`"@ + site.file + "`, "@;
    let tail = "](<"@ + REPOSITORY_URL@ + site.file + "#L"@
        + decimal(site.line as nat) + ">)"@;
    reveal_strlit("`, line ");
    reveal_strlit("`, ");
    reveal_strlit("line ");
    assert("`, line "@ =~= "`, "@ + "line "@);
    let reply = found_reply(name, site);
    assert(reply =~= head + line + tail);
    assert(reply.subrange(head.len() as int, (head.len() + line.len()) as int) =~= line);
}

} // verus!
