//! Groups of commands, and the registry that lists the commands of all
//! groups.

use crate::span::Command;
use vstd::prelude::*;

pub mod debug;
pub mod gadgets;
pub mod meta;

verus! {

/// A group of commands that are listed under one heading.
#[derive(Clone, Debug, PartialEq, Eq)]
pub struct Cog {
    pub commands: Vec<Command>,
    pub category: String,
}

impl Cog {
    /// A group of `commands` under the heading `category`.
    pub fn new(commands: Vec<Command>, category: String) -> (cog: Cog)
        ensures
            cog.commands == commands,
            cog.category == category,
    {
        Self { commands, category }
    }

    /// The commands of the group, each filed under the group's heading.
    pub open spec fn filed(self) -> Seq<Command> {
        self.commands@.map_values(|command: Command| command.filed_under(self.category))
    }
}

impl Command {
    /// The command with `category` as its heading.
    pub open spec fn filed_under(self, category: String) -> Command {
        Command { category: Some(category), ..self }
    }
}

/// The commands of all `cogs` in one list, group after group.
pub open spec fn registry(cogs: Seq<Cog>) -> Seq<Command>
    decreases cogs.len(),
{
    if cogs.len() == 0 {
        Seq::empty()
    } else {
        registry(cogs.drop_last()) + cogs.last().filed()
    }
}

/// Lists the commands of all `cogs`: those of the first group first, each
/// group in its own order, and each command under its group's heading.
pub fn commands(cogs: Vec<Cog>) -> (result: Vec<Command>)
    ensures
        result@ == registry(cogs@),
{
    let mut result: Vec<Command> = Vec::new();
    let ghost all = cogs@;
    for cog in groups: cogs
        invariant
            groups.seq() == all,
            result@ == registry(all.take(groups.index())),
    {
        let ghost done = groups.index();
        let ghost before = result@;
        let Cog { commands, category } = cog;
        let ghost listed = commands@;
        for command in members: commands
            invariant
                members.seq() == listed,
                result@ == before + listed.take(members.index()).map_values(
                    |command: Command| command.filed_under(category),
                ),
        {
            let ghost at = members.index();
            let Command { name, aliases, category: _, custom_data } = command;
            result.push(Command { name, aliases, category: Some(category.clone()), custom_data });
            assert(listed.take(at + 1) =~= listed.take(at).push(listed[at]));
            assert(result@ =~= before + listed.take(at + 1).map_values(
                |command: Command| command.filed_under(category),
            ));
        }
        assert(listed.take(listed.len() as int) =~= listed);
        assert(all.take(done + 1).drop_last() =~= all.take(done));
    }
    assert(all.take(all.len() as int) =~= all);
    result
}

} // verus!
