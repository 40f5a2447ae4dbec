//! The commands that the command line offers, and their completion.

use vstd::prelude::*;
use vstd::string::*;
use crate::text::{chars_of, has_prefix, lemma_views_push, lowercase, starts_with, to_lower, views};

verus! {

/// A command: its name, its short forms, and what it does.
#[derive(Debug, PartialEq, Eq)]
pub struct CommandDef {
    pub name: &'static str,
    pub aliases: Vec<&'static str>,
    pub description: &'static str,
}

pub struct CommandDefView {
    pub name: Seq<char>,
    pub aliases: Seq<Seq<char>>,
    pub description: Seq<char>,
}

impl View for CommandDef {
    type V = CommandDefView;

    open spec fn view(&self) -> CommandDefView {
        CommandDefView {
            name: self.name@,
            aliases: views(self.aliases@),
            description: self.description@,
        }
    }
}

/// The commands, in the order in which they are offered.
pub open spec fn command_table() -> Seq<CommandDefView> {
    seq![
        CommandDefView {
            name: "workflows"@,
            aliases: seq!["wf"@],
            description: "Switch to workflows view"@,
        },
        CommandDefView {
            name: "schedules"@,
            aliases: seq!["sch"@],
            description: "Switch to schedules view"@,
        },
        CommandDefView {
            name: "namespace"@,
            aliases: seq!["ns"@],
            description: "Switch namespace (e.g. :ns production)"@,
        },
        CommandDefView {
            name: "signal"@,
            aliases: seq!["sig"@],
            description: "Signal workflow (e.g. :signal my-signal {\"key\":\"val\"})"@,
        },
        CommandDefView { name: "quit"@, aliases: seq!["q"@], description: "Quit t9s"@ },
        CommandDefView { name: "help"@, aliases: seq!["h"@], description: "Show help"@ },
    ]
}

/// One of `names` begins with `prefix`.
pub open spec fn any_prefixed(names: Seq<Seq<char>>, prefix: Seq<char>) -> bool {
    exists|i: int| 0 <= i < names.len() && has_prefix(#[trigger] names[i], prefix)
}

/// The command's name or one of its short forms begins with `prefix`.
pub open spec fn offers(command: CommandDefView, prefix: Seq<char>) -> bool {
    has_prefix(command.name, prefix) || any_prefixed(command.aliases, prefix)
}

/// The commands of `table` that `prefix` may be the beginning of, in the
/// order of the table.
pub open spec fn matching(table: Seq<CommandDefView>, prefix: Seq<char>) -> Seq<CommandDefView>
    decreases table.len(),
{
    if table.len() == 0 {
        Seq::empty()
    } else if offers(table.last(), prefix) {
        matching(table.drop_last(), prefix).push(table.last())
    } else {
        matching(table.drop_last(), prefix)
    }
}

impl Clone for CommandDef {
    fn clone(&self) -> (r: Self)
        ensures
            r@ == self@,
    {
        let mut aliases: Vec<&'static str> = Vec::new();
        let mut i: usize = 0;
        while i < self.aliases.len()
            invariant
                i <= self.aliases.len(),
                aliases@ == self.aliases@.take(i as int),
            decreases self.aliases.len() - i,
        {
            aliases.push(self.aliases[i]);
            i += 1;
        }
        assert(self.aliases@.take(i as int) =~= self.aliases@);
        CommandDef { name: self.name, aliases, description: self.description }
    }
}

fn command(name: &'static str, alias: &'static str, description: &'static str) -> (r: CommandDef)
    ensures
        r@ == (CommandDefView { name: name@, aliases: seq![alias@], description: description@ }),
{
    let mut aliases: Vec<&'static str> = Vec::new();
    aliases.push(alias);
    assert(views(aliases@) =~= seq![alias@]);
    CommandDef { name, aliases, description }
}

/// The commands, in the order in which they are offered.
pub fn commands() -> (r: Vec<CommandDef>)
    ensures
        views(r@) == command_table(),
{
    let mut table: Vec<CommandDef> = Vec::new();
    table.push(command("workflows", "wf", "Switch to workflows view"));
    table.push(command("schedules", "sch", "Switch to schedules view"));
    table.push(command("namespace", "ns", "Switch namespace (e.g. :ns production)"));
    table.push(
        command("signal", "sig", "Signal workflow (e.g. :signal my-signal {\"key\":\"val\"})"),
    );
    table.push(command("quit", "q", "Quit t9s"));
    table.push(command("help", "h", "Show help"));
    assert(views(table@) =~= command_table());
    table
}

fn command_offers(command: &CommandDef, prefix: &Vec<char>) -> (r: bool)
    ensures
        r == offers(command@, prefix@),
{
    if starts_with(&chars_of(command.name), prefix) {
        return true;
    }
    let mut i: usize = 0;
    while i < command.aliases.len()
        invariant
            i <= command.aliases.len(),
            forall|j: int| 0 <= j < i ==> !has_prefix(#[trigger] views(command.aliases@)[j], prefix@),
        decreases command.aliases.len() - i,
    {
        if starts_with(&chars_of(command.aliases[i]), prefix) {
            assert(has_prefix(views(command.aliases@)[i as int], prefix@));
            return true;
        }
        i += 1;
    }
    false
}

/// The commands that `prefix` may be the beginning of.
pub fn commands_with_prefix(prefix: &str) -> (r: Vec<CommandDef>)
    ensures
        views(r@) == matching(command_table(), prefix@),
{
    let table = commands();
    let wanted = chars_of(prefix);
    let mut found: Vec<CommandDef> = Vec::new();
    let mut i: usize = 0;
    assert(views(table@).take(0) =~= Seq::<CommandDefView>::empty());
    assert(views(found@) =~= Seq::<CommandDefView>::empty());
    while i < table.len()
        invariant
            i <= table.len(),
            wanted@ == prefix@,
            views(found@) == matching(views(table@).take(i as int), prefix@),
        decreases table.len() - i,
    {
        let ghost done = views(table@).take(i + 1);
        assert(done.drop_last() =~= views(table@).take(i as int));
        assert(done.last() == table@[i as int]@);
        if command_offers(&table[i], &wanted) {
            let entry = table[i].clone();
            proof {
                lemma_views_push(found@, entry);
            }
            found.push(entry);
        }
        i += 1;
    }
    assert(views(table@).take(i as int) =~= views(table@));
    found
}

/// The commands that `input` may be the beginning of, whatever its case.
pub fn matching_commands(input: &str) -> (r: Vec<CommandDef>)
    ensures
        views(r@) == matching(command_table(), lowercase(input@)),
{
    let lower = to_lower(input);
    commands_with_prefix(lower.as_str())
}

} // verus!
