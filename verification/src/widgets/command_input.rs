//! What the input lines show beside what was typed: the commands that
//! match, the rest of the first of them, and examples of searches.

use vstd::prelude::*;
use vstd::string::*;
use crate::app::screen;
use crate::input::commands::{
    command_table, commands, matching, matching_commands, CommandDef, CommandDefView,
};
use crate::kinds::KindId;
use crate::text::{
    chars_of, first_word, first_word_of, has_prefix, lowercase, slice_of, starts_with, string_of,
    views,
};

verus! {

/// The commands to show under the command line: all of them while no word
/// is typed, none once an argument is begun, and else those that the word
/// may be the beginning of, whatever its case.
pub open spec fn suggestions(buffer: Seq<char>) -> Seq<CommandDefView> {
    if first_word(buffer).len() == 0 {
        command_table()
    } else if buffer.contains(' ') {
        Seq::empty()
    } else {
        matching(command_table(), lowercase(first_word(buffer)))
    }
}

/// What is shown, dimmed, after the word that is typed: the rest of the
/// name of the first command, where the word begins that name.
pub open spec fn completion_of(word: Seq<char>, first: Seq<char>) -> Seq<char> {
    if has_prefix(first, word) && first.len() > word.len() {
        first.skip(word.len() as int)
    } else {
        Seq::empty()
    }
}

/// The rest of the name of the first suggestion, for a buffer that holds
/// one word and no space.
pub open spec fn ghost(buffer: Seq<char>, found: Seq<CommandDefView>) -> Seq<char> {
    if buffer.len() > 0 && !buffer.contains(' ') && found.len() > 0 {
        completion_of(first_word(buffer), found[0].name)
    } else {
        Seq::empty()
    }
}

/// Examples of searches for the kind on screen.
pub open spec fn example_searches(view: screen::View) -> Seq<Seq<char>> {
    match view {
        screen::View::Collection(KindId::Schedule) | screen::View::Detail(KindId::Schedule) => seq![
            "TemporalSchedulePaused = true"@,
            "ScheduleId = 'nightly-reconcile'"@,
            "WorkflowType = 'SyncWorkflow'"@,
        ],
        _ => seq![
            "WorkflowType = 'MyWorkflow'"@,
            "ExecutionStatus = 'Running'"@,
            "WorkflowId = 'order-123'"@,
        ],
    }
}

fn holds(s: &Vec<char>, c: char) -> (r: bool)
    ensures
        r == s@.contains(c),
{
    let mut i: usize = 0;
    while i < s.len()
        invariant
            i <= s.len(),
            forall|j: int| 0 <= j < i ==> s@[j] != c,
        decreases s.len() - i,
    {
        if s[i] == c {
            return true;
        }
        i += 1;
    }
    false
}

/// The commands to show under the command line.
pub fn command_suggestions(input_buffer: &str) -> (found: Vec<CommandDef>)
    ensures
        views(found@) == suggestions(input_buffer@),
{
    let buffer = chars_of(input_buffer);
    let word = first_word_of(&buffer);
    if word.len() == 0 {
        commands()
    } else if holds(&buffer, ' ') {
        let none: Vec<CommandDef> = Vec::new();
        assert(views(none@) =~= Seq::<CommandDefView>::empty());
        none
    } else {
        matching_commands(string_of(&word).as_str())
    }
}

/// The rest of `first` after `word`, where `word` begins it.
pub fn complete_word(word: &str, first: &str) -> (rest: String)
    ensures
        rest@ == completion_of(word@, first@),
{
    let typed = chars_of(word);
    let name = chars_of(first);
    if starts_with(&name, &typed) && name.len() > typed.len() {
        let rest = slice_of(&name, typed.len(), name.len());
        assert(rest@ =~= name@.skip(typed@.len() as int));
        string_of(&rest)
    } else {
        String::new()
    }
}

/// What is shown, dimmed, after the word that is typed, given the
/// suggestions for it.
pub fn ghost_completion(input_buffer: &str, found: &Vec<CommandDef>) -> (rest: String)
    ensures
        rest@ == ghost(input_buffer@, views(found@)),
{
    let buffer = chars_of(input_buffer);
    if buffer.len() > 0 && !holds(&buffer, ' ') && found.len() > 0 {
        let word = string_of(&first_word_of(&buffer));
        assert(views(found@)[0] == found@[0]@);
        complete_word(word.as_str(), found[0].name)
    } else {
        String::new()
    }
}

/// Examples of searches for the kind on screen.
pub fn search_examples(view: screen::View) -> (examples: Vec<&'static str>)
    ensures
        views(examples@) == example_searches(view),
{
    let mut examples: Vec<&'static str> = Vec::new();
    match view {
        screen::View::Collection(KindId::Schedule) | screen::View::Detail(KindId::Schedule) => {
            examples.push("TemporalSchedulePaused = true");
            examples.push("ScheduleId = 'nightly-reconcile'");
            examples.push("WorkflowType = 'SyncWorkflow'");
        },
        _ => {
            examples.push("WorkflowType = 'MyWorkflow'");
            examples.push("ExecutionStatus = 'Running'");
            examples.push("WorkflowId = 'order-123'");
        },
    }
    assert(views(examples@) =~= example_searches(view));
    examples
}

} // verus!
