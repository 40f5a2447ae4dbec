//! The key hints of the footer: pairs of a key and what it does.

use vstd::prelude::*;
use vstd::string::*;
use crate::app::screen;
use crate::app::screen::InputMode;
use crate::kinds::{describe_all, operations, operations_of, KindId, OperationId};
use crate::text::{lemma_views_add, lemma_views_push, push_char, views};

verus! {

/// The hints for the operations of a kind: the key and the name of each.
pub open spec fn operation_hint_texts(ops: Seq<OperationId>) -> Seq<(Seq<char>, Seq<char>)> {
    Seq::new(ops.len(), |i: int| (seq![ops[i].key()], ops[i].title()))
}

/// The hint for the jump from a schedule to its executions, for the kind
/// that has it.
pub open spec fn jump_hint_texts(kind: KindId) -> Seq<(Seq<char>, Seq<char>)> {
    if kind == KindId::Schedule {
        seq![("w"@, "workflows"@)]
    } else {
        Seq::empty()
    }
}

/// The hints shown under the list of a kind.
pub open spec fn collection_hint_texts(kind: KindId) -> Seq<(Seq<char>, Seq<char>)> {
    seq![("j/k"@, "nav"@), ("Enter"@, "select"@), ("/"@, "search"@), (":"@, "cmd"@)]
        + operation_hint_texts(operations_of(kind)) + jump_hint_texts(kind) + seq![
        ("?"@, "help"@),
        ("q"@, "quit"@),
    ]
}

/// The hints shown under one record of a kind.
pub open spec fn detail_hint_texts(kind: KindId) -> Seq<(Seq<char>, Seq<char>)> {
    (if kind == KindId::WorkflowExecution {
        seq![("h/l"@, "tabs"@), ("a"@, "activities"@)]
    } else {
        Seq::empty()
    }) + seq![("j/k"@, "scroll"@), ("Esc"@, "back"@)] + operation_hint_texts(operations_of(kind))
        + jump_hint_texts(kind) + seq![("?"@, "help"@)]
}

/// The hints of the footer for an input mode and a view.
pub open spec fn footer_hint_texts(input_mode: InputMode, view: screen::View) -> Seq<
    (Seq<char>, Seq<char>),
> {
    match input_mode {
        InputMode::Command => seq![("Esc"@, "cancel"@), ("Enter"@, "execute"@)],
        InputMode::Search => seq![("Esc"@, "cancel"@), ("Enter"@, "apply"@)],
        InputMode::PendingG => seq![("g"@, "top"@)],
        InputMode::Normal => match view {
            screen::View::Collection(kind) => collection_hint_texts(kind),
            screen::View::Detail(kind) => detail_hint_texts(kind),
        },
    }
}

/// A hint: a key and what it does.
pub fn hint(key: &str, desc: &str) -> (r: (String, String))
    ensures
        r@ == (key@, desc@),
{
    (String::from_str(key), String::from_str(desc))
}

/// The hints for the operations of a kind.
pub fn operation_hints(kind: KindId) -> (r: Vec<(String, String)>)
    ensures
        views(r@) == operation_hint_texts(operations_of(kind)),
{
    let ops = operations(kind);
    let ghost ids = operations_of(kind);
    let mut hints: Vec<(String, String)> = Vec::new();
    let mut i: usize = 0;
    while i < ops.len()
        invariant
            i <= ops.len(),
            describe_all(ops@, ids),
            hints@.len() == i,
            forall|j: int| 0 <= j < i ==> (#[trigger] hints@[j])@ == (seq![ids[j].key()], ids[j].title()),
        decreases ops.len() - i,
    {
        assert(ops@[i as int].describes(ids[i as int]));
        let mut key = String::new();
        push_char(&mut key, ops[i].key);
        assert(key@ =~= seq![ids[i as int].key()]);
        hints.push((key, String::from_str(ops[i].label)));
        i += 1;
    }
    assert(views(hints@) =~= operation_hint_texts(ids));
    hints
}

fn push_hint(hints: &mut Vec<(String, String)>, key: &str, desc: &str)
    ensures
        views(final(hints)@) == views(old(hints)@).push((key@, desc@)),
{
    let entry = hint(key, desc);
    proof {
        lemma_views_push(hints@, entry);
    }
    hints.push(entry);
}

fn push_hints(hints: &mut Vec<(String, String)>, more: Vec<(String, String)>)
    ensures
        views(final(hints)@) == views(old(hints)@) + views(more@),
{
    let mut more = more;
    proof {
        lemma_views_add(hints@, more@);
    }
    hints.append(&mut more);
}

/// The hints shown under the list of a kind.
pub fn build_collection_hints(kind: KindId) -> (r: Vec<(String, String)>)
    ensures
        views(r@) == collection_hint_texts(kind),
{
    let mut hints: Vec<(String, String)> = Vec::new();
    assert(views(hints@) =~= Seq::<(Seq<char>, Seq<char>)>::empty());
    push_hint(&mut hints, "j/k", "nav");
    push_hint(&mut hints, "Enter", "select");
    push_hint(&mut hints, "/", "search");
    push_hint(&mut hints, ":", "cmd");
    push_hints(&mut hints, operation_hints(kind));
    if kind == KindId::Schedule {
        push_hint(&mut hints, "w", "workflows");
    }
    push_hint(&mut hints, "?", "help");
    push_hint(&mut hints, "q", "quit");
    assert(views(hints@) =~= collection_hint_texts(kind));
    hints
}

/// The hints shown under one record of a kind.
pub fn build_detail_hints(kind: KindId) -> (r: Vec<(String, String)>)
    ensures
        views(r@) == detail_hint_texts(kind),
{
    let mut hints: Vec<(String, String)> = Vec::new();
    assert(views(hints@) =~= Seq::<(Seq<char>, Seq<char>)>::empty());
    if kind == KindId::WorkflowExecution {
        push_hint(&mut hints, "h/l", "tabs");
        push_hint(&mut hints, "a", "activities");
    }
    push_hint(&mut hints, "j/k", "scroll");
    push_hint(&mut hints, "Esc", "back");
    push_hints(&mut hints, operation_hints(kind));
    if kind == KindId::Schedule {
        push_hint(&mut hints, "w", "workflows");
    }
    push_hint(&mut hints, "?", "help");
    assert(views(hints@) =~= detail_hint_texts(kind));
    hints
}

/// The hints of the footer for an input mode and a view.
pub fn footer_hints(input_mode: InputMode, view: screen::View) -> (r: Vec<(String, String)>)
    ensures
        views(r@) == footer_hint_texts(input_mode, view),
{
    let mut hints: Vec<(String, String)> = Vec::new();
    assert(views(hints@) =~= Seq::<(Seq<char>, Seq<char>)>::empty());
    match input_mode {
        InputMode::Command => {
            push_hint(&mut hints, "Esc", "cancel");
            push_hint(&mut hints, "Enter", "execute");
            assert(views(hints@) =~= footer_hint_texts(input_mode, view));
            hints
        },
        InputMode::Search => {
            push_hint(&mut hints, "Esc", "cancel");
            push_hint(&mut hints, "Enter", "apply");
            assert(views(hints@) =~= footer_hint_texts(input_mode, view));
            hints
        },
        InputMode::PendingG => {
            push_hint(&mut hints, "g", "top");
            assert(views(hints@) =~= footer_hint_texts(input_mode, view));
            hints
        },
        InputMode::Normal => match view {
            screen::View::Collection(kind) => build_collection_hints(kind),
            screen::View::Detail(kind) => build_detail_hints(kind),
        },
    }
}

} // verus!
