//! The mapping from keys to actions. What a key means depends, in this
//! order, on the open overlay, on the input mode, and on the view.

use vstd::prelude::*;
use vstd::string::*;
use crate::action::{Action, ActionView};
use crate::app::screen;
use crate::app::screen::InputMode;
use crate::app::state::{Overlay, OverlayView};
use crate::input::commands::{command_table, matching, matching_commands};
use crate::kinds::{key_operation, operation_for_key, KindId};
use crate::text::{
    chars_of, first_word, first_word_of, lowercase, opt_view, push_char, string_of, views,
};

verus! {

/// The keys that the mapping tells apart.
#[derive(Debug, Clone, Copy, PartialEq, Eq, Structural)]
pub enum KeyCode {
    Char(char),
    Enter,
    Esc,
    Tab,
    BackTab,
    Backspace,
    Up,
    Down,
    Other,
}

/// A key as it was pressed: the key, and whether Control was held.
#[derive(Debug, Clone, Copy, PartialEq, Eq, Structural)]
pub struct KeyPress {
    pub code: KeyCode,
    pub control: bool,
}

/// What a key means while the help overlay is open.
pub open spec fn help_key(code: KeyCode) -> Option<ActionView> {
    if code == KeyCode::Esc || code == KeyCode::Char('?') || code == KeyCode::Char('q') {
        Some(ActionView::ToggleHelp)
    } else {
        None
    }
}

/// What a key means while the confirmation overlay is open.
pub open spec fn confirm_key(code: KeyCode) -> Option<ActionView> {
    if code == KeyCode::Char('y') || code == KeyCode::Enter {
        Some(ActionView::Confirm)
    } else if code == KeyCode::Char('n') || code == KeyCode::Esc {
        Some(ActionView::CloseOverlay)
    } else {
        None
    }
}

/// What a key means while the namespace selector is open.
pub open spec fn selector_key(code: KeyCode) -> Option<ActionView> {
    if code == KeyCode::Char('j') || code == KeyCode::Down {
        Some(ActionView::NavigateDown)
    } else if code == KeyCode::Char('k') || code == KeyCode::Up {
        Some(ActionView::NavigateUp)
    } else if code == KeyCode::Char('g') {
        Some(ActionView::NavigateTop)
    } else if code == KeyCode::Char('G') {
        Some(ActionView::NavigateBottom)
    } else if code == KeyCode::Enter {
        Some(ActionView::Select)
    } else if code == KeyCode::Esc {
        Some(ActionView::CloseOverlay)
    } else {
        None
    }
}

/// The buffer without its last character.
pub open spec fn erased(buffer: Seq<char>) -> Seq<char> {
    if buffer.len() == 0 {
        buffer
    } else {
        buffer.drop_last()
    }
}

/// The completion of the command that is being typed: the name of the
/// first of the commands that `matches` holds, and a space.
pub open spec fn completion(matches: Seq<Seq<char>>) -> Option<ActionView> {
    if matches.len() == 0 {
        None
    } else {
        Some(ActionView::UpdateInputBuffer(matches[0] + seq![' ']))
    }
}

/// The names of the commands that the first word of `buffer`, in
/// lowercase, may be the beginning of.
pub open spec fn candidates(buffer: Seq<char>) -> Seq<Seq<char>> {
    let found = matching(command_table(), lowercase(first_word(buffer)));
    Seq::new(found.len(), |i: int| found[i].name)
}

/// What a key means on the input line, apart from Enter and Tab.
pub open spec fn edit_key(code: KeyCode, buffer: Seq<char>) -> Option<ActionView> {
    match code {
        KeyCode::Esc => Some(ActionView::CloseOverlay),
        KeyCode::Backspace => Some(ActionView::UpdateInputBuffer(erased(buffer))),
        KeyCode::Char(c) => Some(ActionView::UpdateInputBuffer(buffer.push(c))),
        _ => None,
    }
}

/// What a key means while a command is being typed.
pub open spec fn command_key(code: KeyCode, buffer: Seq<char>) -> Option<ActionView> {
    match code {
        KeyCode::Enter => Some(ActionView::SubmitCommandInput(buffer)),
        KeyCode::Tab => completion(candidates(buffer)),
        _ => edit_key(code, buffer),
    }
}

/// What a key means while a search is being typed.
pub open spec fn search_key(code: KeyCode, buffer: Seq<char>) -> Option<ActionView> {
    match code {
        KeyCode::Enter => Some(ActionView::SubmitSearch(buffer)),
        KeyCode::Tab => None,
        _ => edit_key(code, buffer),
    }
}

/// What a key means after the first key of the chord for "top": the second
/// `g` goes to the top, any other key gives the chord up.
pub open spec fn chord_key(code: KeyCode) -> Option<ActionView> {
    if code == KeyCode::Char('g') {
        Some(ActionView::NavigateTop)
    } else {
        Some(ActionView::CloseOverlay)
    }
}

/// What a key means with Control held.
pub open spec fn control_key(code: KeyCode) -> Option<ActionView> {
    if code == KeyCode::Char('c') {
        Some(ActionView::Quit)
    } else if code == KeyCode::Char('r') {
        Some(ActionView::Refresh)
    } else if code == KeyCode::Char('d') {
        Some(ActionView::PageDown)
    } else if code == KeyCode::Char('u') {
        Some(ActionView::PageUp)
    } else {
        None
    }
}

/// The kind that a view shows.
pub open spec fn kind_of(view: screen::View) -> KindId {
    match view {
        screen::View::Collection(kind) => kind,
        screen::View::Detail(kind) => kind,
    }
}

/// What a character means in a view, apart from the bindings that hold
/// everywhere: the keys of the detail view of executions, the jump from a
/// schedule to its executions, and the operations of the kind.
pub open spec fn view_key(c: char, view: screen::View) -> Option<ActionView> {
    if c == '/' && view is Collection {
        Some(ActionView::OpenSearch)
    } else if c == 'l' && view == screen::View::Detail(KindId::WorkflowExecution) {
        Some(ActionView::NextTab)
    } else if c == 'h' && view == screen::View::Detail(KindId::WorkflowExecution) {
        Some(ActionView::PrevTab)
    } else if c == 'a' && view == screen::View::Detail(KindId::WorkflowExecution) {
        Some(ActionView::OpenWorkflowActivities)
    } else if c == 'w' && kind_of(view) == KindId::Schedule {
        Some(ActionView::OpenScheduleWorkflows)
    } else {
        match key_operation(kind_of(view), c) {
            Some(op) => Some(ActionView::RunOperation(op)),
            None => None,
        }
    }
}

/// What a key means without overlay, input line, chord or Control.
pub open spec fn normal_key(code: KeyCode, view: screen::View) -> Option<ActionView> {
    match code {
        KeyCode::Char(c) => if c == 'q' {
            Some(ActionView::Quit)
        } else if c == ':' {
            Some(ActionView::OpenCommandInput)
        } else if c == '?' {
            Some(ActionView::ToggleHelp)
        } else if c == 'j' {
            Some(ActionView::NavigateDown)
        } else if c == 'k' {
            Some(ActionView::NavigateUp)
        } else if c == 'g' {
            Some(ActionView::EnterPendingG)
        } else if c == 'G' {
            Some(ActionView::NavigateBottom)
        } else {
            view_key(c, view)
        },
        KeyCode::Down => Some(ActionView::NavigateDown),
        KeyCode::Up => Some(ActionView::NavigateUp),
        KeyCode::Enter => Some(ActionView::Select),
        KeyCode::Esc => Some(ActionView::Back),
        KeyCode::Tab => Some(ActionView::NextTab),
        KeyCode::BackTab => Some(ActionView::PrevTab),
        KeyCode::Backspace => None,
        KeyCode::Other => None,
    }
}

/// The action that a key stands for, if it stands for any. An open overlay
/// takes every key; else the input line or a pending chord does; else
/// Control decides; else the bindings of the view hold.
pub open spec fn key_action(
    key: KeyPress,
    view: screen::View,
    input_mode: InputMode,
    overlay: OverlayView,
    buffer: Seq<char>,
) -> Option<ActionView> {
    match overlay {
        OverlayView::Help => help_key(key.code),
        OverlayView::Confirm(_) => confirm_key(key.code),
        OverlayView::NamespaceSelector => selector_key(key.code),
        OverlayView::Closed => match input_mode {
            InputMode::Command => command_key(key.code, buffer),
            InputMode::Search => search_key(key.code, buffer),
            InputMode::PendingG => chord_key(key.code),
            InputMode::Normal => if key.control {
                control_key(key.code)
            } else {
                normal_key(key.code, view)
            },
        },
    }
}

fn help_action(code: KeyCode) -> (r: Option<Action>)
    ensures
        opt_view(r) == help_key(code),
{
    match code {
        KeyCode::Esc | KeyCode::Char('?') | KeyCode::Char('q') => Some(Action::ToggleHelp),
        _ => None,
    }
}

fn confirm_action(code: KeyCode) -> (r: Option<Action>)
    ensures
        opt_view(r) == confirm_key(code),
{
    match code {
        KeyCode::Char('y') | KeyCode::Enter => Some(Action::Confirm),
        KeyCode::Char('n') | KeyCode::Esc => Some(Action::CloseOverlay),
        _ => None,
    }
}

fn selector_action(code: KeyCode) -> (r: Option<Action>)
    ensures
        opt_view(r) == selector_key(code),
{
    match code {
        KeyCode::Char('j') | KeyCode::Down => Some(Action::NavigateDown),
        KeyCode::Char('k') | KeyCode::Up => Some(Action::NavigateUp),
        KeyCode::Char('g') => Some(Action::NavigateTop),
        KeyCode::Char('G') => Some(Action::NavigateBottom),
        KeyCode::Enter => Some(Action::Select),
        KeyCode::Esc => Some(Action::CloseOverlay),
        _ => None,
    }
}

fn edit_action(code: KeyCode, input_buffer: &str) -> (r: Option<Action>)
    ensures
        opt_view(r) == edit_key(code, input_buffer@),
{
    match code {
        KeyCode::Esc => Some(Action::CloseOverlay),
        KeyCode::Backspace => {
            let mut buffer = chars_of(input_buffer);
            if buffer.len() > 0 {
                buffer.pop();
            }
            Some(Action::UpdateInputBuffer(string_of(&buffer)))
        },
        KeyCode::Char(c) => {
            let mut buffer = String::from_str(input_buffer);
            push_char(&mut buffer, c);
            Some(Action::UpdateInputBuffer(buffer))
        },
        _ => None,
    }
}

/// The completion of the command that is being typed, given the names of
/// the commands that match what was typed.
pub fn complete(matches: &Vec<&'static str>) -> (r: Option<Action>)
    ensures
        opt_view(r) == completion(views(matches@)),
{
    if matches.len() == 0 {
        None
    } else {
        let mut completed = chars_of(matches[0]);
        completed.push(' ');
        assert(views(matches@)[0] == matches@[0]@);
        assert(completed@ =~= views(matches@)[0] + seq![' ']);
        Some(Action::UpdateInputBuffer(string_of(&completed)))
    }
}

fn candidates_for(input_buffer: &str) -> (names: Vec<&'static str>)
    ensures
        views(names@) == candidates(input_buffer@),
{
    let word = string_of(&first_word_of(&chars_of(input_buffer)));
    let found = matching_commands(word.as_str());
    let mut names: Vec<&'static str> = Vec::new();
    let mut i: usize = 0;
    while i < found.len()
        invariant
            i <= found.len(),
            names@.len() == i,
            forall|j: int| 0 <= j < i ==> (#[trigger] names@[j])@ == found@[j]@.name,
        decreases found.len() - i,
    {
        names.push(found[i].name);
        i += 1;
    }
    assert(views(names@) =~= candidates(input_buffer@));
    names
}

fn control_action(code: KeyCode) -> (r: Option<Action>)
    ensures
        opt_view(r) == control_key(code),
{
    match code {
        KeyCode::Char('c') => Some(Action::Quit),
        KeyCode::Char('r') => Some(Action::Refresh),
        KeyCode::Char('d') => Some(Action::PageDown),
        KeyCode::Char('u') => Some(Action::PageUp),
        _ => None,
    }
}

fn view_action(c: char, view: screen::View) -> (r: Option<Action>)
    ensures
        opt_view(r) == view_key(c, view),
{
    let kind = match view {
        screen::View::Collection(kind) => kind,
        screen::View::Detail(kind) => kind,
    };
    let workflow_detail = view == screen::View::Detail(KindId::WorkflowExecution);
    if c == '/' && matches!(view, screen::View::Collection(_)) {
        Some(Action::OpenSearch)
    } else if c == 'l' && workflow_detail {
        Some(Action::NextTab)
    } else if c == 'h' && workflow_detail {
        Some(Action::PrevTab)
    } else if c == 'a' && workflow_detail {
        Some(Action::OpenWorkflowActivities)
    } else if c == 'w' && kind == KindId::Schedule {
        Some(Action::OpenScheduleWorkflows)
    } else {
        match operation_for_key(kind, c) {
            Some(op) => Some(Action::RunOperation(op)),
            None => None,
        }
    }
}

fn normal_action(code: KeyCode, view: screen::View) -> (r: Option<Action>)
    ensures
        opt_view(r) == normal_key(code, view),
{
    match code {
        KeyCode::Char(c) => if c == 'q' {
            Some(Action::Quit)
        } else if c == ':' {
            Some(Action::OpenCommandInput)
        } else if c == '?' {
            Some(Action::ToggleHelp)
        } else if c == 'j' {
            Some(Action::NavigateDown)
        } else if c == 'k' {
            Some(Action::NavigateUp)
        } else if c == 'g' {
            Some(Action::EnterPendingG)
        } else if c == 'G' {
            Some(Action::NavigateBottom)
        } else {
            view_action(c, view)
        },
        KeyCode::Down => Some(Action::NavigateDown),
        KeyCode::Up => Some(Action::NavigateUp),
        KeyCode::Enter => Some(Action::Select),
        KeyCode::Esc => Some(Action::Back),
        KeyCode::Tab => Some(Action::NextTab),
        KeyCode::BackTab => Some(Action::PrevTab),
        KeyCode::Backspace => None,
        KeyCode::Other => None,
    }
}

/// The action that a key stands for, if it stands for any.
pub fn key_to_action(
    key: KeyPress,
    view: &screen::View,
    input_mode: &InputMode,
    overlay: &Overlay,
    input_buffer: &str,
) -> (r: Option<Action>)
    ensures
        opt_view(r) == key_action(key, *view, *input_mode, overlay@, input_buffer@),
{
    match overlay {
        Overlay::Help => help_action(key.code),
        Overlay::Confirm(_) => confirm_action(key.code),
        Overlay::NamespaceSelector => selector_action(key.code),
        Overlay::Closed => match input_mode {
            InputMode::Command => match key.code {
                KeyCode::Enter => Some(Action::SubmitCommandInput(String::from_str(input_buffer))),
                KeyCode::Tab => complete(&candidates_for(input_buffer)),
                _ => edit_action(key.code, input_buffer),
            },
            InputMode::Search => match key.code {
                KeyCode::Enter => Some(Action::SubmitSearch(String::from_str(input_buffer))),
                KeyCode::Tab => None,
                _ => edit_action(key.code, input_buffer),
            },
            InputMode::PendingG => if key.code == KeyCode::Char('g') {
                Some(Action::NavigateTop)
            } else {
                Some(Action::CloseOverlay)
            },
            InputMode::Normal => if key.control {
                control_action(key.code)
            } else {
                normal_action(key.code, *view)
            },
        },
    }
}

} // verus!
