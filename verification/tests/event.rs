use t9s::action::Action;
use t9s::app::{ConfirmAction, InputMode, OperationConfirm, OperationTarget, Overlay, View};
use t9s::event::{complete, key_to_action, KeyCode, KeyPress};
use t9s::kinds::{KindId, OperationId};

fn plain(code: KeyCode) -> KeyPress {
    KeyPress { code, control: false }
}

fn ctrl(c: char) -> KeyPress {
    KeyPress { code: KeyCode::Char(c), control: true }
}

fn normal(key: KeyPress, view: View) -> Option<Action> {
    key_to_action(key, &view, &InputMode::Normal, &Overlay::Closed, "")
}

fn confirm_overlay() -> Overlay {
    Overlay::Confirm(ConfirmAction::Operation(OperationConfirm {
        kind: KindId::Schedule,
        op: OperationId::DeleteSchedule,
        target: OperationTarget::Schedule { schedule_id: "s".to_string() },
    }))
}

const LIST: View = View::Collection(KindId::WorkflowExecution);
const DETAIL: View = View::Detail(KindId::WorkflowExecution);
const SCHEDULES: View = View::Collection(KindId::Schedule);
const SCHEDULE: View = View::Detail(KindId::Schedule);

#[test]
fn global_bindings_in_normal_mode() {
    assert_eq!(normal(plain(KeyCode::Char('q')), LIST), Some(Action::Quit));
    assert_eq!(normal(plain(KeyCode::Char(':')), LIST), Some(Action::OpenCommandInput));
    assert_eq!(normal(plain(KeyCode::Char('/')), LIST), Some(Action::OpenSearch));
    assert_eq!(normal(plain(KeyCode::Char('/')), SCHEDULES), Some(Action::OpenSearch));
    assert_eq!(normal(plain(KeyCode::Char('/')), DETAIL), None);
    assert_eq!(normal(plain(KeyCode::Char('?')), DETAIL), Some(Action::ToggleHelp));
    assert_eq!(normal(plain(KeyCode::Char('j')), LIST), Some(Action::NavigateDown));
    assert_eq!(normal(plain(KeyCode::Down), LIST), Some(Action::NavigateDown));
    assert_eq!(normal(plain(KeyCode::Char('k')), LIST), Some(Action::NavigateUp));
    assert_eq!(normal(plain(KeyCode::Up), LIST), Some(Action::NavigateUp));
    assert_eq!(normal(plain(KeyCode::Char('g')), LIST), Some(Action::EnterPendingG));
    assert_eq!(normal(plain(KeyCode::Char('G')), LIST), Some(Action::NavigateBottom));
    assert_eq!(normal(plain(KeyCode::Enter), LIST), Some(Action::Select));
    assert_eq!(normal(plain(KeyCode::Esc), DETAIL), Some(Action::Back));
    assert_eq!(normal(plain(KeyCode::Tab), DETAIL), Some(Action::NextTab));
    assert_eq!(normal(plain(KeyCode::BackTab), DETAIL), Some(Action::PrevTab));
    assert_eq!(normal(plain(KeyCode::Backspace), LIST), None);
    assert_eq!(normal(plain(KeyCode::Other), LIST), None);
    assert_eq!(normal(plain(KeyCode::Char('x')), LIST), None);
}

#[test]
fn control_bindings() {
    assert_eq!(normal(ctrl('c'), LIST), Some(Action::Quit));
    assert_eq!(normal(ctrl('r'), LIST), Some(Action::Refresh));
    assert_eq!(normal(ctrl('d'), LIST), Some(Action::PageDown));
    assert_eq!(normal(ctrl('u'), LIST), Some(Action::PageUp));
    assert_eq!(normal(ctrl('q'), LIST), None);
    assert_eq!(normal(ctrl('j'), LIST), None);
    assert_eq!(
        normal(KeyPress { code: KeyCode::Enter, control: true }, LIST),
        None
    );
    assert_eq!(normal(ctrl('d'), SCHEDULES), Some(Action::PageDown));
}

#[test]
fn keys_of_kinds_and_views() {
    assert_eq!(
        normal(plain(KeyCode::Char('c')), LIST),
        Some(Action::RunOperation(OperationId::CancelWorkflow))
    );
    assert_eq!(
        normal(plain(KeyCode::Char('t')), DETAIL),
        Some(Action::RunOperation(OperationId::TerminateWorkflow))
    );
    assert_eq!(normal(plain(KeyCode::Char('c')), SCHEDULES), None);
    assert_eq!(
        normal(plain(KeyCode::Char('p')), SCHEDULES),
        Some(Action::RunOperation(OperationId::PauseSchedule))
    );
    assert_eq!(
        normal(plain(KeyCode::Char('T')), SCHEDULE),
        Some(Action::RunOperation(OperationId::TriggerSchedule))
    );
    assert_eq!(
        normal(plain(KeyCode::Char('d')), SCHEDULE),
        Some(Action::RunOperation(OperationId::DeleteSchedule))
    );
    assert_eq!(normal(plain(KeyCode::Char('d')), LIST), None);
    assert_eq!(normal(plain(KeyCode::Char('l')), DETAIL), Some(Action::NextTab));
    assert_eq!(normal(plain(KeyCode::Char('h')), DETAIL), Some(Action::PrevTab));
    assert_eq!(normal(plain(KeyCode::Char('l')), LIST), None);
    assert_eq!(normal(plain(KeyCode::Char('h')), SCHEDULE), None);
    assert_eq!(
        normal(plain(KeyCode::Char('a')), DETAIL),
        Some(Action::OpenWorkflowActivities)
    );
    assert_eq!(normal(plain(KeyCode::Char('a')), LIST), None);
    assert_eq!(
        normal(plain(KeyCode::Char('w')), SCHEDULES),
        Some(Action::OpenScheduleWorkflows)
    );
    assert_eq!(
        normal(plain(KeyCode::Char('w')), SCHEDULE),
        Some(Action::OpenScheduleWorkflows)
    );
    assert_eq!(normal(plain(KeyCode::Char('w')), DETAIL), None);
}

#[test]
fn help_overlay_takes_every_key() {
    let map = |code| key_to_action(plain(code), &LIST, &InputMode::Command, &Overlay::Help, "ab");
    assert_eq!(map(KeyCode::Esc), Some(Action::ToggleHelp));
    assert_eq!(map(KeyCode::Char('?')), Some(Action::ToggleHelp));
    assert_eq!(map(KeyCode::Char('q')), Some(Action::ToggleHelp));
    assert_eq!(map(KeyCode::Char('j')), None);
    assert_eq!(map(KeyCode::Enter), None);
    assert_eq!(
        key_to_action(ctrl('c'), &LIST, &InputMode::Normal, &Overlay::Help, ""),
        None
    );
}

#[test]
fn confirm_overlay_confirms_or_cancels() {
    let overlay = confirm_overlay();
    let map = |code| key_to_action(plain(code), &SCHEDULES, &InputMode::Normal, &overlay, "");
    assert_eq!(map(KeyCode::Char('y')), Some(Action::Confirm));
    assert_eq!(map(KeyCode::Enter), Some(Action::Confirm));
    assert_eq!(map(KeyCode::Char('n')), Some(Action::CloseOverlay));
    assert_eq!(map(KeyCode::Esc), Some(Action::CloseOverlay));
    assert_eq!(map(KeyCode::Char('d')), None);
    assert_eq!(map(KeyCode::Char('q')), None);
}

#[test]
fn namespace_selector_moves_and_escapes() {
    let map = |code| {
        key_to_action(
            plain(code),
            &LIST,
            &InputMode::Normal,
            &Overlay::NamespaceSelector,
            "",
        )
    };
    assert_eq!(map(KeyCode::Char('j')), Some(Action::NavigateDown));
    assert_eq!(map(KeyCode::Down), Some(Action::NavigateDown));
    assert_eq!(map(KeyCode::Char('k')), Some(Action::NavigateUp));
    assert_eq!(map(KeyCode::Up), Some(Action::NavigateUp));
    assert_eq!(map(KeyCode::Char('g')), Some(Action::NavigateTop));
    assert_eq!(map(KeyCode::Char('G')), Some(Action::NavigateBottom));
    assert_eq!(map(KeyCode::Enter), Some(Action::Select));
    assert_eq!(map(KeyCode::Esc), Some(Action::CloseOverlay));
    assert_eq!(map(KeyCode::Char('q')), None);
    assert_eq!(map(KeyCode::Char('c')), None);
}

#[test]
fn command_mode_edits_submits_and_completes() {
    let map = |key, buffer| key_to_action(key, &LIST, &InputMode::Command, &Overlay::Closed, buffer);
    assert_eq!(map(plain(KeyCode::Esc), "ab"), Some(Action::CloseOverlay));
    assert_eq!(
        map(plain(KeyCode::Enter), "ns prod"),
        Some(Action::SubmitCommandInput("ns prod".to_string()))
    );
    assert_eq!(
        map(plain(KeyCode::Char('q')), "ab"),
        Some(Action::UpdateInputBuffer("abq".to_string()))
    );
    assert_eq!(
        map(ctrl('c'), "ab"),
        Some(Action::UpdateInputBuffer("abc".to_string()))
    );
    assert_eq!(
        map(plain(KeyCode::Backspace), "ab\u{e9}"),
        Some(Action::UpdateInputBuffer("ab".to_string()))
    );
    assert_eq!(
        map(plain(KeyCode::Backspace), ""),
        Some(Action::UpdateInputBuffer(String::new()))
    );
    assert_eq!(
        map(plain(KeyCode::Tab), "S"),
        Some(Action::UpdateInputBuffer("schedules ".to_string()))
    );
    assert_eq!(
        map(plain(KeyCode::Tab), "  sig  x"),
        Some(Action::UpdateInputBuffer("signal ".to_string()))
    );
    assert_eq!(
        map(plain(KeyCode::Tab), ""),
        Some(Action::UpdateInputBuffer("workflows ".to_string()))
    );
    assert_eq!(map(plain(KeyCode::Tab), "zz"), None);
    assert_eq!(map(plain(KeyCode::Up), "ab"), None);
    assert_eq!(map(plain(KeyCode::BackTab), "ab"), None);
}

#[test]
fn search_mode_edits_and_submits() {
    let map = |key, buffer| key_to_action(key, &LIST, &InputMode::Search, &Overlay::Closed, buffer);
    assert_eq!(map(plain(KeyCode::Esc), "ab"), Some(Action::CloseOverlay));
    assert_eq!(
        map(plain(KeyCode::Enter), "A = 'b'"),
        Some(Action::SubmitSearch("A = 'b'".to_string()))
    );
    assert_eq!(
        map(plain(KeyCode::Char('/')), "a"),
        Some(Action::UpdateInputBuffer("a/".to_string()))
    );
    assert_eq!(
        map(plain(KeyCode::Backspace), "a"),
        Some(Action::UpdateInputBuffer(String::new()))
    );
    assert_eq!(map(plain(KeyCode::Tab), "w"), None);
    assert_eq!(map(plain(KeyCode::Down), "w"), None);
}

#[test]
fn pending_chord_resolves_or_is_given_up() {
    let map = |key| key_to_action(key, &DETAIL, &InputMode::PendingG, &Overlay::Closed, "");
    assert_eq!(map(plain(KeyCode::Char('g'))), Some(Action::NavigateTop));
    assert_eq!(map(plain(KeyCode::Char('G'))), Some(Action::CloseOverlay));
    assert_eq!(map(plain(KeyCode::Char('j'))), Some(Action::CloseOverlay));
    assert_eq!(map(plain(KeyCode::Esc)), Some(Action::CloseOverlay));
    assert_eq!(map(plain(KeyCode::Other)), Some(Action::CloseOverlay));
}

#[test]
fn completion_takes_the_first_match() {
    assert_eq!(complete(&vec![]), None);
    assert_eq!(
        complete(&vec!["schedules", "signal"]),
        Some(Action::UpdateInputBuffer("schedules ".to_string()))
    );
}
