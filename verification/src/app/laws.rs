//! What holds of every transition of the state machine.

use vstd::arithmetic::power2::{lemma2_to64, lemma_pow2_pos, pow2};
use vstd::prelude::*;
use crate::action::ActionView;
use crate::app::model::{
    applied, backoff_interval, cursor_ok, entered_by, informed_by, is_input, is_movement, is_result,
    loaded_len, moved, moved_by, step, step_down, step_up, steps_down, steps_up,
    MAX_DOUBLINGS, MAX_POLLING_INTERVAL, Move,
};
use crate::app::screen;
use crate::app::state::{AppView, ConfirmActionView, EffectView, OperationConfirmView, OverlayView};
use crate::kinds::{operation_effects, tab_count, KindId, OperationId};
use crate::nav::location::LocationView;

verus! {

/// The state after a run of actions, each with the time at which it is
/// applied.
pub open spec fn run(s: AppView, actions: Seq<(ActionView, u64)>) -> AppView
    decreases actions.len(),
{
    if actions.len() == 0 {
        s
    } else {
        step(run(s, actions.drop_last()), actions.last().0, actions.last().1).0
    }
}

/// Once a step up changes nothing, further steps up change nothing.
pub proof fn lemma_steps_up_settled(cursor: Option<int>, len: nat, n: nat, m: nat)
    requires
        n <= m,
        step_up(steps_up(cursor, len, n), len) == steps_up(cursor, len, n),
    ensures
        steps_up(cursor, len, m) == steps_up(cursor, len, n),
    decreases m - n,
{
    if n < m {
        lemma_steps_up_settled(cursor, len, n, (m - 1) as nat);
    }
}

/// Once a step down changes nothing, further steps down change nothing.
pub proof fn lemma_steps_down_settled(cursor: Option<int>, len: nat, n: nat, m: nat)
    requires
        n <= m,
        step_down(steps_down(cursor, len, n), len) == steps_down(cursor, len, n),
    ensures
        steps_down(cursor, len, m) == steps_down(cursor, len, n),
    decreases m - n,
{
    if n < m {
        lemma_steps_down_settled(cursor, len, n, (m - 1) as nat);
    }
}

/// A cursor that a movement has placed points into its list.
pub proof fn lemma_moved_cursor_ok(cursor: Option<int>, len: nat, mv: Move, page: nat)
    requires
        cursor_ok(cursor, len),
    ensures
        cursor_ok(moved(cursor, len, mv, page), len),
    decreases page,
{
    if page > 0 {
        lemma_moved_cursor_ok(cursor, len, mv, (page - 1) as nat);
        if mv == Move::PageUp {
            assert(steps_up(cursor, len, page) == step_up(
                steps_up(cursor, len, (page - 1) as nat),
                len,
            ));
        }
        if mv == Move::PageDown {
            assert(steps_down(cursor, len, page) == step_down(
                steps_down(cursor, len, (page - 1) as nat),
                len,
            ));
        }
    }
}

/// The polling interval never exceeds sixty seconds once an error has
/// occurred, and is never below a base of at most sixty seconds.
pub proof fn lemma_backoff_bounds(base: u64, errors: nat)
    ensures
        backoff_interval(base, errors) <= MAX_POLLING_INTERVAL,
        base <= MAX_POLLING_INTERVAL ==> base <= backoff_interval(base, errors),
{
    let doublings = if errors < MAX_DOUBLINGS {
        errors
    } else {
        MAX_DOUBLINGS as nat
    };
    lemma_pow2_pos(doublings);
    assert(base * pow2(doublings) >= base) by (nonlinear_arith)
        requires
            pow2(doublings) >= 1,
    ;
}

/// While errors persist the polling interval does not shrink.
pub proof fn lemma_backoff_monotonic(base: u64, fewer: nat, more: nat)
    requires
        fewer <= more,
    ensures
        backoff_interval(base, fewer) <= backoff_interval(base, more),
{
    let a = if fewer < MAX_DOUBLINGS {
        fewer
    } else {
        MAX_DOUBLINGS as nat
    };
    let b = if more < MAX_DOUBLINGS {
        more
    } else {
        MAX_DOUBLINGS as nat
    };
    lemma2_to64();
    assert(pow2(a) <= pow2(b));
    assert(base * pow2(a) <= base * pow2(b)) by (nonlinear_arith)
        requires
            pow2(a) <= pow2(b),
    ;
}

/// From a state without errors, a run of `n` error actions, and nothing
/// else, leaves `n` errors counted and the polling interval at the
/// base doubled `min(n, 5)` times and capped at sixty seconds.
pub proof fn lemma_backoff_after_errors(s: AppView, actions: Seq<(ActionView, u64)>)
    requires
        s.error_count == 0,
        0 < actions.len() < u32::MAX,
        forall|i: int| 0 <= i < actions.len() ==> (#[trigger] actions[i]).0 is Error,
    ensures
        run(s, actions).error_count == actions.len(),
        run(s, actions).base_polling_interval == s.base_polling_interval,
        run(s, actions).polling_interval == backoff_interval(
            s.base_polling_interval,
            actions.len(),
        ),
    decreases actions.len(),
{
    let before = actions.drop_last();
    if before.len() > 0 {
        assert forall|i: int| 0 <= i < before.len() implies (#[trigger] before[i]).0 is Error by {
            assert(before[i] == actions[i]);
        }
        lemma_backoff_after_errors(s, before);
    }
    let prev = run(s, before);
    let last = actions.last();
    assert(last.0 is Error);
    assert(run(s, actions) == step(prev, last.0, last.1).0);
    assert(step(prev, last.0, last.1).0 == prev.without_stale_toast(last.1).failed(
        last.0->Error_0,
        last.1,
    ));
}

/// Every result from the backend brings the polling interval back to
/// exactly the base, and the count of errors to zero.
pub proof fn lemma_success_resets(s: AppView, action: ActionView, now: u64)
    requires
        is_result(action),
    ensures
        step(s, action, now).0.polling_interval == s.base_polling_interval,
        step(s, action, now).0.error_count == 0,
        step(s, action, now).0.base_polling_interval == s.base_polling_interval,
{
}

/// While a page is on its way no action asks for another, and whatever
/// asks for a page marks it as on its way.
pub proof fn lemma_one_page_load_in_flight(s: AppView, action: ActionView, now: u64)
    ensures
        s.loading_more ==> !step(s, action, now).1.contains(EffectView::LoadMoreWorkflows),
        step(s, action, now).1.contains(EffectView::LoadMoreWorkflows) ==> step(
            s,
            action,
            now,
        ).0.loading_more,
{
    let t = s.without_stale_toast(now);
    assert(t.loading_more == s.loading_more);
    lemma_only_look_ahead_asks(t, action, now);
}

/// Only the look-ahead asks for a further page.
proof fn lemma_only_look_ahead_asks(s: AppView, action: ActionView, now: u64)
    ensures
        s.loading_more ==> !applied(s, action, now).1.contains(EffectView::LoadMoreWorkflows),
        applied(s, action, now).1.contains(EffectView::LoadMoreWorkflows) ==> applied(
            s,
            action,
            now,
        ).0.loading_more,
{
    let effects = applied(s, action, now).1;
    if effects.contains(EffectView::LoadMoreWorkflows) {
        let i = choose|i: int| 0 <= i < effects.len() && effects[i] == EffectView::LoadMoreWorkflows;
        if is_movement(action) {
            lemma_movement_asks(s, action, now, i);
        } else if is_input(action) {
            lemma_input_never_asks(s, action, now, i);
        } else {
            assert(false);
        }
    }
}

proof fn lemma_location_never_asks(s: AppView, location: LocationView, now: u64, i: int)
    requires
        0 <= i < s.at_location(location, now).1.len(),
    ensures
        s.at_location(location, now).1[i] != EffectView::LoadMoreWorkflows,
{
}

proof fn lemma_movement_asks(s: AppView, action: ActionView, now: u64, i: int)
    requires
        is_movement(action),
        0 <= i < moved_by(s, action, now).1.len(),
        moved_by(s, action, now).1[i] == EffectView::LoadMoreWorkflows,
    ensures
        !s.loading_more,
        moved_by(s, action, now).0.loading_more,
{
    match action {
        ActionView::OpenScheduleWorkflows => {
            let schedule = s.selected_schedule_summary();
            if schedule is Some {
                let location = LocationView {
                    namespace: s.namespace,
                    segments: seq![
                        crate::nav::location::RouteSegmentView::Schedules(
                            crate::nav::location::SchedulesRouteView::Workflows {
                                schedule_id: schedule->0.schedule_id,
                                query: None,
                            },
                        ),
                    ],
                };
                lemma_location_never_asks(s, location, now, i);
            }
        },
        ActionView::OpenWorkflowActivities => {
            let workflow = s.selected_workflow_summary();
            if workflow is Some {
                let location = LocationView {
                    namespace: s.namespace,
                    segments: seq![
                        crate::nav::location::RouteSegmentView::Workflows(
                            crate::nav::location::WorkflowsRouteView::Activities {
                                workflow_id: workflow->0.workflow_id,
                                activity_id: None,
                            },
                        ),
                    ],
                };
                lemma_location_never_asks(s, location, now, i);
            }
        },
        _ => {},
    }
}

proof fn lemma_command_never_asks(
    s: AppView,
    command: Seq<char>,
    args: Option<Seq<char>>,
    now: u64,
    i: int,
)
    requires
        0 <= i < s.commanded(command, args, now).1.len(),
    ensures
        s.commanded(command, args, now).1[i] != EffectView::LoadMoreWorkflows,
{
    if command == "open"@ || command == "goto"@ {
        if args is Some {
            let link = crate::nav::uri::parsed(args->0);
            if link is Ok {
                lemma_location_never_asks(s, link->Ok_0, now, i);
            }
        }
    }
}

proof fn lemma_operation_never_asks(s: AppView, op: OperationId, now: u64, i: int)
    requires
        0 <= i < s.operated(op, now).1.len(),
    ensures
        s.operated(op, now).1[i] != EffectView::LoadMoreWorkflows,
{
}

proof fn lemma_consent_never_asks(s: AppView, i: int)
    requires
        0 <= i < s.confirmed().1.len(),
    ensures
        s.confirmed().1[i] != EffectView::LoadMoreWorkflows,
{
}

proof fn lemma_input_never_asks(s: AppView, action: ActionView, now: u64, i: int)
    requires
        is_input(action),
        0 <= i < entered_by(s, action, now).1.len(),
    ensures
        entered_by(s, action, now).1[i] != EffectView::LoadMoreWorkflows,
{
    match action {
        ActionView::SubmitCommandInput(line) => {
            let words = crate::app::model::command_words(line);
            let t = AppView { input_mode: crate::app::screen::InputMode::Normal, ..s };
            assert(entered_by(s, action, now).1 == t.commanded(words.0, words.1, now).1);
            lemma_command_never_asks(t, words.0, words.1, now, i);
        },
        ActionView::RunOperation(op) => {
            assert(entered_by(s, action, now) == s.operated(op, now));
            lemma_operation_never_asks(s, op, now, i);
        },
        ActionView::Confirm => {
            assert(entered_by(s, action, now) == s.confirmed());
            lemma_consent_never_asks(s, i);
        },
        ActionView::SubmitSearch(query) => {
            assert(entered_by(s, action, now) == s.search_submitted(query));
        },
        ActionView::SwitchNamespace(namespace) => {
            assert(entered_by(s, action, now) == s.switched_to(namespace));
        },
        ActionView::EnterPendingG => {},
        ActionView::OpenCommandInput => {},
        ActionView::OpenSearch => {},
        ActionView::CloseOverlay => {},
        ActionView::UpdateInputBuffer(_) => {},
        ActionView::ToggleHelp => {},
        _ => {},
    }
}

/// Of two actions in a row, where the first asks for a further page, the
/// second does not.
pub proof fn lemma_look_ahead_fires_once(
    s: AppView,
    first: ActionView,
    at: u64,
    second: ActionView,
    then: u64,
)
    requires
        step(s, first, at).1.contains(EffectView::LoadMoreWorkflows),
    ensures
        !step(step(s, first, at).0, second, then).1.contains(EffectView::LoadMoreWorkflows),
{
    lemma_one_page_load_in_flight(s, first, at);
    lemma_one_page_load_in_flight(step(s, first, at).0, second, then);
}

/// All actions of a run ask for the next tab.
pub open spec fn all_next_tab(actions: Seq<(ActionView, u64)>) -> bool {
    forall|i: int| 0 <= i < actions.len() ==> (#[trigger] actions[i]).0 is NextTab
}

/// In the detail view of a kind with `T > 0` tabs, `n` times "next tab"
/// lead from tab `t` to tab `(t + n) mod T`, and leave the view as it is.
pub proof fn lemma_next_tabs(s: AppView, kind: KindId, actions: Seq<(ActionView, u64)>)
    requires
        s.view == screen::View::Detail(kind),
        tab_count(kind) > 0,
        s.workflow_detail_tab < tab_count(kind),
        all_next_tab(actions),
    ensures
        run(s, actions).view == s.view,
        run(s, actions).workflow_detail_tab == (s.workflow_detail_tab + actions.len()) % (
        tab_count(kind) as int),
    decreases actions.len(),
{
    assert(tab_count(KindId::WorkflowExecution) == 5);
    assert(tab_count(KindId::Schedule) == 0);
    assert(kind == KindId::WorkflowExecution);
    let start = s.workflow_detail_tab as int;
    if actions.len() > 0 {
        let before = actions.drop_last();
        assert forall|i: int| 0 <= i < before.len() implies (#[trigger] before[i]).0 is NextTab by {
            assert(before[i] == actions[i]);
        }
        lemma_next_tabs(s, kind, before);
        let prev = run(s, before);
        let last = actions.last();
        let next = step(prev, last.0, last.1).0;
        assert(last.0 is NextTab);
        assert(run(s, actions) == next);
        lemma_next_tab(prev, kind, last.1);
        let done = before.len() as int;
        assert(prev.workflow_detail_tab == (start + done) % 5);
        assert(next.workflow_detail_tab == ((start + done) % 5 + 1) % 5);
        assert(((start + done) % 5 + 1) % 5 == (start + done + 1) % 5);
        assert(actions.len() == done + 1);
    } else {
        assert(run(s, actions) == s);
        assert(start % 5 == start);
    }
}

/// In the detail view of a kind with `T > 0` tabs, "next tab" leads from
/// tab `t` to tab `(t + 1) mod T`, and leaves the view as it is.
pub proof fn lemma_next_tab(s: AppView, kind: KindId, now: u64)
    requires
        s.view == screen::View::Detail(kind),
        tab_count(kind) > 0,
    ensures
        step(s, ActionView::NextTab, now).0.view == s.view,
        step(s, ActionView::NextTab, now).0.workflow_detail_tab == (s.workflow_detail_tab + 1) % (
        tab_count(kind) as int),
{
    assert(tab_count(KindId::WorkflowExecution) == 5);
    assert(tab_count(KindId::Schedule) == 0);
    let t = s.without_stale_toast(now);
    assert(step(s, ActionView::NextTab, now) == t.tab_switched(true));
}

/// In the detail view of a kind with `T > 0` tabs, `T` times "next tab"
/// lead back to the tab they began at.
pub proof fn lemma_tabs_wrap_around(s: AppView, kind: KindId, actions: Seq<(ActionView, u64)>)
    requires
        s.view == screen::View::Detail(kind),
        tab_count(kind) > 0,
        s.workflow_detail_tab < tab_count(kind),
        all_next_tab(actions),
        actions.len() == tab_count(kind),
    ensures
        run(s, actions).workflow_detail_tab == s.workflow_detail_tab,
{
    assert(tab_count(KindId::WorkflowExecution) == 5);
    assert(tab_count(KindId::Schedule) == 0);
    lemma_next_tabs(s, kind, actions);
}

/// Where the view on screen has no tabs, switching tabs changes nothing
/// and asks for nothing.
pub proof fn lemma_no_tabs_no_change(s: AppView, forward: bool)
    requires
        match s.view {
            screen::View::Detail(kind) => tab_count(kind) == 0,
            screen::View::Collection(_) => true,
        },
    ensures
        s.tab_switched(forward) == s.quiet(),
{
}

/// Asking for an operation that needs consent has no effect; where the operation has a target, the confirmation overlay opens
/// with the operation and its target.
pub proof fn lemma_confirmation_gates(s: AppView, op: OperationId, now: u64)
    requires
        op.needs_confirm(),
    ensures
        step(s, ActionView::RunOperation(op), now).1 == Seq::<EffectView>::empty(),
        op.kind() == s.kind() ==> match s.operation_target() {
            Some(target) => step(s, ActionView::RunOperation(op), now).0.overlay
                == OverlayView::Confirm(
                ConfirmActionView::Operation(OperationConfirmView { kind: s.kind(), op, target }),
            ),
            None => step(s, ActionView::RunOperation(op), now).0.overlay == s.overlay,
        },
{
    let t = s.without_stale_toast(now);
    assert(t.kind() == s.kind());
    assert(t.operation_target() == s.operation_target());
}

/// Giving up closes the confirmation overlay and has no effect.
pub proof fn lemma_cancel_clears(s: AppView, now: u64)
    requires
        s.overlay is Confirm,
    ensures
        step(s, ActionView::CloseOverlay, now).0.overlay is Closed,
        step(s, ActionView::CloseOverlay, now).1 == Seq::<EffectView>::empty(),
{
}

/// Consent closes the confirmation overlay and has the effects of the
/// operation that waited.
pub proof fn lemma_confirm_runs(s: AppView, waiting: OperationConfirmView, now: u64)
    requires
        s.overlay == OverlayView::Confirm(ConfirmActionView::Operation(waiting)),
        waiting.op.kind() == waiting.kind,
    ensures
        step(s, ActionView::Confirm, now).0.overlay is Closed,
        step(s, ActionView::Confirm, now).1 == operation_effects(waiting.op, waiting.target, s),
{
    let t = s.without_stale_toast(now);
    assert(operation_effects(waiting.op, waiting.target, t) == operation_effects(
        waiting.op,
        waiting.target,
        s,
    ));
}

/// The effects of the operations that wait for consent.
pub open spec fn needs_consent(effect: EffectView) -> bool {
    effect is CancelWorkflow || effect is TerminateWorkflow || effect is TriggerSchedule
        || effect is DeleteSchedule
}

proof fn lemma_location_is_harmless(s: AppView, location: LocationView, now: u64, i: int)
    requires
        0 <= i < s.at_location(location, now).1.len(),
    ensures
        !needs_consent(s.at_location(location, now).1[i]),
{
}

proof fn lemma_command_is_harmless(
    s: AppView,
    command: Seq<char>,
    args: Option<Seq<char>>,
    now: u64,
    i: int,
)
    requires
        0 <= i < s.commanded(command, args, now).1.len(),
    ensures
        !needs_consent(s.commanded(command, args, now).1[i]),
{
    if command == "open"@ || command == "goto"@ {
        if args is Some {
            let link = crate::nav::uri::parsed(args->0);
            if link is Ok {
                lemma_location_is_harmless(s, link->Ok_0, now, i);
            }
        }
    }
}

proof fn lemma_operation_is_harmless(s: AppView, op: OperationId, now: u64, i: int)
    requires
        0 <= i < s.operated(op, now).1.len(),
    ensures
        !needs_consent(s.operated(op, now).1[i]),
{
}

proof fn lemma_movement_is_harmless(s: AppView, action: ActionView, now: u64, i: int)
    requires
        is_movement(action),
        0 <= i < moved_by(s, action, now).1.len(),
    ensures
        !needs_consent(moved_by(s, action, now).1[i]),
{
    match action {
        ActionView::OpenScheduleWorkflows => {
            let schedule = s.selected_schedule_summary();
            if schedule is Some {
                let location = LocationView {
                    namespace: s.namespace,
                    segments: seq![
                        crate::nav::location::RouteSegmentView::Schedules(
                            crate::nav::location::SchedulesRouteView::Workflows {
                                schedule_id: schedule->0.schedule_id,
                                query: None,
                            },
                        ),
                    ],
                };
                lemma_location_is_harmless(s, location, now, i);
            }
        },
        ActionView::OpenWorkflowActivities => {
            let workflow = s.selected_workflow_summary();
            if workflow is Some {
                let location = LocationView {
                    namespace: s.namespace,
                    segments: seq![
                        crate::nav::location::RouteSegmentView::Workflows(
                            crate::nav::location::WorkflowsRouteView::Activities {
                                workflow_id: workflow->0.workflow_id,
                                activity_id: None,
                            },
                        ),
                    ],
                };
                lemma_location_is_harmless(s, location, now, i);
            }
        },
        _ => {},
    }
}

proof fn lemma_input_is_harmless(s: AppView, action: ActionView, now: u64, i: int)
    requires
        is_input(action),
        !(action is Confirm),
        0 <= i < entered_by(s, action, now).1.len(),
    ensures
        !needs_consent(entered_by(s, action, now).1[i]),
{
    match action {
        ActionView::SubmitCommandInput(line) => {
            let words = crate::app::model::command_words(line);
            let t = AppView { input_mode: crate::app::screen::InputMode::Normal, ..s };
            assert(entered_by(s, action, now).1 == t.commanded(words.0, words.1, now).1);
            lemma_command_is_harmless(t, words.0, words.1, now, i);
        },
        ActionView::RunOperation(op) => {
            assert(entered_by(s, action, now) == s.operated(op, now));
            lemma_operation_is_harmless(s, op, now, i);
        },
        ActionView::SubmitSearch(query) => {
            assert(entered_by(s, action, now) == s.search_submitted(query));
        },
        ActionView::SwitchNamespace(namespace) => {
            assert(entered_by(s, action, now) == s.switched_to(namespace));
        },
        _ => {},
    }
}

/// No action but consent has an effect of an operation that waits for
/// consent.
pub proof fn lemma_only_consent_runs(s: AppView, action: ActionView, now: u64, i: int)
    requires
        !(action is Confirm),
        0 <= i < step(s, action, now).1.len(),
    ensures
        !needs_consent(step(s, action, now).1[i]),
{
    let t = s.without_stale_toast(now);
    if is_movement(action) {
        lemma_movement_is_harmless(t, action, now, i);
    } else if is_input(action) {
        lemma_input_is_harmless(t, action, now, i);
    } else if is_result(action) {
    } else {
    }
}

proof fn lemma_location_keeps_wf(s: AppView, location: LocationView, now: u64)
    requires
        s.wf(),
    ensures
        s.at_location(location, now).0.wf(),
{
    assert(tab_count(KindId::WorkflowExecution) == 5);
}

proof fn lemma_movement_keeps_wf(s: AppView, action: ActionView, now: u64)
    requires
        s.wf(),
        is_movement(action),
    ensures
        moved_by(s, action, now).0.wf(),
{
    assert(tab_count(KindId::WorkflowExecution) == 5);
    assert(tab_count(KindId::Schedule) == 0);
    let page = s.page_height as nat;
    match action {
        ActionView::NavigateUp => {
            lemma_navigation_keeps_wf(s, Move::Up);
        },
        ActionView::NavigateDown => {
            lemma_navigation_keeps_wf(s, Move::Down);
        },
        ActionView::NavigateTop => {
            lemma_navigation_keeps_wf(s, Move::Top);
        },
        ActionView::NavigateBottom => {
            lemma_navigation_keeps_wf(s, Move::Bottom);
        },
        ActionView::PageUp => {
            lemma_navigation_keeps_wf(s, Move::PageUp);
        },
        ActionView::PageDown => {
            lemma_navigation_keeps_wf(s, Move::PageDown);
        },
        ActionView::OpenScheduleWorkflows => {
            let schedule = s.selected_schedule_summary();
            if schedule is Some {
                let location = LocationView {
                    namespace: s.namespace,
                    segments: seq![
                        crate::nav::location::RouteSegmentView::Schedules(
                            crate::nav::location::SchedulesRouteView::Workflows {
                                schedule_id: schedule->0.schedule_id,
                                query: None,
                            },
                        ),
                    ],
                };
                lemma_location_keeps_wf(s, location, now);
            }
        },
        ActionView::OpenWorkflowActivities => {
            let workflow = s.selected_workflow_summary();
            if workflow is Some {
                let location = LocationView {
                    namespace: s.namespace,
                    segments: seq![
                        crate::nav::location::RouteSegmentView::Workflows(
                            crate::nav::location::WorkflowsRouteView::Activities {
                                workflow_id: workflow->0.workflow_id,
                                activity_id: None,
                            },
                        ),
                    ],
                };
                lemma_location_keeps_wf(s, location, now);
            }
        },
        _ => {},
    }
}

proof fn lemma_navigation_keeps_wf(s: AppView, mv: Move)
    requires
        s.wf(),
    ensures
        s.navigated(mv).wf(),
        s.navigated(mv).looked_ahead().0.wf(),
{
    let page = s.page_height as nat;
    lemma_moved_cursor_ok(s.namespace_cursor, s.namespaces.len(), mv, page);
    lemma_moved_cursor_ok(s.workflow_cursor, loaded_len(s.workflows), mv, page);
    lemma_moved_cursor_ok(s.schedule_cursor, loaded_len(s.schedules), mv, page);
}

proof fn lemma_command_keeps_wf(s: AppView, command: Seq<char>, args: Option<Seq<char>>, now: u64)
    requires
        s.wf(),
    ensures
        s.commanded(command, args, now).0.wf(),
{
    assert(tab_count(KindId::WorkflowExecution) == 5);
    if command == "open"@ || command == "goto"@ {
        if args is Some {
            let link = crate::nav::uri::parsed(args->0);
            if link is Ok {
                lemma_location_keeps_wf(s, link->Ok_0, now);
            }
        }
    }
}

proof fn lemma_input_keeps_wf(s: AppView, action: ActionView, now: u64)
    requires
        s.wf(),
        is_input(action),
    ensures
        entered_by(s, action, now).0.wf(),
{
    assert(tab_count(KindId::WorkflowExecution) == 5);
    match action {
        ActionView::SubmitCommandInput(line) => {
            let words = crate::app::model::command_words(line);
            let t = AppView { input_mode: crate::app::screen::InputMode::Normal, ..s };
            assert(t.wf());
            lemma_command_keeps_wf(t, words.0, words.1, now);
            assert(entered_by(s, action, now).0 == (AppView {
                input_buffer: Seq::empty(),
                ..t.commanded(words.0, words.1, now).0
            }));
        },
        ActionView::RunOperation(op) => {
            assert(entered_by(s, action, now) == s.operated(op, now));
        },
        ActionView::Confirm => {
            assert(entered_by(s, action, now) == s.confirmed());
        },
        ActionView::SubmitSearch(query) => {
            assert(entered_by(s, action, now) == s.search_submitted(query));
        },
        ActionView::SwitchNamespace(namespace) => {
            assert(entered_by(s, action, now) == s.switched_to(namespace));
        },
        ActionView::CloseOverlay => {
            assert(entered_by(s, action, now).0 == s.closed());
        },
        _ => {},
    }
}

proof fn lemma_result_keeps_wf(s: AppView, action: ActionView, now: u64)
    requires
        s.wf(),
        is_result(action),
    ensures
        informed_by(s, action, now).wf(),
{
    assert(tab_count(KindId::WorkflowExecution) == 5);
}

/// What the state machine maintains holds after every transition from a
/// state of which it holds: cursors are unset or point into their lists,
/// the tab is one of the tabs, and the polling interval is the base backed
/// off by the errors in a row.
pub proof fn lemma_step_keeps_wf(s: AppView, action: ActionView, now: u64)
    requires
        s.wf(),
    ensures
        step(s, action, now).0.wf(),
{
    let t = s.without_stale_toast(now);
    assert(t.wf());
    if is_movement(action) {
        lemma_movement_keeps_wf(t, action, now);
    } else if is_input(action) {
        lemma_input_keeps_wf(t, action, now);
    } else if is_result(action) {
        lemma_result_keeps_wf(t, action, now);
    } else {
    }
}

/// The polling interval of a state that the machine maintains is at least
/// the base, for a base of at most sixty seconds.
pub proof fn lemma_interval_at_least_base(s: AppView)
    requires
        s.wf(),
        s.base_polling_interval <= MAX_POLLING_INTERVAL,
    ensures
        s.polling_interval >= s.base_polling_interval,
{
    lemma_backoff_bounds(s.base_polling_interval, s.error_count as nat);
}

} // verus!
