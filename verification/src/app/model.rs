//! The model of the state machine: what each action does to the state and
//! which effects it asks for, stated over the models of state and action.

use vstd::arithmetic::power2::pow2;
use vstd::prelude::*;
use crate::action::{ActionView, ViewType};
use crate::app::history::absorbed;
use crate::app::query::{combined_query, tab_for, uri_error_text};
use crate::app::screen;
use crate::app::screen::InputMode;
use crate::app::state::{
    AppView, ConfirmActionView, ConnectionStatusView, EffectView, LoadStateView,
    OperationConfirmView, OperationTargetView, OverlayView, SearchQueriesView,
};
use crate::domain::{ScheduleView, WorkflowDetailView, WorkflowSummaryView};
use crate::kinds::{operation_effects, tab_count, KindId, OperationId};
use crate::nav::location::{LocationView, RouteSegmentView, SchedulesRouteView, WorkflowsRouteView};
use crate::nav::uri::parsed;
use crate::text::{lowercase, split_once, trim};

verus! {

/// How long an error message stays, in milliseconds.
pub const TOAST_LIFETIME_MS: u64 = 5000;

/// How close to the end of the loaded rows the cursor must be for the next
/// page to be asked for.
pub const LOOK_AHEAD_ROWS: usize = 5;

/// The longest polling interval, in seconds.
pub const MAX_POLLING_INTERVAL: u64 = 60;

/// The number of errors after which the polling interval grows no more.
pub const MAX_DOUBLINGS: u32 = 5;

/// A movement of a cursor or of the scroll offset.
#[derive(Debug, Clone, Copy, PartialEq, Eq, Structural)]
pub enum Move {
    Up,
    Down,
    Top,
    Bottom,
    PageUp,
    PageDown,
}

/// A cursor is unset or points at one of `len` rows.
pub open spec fn cursor_ok(cursor: Option<int>, len: nat) -> bool {
    match cursor {
        Some(i) => 0 <= i < len,
        None => true,
    }
}

/// The cursor one row up: the last row from an unset cursor, no further
/// than the first row, and unset where there are no rows.
pub open spec fn step_up(cursor: Option<int>, len: nat) -> Option<int> {
    if len == 0 {
        None
    } else {
        match cursor {
            None => Some(len - 1),
            Some(i) => if i <= 0 {
                Some(0)
            } else if i - 1 < len {
                Some(i - 1)
            } else {
                Some(len - 1)
            },
        }
    }
}

/// The cursor one row down: the first row from an unset cursor, no further
/// than the last row, and unset where there are no rows.
pub open spec fn step_down(cursor: Option<int>, len: nat) -> Option<int> {
    if len == 0 {
        None
    } else {
        match cursor {
            None => Some(0),
            Some(i) => if i < 0 {
                Some(0)
            } else if i + 1 < len {
                Some(i + 1)
            } else {
                Some(len - 1)
            },
        }
    }
}

/// The cursor after `n` steps up.
pub open spec fn steps_up(cursor: Option<int>, len: nat, n: nat) -> Option<int>
    decreases n,
{
    if n == 0 {
        cursor
    } else {
        step_up(steps_up(cursor, len, (n - 1) as nat), len)
    }
}

/// The cursor after `n` steps down.
pub open spec fn steps_down(cursor: Option<int>, len: nat, n: nat) -> Option<int>
    decreases n,
{
    if n == 0 {
        cursor
    } else {
        step_down(steps_down(cursor, len, (n - 1) as nat), len)
    }
}

/// The cursor on the first row.
pub open spec fn at_top(len: nat) -> Option<int> {
    if len == 0 {
        None
    } else {
        Some(0)
    }
}

/// The cursor on the last row.
pub open spec fn at_bottom(len: nat) -> Option<int> {
    if len == 0 {
        None
    } else {
        Some(len - 1)
    }
}

/// The cursor after a movement over `len` rows, with pages of `page` rows.
pub open spec fn moved(cursor: Option<int>, len: nat, mv: Move, page: nat) -> Option<int> {
    match mv {
        Move::Up => step_up(cursor, len),
        Move::Down => step_down(cursor, len),
        Move::Top => at_top(len),
        Move::Bottom => at_bottom(len),
        Move::PageUp => steps_up(cursor, len, page),
        Move::PageDown => steps_down(cursor, len, page),
    }
}

/// The cursor for a list that was just loaded: the first row where none
/// was chosen, else the chosen row or the last one.
pub open spec fn clamped(cursor: Option<int>, len: nat) -> Option<int> {
    if len == 0 {
        None
    } else {
        match cursor {
            None => Some(0),
            Some(i) => if i < 0 {
                Some(0)
            } else if i < len {
                Some(i)
            } else {
                Some(len - 1)
            },
        }
    }
}

/// The scroll offset after a movement; it stays within `u16`.
pub open spec fn scrolled(scroll: u16, mv: Move, page: nat) -> u16 {
    match mv {
        Move::Up => if scroll == 0 {
            0
        } else {
            (scroll - 1) as u16
        },
        Move::Down => if scroll == u16::MAX {
            u16::MAX
        } else {
            (scroll + 1) as u16
        },
        Move::Top => 0,
        Move::Bottom => u16::MAX,
        Move::PageUp => if scroll <= page {
            0
        } else {
            (scroll - page) as u16
        },
        Move::PageDown => if scroll + page >= u16::MAX {
            u16::MAX
        } else {
            (scroll + page) as u16
        },
    }
}

/// The polling interval after `errors` errors in a row:
/// the base doubled once per error, five times at most, and no more than
/// sixty seconds.
pub open spec fn backoff_interval(base: u64, errors: nat) -> u64 {
    let doublings = if errors < MAX_DOUBLINGS {
        errors
    } else {
        MAX_DOUBLINGS as nat
    };
    let raw = base * pow2(doublings);
    if raw < MAX_POLLING_INTERVAL {
        raw as u64
    } else {
        MAX_POLLING_INTERVAL
    }
}

/// Whether a refresh is due: none was made yet, or the polling interval
/// has passed since the last one.
pub open spec fn refresh_due(last_refresh: Option<u64>, interval: u64, now: u64) -> bool {
    match last_refresh {
        Some(at) => (if now >= at {
            now - at
        } else {
            0
        }) / 1000 >= interval,
        None => true,
    }
}

/// The number of rows of a list; none while it is not loaded.
pub open spec fn loaded_len<T>(list: LoadStateView<Seq<T>>) -> nat {
    match list {
        LoadStateView::Loaded(rows) => rows.len(),
        _ => 0,
    }
}

/// The row under the cursor, if the list is loaded and the cursor points
/// into it.
pub open spec fn row_at<T>(list: LoadStateView<Seq<T>>, cursor: Option<int>) -> Option<T> {
    match (list, cursor) {
        (LoadStateView::Loaded(rows), Some(i)) => if 0 <= i < rows.len() {
            Some(rows[i])
        } else {
            None
        },
        _ => None,
    }
}

/// The requests that fill the list of a kind.
pub open spec fn initial_loads(kind: KindId) -> Seq<EffectView> {
    match kind {
        KindId::WorkflowExecution => seq![EffectView::LoadWorkflows, EffectView::LoadWorkflowCount],
        KindId::Schedule => seq![EffectView::LoadSchedules],
    }
}

/// A detail as it arrives, keeping from the one on screen what only the
/// history provides: input, output, failure and the history's length.
pub open spec fn merged_detail(
    fresh: WorkflowDetailView,
    shown: Option<WorkflowDetailView>,
) -> WorkflowDetailView {
    match shown {
        Some(old) => WorkflowDetailView {
            input: if fresh.input is None {
                old.input
            } else {
                fresh.input
            },
            output: if fresh.output is None {
                old.output
            } else {
                fresh.output
            },
            failure: if fresh.failure is None {
                old.failure
            } else {
                fresh.failure
            },
            history_length: if fresh.history_length == 0 && old.history_length > 0 {
                old.history_length
            } else {
                fresh.history_length
            },
            ..fresh
        },
        None => fresh,
    }
}

/// Command and argument of a command line: the first word in lowercase, and
/// what follows the first space, trimmed.
pub open spec fn command_words(line: Seq<char>) -> (Seq<char>, Option<Seq<char>>) {
    let trimmed = trim(line);
    match split_once(trimmed, seq![' ']) {
        Some((head, tail)) => (lowercase(head), Some(trim(tail))),
        None => (lowercase(trimmed), None),
    }
}

/// Name and payload of a signal: what stands before and after the first
/// space.
pub open spec fn signal_words(args: Seq<char>) -> (Seq<char>, Option<Seq<char>>) {
    match split_once(args, seq![' ']) {
        Some((name, input)) => (name, Some(input)),
        None => (args, None),
    }
}

impl AppView {
    /// A state that is an outcome without effects.
    pub open spec fn quiet(self) -> (AppView, Seq<EffectView>) {
        (self, Seq::empty())
    }

    /// The kind on screen.
    pub open spec fn kind(self) -> KindId {
        match self.view {
            screen::View::Collection(kind) => kind,
            screen::View::Detail(kind) => kind,
        }
    }

    /// Whether one record is on screen.
    pub open spec fn is_detail(self) -> bool {
        self.view is Detail
    }

    /// The visibility filter of a kind.
    pub open spec fn query_of(self, kind: KindId) -> Option<Seq<char>> {
        match kind {
            KindId::WorkflowExecution => self.search_queries.workflows,
            KindId::Schedule => self.search_queries.schedules,
        }
    }

    /// The state with the filter of `kind` set or removed.
    pub open spec fn with_query(self, kind: KindId, query: Option<Seq<char>>) -> AppView {
        match kind {
            KindId::WorkflowExecution => AppView {
                search_queries: SearchQueriesView { workflows: query, ..self.search_queries },
                ..self
            },
            KindId::Schedule => AppView {
                search_queries: SearchQueriesView { schedules: query, ..self.search_queries },
                ..self
            },
        }
    }

    /// The state with an error message recorded at `now`.
    pub open spec fn with_toast(self, message: Seq<char>, now: u64) -> AppView {
        AppView { last_error: Some((message, now)), ..self }
    }

    /// The state without an error message that has outlived its time.
    pub open spec fn without_stale_toast(self, now: u64) -> AppView {
        match self.last_error {
            Some((_, at)) => if now >= at && now - at > TOAST_LIFETIME_MS {
                AppView { last_error: None, ..self }
            } else {
                self
            },
            None => self,
        }
    }

    /// The execution that operations and commands act on: the row under
    /// the cursor of the list, or the record in detail.
    pub open spec fn selected_workflow_summary(self) -> Option<WorkflowSummaryView> {
        match self.view {
            screen::View::Collection(KindId::WorkflowExecution) => row_at(
                self.workflows,
                self.workflow_cursor,
            ),
            screen::View::Detail(KindId::WorkflowExecution) => match self.selected_workflow {
                Some(detail) => Some(detail.summary),
                None => None,
            },
            _ => None,
        }
    }

    /// The schedule that operations and commands act on.
    pub open spec fn selected_schedule_summary(self) -> Option<ScheduleView> {
        match self.view {
            screen::View::Collection(KindId::Schedule) => row_at(
                self.schedules,
                self.schedule_cursor,
            ),
            screen::View::Detail(KindId::Schedule) => self.selected_schedule,
            _ => None,
        }
    }

    /// The target of an operation of the kind on screen.
    pub open spec fn operation_target(self) -> Option<OperationTargetView> {
        match self.kind() {
            KindId::WorkflowExecution => match self.selected_workflow_summary() {
                Some(workflow) => Some(
                    OperationTargetView::Workflow {
                        workflow_id: workflow.workflow_id,
                        run_id: Some(workflow.run_id),
                    },
                ),
                None => None,
            },
            KindId::Schedule => match self.selected_schedule_summary() {
                Some(schedule) => Some(
                    OperationTargetView::Schedule { schedule_id: schedule.schedule_id },
                ),
                None => None,
            },
        }
    }

    /// The requests that bring what is on screen up to date.
    pub open spec fn refresh_effects(self) -> Seq<EffectView> {
        match self.view {
            screen::View::Collection(kind) => initial_loads(kind),
            screen::View::Detail(KindId::WorkflowExecution) => match self.selected_workflow {
                Some(detail) => seq![
                    EffectView::LoadWorkflowDetail(
                        detail.summary.workflow_id,
                        Some(detail.summary.run_id),
                    ),
                ],
                None => Seq::empty(),
            },
            screen::View::Detail(KindId::Schedule) => match self.selected_schedule {
                Some(schedule) => seq![EffectView::LoadScheduleDetail(schedule.schedule_id)],
                None => Seq::empty(),
            },
        }
    }

    /// Whether the next page of executions is to be asked for: the list of
    /// executions is on screen, no page is on its way, a continuation token
    /// is there, and the cursor is within the last rows.
    pub open spec fn wants_more(self) -> bool {
        &&& self.view == screen::View::Collection(KindId::WorkflowExecution)
        &&& !self.loading_more
        &&& self.next_page_token.len() > 0
        &&& self.workflows is Loaded
        &&& self.workflow_cursor matches Some(selected) && selected + LOOK_AHEAD_ROWS
            >= loaded_len(self.workflows)
    }

    /// The look-ahead: asks for the next page where it is wanted.
    pub open spec fn looked_ahead(self) -> (AppView, Seq<EffectView>) {
        if self.wants_more() {
            (AppView { loading_more: true, ..self }, seq![EffectView::LoadMoreWorkflows])
        } else {
            self.quiet()
        }
    }

    /// The state after a movement. With the namespace selector open its
    /// cursor moves; in a detail view the scroll offset changes; in a list
    /// the list's cursor moves. Moving to the top ends a pending chord.
    pub open spec fn navigated(self, mv: Move) -> AppView {
        let page = self.page_height as nat;
        let s = if mv == Move::Top {
            AppView { input_mode: InputMode::Normal, ..self }
        } else {
            self
        };
        if s.overlay is NamespaceSelector {
            AppView {
                namespace_cursor: moved(s.namespace_cursor, s.namespaces.len(), mv, page),
                ..s
            }
        } else {
            match s.view {
                screen::View::Detail(_) => AppView {
                    detail_scroll: scrolled(s.detail_scroll, mv, page),
                    ..s
                },
                screen::View::Collection(KindId::WorkflowExecution) => AppView {
                    workflow_cursor: moved(s.workflow_cursor, loaded_len(s.workflows), mv, page),
                    ..s
                },
                screen::View::Collection(KindId::Schedule) => AppView {
                    schedule_cursor: moved(s.schedule_cursor, loaded_len(s.schedules), mv, page),
                    ..s
                },
            }
        }
    }

    /// The state with everything that belongs to the old namespace gone:
    /// lists, cursors, records, filters and pagination.
    pub open spec fn cleared_for(self, namespace: Seq<char>) -> AppView {
        AppView {
            namespace,
            workflows: LoadStateView::NotLoaded,
            schedules: LoadStateView::NotLoaded,
            workflow_history: LoadStateView::NotLoaded,
            task_queue_detail: LoadStateView::NotLoaded,
            workflow_cursor: None,
            schedule_cursor: None,
            selected_workflow: None,
            selected_schedule: None,
            workflow_detail_tab: 0,
            detail_scroll: 0,
            next_page_token: Seq::empty(),
            loading_more: false,
            search_queries: SearchQueriesView { workflows: None, schedules: None },
            ..self
        }
    }

    /// The switch to another namespace: clears what belonged to the old one,
    /// closes the overlay, shows the list of the kind on screen and asks for
    /// it.
    pub open spec fn switched_to(self, namespace: Seq<char>) -> (AppView, Seq<EffectView>) {
        (
            AppView {
                overlay: OverlayView::Closed,
                view: screen::View::Collection(self.kind()),
                ..self.cleared_for(namespace)
            },
            initial_loads(self.kind()),
        )
    }

    /// The view, the filter and the requests that a workflows route asks
    /// for.
    pub open spec fn at_workflows_route(self, route: WorkflowsRouteView) -> (
        AppView,
        Seq<EffectView>,
    ) {
        let s = AppView { active_tab: ViewType::Workflows, ..self };
        match route {
            WorkflowsRouteView::Collection { query } => (
                AppView {
                    view: screen::View::Collection(KindId::WorkflowExecution),
                    ..s.with_query(KindId::WorkflowExecution, query)
                },
                initial_loads(KindId::WorkflowExecution),
            ),
            WorkflowsRouteView::Detail { workflow_id, run_id, tab } => (
                AppView {
                    view: screen::View::Detail(KindId::WorkflowExecution),
                    workflow_detail_tab: match tab {
                        Some(name) => tab_for(lowercase(name)),
                        None => 0,
                    },
                    detail_scroll: 0,
                    workflow_history: LoadStateView::Loading,
                    task_queue_detail: LoadStateView::NotLoaded,
                    ..s
                },
                seq![
                    EffectView::LoadWorkflowDetail(workflow_id, run_id),
                    EffectView::LoadHistory(workflow_id, run_id),
                ],
            ),
            WorkflowsRouteView::Activities { workflow_id, .. } => (
                AppView {
                    view: screen::View::Detail(KindId::WorkflowExecution),
                    workflow_detail_tab: 3,
                    detail_scroll: 0,
                    workflow_history: LoadStateView::Loading,
                    task_queue_detail: LoadStateView::NotLoaded,
                    ..s
                },
                seq![
                    EffectView::LoadWorkflowDetail(workflow_id, None),
                    EffectView::LoadHistory(workflow_id, None),
                ],
            ),
        }
    }

    /// The view, the filter and the requests that a schedules route asks
    /// for.
    pub open spec fn at_schedules_route(self, route: SchedulesRouteView) -> (
        AppView,
        Seq<EffectView>,
    ) {
        match route {
            SchedulesRouteView::Collection { query } => (
                AppView {
                    active_tab: ViewType::Schedules,
                    view: screen::View::Collection(KindId::Schedule),
                    ..self.with_query(KindId::Schedule, query)
                },
                initial_loads(KindId::Schedule),
            ),
            SchedulesRouteView::Detail { schedule_id } => (
                AppView {
                    active_tab: ViewType::Schedules,
                    view: screen::View::Detail(KindId::Schedule),
                    detail_scroll: 0,
                    ..self
                },
                seq![EffectView::LoadScheduleDetail(schedule_id)],
            ),
            SchedulesRouteView::Workflows { schedule_id, query } => (
                AppView {
                    active_tab: ViewType::Workflows,
                    view: screen::View::Collection(KindId::WorkflowExecution),
                    ..self.with_query(
                        KindId::WorkflowExecution,
                        Some(combined_query(schedule_id, query)),
                    )
                },
                initial_loads(KindId::WorkflowExecution),
            ),
        }
    }

    /// The jump to a location: what was loaded, chosen, filtered and paged
    /// goes, in the location's namespace; the last segment decides the view,
    /// the filter and the requests. A location without segments leaves an
    /// error message.
    pub open spec fn at_location(self, location: LocationView, now: u64) -> (
        AppView,
        Seq<EffectView>,
    ) {
        let s = self.cleared_for(location.namespace);
        match location.leaf() {
            Some(RouteSegmentView::Workflows(route)) => s.at_workflows_route(route),
            Some(RouteSegmentView::Schedules(route)) => s.at_schedules_route(route),
            None => s.with_toast("invalid uri: missing route"@, now).quiet(),
        }
    }

    /// The choice of the row under the cursor. With the namespace selector
    /// open, the switch to the namespace under its cursor; in a list, the
    /// detail view of the row, with its first tab, and the requests that
    /// fill it.
    pub open spec fn selected(self) -> (AppView, Seq<EffectView>) {
        if self.overlay is NamespaceSelector {
            match self.namespace_cursor {
                Some(i) => if 0 <= i < self.namespaces.len() {
                    self.switched_to(self.namespaces[i].name)
                } else {
                    self.quiet()
                },
                None => self.quiet(),
            }
        } else {
            match self.view {
                screen::View::Collection(KindId::WorkflowExecution) => match row_at(
                    self.workflows,
                    self.workflow_cursor,
                ) {
                    Some(workflow) => (
                        AppView {
                            view: screen::View::Detail(KindId::WorkflowExecution),
                            workflow_detail_tab: 0,
                            workflow_history: LoadStateView::Loading,
                            task_queue_detail: LoadStateView::NotLoaded,
                            detail_scroll: 0,
                            ..self
                        },
                        seq![
                            EffectView::LoadWorkflowDetail(
                                workflow.workflow_id,
                                Some(workflow.run_id),
                            ),
                            EffectView::LoadHistory(workflow.workflow_id, Some(workflow.run_id)),
                        ],
                    ),
                    None => self.quiet(),
                },
                screen::View::Collection(KindId::Schedule) => match row_at(
                    self.schedules,
                    self.schedule_cursor,
                ) {
                    Some(schedule) => (
                        AppView {
                            view: screen::View::Detail(KindId::Schedule),
                            detail_scroll: 0,
                            ..self
                        },
                        seq![EffectView::LoadScheduleDetail(schedule.schedule_id)],
                    ),
                    None => self.quiet(),
                },
                screen::View::Detail(_) => self.quiet(),
            }
        }
    }

    /// The way back from a detail view to the list of its kind.
    pub open spec fn backed(self) -> AppView {
        match self.view {
            screen::View::Detail(KindId::WorkflowExecution) => AppView {
                view: screen::View::Collection(KindId::WorkflowExecution),
                selected_workflow: None,
                workflow_history: LoadStateView::NotLoaded,
                ..self
            },
            screen::View::Detail(KindId::Schedule) => AppView {
                view: screen::View::Collection(KindId::Schedule),
                selected_schedule: None,
                ..self
            },
            screen::View::Collection(_) => self,
        }
    }

    /// The switch to the list that a tab stands for.
    pub open spec fn viewed(self, tab: ViewType) -> (AppView, Seq<EffectView>) {
        let s = AppView { active_tab: tab, ..self };
        match tab {
            ViewType::Workflows => (
                AppView { view: screen::View::Collection(KindId::WorkflowExecution), ..s },
                seq![EffectView::LoadWorkflows],
            ),
            ViewType::Schedules => (
                AppView { view: screen::View::Collection(KindId::Schedule), ..s },
                seq![EffectView::LoadSchedules],
            ),
            ViewType::TaskQueues => s.quiet(),
        }
    }

    /// An operation of the kind on screen, asked for by its key. An
    /// operation of another kind does nothing. Without a target, an error
    /// message. An operation that needs consent opens the confirmation
    /// overlay and has no effect yet; another one has its effects at once.
    pub open spec fn operated(self, op: OperationId, now: u64) -> (AppView, Seq<EffectView>) {
        if op.kind() != self.kind() {
            self.quiet()
        } else {
            match self.operation_target() {
                None => self.with_toast(
                    match self.kind() {
                        KindId::WorkflowExecution => "no workflow selected"@,
                        KindId::Schedule => "no schedule selected"@,
                    },
                    now,
                ).quiet(),
                Some(target) => if op.needs_confirm() {
                    AppView {
                        overlay: OverlayView::Confirm(
                            ConfirmActionView::Operation(
                                OperationConfirmView { kind: self.kind(), op, target },
                            ),
                        ),
                        ..self
                    }.quiet()
                } else {
                    (self, operation_effects(op, target, self))
                },
            }
        }
    }

    /// The operator's consent: closes the confirmation overlay and has the
    /// effects of the operation that waited. Without such an overlay,
    /// nothing.
    pub open spec fn confirmed(self) -> (AppView, Seq<EffectView>) {
        match self.overlay {
            OverlayView::Confirm(ConfirmActionView::Operation(waiting)) => (
                AppView { overlay: OverlayView::Closed, ..self },
                if waiting.op.kind() == waiting.kind {
                    operation_effects(waiting.op, waiting.target, self)
                } else {
                    Seq::empty()
                },
            ),
            _ => self.quiet(),
        }
    }

    /// Closes the overlay if one is open; else leaves the input line or the
    /// pending chord.
    pub open spec fn closed(self) -> AppView {
        if !(self.overlay is Closed) {
            AppView { overlay: OverlayView::Closed, ..self }
        } else if self.input_mode != InputMode::Normal {
            AppView { input_mode: InputMode::Normal, input_buffer: Seq::empty(), ..self }
        } else {
            self
        }
    }

    /// The requests for what the tab on screen shows and fetches only when
    /// it is opened: the history, and the task queue.
    pub open spec fn tab_opened(self) -> (AppView, Seq<EffectView>) {
        match self.selected_workflow {
            Some(detail) => if self.workflow_detail_tab == 2 {
                (
                    self,
                    seq![
                        EffectView::LoadHistory(
                            detail.summary.workflow_id,
                            Some(detail.summary.run_id),
                        ),
                    ],
                )
            } else if self.workflow_detail_tab == 4 {
                (
                    AppView { task_queue_detail: LoadStateView::Loading, ..self },
                    seq![EffectView::LoadTaskQueueDetail(detail.summary.task_queue)],
                )
            } else {
                self.quiet()
            },
            None => self.quiet(),
        }
    }

    /// The next or the previous tab of the detail view on screen, round the
    /// end; the scroll offset starts anew. A view without tabs stays as it
    /// is.
    pub open spec fn tab_switched(self, forward: bool) -> (AppView, Seq<EffectView>) {
        match self.view {
            screen::View::Detail(kind) => {
                let count = tab_count(kind);
                if count == 0 {
                    self.quiet()
                } else {
                    AppView {
                        workflow_detail_tab: if forward {
                            ((self.workflow_detail_tab + 1) % (count as int)) as usize
                        } else if self.workflow_detail_tab == 0 {
                            (count - 1) as usize
                        } else {
                            (self.workflow_detail_tab - 1) as usize
                        },
                        detail_scroll: 0,
                        ..self
                    }.tab_opened()
                }
            },
            screen::View::Collection(_) => self.quiet(),
        }
    }

    /// The jump from the schedule on screen to the executions it started.
    pub open spec fn schedule_workflows_opened(self, now: u64) -> (AppView, Seq<EffectView>) {
        match self.selected_schedule_summary() {
            Some(schedule) => self.at_location(
                LocationView {
                    namespace: self.namespace,
                    segments: seq![
                        RouteSegmentView::Schedules(
                            SchedulesRouteView::Workflows {
                                schedule_id: schedule.schedule_id,
                                query: None,
                            },
                        ),
                    ],
                },
                now,
            ),
            None => self.quiet(),
        }
    }

    /// The jump from the execution on screen to its activities.
    pub open spec fn workflow_activities_opened(self, now: u64) -> (AppView, Seq<EffectView>) {
        match self.selected_workflow_summary() {
            Some(workflow) => self.at_location(
                LocationView {
                    namespace: self.namespace,
                    segments: seq![
                        RouteSegmentView::Workflows(
                            WorkflowsRouteView::Activities {
                                workflow_id: workflow.workflow_id,
                                activity_id: None,
                            },
                        ),
                    ],
                },
                now,
            ),
            None => self.quiet(),
        }
    }

    /// What a command does, given its first word in lowercase and its
    /// argument.
    pub open spec fn commanded(self, command: Seq<char>, args: Option<Seq<char>>, now: u64) -> (
        AppView,
        Seq<EffectView>,
    ) {
        if command == "workflows"@ || command == "wf"@ {
            (
                AppView {
                    active_tab: ViewType::Workflows,
                    view: screen::View::Collection(KindId::WorkflowExecution),
                    ..self
                },
                seq![EffectView::LoadWorkflows],
            )
        } else if command == "schedules"@ || command == "sch"@ {
            (
                AppView {
                    active_tab: ViewType::Schedules,
                    view: screen::View::Collection(KindId::Schedule),
                    ..self
                },
                seq![EffectView::LoadSchedules],
            )
        } else if command == "signal"@ || command == "sig"@ {
            match args {
                Some(words) => match self.selected_workflow_summary() {
                    Some(workflow) => (
                        self,
                        seq![
                            EffectView::SignalWorkflow(
                                workflow.workflow_id,
                                Some(workflow.run_id),
                                signal_words(words).0,
                                signal_words(words).1,
                            ),
                        ],
                    ),
                    None => self.with_toast("no workflow selected"@, now).quiet(),
                },
                None => self.with_toast("usage: :signal <name> [json-input]"@, now).quiet(),
            }
        } else if command == "open"@ || command == "goto"@ {
            match args {
                Some(uri) => match parsed(uri) {
                    Ok(location) => self.at_location(location, now),
                    Err(e) => self.with_toast("invalid uri: "@ + uri_error_text(e), now).quiet(),
                },
                None => self.with_toast(
                    "usage: :open temporal://tui/namespaces/<ns>/..."@,
                    now,
                ).quiet(),
            }
        } else if command == "namespace"@ || command == "ns"@ {
            match args {
                Some(namespace) => self.switched_to(namespace),
                None => (
                    AppView { overlay: OverlayView::NamespaceSelector, ..self },
                    seq![EffectView::LoadNamespaces],
                ),
            }
        } else if command == "quit"@ || command == "q"@ {
            (AppView { should_quit: true, ..self }, seq![EffectView::Quit])
        } else if command == "help"@ || command == "h"@ {
            AppView { overlay: OverlayView::Help, ..self }.quiet()
        } else {
            self.with_toast("unknown command: "@ + command, now).quiet()
        }
    }

    /// What a submitted command line does: the input line closes, the
    /// command runs, the buffer empties.
    pub open spec fn command_submitted(self, line: Seq<char>, now: u64) -> (
        AppView,
        Seq<EffectView>,
    ) {
        let words = command_words(line);
        let (s, effects) = AppView { input_mode: InputMode::Normal, ..self }.commanded(
            words.0,
            words.1,
            now,
        );
        (AppView { input_buffer: Seq::empty(), ..s }, effects)
    }

    /// What a submitted search does: the filter of the kind on screen is
    /// set, or removed where the search is empty, and the list is asked for
    /// again.
    pub open spec fn search_submitted(self, query: Seq<char>) -> (AppView, Seq<EffectView>) {
        let kind = self.kind();
        (
            AppView {
                input_mode: InputMode::Normal,
                input_buffer: Seq::empty(),
                ..self.with_query(
                    kind,
                    if query.len() == 0 {
                        None
                    } else {
                        Some(query)
                    },
                )
            },
            initial_loads(kind),
        )
    }

    /// The state after a result has arrived: no errors in a row, and the
    /// polling interval at its base.
    pub open spec fn succeeded(self) -> AppView {
        AppView { error_count: 0, polling_interval: self.base_polling_interval, ..self }
    }

    /// The state after a failure: the message is shown, the polling interval
    /// backs off, and a healthy connection is marked as failed.
    pub open spec fn failed(self, message: Seq<char>, now: u64) -> AppView {
        let errors = if self.error_count < u32::MAX {
            (self.error_count + 1) as u32
        } else {
            self.error_count
        };
        AppView {
            last_error: Some((message, now)),
            error_count: errors,
            polling_interval: backoff_interval(self.base_polling_interval, errors as nat),
            connection_status: if self.connection_status is Connected {
                ConnectionStatusView::Error(message)
            } else {
                self.connection_status
            },
            ..self
        }
    }

    /// The state after the history of the execution in detail has arrived.
    pub open spec fn with_history(self, events: Seq<crate::domain::HistoryEventView>) -> AppView {
        AppView {
            selected_workflow: match self.selected_workflow {
                Some(detail) => Some(
                    WorkflowDetailView {
                        history_length: events.len() as u64,
                        ..absorbed(detail, events)
                    },
                ),
                None => None,
            },
            workflow_history: LoadStateView::Loaded(events),
            ..self
        }
    }

    /// The location of what is on screen.
    pub open spec fn location(self) -> LocationView {
        let collection = match self.kind() {
            KindId::WorkflowExecution => RouteSegmentView::Workflows(
                WorkflowsRouteView::Collection { query: self.search_queries.workflows },
            ),
            KindId::Schedule => RouteSegmentView::Schedules(
                SchedulesRouteView::Collection { query: self.search_queries.schedules },
            ),
        };
        let segment = match self.view {
            screen::View::Collection(_) => collection,
            screen::View::Detail(KindId::WorkflowExecution) => match self.selected_workflow {
                Some(detail) => RouteSegmentView::Workflows(
                    WorkflowsRouteView::Detail {
                        workflow_id: detail.summary.workflow_id,
                        run_id: Some(detail.summary.run_id),
                        tab: None,
                    },
                ),
                None => collection,
            },
            screen::View::Detail(KindId::Schedule) => match self.selected_schedule {
                Some(schedule) => RouteSegmentView::Schedules(
                    SchedulesRouteView::Detail { schedule_id: schedule.schedule_id },
                ),
                None => collection,
            },
        };
        LocationView { namespace: self.namespace, segments: seq![segment] }
    }

    /// What the state machine maintains: cursors are unset or point into
    /// their lists, the tab is one of the tabs, and the polling interval is
    /// the base backed off by the errors in a row.
    pub open spec fn wf(self) -> bool {
        &&& cursor_ok(self.workflow_cursor, loaded_len(self.workflows))
        &&& cursor_ok(self.schedule_cursor, loaded_len(self.schedules))
        &&& cursor_ok(self.namespace_cursor, self.namespaces.len())
        &&& self.workflow_detail_tab < tab_count(KindId::WorkflowExecution)
        &&& self.polling_interval == if self.error_count == 0 {
            self.base_polling_interval
        } else {
            backoff_interval(self.base_polling_interval, self.error_count as nat)
        }
    }
}

/// The state of a session that has just begun in `namespace`.
pub open spec fn initial(namespace: Seq<char>) -> AppView {
    AppView {
        view: screen::View::Collection(KindId::WorkflowExecution),
        input_mode: InputMode::Normal,
        overlay: OverlayView::Closed,
        namespace,
        namespaces: Seq::empty(),
        connection_status: ConnectionStatusView::Connecting,
        workflows: LoadStateView::NotLoaded,
        workflow_count: None,
        selected_workflow: None,
        workflow_history: LoadStateView::NotLoaded,
        workflow_cursor: None,
        workflow_detail_tab: 0,
        schedules: LoadStateView::NotLoaded,
        selected_schedule: None,
        schedule_cursor: None,
        task_queue_detail: LoadStateView::NotLoaded,
        namespace_cursor: None,
        detail_scroll: 0,
        input_buffer: Seq::empty(),
        search_queries: SearchQueriesView { workflows: None, schedules: None },
        polling_enabled: true,
        polling_interval: 3,
        base_polling_interval: 3,
        last_refresh: None,
        error_count: 0,
        loading_more: false,
        next_page_token: Seq::empty(),
        page_size: 50,
        page_height: 20,
        should_quit: false,
        last_error: None,
        active_tab: ViewType::Workflows,
    }
}

/// Actions that move through what is shown.
pub open spec fn is_movement(action: ActionView) -> bool {
    ||| action is NavigateUp
    ||| action is NavigateDown
    ||| action is NavigateTop
    ||| action is NavigateBottom
    ||| action is PageUp
    ||| action is PageDown
    ||| action is Select
    ||| action is Back
    ||| action is SwitchView
    ||| action is NextTab
    ||| action is PrevTab
    ||| action is OpenScheduleWorkflows
    ||| action is OpenWorkflowActivities
}

/// Actions of the input line, the overlays and the operations.
pub open spec fn is_input(action: ActionView) -> bool {
    ||| action is EnterPendingG
    ||| action is RunOperation
    ||| action is Confirm
    ||| action is OpenCommandInput
    ||| action is OpenSearch
    ||| action is CloseOverlay
    ||| action is SubmitCommandInput
    ||| action is UpdateInputBuffer
    ||| action is SubmitSearch
    ||| action is ToggleHelp
    ||| action is SwitchNamespace
}

/// Actions that bring a result from the backend.
pub open spec fn is_result(action: ActionView) -> bool {
    ||| action is WorkflowsLoaded
    ||| action is MoreWorkflowsLoaded
    ||| action is WorkflowDetailLoaded
    ||| action is HistoryLoaded
    ||| action is NamespacesLoaded
    ||| action is SchedulesLoaded
    ||| action is ScheduleDetailLoaded
    ||| action is WorkflowCountLoaded
    ||| action is TaskQueueDetailLoaded
}

/// What an action that moves through what is shown does.
pub open spec fn moved_by(s: AppView, action: ActionView, now: u64) -> (AppView, Seq<EffectView>) {
    match action {
        ActionView::NavigateUp => s.navigated(Move::Up).quiet(),
        ActionView::NavigateDown => s.navigated(Move::Down).looked_ahead(),
        ActionView::NavigateTop => s.navigated(Move::Top).quiet(),
        ActionView::NavigateBottom => s.navigated(Move::Bottom).looked_ahead(),
        ActionView::PageUp => s.navigated(Move::PageUp).quiet(),
        ActionView::PageDown => s.navigated(Move::PageDown).looked_ahead(),
        ActionView::Select => s.selected(),
        ActionView::Back => s.backed().quiet(),
        ActionView::SwitchView(tab) => s.viewed(tab),
        ActionView::NextTab => s.tab_switched(true),
        ActionView::PrevTab => s.tab_switched(false),
        ActionView::OpenScheduleWorkflows => s.schedule_workflows_opened(now),
        ActionView::OpenWorkflowActivities => s.workflow_activities_opened(now),
        _ => s.quiet(),
    }
}

/// What an action of the input line, the overlays or the operations does.
pub open spec fn entered_by(s: AppView, action: ActionView, now: u64) -> (
    AppView,
    Seq<EffectView>,
) {
    match action {
        ActionView::EnterPendingG => AppView { input_mode: InputMode::PendingG, ..s }.quiet(),
        ActionView::RunOperation(op) => s.operated(op, now),
        ActionView::Confirm => s.confirmed(),
        ActionView::OpenCommandInput => AppView {
            input_mode: InputMode::Command,
            input_buffer: Seq::empty(),
            ..s
        }.quiet(),
        ActionView::OpenSearch => AppView {
            input_mode: InputMode::Search,
            input_buffer: match s.query_of(s.kind()) {
                Some(query) => query,
                None => Seq::empty(),
            },
            ..s
        }.quiet(),
        ActionView::CloseOverlay => s.closed().quiet(),
        ActionView::SubmitCommandInput(line) => s.command_submitted(line, now),
        ActionView::UpdateInputBuffer(buffer) => AppView { input_buffer: buffer, ..s }.quiet(),
        ActionView::SubmitSearch(query) => s.search_submitted(query),
        ActionView::ToggleHelp => AppView {
            overlay: if s.overlay is Help {
                OverlayView::Closed
            } else {
                OverlayView::Help
            },
            ..s
        }.quiet(),
        ActionView::SwitchNamespace(namespace) => s.switched_to(namespace),
        _ => s.quiet(),
    }
}

/// What a result from the backend does: it is taken into the state, and the
/// backoff ends.
pub open spec fn informed_by(s: AppView, action: ActionView, now: u64) -> AppView {
    match action {
        ActionView::WorkflowsLoaded(list, token) => AppView {
            workflows: LoadStateView::Loaded(list),
            next_page_token: token,
            loading_more: false,
            connection_status: ConnectionStatusView::Connected,
            last_refresh: Some(now),
            workflow_cursor: clamped(s.workflow_cursor, list.len()),
            ..s.succeeded()
        },
        ActionView::MoreWorkflowsLoaded(list, token) => AppView {
            workflows: match s.workflows {
                LoadStateView::Loaded(rows) => LoadStateView::Loaded(rows + list),
                other => other,
            },
            next_page_token: token,
            loading_more: false,
            connection_status: ConnectionStatusView::Connected,
            ..s.succeeded()
        },
        ActionView::WorkflowDetailLoaded(detail) => AppView {
            selected_workflow: Some(merged_detail(detail, s.selected_workflow)),
            ..s.succeeded()
        },
        ActionView::HistoryLoaded(events) => s.succeeded().with_history(events),
        ActionView::NamespacesLoaded(list) => AppView {
            namespaces: list,
            namespace_cursor: clamped(s.namespace_cursor, list.len()),
            ..s.succeeded()
        },
        ActionView::SchedulesLoaded(list) => AppView {
            schedules: LoadStateView::Loaded(list),
            last_refresh: Some(now),
            schedule_cursor: clamped(s.schedule_cursor, list.len()),
            ..s.succeeded()
        },
        ActionView::ScheduleDetailLoaded(schedule) => AppView {
            selected_schedule: Some(schedule),
            ..s.succeeded()
        },
        ActionView::WorkflowCountLoaded(count) => AppView {
            workflow_count: Some(count),
            ..s.succeeded()
        },
        ActionView::TaskQueueDetailLoaded(info) => AppView {
            task_queue_detail: LoadStateView::Loaded(info),
            ..s.succeeded()
        },
        _ => s,
    }
}

/// What an action that steers the session does: refresh, quit, tick,
/// failure, and the switches for the error message and for polling.
pub open spec fn steered_by(s: AppView, action: ActionView, now: u64) -> (
    AppView,
    Seq<EffectView>,
) {
    match action {
        ActionView::Refresh => (s, s.refresh_effects()),
        ActionView::Quit => (AppView { should_quit: true, ..s }, seq![EffectView::Quit]),
        ActionView::Tick => if s.polling_enabled && refresh_due(
            s.last_refresh,
            s.polling_interval,
            now,
        ) {
            (s, s.refresh_effects())
        } else {
            s.quiet()
        },
        ActionView::Error(message) => s.failed(message, now).quiet(),
        ActionView::ClearError => AppView { last_error: None, ..s }.quiet(),
        ActionView::TogglePolling => AppView { polling_enabled: !s.polling_enabled, ..s }.quiet(),
        _ => s.quiet(),
    }
}

/// What one action does to a state that holds no stale error message.
pub open spec fn applied(s: AppView, action: ActionView, now: u64) -> (AppView, Seq<EffectView>) {
    if is_movement(action) {
        moved_by(s, action, now)
    } else if is_input(action) {
        entered_by(s, action, now)
    } else if is_result(action) {
        informed_by(s, action, now).quiet()
    } else {
        steered_by(s, action, now)
    }
}

/// The transition: an error message older than its lifetime goes, then the
/// action is applied. The result is the next state and the effects to
/// perform, in order.
pub open spec fn step(s: AppView, action: ActionView, now: u64) -> (AppView, Seq<EffectView>) {
    applied(s.without_stale_toast(now), action, now)
}

} // verus!
