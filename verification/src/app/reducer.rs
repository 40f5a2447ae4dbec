//! The reducer: computes the next state and the effects to perform from the
//! state and one action. It performs no input or output and reads no clock:
//! the host hands the time in.

use vstd::arithmetic::power2::{lemma2_to64, pow2};
use vstd::prelude::*;
use vstd::string::*;
use crate::action::{Action, ActionView, ViewType};
use crate::app::history::absorb_events;
use crate::app::laws::{lemma_step_keeps_wf, lemma_steps_down_settled, lemma_steps_up_settled};
use crate::app::model::{
    backoff_interval, clamped, command_words, entered_by, informed_by, initial, initial_loads,
    is_input, is_movement, is_result, loaded_len, merged_detail, moved, moved_by, refresh_due,
    row_at, scrolled, steered_by, step, step_down, step_up, steps_down, steps_up, LOOK_AHEAD_ROWS,
    MAX_DOUBLINGS, MAX_POLLING_INTERVAL, TOAST_LIFETIME_MS, Move,
};
use crate::app::query::{combine_schedule_workflow_query, format_uri_error, workflow_tab_from_param};
use crate::app::screen;
use crate::app::screen::InputMode;
use crate::app::state::{
    index_view, App, AppView, ConfirmAction, ConnectionStatus, Effect, EffectView, LoadState,
    LoadStateView, OperationConfirm, OperationTarget, Overlay, OverlayView, SearchQueries,
};
use crate::domain::{
    HistoryEvent, Namespace, Schedule, TaskQueueInfo, WorkflowDetail, WorkflowSummary,
};
use crate::kinds::{
    detail_tab_count, operation_effect_spec, operation_spec, tab_count, KindId, OperationId,
};
use crate::nav::location::{Location, RouteSegment, SchedulesRoute, WorkflowsRoute};
use crate::nav::uri::parse_deep_link;
use crate::text::{
    chars_of, clone_opt, lemma_views_add, opt_view, same_text, split_once_char, string_of, to_lower,
    trim_chars, views,
};

verus! {

/// The cursor one row up.
pub fn cursor_up(cursor: Option<usize>, len: usize) -> (r: Option<usize>)
    ensures
        index_view(r) == step_up(index_view(cursor), len as nat),
{
    if len == 0 {
        None
    } else {
        match cursor {
            None => Some(len - 1),
            Some(i) => if i == 0 {
                Some(0)
            } else if i - 1 < len {
                Some(i - 1)
            } else {
                Some(len - 1)
            },
        }
    }
}

/// The cursor one row down.
pub fn cursor_down(cursor: Option<usize>, len: usize) -> (r: Option<usize>)
    ensures
        index_view(r) == step_down(index_view(cursor), len as nat),
{
    if len == 0 {
        None
    } else {
        match cursor {
            None => Some(0),
            Some(i) => if i < len - 1 {
                Some(i + 1)
            } else {
                Some(len - 1)
            },
        }
    }
}

fn same_cursor(a: Option<usize>, b: Option<usize>) -> (r: bool)
    ensures
        r == (a == b),
{
    match (a, b) {
        (Some(i), Some(j)) => i == j,
        (None, None) => true,
        _ => false,
    }
}

/// The cursor after `page` steps up. The steps end as soon as one of them
/// changes nothing.
pub fn cursor_paged_up(cursor: Option<usize>, len: usize, page: usize) -> (r: Option<usize>)
    ensures
        index_view(r) == steps_up(index_view(cursor), len as nat, page as nat),
{
    let mut at = cursor;
    let mut n: usize = 0;
    while n < page
        invariant
            n <= page,
            index_view(at) == steps_up(index_view(cursor), len as nat, n as nat),
        decreases page - n,
    {
        let next = cursor_up(at, len);
        if same_cursor(next, at) {
            proof {
                lemma_steps_up_settled(index_view(cursor), len as nat, n as nat, page as nat);
            }
            return at;
        }
        at = next;
        n += 1;
    }
    at
}

/// The cursor after `page` steps down. The steps end as soon as one of them
/// changes nothing.
pub fn cursor_paged_down(cursor: Option<usize>, len: usize, page: usize) -> (r: Option<usize>)
    ensures
        index_view(r) == steps_down(index_view(cursor), len as nat, page as nat),
{
    let mut at = cursor;
    let mut n: usize = 0;
    while n < page
        invariant
            n <= page,
            index_view(at) == steps_down(index_view(cursor), len as nat, n as nat),
        decreases page - n,
    {
        let next = cursor_down(at, len);
        if same_cursor(next, at) {
            proof {
                lemma_steps_down_settled(index_view(cursor), len as nat, n as nat, page as nat);
            }
            return at;
        }
        at = next;
        n += 1;
    }
    at
}

/// The cursor after a movement over `len` rows, with pages of `page` rows.
pub fn cursor_moved(cursor: Option<usize>, len: usize, mv: Move, page: usize) -> (r: Option<usize>)
    ensures
        index_view(r) == moved(index_view(cursor), len as nat, mv, page as nat),
{
    match mv {
        Move::Up => cursor_up(cursor, len),
        Move::Down => cursor_down(cursor, len),
        Move::Top => if len == 0 {
            None
        } else {
            Some(0)
        },
        Move::Bottom => if len == 0 {
            None
        } else {
            Some(len - 1)
        },
        Move::PageUp => cursor_paged_up(cursor, len, page),
        Move::PageDown => cursor_paged_down(cursor, len, page),
    }
}

/// The cursor for a list that was just loaded.
pub fn cursor_clamped(cursor: Option<usize>, len: usize) -> (r: Option<usize>)
    ensures
        index_view(r) == clamped(index_view(cursor), len as nat),
{
    if len == 0 {
        None
    } else {
        match cursor {
            None => Some(0),
            Some(i) => if i < len {
                Some(i)
            } else {
                Some(len - 1)
            },
        }
    }
}

/// The scroll offset after a movement.
pub fn scroll_moved(scroll: u16, mv: Move, page: usize) -> (r: u16)
    ensures
        r == scrolled(scroll, mv, page as nat),
{
    let rows: u16 = if page > 0xffff {
        0xffff
    } else {
        page as u16
    };
    match mv {
        Move::Up => scroll.saturating_sub(1),
        Move::Down => scroll.saturating_add(1),
        Move::Top => 0,
        Move::Bottom => u16::MAX,
        Move::PageUp => scroll.saturating_sub(rows),
        Move::PageDown => scroll.saturating_add(rows),
    }
}

/// The polling interval after `errors` errors in a row.
pub fn backoff(base: u64, errors: u32) -> (r: u64)
    ensures
        r == backoff_interval(base, errors as nat),
{
    let doublings: u32 = if errors < MAX_DOUBLINGS {
        errors
    } else {
        MAX_DOUBLINGS
    };
    let mut factor: u64 = 1;
    let mut n: u32 = 0;
    proof {
        lemma2_to64();
    }
    while n < doublings
        invariant
            n <= doublings <= 5,
            factor == pow2(n as nat),
            factor <= 32,
        decreases doublings - n,
    {
        proof {
            lemma2_to64();
        }
        factor = factor * 2;
        n += 1;
    }
    if base >= MAX_POLLING_INTERVAL {
        assert(base * pow2(doublings as nat) >= MAX_POLLING_INTERVAL) by (nonlinear_arith)
            requires
                base >= MAX_POLLING_INTERVAL,
                pow2(doublings as nat) >= 1,
        ;
        MAX_POLLING_INTERVAL
    } else {
        assert(base * factor <= 60 * 32) by (nonlinear_arith)
            requires
                base < 60,
                factor <= 32,
        ;
        let raw = base * factor;
        if raw < MAX_POLLING_INTERVAL {
            raw
        } else {
            MAX_POLLING_INTERVAL
        }
    }
}

/// The requests that fill the list of a kind.
pub fn loads_for(kind: KindId) -> (r: Vec<Effect>)
    ensures
        views(r@) == initial_loads(kind),
{
    let mut effects: Vec<Effect> = Vec::new();
    match kind {
        KindId::WorkflowExecution => {
            effects.push(Effect::LoadWorkflows);
            effects.push(Effect::LoadWorkflowCount);
        },
        KindId::Schedule => {
            effects.push(Effect::LoadSchedules);
        },
    }
    assert(views(effects@) =~= initial_loads(kind));
    effects
}

fn no_effects() -> (r: Vec<Effect>)
    ensures
        views(r@) == Seq::<EffectView>::empty(),
{
    let effects: Vec<Effect> = Vec::new();
    assert(views(effects@) =~= Seq::<EffectView>::empty());
    effects
}

fn one_effect(effect: Effect) -> (r: Vec<Effect>)
    ensures
        views(r@) == seq![effect@],
{
    let mut effects: Vec<Effect> = Vec::new();
    effects.push(effect);
    assert(views(effects@) =~= seq![effect@]);
    effects
}

fn two_effects(first: Effect, second: Effect) -> (r: Vec<Effect>)
    ensures
        views(r@) == seq![first@, second@],
{
    let mut effects: Vec<Effect> = Vec::new();
    effects.push(first);
    effects.push(second);
    assert(views(effects@) =~= seq![first@, second@]);
    effects
}

/// Actions of the input line.
spec fn is_line_input(action: ActionView) -> bool {
    ||| action is OpenCommandInput
    ||| action is OpenSearch
    ||| action is SubmitCommandInput
    ||| action is UpdateInputBuffer
    ||| action is SubmitSearch
}

/// Results that bring a list.
spec fn is_list_result(action: ActionView) -> bool {
    ||| action is WorkflowsLoaded
    ||| action is MoreWorkflowsLoaded
    ||| action is HistoryLoaded
    ||| action is NamespacesLoaded
    ||| action is SchedulesLoaded
}

enum ActionGroup {
    Movement,
    Line,
    Overlay,
    Lists,
    Records,
    Control,
}

fn group_of(action: &Action) -> (group: ActionGroup)
    ensures
        group is Movement <==> is_movement(action@),
        group is Line <==> is_line_input(action@),
        group is Overlay <==> is_input(action@) && !is_line_input(action@),
        group is Lists <==> is_list_result(action@),
        group is Records <==> is_result(action@) && !is_list_result(action@),
{
    match action {
        Action::NavigateUp
        | Action::NavigateDown
        | Action::NavigateTop
        | Action::NavigateBottom
        | Action::PageUp
        | Action::PageDown
        | Action::Select
        | Action::Back
        | Action::SwitchView(_)
        | Action::NextTab
        | Action::PrevTab
        | Action::OpenScheduleWorkflows
        | Action::OpenWorkflowActivities => ActionGroup::Movement,
        Action::OpenCommandInput
        | Action::OpenSearch
        | Action::SubmitCommandInput(_)
        | Action::UpdateInputBuffer(_)
        | Action::SubmitSearch(_) => ActionGroup::Line,
        Action::EnterPendingG
        | Action::RunOperation(_)
        | Action::Confirm
        | Action::CloseOverlay
        | Action::ToggleHelp
        | Action::SwitchNamespace(_) => ActionGroup::Overlay,
        Action::WorkflowsLoaded(..)
        | Action::MoreWorkflowsLoaded(..)
        | Action::HistoryLoaded(_)
        | Action::NamespacesLoaded(_)
        | Action::SchedulesLoaded(_) => ActionGroup::Lists,
        Action::WorkflowDetailLoaded(_)
        | Action::ScheduleDetailLoaded(_)
        | Action::WorkflowCountLoaded(_)
        | Action::TaskQueueDetailLoaded(_) => ActionGroup::Records,
        Action::Refresh
        | Action::Quit
        | Action::Tick
        | Action::Error(_)
        | Action::ClearError
        | Action::TogglePolling => ActionGroup::Control,
    }
}

impl App {
    /// The state of a session that has just begun in `namespace`.
    pub fn new(namespace: String) -> (r: Self)
        ensures
            r@ == initial(namespace@),
            r@.wf(),
    {
        let r = Self {
            view: screen::View::Collection(KindId::WorkflowExecution),
            input_mode: InputMode::Normal,
            overlay: Overlay::Closed,
            namespace,
            namespaces: Vec::new(),
            connection_status: ConnectionStatus::Connecting,
            workflows: LoadState::NotLoaded,
            workflow_count: None,
            selected_workflow: None,
            workflow_history: LoadState::NotLoaded,
            workflow_cursor: None,
            workflow_detail_tab: 0,
            schedules: LoadState::NotLoaded,
            selected_schedule: None,
            schedule_cursor: None,
            task_queue_detail: LoadState::NotLoaded,
            namespace_cursor: None,
            detail_scroll: 0,
            input_buffer: String::new(),
            search_queries: SearchQueries { workflows: None, schedules: None },
            polling_enabled: true,
            polling_interval: 3,
            base_polling_interval: 3,
            last_refresh: None,
            error_count: 0,
            loading_more: false,
            next_page_token: Vec::new(),
            page_size: 50,
            page_height: 20,
            should_quit: false,
            last_error: None,
            active_tab: ViewType::Workflows,
        };
        assert(r@.namespaces =~= Seq::empty());
        assert(r@ == initial(namespace@));
        r
    }

    /// The kind on screen.
    pub fn current_kind_id(&self) -> (kind: KindId)
        ensures
            kind == self@.kind(),
    {
        match self.view {
            screen::View::Collection(kind) => kind,
            screen::View::Detail(kind) => kind,
        }
    }

    /// Whether one record is on screen.
    pub fn is_detail_view(&self) -> (r: bool)
        ensures
            r == self@.is_detail(),
    {
        matches!(self.view, screen::View::Detail(_))
    }

    /// The number of rows of a page.
    pub fn page_height(&self) -> (rows: usize)
        ensures
            rows == self@.page_height,
    {
        self.page_height
    }

    /// The visibility filter of a kind.
    pub fn search_query_for_kind(&self, kind: KindId) -> (r: Option<String>)
        ensures
            opt_view(r) == self@.query_of(kind),
    {
        match kind {
            KindId::WorkflowExecution => clone_opt(&self.search_queries.workflows),
            KindId::Schedule => clone_opt(&self.search_queries.schedules),
        }
    }

    /// The visibility filter of the kind on screen.
    pub fn current_search_query(&self) -> (r: Option<String>)
        ensures
            opt_view(r) == self@.query_of(self@.kind()),
    {
        self.search_query_for_kind(self.current_kind_id())
    }

    /// Sets or removes the visibility filter of a kind.
    pub fn set_kind_query(&mut self, kind: KindId, query: Option<String>)
        ensures
            final(self)@ == old(self)@.with_query(kind, opt_view(query)),
    {
        match kind {
            KindId::WorkflowExecution => {
                self.search_queries.workflows = query;
            },
            KindId::Schedule => {
                self.search_queries.schedules = query;
            },
        }
    }

    fn set_toast(&mut self, message: String, now: u64)
        ensures
            final(self)@ == old(self)@.with_toast(message@, now),
    {
        self.last_error = Some((message, now));
    }

    fn drop_stale_toast(&mut self, now: u64)
        ensures
            final(self)@ == old(self)@.without_stale_toast(now),
    {
        let stale = match &self.last_error {
            Some((_, at)) => now >= *at && now - *at > TOAST_LIFETIME_MS,
            None => false,
        };
        if stale {
            self.last_error = None;
        }
    }

    fn workflow_rows(&self) -> (len: usize)
        ensures
            len == loaded_len(self@.workflows),
    {
        match &self.workflows {
            LoadState::Loaded(rows) => rows.len(),
            _ => 0,
        }
    }

    fn schedule_rows(&self) -> (len: usize)
        ensures
            len == loaded_len(self@.schedules),
    {
        match &self.schedules {
            LoadState::Loaded(rows) => rows.len(),
            _ => 0,
        }
    }

    fn workflow_row(&self) -> (r: Option<&WorkflowSummary>)
        ensures
            opt_view(r) == row_at(self@.workflows, self@.workflow_cursor),
    {
        match (&self.workflows, self.workflow_cursor) {
            (LoadState::Loaded(rows), Some(i)) => if i < rows.len() {
                Some(&rows[i])
            } else {
                None
            },
            _ => None,
        }
    }

    fn schedule_row(&self) -> (r: Option<&Schedule>)
        ensures
            opt_view(r) == row_at(self@.schedules, self@.schedule_cursor),
    {
        match (&self.schedules, self.schedule_cursor) {
            (LoadState::Loaded(rows), Some(i)) => if i < rows.len() {
                Some(&rows[i])
            } else {
                None
            },
            _ => None,
        }
    }

    /// The execution that operations and commands act on.
    pub fn selected_workflow_summary(&self) -> (r: Option<&WorkflowSummary>)
        ensures
            opt_view(r) == self@.selected_workflow_summary(),
    {
        match self.view {
            screen::View::Collection(KindId::WorkflowExecution) => self.workflow_row(),
            screen::View::Detail(KindId::WorkflowExecution) => match &self.selected_workflow {
                Some(detail) => Some(&detail.summary),
                None => None,
            },
            _ => None,
        }
    }

    /// The schedule that operations and commands act on.
    pub fn selected_schedule_summary(&self) -> (r: Option<&Schedule>)
        ensures
            opt_view(r) == self@.selected_schedule_summary(),
    {
        match self.view {
            screen::View::Collection(KindId::Schedule) => self.schedule_row(),
            screen::View::Detail(KindId::Schedule) => match &self.selected_schedule {
                Some(schedule) => Some(schedule),
                None => None,
            },
            _ => None,
        }
    }

    /// The requests that bring what is on screen up to date.
    pub fn refresh_current_view(&self) -> (effects: Vec<Effect>)
        ensures
            views(effects@) == self@.refresh_effects(),
    {
        match self.view {
            screen::View::Collection(kind) => loads_for(kind),
            screen::View::Detail(KindId::WorkflowExecution) => match &self.selected_workflow {
                Some(detail) => one_effect(
                    Effect::LoadWorkflowDetail(
                        detail.summary.workflow_id.clone(),
                        Some(detail.summary.run_id.clone()),
                    ),
                ),
                None => no_effects(),
            },
            screen::View::Detail(KindId::Schedule) => match &self.selected_schedule {
                Some(schedule) => one_effect(
                    Effect::LoadScheduleDetail(schedule.schedule_id.clone()),
                ),
                None => no_effects(),
            },
        }
    }

    /// The look-ahead: asks for the next page of executions where the
    /// cursor is within the last rows and no page is on its way.
    pub fn maybe_load_more(&mut self) -> (effects: Vec<Effect>)
        ensures
            final(self)@ == old(self)@.looked_ahead().0,
            views(effects@) == old(self)@.looked_ahead().1,
    {
        if self.view != screen::View::Collection(KindId::WorkflowExecution) || self.loading_more
            || self.next_page_token.len() == 0 {
            return no_effects();
        }
        let near_end = match (&self.workflows, self.workflow_cursor) {
            (LoadState::Loaded(rows), Some(selected)) => selected >= rows.len() || rows.len()
                - selected <= LOOK_AHEAD_ROWS,
            _ => false,
        };
        if near_end {
            self.loading_more = true;
            one_effect(Effect::LoadMoreWorkflows)
        } else {
            no_effects()
        }
    }

    /// Moves the cursor that is in use, or the scroll offset.
    pub fn navigate(&mut self, mv: Move)
        ensures
            final(self)@ == old(self)@.navigated(mv),
    {
        let page = self.page_height;
        if mv == Move::Top {
            self.input_mode = InputMode::Normal;
        }
        if matches!(self.overlay, Overlay::NamespaceSelector) {
            self.namespace_cursor = cursor_moved(
                self.namespace_cursor,
                self.namespaces.len(),
                mv,
                page,
            );
        } else {
            match self.view {
                screen::View::Detail(_) => {
                    self.detail_scroll = scroll_moved(self.detail_scroll, mv, page);
                },
                screen::View::Collection(KindId::WorkflowExecution) => {
                    self.workflow_cursor = cursor_moved(
                        self.workflow_cursor,
                        self.workflow_rows(),
                        mv,
                        page,
                    );
                },
                screen::View::Collection(KindId::Schedule) => {
                    self.schedule_cursor = cursor_moved(
                        self.schedule_cursor,
                        self.schedule_rows(),
                        mv,
                        page,
                    );
                },
            }
        }
    }

    /// One row up.
    pub fn navigate_up(&mut self)
        ensures
            final(self)@ == old(self)@.navigated(Move::Up),
    {
        self.navigate(Move::Up)
    }

    /// One row down.
    pub fn navigate_down(&mut self)
        ensures
            final(self)@ == old(self)@.navigated(Move::Down),
    {
        self.navigate(Move::Down)
    }

    /// To the first row.
    pub fn navigate_top(&mut self)
        ensures
            final(self)@ == old(self)@.navigated(Move::Top),
    {
        self.navigate(Move::Top)
    }

    /// To the last row.
    pub fn navigate_bottom(&mut self)
        ensures
            final(self)@ == old(self)@.navigated(Move::Bottom),
    {
        self.navigate(Move::Bottom)
    }

    /// No errors in a row any more, and the polling interval at its base.
    pub fn reset_backoff(&mut self)
        ensures
            final(self)@ == old(self)@.succeeded(),
    {
        self.error_count = 0;
        self.polling_interval = self.base_polling_interval;
    }

    /// Sets the polling interval to what the errors in a row ask for.
    pub fn apply_backoff(&mut self)
        ensures
            final(self)@ == (AppView {
                polling_interval: backoff_interval(
                    old(self)@.base_polling_interval,
                    old(self)@.error_count as nat,
                ),
                ..old(self)@
            }),
    {
        self.polling_interval = backoff(self.base_polling_interval, self.error_count);
    }

    fn clear_for(&mut self, namespace: String)
        ensures
            final(self)@ == old(self)@.cleared_for(namespace@),
    {
        self.namespace = namespace;
        self.workflows = LoadState::NotLoaded;
        self.schedules = LoadState::NotLoaded;
        self.workflow_history = LoadState::NotLoaded;
        self.task_queue_detail = LoadState::NotLoaded;
        self.workflow_cursor = None;
        self.schedule_cursor = None;
        self.selected_workflow = None;
        self.selected_schedule = None;
        self.workflow_detail_tab = 0;
        self.detail_scroll = 0;
        self.next_page_token = Vec::new();
        self.loading_more = false;
        self.search_queries = SearchQueries { workflows: None, schedules: None };
        assert(self@.next_page_token =~= Seq::empty());
    }

    /// Switches to another namespace.
    pub fn switch_namespace(&mut self, namespace: String) -> (effects: Vec<Effect>)
        ensures
            final(self)@ == old(self)@.switched_to(namespace@).0,
            views(effects@) == old(self)@.switched_to(namespace@).1,
    {
        let kind = self.current_kind_id();
        self.clear_for(namespace);
        self.overlay = Overlay::Closed;
        self.view = screen::View::Collection(kind);
        loads_for(kind)
    }

    /// The way back from a detail view to the list of its kind.
    pub fn handle_back(&mut self) -> (effects: Vec<Effect>)
        ensures
            final(self)@ == old(self)@.backed(),
            views(effects@) == Seq::<EffectView>::empty(),
    {
        match self.view {
            screen::View::Detail(KindId::WorkflowExecution) => {
                self.view = screen::View::Collection(KindId::WorkflowExecution);
                self.selected_workflow = None;
                self.workflow_history = LoadState::NotLoaded;
            },
            screen::View::Detail(KindId::Schedule) => {
                self.view = screen::View::Collection(KindId::Schedule);
                self.selected_schedule = None;
            },
            _ => {},
        }
        no_effects()
    }

    /// The location of what is on screen.
    pub fn location(&self) -> (r: Location)
        ensures
            r@ == self@.location(),
    {
        let collection = match self.current_kind_id() {
            KindId::WorkflowExecution => RouteSegment::Workflows(
                WorkflowsRoute::Collection { query: clone_opt(&self.search_queries.workflows) },
            ),
            KindId::Schedule => RouteSegment::Schedules(
                SchedulesRoute::Collection { query: clone_opt(&self.search_queries.schedules) },
            ),
        };
        let segment = match self.view {
            screen::View::Collection(_) => collection,
            screen::View::Detail(KindId::WorkflowExecution) => match &self.selected_workflow {
                Some(detail) => RouteSegment::Workflows(
                    WorkflowsRoute::Detail {
                        workflow_id: detail.summary.workflow_id.clone(),
                        run_id: Some(detail.summary.run_id.clone()),
                        tab: None,
                    },
                ),
                None => collection,
            },
            screen::View::Detail(KindId::Schedule) => match &self.selected_schedule {
                Some(schedule) => RouteSegment::Schedules(
                    SchedulesRoute::Detail { schedule_id: schedule.schedule_id.clone() },
                ),
                None => collection,
            },
        };
        let mut segments: Vec<RouteSegment> = Vec::new();
        segments.push(segment);
        assert(views(segments@) =~= seq![segment@]);
        Location::new(self.namespace.clone(), segments)
    }
}

impl App {
    fn show_workflows_route(&mut self, route: &WorkflowsRoute) -> (effects: Vec<Effect>)
        ensures
            final(self)@ == old(self)@.at_workflows_route(route@).0,
            views(effects@) == old(self)@.at_workflows_route(route@).1,
    {
        self.active_tab = ViewType::Workflows;
        match route {
            WorkflowsRoute::Collection { query } => {
                self.set_kind_query(KindId::WorkflowExecution, clone_opt(query));
                self.view = screen::View::Collection(KindId::WorkflowExecution);
                loads_for(KindId::WorkflowExecution)
            },
            WorkflowsRoute::Detail { workflow_id, run_id, tab } => {
                self.view = screen::View::Detail(KindId::WorkflowExecution);
                self.workflow_detail_tab = match tab {
                    Some(name) => workflow_tab_from_param(name.as_str()),
                    None => 0,
                };
                self.detail_scroll = 0;
                self.workflow_history = LoadState::Loading;
                self.task_queue_detail = LoadState::NotLoaded;
                two_effects(
                    Effect::LoadWorkflowDetail(workflow_id.clone(), clone_opt(run_id)),
                    Effect::LoadHistory(workflow_id.clone(), clone_opt(run_id)),
                )
            },
            WorkflowsRoute::Activities { workflow_id, .. } => {
                self.view = screen::View::Detail(KindId::WorkflowExecution);
                self.workflow_detail_tab = 3;
                self.detail_scroll = 0;
                self.workflow_history = LoadState::Loading;
                self.task_queue_detail = LoadState::NotLoaded;
                two_effects(
                    Effect::LoadWorkflowDetail(workflow_id.clone(), None),
                    Effect::LoadHistory(workflow_id.clone(), None),
                )
            },
        }
    }

    fn show_schedules_route(&mut self, route: &SchedulesRoute) -> (effects: Vec<Effect>)
        ensures
            final(self)@ == old(self)@.at_schedules_route(route@).0,
            views(effects@) == old(self)@.at_schedules_route(route@).1,
    {
        match route {
            SchedulesRoute::Collection { query } => {
                self.set_kind_query(KindId::Schedule, clone_opt(query));
                self.active_tab = ViewType::Schedules;
                self.view = screen::View::Collection(KindId::Schedule);
                loads_for(KindId::Schedule)
            },
            SchedulesRoute::Detail { schedule_id } => {
                self.active_tab = ViewType::Schedules;
                self.view = screen::View::Detail(KindId::Schedule);
                self.detail_scroll = 0;
                one_effect(Effect::LoadScheduleDetail(schedule_id.clone()))
            },
            SchedulesRoute::Workflows { schedule_id, query } => {
                let combined = combine_schedule_workflow_query(
                    schedule_id.as_str(),
                    match query {
                        Some(q) => Some(q.as_str()),
                        None => None,
                    },
                );
                self.set_kind_query(KindId::WorkflowExecution, Some(combined));
                self.active_tab = ViewType::Workflows;
                self.view = screen::View::Collection(KindId::WorkflowExecution);
                loads_for(KindId::WorkflowExecution)
            },
        }
    }

    /// Jumps to a location.
    pub fn apply_location(&mut self, location: Location, now: u64) -> (effects: Vec<Effect>)
        ensures
            final(self)@ == old(self)@.at_location(location@, now).0,
            views(effects@) == old(self)@.at_location(location@, now).1,
    {
        self.clear_for(location.namespace.clone());
        match location.leaf() {
            Some(RouteSegment::Workflows(route)) => self.show_workflows_route(route),
            Some(RouteSegment::Schedules(route)) => self.show_schedules_route(route),
            None => {
                self.set_toast(String::from_str("invalid uri: missing route"), now);
                no_effects()
            },
        }
    }

    /// Chooses the row under the cursor.
    pub fn handle_select(&mut self) -> (effects: Vec<Effect>)
        ensures
            final(self)@ == old(self)@.selected().0,
            views(effects@) == old(self)@.selected().1,
    {
        if matches!(self.overlay, Overlay::NamespaceSelector) {
            let chosen = match self.namespace_cursor {
                Some(i) => if i < self.namespaces.len() {
                    Some(self.namespaces[i].name.clone())
                } else {
                    None
                },
                None => None,
            };
            return match chosen {
                Some(name) => self.switch_namespace(name),
                None => no_effects(),
            };
        }
        match self.view {
            screen::View::Collection(KindId::WorkflowExecution) => {
                let ids = match self.workflow_row() {
                    Some(workflow) => Some((workflow.workflow_id.clone(), workflow.run_id.clone())),
                    None => None,
                };
                match ids {
                    Some((workflow_id, run_id)) => {
                        self.view = screen::View::Detail(KindId::WorkflowExecution);
                        self.workflow_detail_tab = 0;
                        self.workflow_history = LoadState::Loading;
                        self.task_queue_detail = LoadState::NotLoaded;
                        self.detail_scroll = 0;
                        two_effects(
                            Effect::LoadWorkflowDetail(workflow_id.clone(), Some(run_id.clone())),
                            Effect::LoadHistory(workflow_id, Some(run_id)),
                        )
                    },
                    None => no_effects(),
                }
            },
            screen::View::Collection(KindId::Schedule) => {
                let id = match self.schedule_row() {
                    Some(schedule) => Some(schedule.schedule_id.clone()),
                    None => None,
                };
                match id {
                    Some(schedule_id) => {
                        self.view = screen::View::Detail(KindId::Schedule);
                        self.detail_scroll = 0;
                        one_effect(Effect::LoadScheduleDetail(schedule_id))
                    },
                    None => no_effects(),
                }
            },
            screen::View::Detail(_) => no_effects(),
        }
    }

    /// Switches to the list that a tab stands for.
    pub fn switch_view(&mut self, tab: ViewType) -> (effects: Vec<Effect>)
        ensures
            final(self)@ == old(self)@.viewed(tab).0,
            views(effects@) == old(self)@.viewed(tab).1,
    {
        self.active_tab = tab;
        match tab {
            ViewType::Workflows => {
                self.view = screen::View::Collection(KindId::WorkflowExecution);
                one_effect(Effect::LoadWorkflows)
            },
            ViewType::Schedules => {
                self.view = screen::View::Collection(KindId::Schedule);
                one_effect(Effect::LoadSchedules)
            },
            ViewType::TaskQueues => no_effects(),
        }
    }

    /// The target of an operation of the kind on screen.
    pub fn operation_target(&self) -> (r: Option<OperationTarget>)
        ensures
            opt_view(r) == self@.operation_target(),
    {
        match self.current_kind_id() {
            KindId::WorkflowExecution => match self.selected_workflow_summary() {
                Some(workflow) => Some(
                    OperationTarget::Workflow {
                        workflow_id: workflow.workflow_id.clone(),
                        run_id: Some(workflow.run_id.clone()),
                    },
                ),
                None => None,
            },
            KindId::Schedule => match self.selected_schedule_summary() {
                Some(schedule) => Some(
                    OperationTarget::Schedule { schedule_id: schedule.schedule_id.clone() },
                ),
                None => None,
            },
        }
    }

    /// Runs an operation of the kind on screen, or asks for consent first
    /// where the operation needs it.
    pub fn run_operation(&mut self, op_id: OperationId, now: u64) -> (effects: Vec<Effect>)
        ensures
            final(self)@ == old(self)@.operated(op_id, now).0,
            views(effects@) == old(self)@.operated(op_id, now).1,
    {
        let kind = self.current_kind_id();
        let spec = match operation_spec(kind, op_id) {
            Some(spec) => spec,
            None => {
                return no_effects();
            },
        };
        let effect_spec = match operation_effect_spec(op_id, kind) {
            Some(effect_spec) => effect_spec,
            None => {
                return no_effects();
            },
        };
        let target = match self.operation_target() {
            Some(target) => target,
            None => {
                let message = match kind {
                    KindId::WorkflowExecution => "no workflow selected",
                    KindId::Schedule => "no schedule selected",
                };
                self.set_toast(String::from_str(message), now);
                return no_effects();
            },
        };
        if spec.requires_confirm {
            self.overlay = Overlay::Confirm(
                ConfirmAction::Operation(OperationConfirm { kind, op: op_id, target }),
            );
            no_effects()
        } else {
            effect_spec.to_effects(&target, self)
        }
    }

    /// Carries out the operation that waits for consent.
    pub fn confirm(&mut self) -> (effects: Vec<Effect>)
        ensures
            final(self)@ == old(self)@.confirmed().0,
            views(effects@) == old(self)@.confirmed().1,
    {
        let effects = match &self.overlay {
            Overlay::Confirm(ConfirmAction::Operation(waiting)) => {
                match operation_effect_spec(waiting.op, waiting.kind) {
                    Some(effect_spec) => effect_spec.to_effects(&waiting.target, self),
                    None => no_effects(),
                }
            },
            _ => {
                return no_effects();
            },
        };
        self.overlay = Overlay::Closed;
        effects
    }

    /// Closes the overlay if one is open; else leaves the input line or the
    /// pending chord.
    pub fn close(&mut self)
        ensures
            final(self)@ == old(self)@.closed(),
    {
        if !matches!(self.overlay, Overlay::Closed) {
            self.overlay = Overlay::Closed;
        } else if self.input_mode != InputMode::Normal {
            self.input_mode = InputMode::Normal;
            self.input_buffer = String::new();
        }
    }

    /// The requests for what the tab on screen fetches when it is opened.
    pub fn load_workflow_tab_data(&mut self) -> (effects: Vec<Effect>)
        ensures
            final(self)@ == old(self)@.tab_opened().0,
            views(effects@) == old(self)@.tab_opened().1,
    {
        let effect = match &self.selected_workflow {
            Some(detail) => if self.workflow_detail_tab == 2 {
                Some(
                    Effect::LoadHistory(
                        detail.summary.workflow_id.clone(),
                        Some(detail.summary.run_id.clone()),
                    ),
                )
            } else if self.workflow_detail_tab == 4 {
                Some(Effect::LoadTaskQueueDetail(detail.summary.task_queue.clone()))
            } else {
                None
            },
            None => None,
        };
        match effect {
            Some(effect) => {
                if self.workflow_detail_tab == 4 {
                    self.task_queue_detail = LoadState::Loading;
                }
                one_effect(effect)
            },
            None => no_effects(),
        }
    }

    /// Shows the next or the previous tab of the detail view on screen.
    pub fn switch_tab(&mut self, forward: bool) -> (effects: Vec<Effect>)
        ensures
            final(self)@ == old(self)@.tab_switched(forward).0,
            views(effects@) == old(self)@.tab_switched(forward).1,
    {
        let kind = match self.view {
            screen::View::Detail(kind) => kind,
            screen::View::Collection(_) => {
                return no_effects();
            },
        };
        let count = detail_tab_count(kind);
        if count == 0 {
            return no_effects();
        }
        let tab = self.workflow_detail_tab;
        assert(count == 5) by {
            assert(tab_count(KindId::WorkflowExecution) == 5);
            assert(tab_count(KindId::Schedule) == 0);
        }
        self.workflow_detail_tab = if forward {
            let within = tab % count;
            if within + 1 == count {
                0
            } else {
                within + 1
            }
        } else if tab == 0 {
            count - 1
        } else {
            tab - 1
        };
        self.detail_scroll = 0;
        self.load_workflow_tab_data()
    }

    /// Jumps from the schedule on screen to the executions it started.
    pub fn open_schedule_workflows(&mut self, now: u64) -> (effects: Vec<Effect>)
        ensures
            final(self)@ == old(self)@.schedule_workflows_opened(now).0,
            views(effects@) == old(self)@.schedule_workflows_opened(now).1,
    {
        let id = match self.selected_schedule_summary() {
            Some(schedule) => schedule.schedule_id.clone(),
            None => {
                return no_effects();
            },
        };
        let mut segments: Vec<RouteSegment> = Vec::new();
        let segment = RouteSegment::Schedules(
            SchedulesRoute::Workflows { schedule_id: id, query: None },
        );
        segments.push(segment);
        assert(views(segments@) =~= seq![segment@]);
        let location = Location::new(self.namespace.clone(), segments);
        self.apply_location(location, now)
    }

    /// Jumps from the execution on screen to its activities.
    pub fn open_workflow_activities(&mut self, now: u64) -> (effects: Vec<Effect>)
        ensures
            final(self)@ == old(self)@.workflow_activities_opened(now).0,
            views(effects@) == old(self)@.workflow_activities_opened(now).1,
    {
        let id = match self.selected_workflow_summary() {
            Some(workflow) => workflow.workflow_id.clone(),
            None => {
                return no_effects();
            },
        };
        let mut segments: Vec<RouteSegment> = Vec::new();
        let segment = RouteSegment::Workflows(
            WorkflowsRoute::Activities { workflow_id: id, activity_id: None },
        );
        segments.push(segment);
        assert(views(segments@) =~= seq![segment@]);
        let location = Location::new(self.namespace.clone(), segments);
        self.apply_location(location, now)
    }

    /// Carries a command out, given its first word in lowercase and its
    /// argument.
    pub fn run_command(&mut self, command: &str, args: Option<String>, now: u64) -> (effects: Vec<
        Effect,
    >)
        ensures
            final(self)@ == old(self)@.commanded(command@, opt_view(args), now).0,
            views(effects@) == old(self)@.commanded(command@, opt_view(args), now).1,
    {
        if same_text(command, "workflows") || same_text(command, "wf") {
            self.active_tab = ViewType::Workflows;
            self.view = screen::View::Collection(KindId::WorkflowExecution);
            one_effect(Effect::LoadWorkflows)
        } else if same_text(command, "schedules") || same_text(command, "sch") {
            self.active_tab = ViewType::Schedules;
            self.view = screen::View::Collection(KindId::Schedule);
            one_effect(Effect::LoadSchedules)
        } else if same_text(command, "signal") || same_text(command, "sig") {
            let words = match args {
                Some(words) => words,
                None => {
                    self.set_toast(String::from_str("usage: :signal <name> [json-input]"), now);
                    return no_effects();
                },
            };
            let ids = match self.selected_workflow_summary() {
                Some(workflow) => Some((workflow.workflow_id.clone(), workflow.run_id.clone())),
                None => None,
            };
            match ids {
                Some((workflow_id, run_id)) => {
                    let (name, input) = match split_once_char(&chars_of(words.as_str()), ' ') {
                        Some((name, input)) => (string_of(&name), Some(string_of(&input))),
                        None => (words, None),
                    };
                    one_effect(Effect::SignalWorkflow(workflow_id, Some(run_id), name, input))
                },
                None => {
                    self.set_toast(String::from_str("no workflow selected"), now);
                    no_effects()
                },
            }
        } else if same_text(command, "open") || same_text(command, "goto") {
            match args {
                Some(uri) => match parse_deep_link(uri.as_str()) {
                    Ok(location) => self.apply_location(location, now),
                    Err(e) => {
                        let message = String::from_str("invalid uri: ").concat(format_uri_error(e));
                        self.set_toast(message, now);
                        no_effects()
                    },
                },
                None => {
                    self.set_toast(
                        String::from_str("usage: :open temporal://tui/namespaces/<ns>/..."),
                        now,
                    );
                    no_effects()
                },
            }
        } else if same_text(command, "namespace") || same_text(command, "ns") {
            match args {
                Some(namespace) => self.switch_namespace(namespace),
                None => {
                    self.overlay = Overlay::NamespaceSelector;
                    one_effect(Effect::LoadNamespaces)
                },
            }
        } else if same_text(command, "quit") || same_text(command, "q") {
            self.should_quit = true;
            one_effect(Effect::Quit)
        } else if same_text(command, "help") || same_text(command, "h") {
            self.overlay = Overlay::Help;
            no_effects()
        } else {
            let message = String::from_str("unknown command: ").concat(command);
            self.set_toast(message, now);
            no_effects()
        }
    }

    /// Carries a command line out.
    pub fn execute_command(&mut self, cmd: &str, now: u64) -> (effects: Vec<Effect>)
        ensures
            final(self)@ == old(self)@.commanded(
                command_words(cmd@).0,
                command_words(cmd@).1,
                now,
            ).0,
            views(effects@) == old(self)@.commanded(
                command_words(cmd@).0,
                command_words(cmd@).1,
                now,
            ).1,
    {
        let trimmed = trim_chars(&chars_of(cmd));
        let (head, args) = match split_once_char(&trimmed, ' ') {
            Some((head, tail)) => (head, Some(string_of(&trim_chars(&tail)))),
            None => (trimmed, None),
        };
        let command = to_lower(string_of(&head).as_str());
        self.run_command(command.as_str(), args, now)
    }

    /// Sets or removes the filter of the kind on screen and asks for its list
    /// again.
    pub fn submit_search(&mut self, query: String) -> (effects: Vec<Effect>)
        ensures
            final(self)@ == old(self)@.search_submitted(query@).0,
            views(effects@) == old(self)@.search_submitted(query@).1,
    {
        let kind = self.current_kind_id();
        self.input_mode = InputMode::Normal;
        if query.as_str().unicode_len() == 0 {
            self.set_kind_query(kind, None);
        } else {
            self.set_kind_query(kind, Some(query));
        }
        self.input_buffer = String::new();
        loads_for(kind)
    }

    /// Takes a page of executions in, in place of what was loaded.
    pub fn workflows_loaded(&mut self, list: Vec<WorkflowSummary>, token: Vec<u8>, now: u64)
        ensures
            final(self)@ == informed_by(
                old(self)@,
                ActionView::WorkflowsLoaded(views(list@), token@),
                now,
            ),
    {
        self.workflow_cursor = cursor_clamped(self.workflow_cursor, list.len());
        self.workflows = LoadState::Loaded(list);
        self.next_page_token = token;
        self.loading_more = false;
        self.connection_status = ConnectionStatus::Connected;
        self.reset_backoff();
        self.last_refresh = Some(now);
    }

    /// Takes a further page of executions in, after what was loaded.
    pub fn more_workflows_loaded(&mut self, list: Vec<WorkflowSummary>, token: Vec<u8>, now: u64)
        ensures
            final(self)@ == informed_by(
                old(self)@,
                ActionView::MoreWorkflowsLoaded(views(list@), token@),
                now,
            ),
    {
        let mut list = list;
        let mut current = LoadState::NotLoaded;
        core::mem::swap(&mut self.workflows, &mut current);
        self.workflows = match current {
            LoadState::Loaded(rows) => {
                let mut rows = rows;
                proof {
                    lemma_views_add(rows@, list@);
                }
                rows.append(&mut list);
                LoadState::Loaded(rows)
            },
            other => other,
        };
        self.next_page_token = token;
        self.loading_more = false;
        self.connection_status = ConnectionStatus::Connected;
        self.reset_backoff();
    }

    /// Takes the detail of an execution in.
    pub fn workflow_detail_loaded(&mut self, detail: WorkflowDetail)
        ensures
            final(self)@ == (AppView {
                selected_workflow: Some(merged_detail(detail@, old(self)@.selected_workflow)),
                ..old(self)@.succeeded()
            }),
    {
        let mut detail = detail;
        match self.selected_workflow.take() {
            Some(shown) => {
                if detail.input.is_none() {
                    detail.input = shown.input;
                }
                if detail.output.is_none() {
                    detail.output = shown.output;
                }
                if detail.failure.is_none() {
                    detail.failure = shown.failure;
                }
                if detail.history_length == 0 && shown.history_length > 0 {
                    detail.history_length = shown.history_length;
                }
            },
            None => {},
        }
        self.selected_workflow = Some(detail);
        self.reset_backoff();
    }

    /// Takes the history of the execution in detail in.
    pub fn history_loaded(&mut self, events: Vec<HistoryEvent>)
        ensures
            final(self)@ == old(self)@.succeeded().with_history(views(events@)),
    {
        match self.selected_workflow.take() {
            Some(detail) => {
                let mut detail = detail;
                absorb_events(&mut detail, &events);
                detail.history_length = events.len() as u64;
                self.selected_workflow = Some(detail);
            },
            None => {},
        }
        self.workflow_history = LoadState::Loaded(events);
        self.reset_backoff();
    }

    /// Records a failure. The count of errors stops at the largest number
    /// that it can hold.
    pub fn fail(&mut self, message: String, now: u64)
        ensures
            final(self)@ == old(self)@.failed(message@, now),
    {
        self.error_count = self.error_count.saturating_add(1);
        self.apply_backoff();
        if matches!(self.connection_status, ConnectionStatus::Connected) {
            self.connection_status = ConnectionStatus::Error(message.clone());
        }
        self.last_error = Some((message, now));
    }

    /// Whether a refresh is due on a tick at `now`.
    pub fn poll_due(&self, now: u64) -> (r: bool)
        ensures
            r == (self@.polling_enabled && refresh_due(
                self@.last_refresh,
                self@.polling_interval,
                now,
            )),
    {
        self.polling_enabled && match self.last_refresh {
            Some(at) => {
                let elapsed = if now >= at {
                    now - at
                } else {
                    0
                };
                elapsed / 1000 >= self.polling_interval
            },
            None => true,
        }
    }

    fn step_quietly(&mut self, mv: Move) -> (effects: Vec<Effect>)
        ensures
            final(self)@ == old(self)@.navigated(mv),
            views(effects@) == Seq::<EffectView>::empty(),
    {
        self.navigate(mv);
        no_effects()
    }

    fn step_and_look_ahead(&mut self, mv: Move) -> (effects: Vec<Effect>)
        ensures
            final(self)@ == old(self)@.navigated(mv).looked_ahead().0,
            views(effects@) == old(self)@.navigated(mv).looked_ahead().1,
    {
        self.navigate(mv);
        self.maybe_load_more()
    }

    fn apply_movement(&mut self, action: Action, now: u64) -> (effects: Vec<Effect>)
        requires
            is_movement(action@),
        ensures
            final(self)@ == moved_by(old(self)@, action@, now).0,
            views(effects@) == moved_by(old(self)@, action@, now).1,
    {
        match action {
            Action::NavigateUp => self.step_quietly(Move::Up),
            Action::NavigateDown => self.step_and_look_ahead(Move::Down),
            Action::NavigateTop => self.step_quietly(Move::Top),
            Action::NavigateBottom => self.step_and_look_ahead(Move::Bottom),
            Action::PageUp => self.step_quietly(Move::PageUp),
            Action::PageDown => self.step_and_look_ahead(Move::PageDown),
            Action::Select => self.handle_select(),
            Action::Back => self.handle_back(),
            Action::SwitchView(tab) => self.switch_view(tab),
            Action::NextTab => self.switch_tab(true),
            Action::PrevTab => self.switch_tab(false),
            Action::OpenScheduleWorkflows => self.open_schedule_workflows(now),
            Action::OpenWorkflowActivities => self.open_workflow_activities(now),
            _ => no_effects(),
        }
    }

    fn open_search(&mut self)
        ensures
            final(self)@ == (AppView {
                input_mode: InputMode::Search,
                input_buffer: match old(self)@.query_of(old(self)@.kind()) {
                    Some(query) => query,
                    None => Seq::empty(),
                },
                ..old(self)@
            }),
    {
        self.input_mode = InputMode::Search;
        self.input_buffer = match self.current_search_query() {
            Some(query) => query,
            None => String::new(),
        };
    }

    fn submit_command(&mut self, line: String, now: u64) -> (effects: Vec<Effect>)
        ensures
            final(self)@ == old(self)@.command_submitted(line@, now).0,
            views(effects@) == old(self)@.command_submitted(line@, now).1,
    {
        self.input_mode = InputMode::Normal;
        let effects = self.execute_command(line.as_str(), now);
        self.input_buffer = String::new();
        effects
    }

    fn enter_chord(&mut self)
        ensures
            final(self)@ == (AppView { input_mode: InputMode::PendingG, ..old(self)@ }),
    {
        self.input_mode = InputMode::PendingG;
    }

    fn open_command_line(&mut self)
        ensures
            final(self)@ == (AppView {
                input_mode: InputMode::Command,
                input_buffer: Seq::empty(),
                ..old(self)@
            }),
    {
        self.input_mode = InputMode::Command;
        self.input_buffer = String::new();
    }

    fn set_input_buffer(&mut self, buffer: String)
        ensures
            final(self)@ == (AppView { input_buffer: buffer@, ..old(self)@ }),
    {
        self.input_buffer = buffer;
    }

    fn toggle_help(&mut self)
        ensures
            final(self)@ == (AppView {
                overlay: if old(self)@.overlay is Help {
                    OverlayView::Closed
                } else {
                    OverlayView::Help
                },
                ..old(self)@
            }),
    {
        self.overlay = if matches!(self.overlay, Overlay::Help) {
            Overlay::Closed
        } else {
            Overlay::Help
        };
    }

    fn apply_line(&mut self, action: Action, now: u64) -> (effects: Vec<Effect>)
        requires
            is_line_input(action@),
        ensures
            final(self)@ == entered_by(old(self)@, action@, now).0,
            views(effects@) == entered_by(old(self)@, action@, now).1,
    {
        match action {
            Action::OpenCommandInput => {
                self.open_command_line();
                no_effects()
            },
            Action::OpenSearch => {
                self.open_search();
                no_effects()
            },
            Action::SubmitCommandInput(line) => self.submit_command(line, now),
            Action::UpdateInputBuffer(buffer) => {
                self.set_input_buffer(buffer);
                no_effects()
            },
            Action::SubmitSearch(query) => self.submit_search(query),
            _ => no_effects(),
        }
    }

    fn apply_overlay(&mut self, action: Action, now: u64) -> (effects: Vec<Effect>)
        requires
            is_input(action@),
            !is_line_input(action@),
        ensures
            final(self)@ == entered_by(old(self)@, action@, now).0,
            views(effects@) == entered_by(old(self)@, action@, now).1,
    {
        match action {
            Action::EnterPendingG => {
                self.enter_chord();
                no_effects()
            },
            Action::RunOperation(op) => self.run_operation(op, now),
            Action::Confirm => self.confirm(),
            Action::CloseOverlay => {
                self.close();
                no_effects()
            },
            Action::ToggleHelp => {
                self.toggle_help();
                no_effects()
            },
            Action::SwitchNamespace(namespace) => self.switch_namespace(namespace),
            _ => no_effects(),
        }
    }

    fn namespaces_loaded(&mut self, list: Vec<Namespace>)
        ensures
            final(self)@ == (AppView {
                namespaces: views(list@),
                namespace_cursor: clamped(old(self)@.namespace_cursor, views(list@).len()),
                ..old(self)@.succeeded()
            }),
    {
        self.namespace_cursor = cursor_clamped(self.namespace_cursor, list.len());
        self.namespaces = list;
        self.reset_backoff();
    }

    fn schedules_loaded(&mut self, list: Vec<Schedule>, now: u64)
        ensures
            final(self)@ == (AppView {
                schedules: LoadStateView::Loaded(views(list@)),
                last_refresh: Some(now),
                schedule_cursor: clamped(old(self)@.schedule_cursor, views(list@).len()),
                ..old(self)@.succeeded()
            }),
    {
        self.schedule_cursor = cursor_clamped(self.schedule_cursor, list.len());
        self.schedules = LoadState::Loaded(list);
        self.last_refresh = Some(now);
        self.reset_backoff();
    }

    fn schedule_detail_loaded(&mut self, schedule: Schedule)
        ensures
            final(self)@ == (AppView {
                selected_schedule: Some(schedule@),
                ..old(self)@.succeeded()
            }),
    {
        self.selected_schedule = Some(schedule);
        self.reset_backoff();
    }

    fn workflow_count_loaded(&mut self, count: u64)
        ensures
            final(self)@ == (AppView { workflow_count: Some(count), ..old(self)@.succeeded() }),
    {
        self.workflow_count = Some(count);
        self.reset_backoff();
    }

    fn task_queue_loaded(&mut self, info: TaskQueueInfo)
        ensures
            final(self)@ == (AppView {
                task_queue_detail: LoadStateView::Loaded(info@),
                ..old(self)@.succeeded()
            }),
    {
        self.task_queue_detail = LoadState::Loaded(info);
        self.reset_backoff();
    }

    #[verifier::rlimit(30)]
    fn apply_lists(&mut self, action: Action, now: u64) -> (effects: Vec<Effect>)
        requires
            is_list_result(action@),
        ensures
            final(self)@ == informed_by(old(self)@, action@, now),
            views(effects@) == Seq::<EffectView>::empty(),
    {
        match action {
            Action::WorkflowsLoaded(list, token) => {
                self.workflows_loaded(list, token, now);
            },
            Action::MoreWorkflowsLoaded(list, token) => {
                self.more_workflows_loaded(list, token, now);
            },
            Action::HistoryLoaded(events) => {
                self.history_loaded(events);
            },
            Action::NamespacesLoaded(list) => {
                self.namespaces_loaded(list);
            },
            Action::SchedulesLoaded(list) => {
                self.schedules_loaded(list, now);
            },
            _ => {},
        }
        no_effects()
    }

    fn apply_records(&mut self, action: Action, now: u64) -> (effects: Vec<Effect>)
        requires
            is_result(action@),
            !is_list_result(action@),
        ensures
            final(self)@ == informed_by(old(self)@, action@, now),
            views(effects@) == Seq::<EffectView>::empty(),
    {
        match action {
            Action::WorkflowDetailLoaded(detail) => {
                self.workflow_detail_loaded(*detail);
            },
            Action::ScheduleDetailLoaded(schedule) => {
                self.schedule_detail_loaded(*schedule);
            },
            Action::WorkflowCountLoaded(count) => {
                self.workflow_count_loaded(count);
            },
            Action::TaskQueueDetailLoaded(info) => {
                self.task_queue_loaded(*info);
            },
            _ => {},
        }
        no_effects()
    }

    fn apply_control(&mut self, action: Action, now: u64) -> (effects: Vec<Effect>)
        requires
            !is_movement(action@),
            !is_input(action@),
            !is_result(action@),
        ensures
            final(self)@ == steered_by(old(self)@, action@, now).0,
            views(effects@) == steered_by(old(self)@, action@, now).1,
    {
        match action {
            Action::Refresh => self.refresh_current_view(),
            Action::Quit => {
                self.should_quit = true;
                one_effect(Effect::Quit)
            },
            Action::Tick => {
                if self.poll_due(now) {
                    self.refresh_current_view()
                } else {
                    no_effects()
                }
            },
            Action::Error(message) => {
                self.fail(message, now);
                no_effects()
            },
            Action::ClearError => {
                self.last_error = None;
                no_effects()
            },
            Action::TogglePolling => {
                self.polling_enabled = !self.polling_enabled;
                no_effects()
            },
            _ => no_effects(),
        }
    }

    /// Applies one action at time `now`: computes the next state and
    /// returns the effects to perform, in order. What the state machine
    /// maintains of the state holds afterwards if it held before.
    pub fn update(&mut self, action: Action, now: u64) -> (effects: Vec<Effect>)
        ensures
            final(self)@ == step(old(self)@, action@, now).0,
            views(effects@) == step(old(self)@, action@, now).1,
            old(self)@.wf() ==> final(self)@.wf(),
    {
        let ghost before = self@;
        let ghost event = action@;
        self.drop_stale_toast(now);
        let effects = match group_of(&action) {
            ActionGroup::Movement => self.apply_movement(action, now),
            ActionGroup::Line => self.apply_line(action, now),
            ActionGroup::Overlay => self.apply_overlay(action, now),
            ActionGroup::Lists => self.apply_lists(action, now),
            ActionGroup::Records => self.apply_records(action, now),
            ActionGroup::Control => self.apply_control(action, now),
        };
        proof {
            if before.wf() {
                lemma_step_keeps_wf(before, event, now);
            }
        }
        effects
    }
}

} // verus!
