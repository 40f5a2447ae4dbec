//! The registry of resource kinds: for each kind its labels, its columns,
//! its detail tabs and its operations, and for each operation the key that
//! triggers it, whether it asks for consent, and the effects it produces.

use vstd::prelude::*;
use crate::app::state::{App, AppView, Effect, EffectView, OperationTarget, OperationTargetView};
use crate::domain::ScheduleState;
use crate::text::{clone_opt, same_text, views};

verus! {

/// A kind of resource.
#[derive(Debug, Clone, Copy, PartialEq, Eq, Hash, Structural)]
pub enum KindId {
    WorkflowExecution,
    Schedule,
}

/// An operation on a resource.
#[derive(Debug, Clone, Copy, PartialEq, Eq, Hash, Structural)]
pub enum OperationId {
    CancelWorkflow,
    TerminateWorkflow,
    PauseSchedule,
    TriggerSchedule,
    DeleteSchedule,
}

/// One operation of a kind: its name, its key, and whether it waits for
/// the operator's consent.
#[derive(Debug, Clone, Copy, PartialEq, Eq)]
pub struct OperationSpec {
    pub id: OperationId,
    pub label: &'static str,
    pub key: char,
    pub requires_confirm: bool,
}

/// The width of a column of a list.
#[derive(Debug, Clone, Copy, PartialEq, Eq, Structural)]
pub enum ColumnWidth {
    Length(u16),
    Percentage(u16),
}

/// How the list of a kind is laid out and labelled.
#[derive(Debug, Clone, PartialEq, Eq)]
pub struct CollectionSpec {
    pub kind: KindId,
    pub header: Vec<&'static str>,
    pub widths: Vec<ColumnWidth>,
    pub loading_label: &'static str,
    pub empty_label: &'static str,
}

/// How one record of a kind is shown: the titles of its tabs.
#[derive(Debug, Clone, PartialEq, Eq)]
pub struct DetailSpec {
    pub kind: KindId,
    pub tabs: Vec<&'static str>,
}

/// The entry of a kind.
#[derive(Debug, Clone, PartialEq, Eq)]
pub struct KindSpec {
    pub id: KindId,
    pub label: &'static str,
    pub collection: CollectionSpec,
    pub detail: Option<DetailSpec>,
    pub operations: Vec<OperationSpec>,
}

/// The link from an operation of a kind to the effects it produces.
#[derive(Debug, Clone, Copy, PartialEq, Eq, Structural)]
pub struct OperationEffectSpec {
    pub op: OperationId,
    pub kind: KindId,
}

impl KindId {
    /// The kind's title.
    pub open spec fn title(self) -> Seq<char> {
        match self {
            Self::WorkflowExecution => "Workflows"@,
            Self::Schedule => "Schedules"@,
        }
    }

    /// The kind's title.
    pub fn label(&self) -> (s: &'static str)
        ensures
            s@ == self.title(),
    {
        match self {
            Self::WorkflowExecution => "Workflows",
            Self::Schedule => "Schedules",
        }
    }
}

impl OperationId {
    /// The kind that the operation belongs to.
    pub open spec fn kind(self) -> KindId {
        match self {
            Self::CancelWorkflow | Self::TerminateWorkflow => KindId::WorkflowExecution,
            Self::PauseSchedule | Self::TriggerSchedule | Self::DeleteSchedule => KindId::Schedule,
        }
    }

    /// The key that triggers the operation.
    pub open spec fn key(self) -> char {
        match self {
            Self::CancelWorkflow => 'c',
            Self::TerminateWorkflow => 't',
            Self::PauseSchedule => 'p',
            Self::TriggerSchedule => 'T',
            Self::DeleteSchedule => 'd',
        }
    }

    /// Whether the operation waits for the operator's consent.
    pub open spec fn needs_confirm(self) -> bool {
        self != Self::PauseSchedule
    }

    /// The operation's name.
    pub open spec fn title(self) -> Seq<char> {
        match self {
            Self::CancelWorkflow => "Cancel workflow"@,
            Self::TerminateWorkflow => "Terminate workflow"@,
            Self::PauseSchedule => "Pause/unpause schedule"@,
            Self::TriggerSchedule => "Trigger schedule"@,
            Self::DeleteSchedule => "Delete schedule"@,
        }
    }
}

impl OperationSpec {
    /// This is the registry's entry for `op`.
    pub open spec fn describes(self, op: OperationId) -> bool {
        &&& self.id == op
        &&& self.label@ == op.title()
        &&& self.key == op.key()
        &&& self.requires_confirm == op.needs_confirm()
    }
}

/// The operations of a kind, in the order in which they are offered.
pub open spec fn operations_of(kind: KindId) -> Seq<OperationId> {
    match kind {
        KindId::WorkflowExecution => seq![
            OperationId::CancelWorkflow,
            OperationId::TerminateWorkflow,
        ],
        KindId::Schedule => seq![
            OperationId::PauseSchedule,
            OperationId::TriggerSchedule,
            OperationId::DeleteSchedule,
        ],
    }
}

/// The first of `ops` that `key` triggers.
pub open spec fn first_with_key(ops: Seq<OperationId>, key: char) -> Option<OperationId>
    decreases ops.len(),
{
    if ops.len() == 0 {
        None
    } else if ops[0].key() == key {
        Some(ops[0])
    } else {
        first_with_key(ops.drop_first(), key)
    }
}

/// The operation of `kind` that `key` triggers.
pub open spec fn key_operation(kind: KindId, key: char) -> Option<OperationId> {
    first_with_key(operations_of(kind), key)
}

/// The titles of the tabs of a kind's detail view, where it has tabs.
pub open spec fn tab_titles(kind: KindId) -> Option<Seq<Seq<char>>> {
    match kind {
        KindId::WorkflowExecution => Some(
            seq![
                "Summary"@,
                "Input/Output"@,
                "History"@,
                "Pending Activities"@,
                "Task Queue"@,
            ],
        ),
        KindId::Schedule => None,
    }
}

/// The number of tabs of a kind's detail view.
pub open spec fn tab_count(kind: KindId) -> nat {
    match tab_titles(kind) {
        Some(titles) => titles.len(),
        None => 0,
    }
}

/// The column titles of a kind's list.
pub open spec fn header_titles(kind: KindId) -> Seq<Seq<char>> {
    match kind {
        KindId::WorkflowExecution => seq![
            " Status"@,
            "Workflow ID"@,
            "Type"@,
            "Started"@,
            "Task Queue"@,
        ],
        KindId::Schedule => seq![
            " State"@,
            "Schedule ID"@,
            "Workflow Type"@,
            "Next Run"@,
            "Actions"@,
        ],
    }
}

/// The column widths of a kind's list.
pub open spec fn column_widths(kind: KindId) -> Seq<ColumnWidth> {
    match kind {
        KindId::WorkflowExecution => seq![
            ColumnWidth::Length(18),
            ColumnWidth::Percentage(30),
            ColumnWidth::Percentage(20),
            ColumnWidth::Length(20),
            ColumnWidth::Percentage(20),
        ],
        KindId::Schedule => seq![
            ColumnWidth::Length(12),
            ColumnWidth::Percentage(30),
            ColumnWidth::Percentage(25),
            ColumnWidth::Length(20),
            ColumnWidth::Length(10),
        ],
    }
}

/// What is shown while a kind's list is being loaded.
pub open spec fn loading_text(kind: KindId) -> Seq<char> {
    match kind {
        KindId::WorkflowExecution => " Loading workflows..."@,
        KindId::Schedule => " Loading schedules..."@,
    }
}

/// What is shown where a kind's list holds nothing.
pub open spec fn empty_text(kind: KindId) -> Seq<char> {
    match kind {
        KindId::WorkflowExecution => " No workflows loaded"@,
        KindId::Schedule => " No schedules loaded"@,
    }
}

impl CollectionSpec {
    /// This is the registry's list layout for `kind`.
    pub open spec fn describes(self, kind: KindId) -> bool {
        &&& self.kind == kind
        &&& views(self.header@) == header_titles(kind)
        &&& self.widths@ == column_widths(kind)
        &&& self.loading_label@ == loading_text(kind)
        &&& self.empty_label@ == empty_text(kind)
    }

    /// Whether the list of this kind is being loaded.
    pub fn is_loading(&self, app: &App) -> (r: bool)
        ensures
            r == match self.kind {
                KindId::WorkflowExecution => app@.workflows is Loading,
                KindId::Schedule => app@.schedules is Loading,
            },
    {
        match self.kind {
            KindId::WorkflowExecution => workflow_is_loading(app),
            KindId::Schedule => schedule_is_loading(app),
        }
    }
}

impl DetailSpec {
    /// This is the registry's detail layout for `kind`.
    pub open spec fn describes(self, kind: KindId) -> bool {
        &&& self.kind == kind
        &&& views(self.tabs@) == match tab_titles(kind) {
            Some(titles) => titles,
            None => Seq::empty(),
        }
    }
}

/// The entries of `specs` are those of `ops`, in order.
pub open spec fn describe_all(specs: Seq<OperationSpec>, ops: Seq<OperationId>) -> bool {
    &&& specs.len() == ops.len()
    &&& forall|i: int| 0 <= i < specs.len() ==> (#[trigger] specs[i]).describes(ops[i])
}

impl KindSpec {
    /// This is the registry's entry for `kind`.
    pub open spec fn describes(self, kind: KindId) -> bool {
        &&& self.id == kind
        &&& self.label@ == kind.title()
        &&& self.collection.describes(kind)
        &&& self.detail matches Some(detail) && detail.describes(kind)
        &&& describe_all(self.operations@, operations_of(kind))
    }
}

/// The effects of an operation on a target: the request that carries the
/// operation out. Pausing asks for the opposite of the state of the schedule
/// in detail, and for nothing unless that schedule is the target. An
/// operation on a target of another kind has no effect.
pub open spec fn operation_effects(
    op: OperationId,
    target: OperationTargetView,
    app: AppView,
) -> Seq<EffectView> {
    match (op, target) {
        (
            OperationId::CancelWorkflow,
            OperationTargetView::Workflow { workflow_id, run_id },
        ) => seq![EffectView::CancelWorkflow(workflow_id, run_id)],
        (
            OperationId::TerminateWorkflow,
            OperationTargetView::Workflow { workflow_id, run_id },
        ) => seq![EffectView::TerminateWorkflow(workflow_id, run_id)],
        (OperationId::TriggerSchedule, OperationTargetView::Schedule { schedule_id }) => seq![
            EffectView::TriggerSchedule(schedule_id),
        ],
        (OperationId::DeleteSchedule, OperationTargetView::Schedule { schedule_id }) => seq![
            EffectView::DeleteSchedule(schedule_id),
        ],
        (OperationId::PauseSchedule, OperationTargetView::Schedule { schedule_id }) => {
            match app.selected_schedule {
                Some(schedule) => if schedule.schedule_id == schedule_id {
                    seq![
                        EffectView::PauseSchedule(
                            schedule_id,
                            schedule.state != ScheduleState::Paused,
                        ),
                    ]
                } else {
                    Seq::empty()
                },
                None => Seq::empty(),
            }
        },
        _ => Seq::empty(),
    }
}

fn operation_entry(op: OperationId) -> (r: OperationSpec)
    ensures
        r.describes(op),
{
    match op {
        OperationId::CancelWorkflow => OperationSpec {
            id: op,
            label: "Cancel workflow",
            key: 'c',
            requires_confirm: true,
        },
        OperationId::TerminateWorkflow => OperationSpec {
            id: op,
            label: "Terminate workflow",
            key: 't',
            requires_confirm: true,
        },
        OperationId::PauseSchedule => OperationSpec {
            id: op,
            label: "Pause/unpause schedule",
            key: 'p',
            requires_confirm: false,
        },
        OperationId::TriggerSchedule => OperationSpec {
            id: op,
            label: "Trigger schedule",
            key: 'T',
            requires_confirm: true,
        },
        OperationId::DeleteSchedule => OperationSpec {
            id: op,
            label: "Delete schedule",
            key: 'd',
            requires_confirm: true,
        },
    }
}

/// The operations of a kind, in the order in which they are offered.
pub fn operations(kind: KindId) -> (r: Vec<OperationSpec>)
    ensures
        describe_all(r@, operations_of(kind)),
{
    let mut ops: Vec<OperationSpec> = Vec::new();
    match kind {
        KindId::WorkflowExecution => {
            ops.push(operation_entry(OperationId::CancelWorkflow));
            ops.push(operation_entry(OperationId::TerminateWorkflow));
        },
        KindId::Schedule => {
            ops.push(operation_entry(OperationId::PauseSchedule));
            ops.push(operation_entry(OperationId::TriggerSchedule));
            ops.push(operation_entry(OperationId::DeleteSchedule));
        },
    }
    ops
}

/// The list layout of a kind.
pub fn collection_spec(kind: KindId) -> (r: CollectionSpec)
    ensures
        r.describes(kind),
{
    let mut header: Vec<&'static str> = Vec::new();
    let mut widths: Vec<ColumnWidth> = Vec::new();
    match kind {
        KindId::WorkflowExecution => {
            header.push(" Status");
            header.push("Workflow ID");
            header.push("Type");
            header.push("Started");
            header.push("Task Queue");
            widths.push(ColumnWidth::Length(18));
            widths.push(ColumnWidth::Percentage(30));
            widths.push(ColumnWidth::Percentage(20));
            widths.push(ColumnWidth::Length(20));
            widths.push(ColumnWidth::Percentage(20));
            assert(views(header@) =~= header_titles(kind));
            assert(widths@ =~= column_widths(kind));
            CollectionSpec {
                kind,
                header,
                widths,
                loading_label: " Loading workflows...",
                empty_label: " No workflows loaded",
            }
        },
        KindId::Schedule => {
            header.push(" State");
            header.push("Schedule ID");
            header.push("Workflow Type");
            header.push("Next Run");
            header.push("Actions");
            widths.push(ColumnWidth::Length(12));
            widths.push(ColumnWidth::Percentage(30));
            widths.push(ColumnWidth::Percentage(25));
            widths.push(ColumnWidth::Length(20));
            widths.push(ColumnWidth::Length(10));
            assert(views(header@) =~= header_titles(kind));
            assert(widths@ =~= column_widths(kind));
            CollectionSpec {
                kind,
                header,
                widths,
                loading_label: " Loading schedules...",
                empty_label: " No schedules loaded",
            }
        },
    }
}

/// The titles of the tabs of a kind's detail view, where it has tabs.
pub fn detail_tabs_for_kind(kind: KindId) -> (r: Option<Vec<&'static str>>)
    ensures
        match r {
            Some(tabs) => tab_titles(kind) == Some(views(tabs@)),
            None => tab_titles(kind) is None,
        },
{
    match kind {
        KindId::WorkflowExecution => {
            let mut tabs: Vec<&'static str> = Vec::new();
            tabs.push("Summary");
            tabs.push("Input/Output");
            tabs.push("History");
            tabs.push("Pending Activities");
            tabs.push("Task Queue");
            assert(views(tabs@) =~= tab_titles(kind)->0);
            Some(tabs)
        },
        KindId::Schedule => None,
    }
}

/// The number of tabs of a kind's detail view.
pub fn detail_tab_count(kind: KindId) -> (r: usize)
    ensures
        r == tab_count(kind),
{
    match detail_tabs_for_kind(kind) {
        Some(tabs) => {
            assert(views(tabs@).len() == tabs@.len());
            tabs.len()
        },
        None => 0,
    }
}

/// The detail layout of a kind.
pub fn detail_spec(kind: KindId) -> (r: Option<DetailSpec>)
    ensures
        r matches Some(detail) && detail.describes(kind),
{
    let tabs = match detail_tabs_for_kind(kind) {
        Some(tabs) => tabs,
        None => {
            let none: Vec<&'static str> = Vec::new();
            assert(views(none@) =~= Seq::<Seq<char>>::empty());
            none
        },
    };
    Some(DetailSpec { kind, tabs })
}

/// The entry of a kind.
pub fn kind_spec(kind: KindId) -> (r: KindSpec)
    ensures
        r.describes(kind),
{
    KindSpec {
        id: kind,
        label: kind.label(),
        collection: collection_spec(kind),
        detail: detail_spec(kind),
        operations: operations(kind),
    }
}

/// The entries of all kinds.
pub fn registry() -> (r: Vec<KindSpec>)
    ensures
        r@.len() == 2,
        r@[0].describes(KindId::WorkflowExecution),
        r@[1].describes(KindId::Schedule),
{
    let mut all: Vec<KindSpec> = Vec::new();
    all.push(kind_spec(KindId::WorkflowExecution));
    all.push(kind_spec(KindId::Schedule));
    all
}

/// The operation of `kind` that `key` triggers.
pub fn operation_for_key(kind: KindId, key: char) -> (r: Option<OperationId>)
    ensures
        r == key_operation(kind, key),
{
    let ops = operations(kind);
    let ghost ids = operations_of(kind);
    let mut i: usize = 0;
    assert(ids.skip(0) =~= ids);
    while i < ops.len()
        invariant
            i <= ops.len(),
            describe_all(ops@, ids),
            key_operation(kind, key) == first_with_key(ids.skip(i as int), key),
        decreases ops.len() - i,
    {
        assert(ops@[i as int].describes(ids[i as int]));
        assert(ids.skip(i as int).drop_first() =~= ids.skip(i + 1));
        if ops[i].key == key {
            return Some(ops[i].id);
        }
        i += 1;
    }
    None
}

/// The registry's entry for an operation of a kind; none where the
/// operation belongs to another kind.
pub fn operation_spec(kind: KindId, op_id: OperationId) -> (r: Option<OperationSpec>)
    ensures
        match r {
            Some(spec) => op_id.kind() == kind && spec.describes(op_id),
            None => op_id.kind() != kind,
        },
{
    let ops = operations(kind);
    let ghost ids = operations_of(kind);
    let mut i: usize = 0;
    while i < ops.len()
        invariant
            i <= ops.len(),
            describe_all(ops@, ids),
            ids == operations_of(kind),
            forall|j: int| 0 <= j < i ==> ids[j] != op_id,
        decreases ops.len() - i,
    {
        assert(ops@[i as int].describes(ids[i as int]));
        if ops[i].id == op_id {
            return Some(ops[i]);
        }
        i += 1;
    }
    None
}

/// The link from an operation of a kind to its effects; none where the
/// operation belongs to another kind.
pub fn operation_effect_spec(op: OperationId, kind: KindId) -> (r: Option<OperationEffectSpec>)
    ensures
        r == if op.kind() == kind {
            Some(OperationEffectSpec { op, kind })
        } else {
            None
        },
{
    let owner = match op {
        OperationId::CancelWorkflow | OperationId::TerminateWorkflow => KindId::WorkflowExecution,
        OperationId::PauseSchedule | OperationId::TriggerSchedule | OperationId::DeleteSchedule => {
            KindId::Schedule
        },
    };
    if owner == kind {
        Some(OperationEffectSpec { op, kind })
    } else {
        None
    }
}

/// Whether the list of executions is being loaded.
pub fn workflow_is_loading(app: &App) -> (r: bool)
    ensures
        r == (app@.workflows is Loading),
{
    app.workflows.is_loading()
}

/// Whether the list of schedules is being loaded.
pub fn schedule_is_loading(app: &App) -> (r: bool)
    ensures
        r == (app@.schedules is Loading),
{
    app.schedules.is_loading()
}

/// The effects of cancelling the target.
pub fn workflow_cancel_effects(target: &OperationTarget, app: &App) -> (r: Vec<Effect>)
    ensures
        views(r@) == operation_effects(OperationId::CancelWorkflow, target@, app@),
{
    let mut effects: Vec<Effect> = Vec::new();
    if let OperationTarget::Workflow { workflow_id, run_id } = target {
        effects.push(Effect::CancelWorkflow(workflow_id.clone(), clone_opt(run_id)));
    }
    assert(views(effects@) =~= operation_effects(OperationId::CancelWorkflow, target@, app@));
    effects
}

/// The effects of terminating the target.
pub fn workflow_terminate_effects(target: &OperationTarget, app: &App) -> (r: Vec<Effect>)
    ensures
        views(r@) == operation_effects(OperationId::TerminateWorkflow, target@, app@),
{
    let mut effects: Vec<Effect> = Vec::new();
    if let OperationTarget::Workflow { workflow_id, run_id } = target {
        effects.push(Effect::TerminateWorkflow(workflow_id.clone(), clone_opt(run_id)));
    }
    assert(views(effects@) =~= operation_effects(OperationId::TerminateWorkflow, target@, app@));
    effects
}

/// The effects of triggering the target.
pub fn schedule_trigger_effects(target: &OperationTarget, app: &App) -> (r: Vec<Effect>)
    ensures
        views(r@) == operation_effects(OperationId::TriggerSchedule, target@, app@),
{
    let mut effects: Vec<Effect> = Vec::new();
    if let OperationTarget::Schedule { schedule_id } = target {
        effects.push(Effect::TriggerSchedule(schedule_id.clone()));
    }
    assert(views(effects@) =~= operation_effects(OperationId::TriggerSchedule, target@, app@));
    effects
}

/// The effects of deleting the target.
pub fn schedule_delete_effects(target: &OperationTarget, app: &App) -> (r: Vec<Effect>)
    ensures
        views(r@) == operation_effects(OperationId::DeleteSchedule, target@, app@),
{
    let mut effects: Vec<Effect> = Vec::new();
    if let OperationTarget::Schedule { schedule_id } = target {
        effects.push(Effect::DeleteSchedule(schedule_id.clone()));
    }
    assert(views(effects@) =~= operation_effects(OperationId::DeleteSchedule, target@, app@));
    effects
}

/// The effects of pausing or resuming the target.
pub fn schedule_pause_effects(target: &OperationTarget, app: &App) -> (r: Vec<Effect>)
    ensures
        views(r@) == operation_effects(OperationId::PauseSchedule, target@, app@),
{
    let mut effects: Vec<Effect> = Vec::new();
    if let OperationTarget::Schedule { schedule_id } = target {
        if let Some(schedule) = &app.selected_schedule {
            if same_text(schedule.schedule_id.as_str(), schedule_id.as_str()) {
                let pause = schedule.state != ScheduleState::Paused;
                effects.push(Effect::PauseSchedule(schedule_id.clone(), pause));
            }
        }
    }
    assert(views(effects@) =~= operation_effects(OperationId::PauseSchedule, target@, app@));
    effects
}

impl OperationEffectSpec {
    /// The effects of the operation on a target.
    pub fn to_effects(&self, target: &OperationTarget, app: &App) -> (r: Vec<Effect>)
        ensures
            views(r@) == operation_effects(self.op, target@, app@),
    {
        match self.op {
            OperationId::CancelWorkflow => workflow_cancel_effects(target, app),
            OperationId::TerminateWorkflow => workflow_terminate_effects(target, app),
            OperationId::PauseSchedule => schedule_pause_effects(target, app),
            OperationId::TriggerSchedule => schedule_trigger_effects(target, app),
            OperationId::DeleteSchedule => schedule_delete_effects(target, app),
        }
    }
}

} // verus!
