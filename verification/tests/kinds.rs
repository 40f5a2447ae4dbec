use t9s::app::{App, Effect, LoadState, OperationTarget};
use t9s::domain::{Schedule, ScheduleState};
use t9s::kinds::{
    collection_spec, detail_spec, detail_tab_count, detail_tabs_for_kind, kind_spec,
    operation_effect_spec, operation_for_key, operation_spec, operations, registry,
    schedule_delete_effects, schedule_is_loading, schedule_pause_effects,
    schedule_trigger_effects, workflow_cancel_effects, workflow_is_loading,
    workflow_terminate_effects, ColumnWidth, KindId, OperationEffectSpec, OperationId,
};

fn workflow_target() -> OperationTarget {
    OperationTarget::Workflow {
        workflow_id: "w".to_string(),
        run_id: Some("r".to_string()),
    }
}

fn schedule_target() -> OperationTarget {
    OperationTarget::Schedule {
        schedule_id: "s".to_string(),
    }
}

#[test]
fn labels_of_kinds() {
    assert_eq!(KindId::WorkflowExecution.label(), "Workflows");
    assert_eq!(KindId::Schedule.label(), "Schedules");
}

#[test]
fn registry_holds_one_entry_per_kind() {
    let all = registry();
    assert_eq!(all.len(), 2);
    assert_eq!(all[0], kind_spec(KindId::WorkflowExecution));
    assert_eq!(all[1], kind_spec(KindId::Schedule));
    assert_eq!(all[0].id, KindId::WorkflowExecution);
    assert_eq!(all[0].label, "Workflows");
    assert_eq!(all[1].id, KindId::Schedule);
    assert_eq!(all[1].label, "Schedules");
    assert_eq!(all[0].operations, operations(KindId::WorkflowExecution));
    assert_eq!(all[1].collection, collection_spec(KindId::Schedule));
    assert_eq!(all[1].detail, detail_spec(KindId::Schedule));
}

#[test]
fn collection_layouts() {
    let workflows = collection_spec(KindId::WorkflowExecution);
    assert_eq!(
        workflows.header,
        vec![" Status", "Workflow ID", "Type", "Started", "Task Queue"]
    );
    assert_eq!(
        workflows.widths,
        vec![
            ColumnWidth::Length(18),
            ColumnWidth::Percentage(30),
            ColumnWidth::Percentage(20),
            ColumnWidth::Length(20),
            ColumnWidth::Percentage(20),
        ]
    );
    assert_eq!(workflows.loading_label, " Loading workflows...");
    assert_eq!(workflows.empty_label, " No workflows loaded");
    let schedules = collection_spec(KindId::Schedule);
    assert_eq!(
        schedules.header,
        vec![" State", "Schedule ID", "Workflow Type", "Next Run", "Actions"]
    );
    assert_eq!(
        schedules.widths,
        vec![
            ColumnWidth::Length(12),
            ColumnWidth::Percentage(30),
            ColumnWidth::Percentage(25),
            ColumnWidth::Length(20),
            ColumnWidth::Length(10),
        ]
    );
    assert_eq!(schedules.loading_label, " Loading schedules...");
    assert_eq!(schedules.empty_label, " No schedules loaded");
}

#[test]
fn detail_tabs() {
    assert_eq!(
        detail_tabs_for_kind(KindId::WorkflowExecution),
        Some(vec![
            "Summary",
            "Input/Output",
            "History",
            "Pending Activities",
            "Task Queue"
        ])
    );
    assert_eq!(detail_tabs_for_kind(KindId::Schedule), None);
    assert_eq!(detail_tab_count(KindId::WorkflowExecution), 5);
    assert_eq!(detail_tab_count(KindId::Schedule), 0);
    assert_eq!(
        detail_spec(KindId::WorkflowExecution).map(|d| d.tabs.len()),
        Some(5)
    );
    assert_eq!(detail_spec(KindId::Schedule).map(|d| d.tabs.len()), Some(0));
}

#[test]
fn operations_by_key() {
    assert_eq!(
        operation_for_key(KindId::WorkflowExecution, 'c'),
        Some(OperationId::CancelWorkflow)
    );
    assert_eq!(
        operation_for_key(KindId::WorkflowExecution, 't'),
        Some(OperationId::TerminateWorkflow)
    );
    assert_eq!(operation_for_key(KindId::WorkflowExecution, 'T'), None);
    assert_eq!(operation_for_key(KindId::WorkflowExecution, 'p'), None);
    assert_eq!(
        operation_for_key(KindId::Schedule, 'p'),
        Some(OperationId::PauseSchedule)
    );
    assert_eq!(
        operation_for_key(KindId::Schedule, 'T'),
        Some(OperationId::TriggerSchedule)
    );
    assert_eq!(
        operation_for_key(KindId::Schedule, 'd'),
        Some(OperationId::DeleteSchedule)
    );
    assert_eq!(operation_for_key(KindId::Schedule, 't'), None);
    assert_eq!(operation_for_key(KindId::Schedule, 'c'), None);
}

#[test]
fn operation_entries() {
    let cancel = operation_spec(KindId::WorkflowExecution, OperationId::CancelWorkflow)
        .expect("cancel");
    assert_eq!(cancel.id, OperationId::CancelWorkflow);
    assert_eq!(cancel.label, "Cancel workflow");
    assert_eq!(cancel.key, 'c');
    assert!(cancel.requires_confirm);
    let pause = operation_spec(KindId::Schedule, OperationId::PauseSchedule).expect("pause");
    assert_eq!(pause.label, "Pause/unpause schedule");
    assert_eq!(pause.key, 'p');
    assert!(!pause.requires_confirm);
    let trigger = operation_spec(KindId::Schedule, OperationId::TriggerSchedule).expect("trigger");
    assert_eq!(trigger.label, "Trigger schedule");
    assert!(trigger.requires_confirm);
    let delete = operation_spec(KindId::Schedule, OperationId::DeleteSchedule).expect("delete");
    assert_eq!(delete.label, "Delete schedule");
    assert!(delete.requires_confirm);
    let terminate = operation_spec(KindId::WorkflowExecution, OperationId::TerminateWorkflow)
        .expect("terminate");
    assert_eq!(terminate.label, "Terminate workflow");
    assert!(terminate.requires_confirm);
    assert_eq!(operation_spec(KindId::Schedule, OperationId::CancelWorkflow), None);
    assert_eq!(
        operation_spec(KindId::WorkflowExecution, OperationId::DeleteSchedule),
        None
    );
    assert_eq!(operations(KindId::WorkflowExecution).len(), 2);
    assert_eq!(operations(KindId::Schedule).len(), 3);
}

#[test]
fn effect_links_exist_for_own_kind_only() {
    assert_eq!(
        operation_effect_spec(OperationId::CancelWorkflow, KindId::WorkflowExecution),
        Some(OperationEffectSpec {
            op: OperationId::CancelWorkflow,
            kind: KindId::WorkflowExecution,
        })
    );
    assert_eq!(
        operation_effect_spec(OperationId::CancelWorkflow, KindId::Schedule),
        None
    );
    assert_eq!(
        operation_effect_spec(OperationId::PauseSchedule, KindId::WorkflowExecution),
        None
    );
    assert!(operation_effect_spec(OperationId::PauseSchedule, KindId::Schedule).is_some());
}

#[test]
fn effects_of_operations() {
    let app = App::new("default".to_string());
    assert_eq!(
        workflow_cancel_effects(&workflow_target(), &app),
        vec![Effect::CancelWorkflow("w".to_string(), Some("r".to_string()))]
    );
    assert_eq!(
        workflow_terminate_effects(&workflow_target(), &app),
        vec![Effect::TerminateWorkflow("w".to_string(), Some("r".to_string()))]
    );
    assert_eq!(
        schedule_trigger_effects(&schedule_target(), &app),
        vec![Effect::TriggerSchedule("s".to_string())]
    );
    assert_eq!(
        schedule_delete_effects(&schedule_target(), &app),
        vec![Effect::DeleteSchedule("s".to_string())]
    );
    assert_eq!(workflow_cancel_effects(&schedule_target(), &app), vec![]);
    assert_eq!(workflow_terminate_effects(&schedule_target(), &app), vec![]);
    assert_eq!(schedule_trigger_effects(&workflow_target(), &app), vec![]);
    assert_eq!(schedule_delete_effects(&workflow_target(), &app), vec![]);
    let link = OperationEffectSpec {
        op: OperationId::DeleteSchedule,
        kind: KindId::Schedule,
    };
    assert_eq!(
        link.to_effects(&schedule_target(), &app),
        vec![Effect::DeleteSchedule("s".to_string())]
    );
}

#[test]
fn pause_asks_for_the_opposite_state() {
    let mut app = App::new("default".to_string());
    assert_eq!(schedule_pause_effects(&schedule_target(), &app), vec![]);
    let mut shown = Schedule {
        schedule_id: "s".to_string(),
        workflow_type: "T".to_string(),
        state: ScheduleState::Active,
        spec_description: String::new(),
        next_run: None,
        recent_action_count: 2,
        notes: String::new(),
    };
    app.selected_schedule = Some(shown.clone());
    assert_eq!(
        schedule_pause_effects(&schedule_target(), &app),
        vec![Effect::PauseSchedule("s".to_string(), true)]
    );
    assert_eq!(schedule_pause_effects(&workflow_target(), &app), vec![]);
    shown.state = ScheduleState::Paused;
    app.selected_schedule = Some(shown.clone());
    assert_eq!(
        schedule_pause_effects(&schedule_target(), &app),
        vec![Effect::PauseSchedule("s".to_string(), false)]
    );
    shown.schedule_id = "other".to_string();
    app.selected_schedule = Some(shown);
    assert_eq!(schedule_pause_effects(&schedule_target(), &app), vec![]);
}

#[test]
fn loading_flags_follow_the_lists() {
    let mut app = App::new("default".to_string());
    assert!(!workflow_is_loading(&app));
    assert!(!schedule_is_loading(&app));
    app.workflows = LoadState::Loading;
    assert!(workflow_is_loading(&app));
    assert!(!schedule_is_loading(&app));
    assert!(collection_spec(KindId::WorkflowExecution).is_loading(&app));
    assert!(!collection_spec(KindId::Schedule).is_loading(&app));
    app.schedules = LoadState::Loading;
    app.workflows = LoadState::Error("x".to_string());
    assert!(!workflow_is_loading(&app));
    assert!(schedule_is_loading(&app));
    assert_eq!(app.workflows.data(), None);
    assert!(!app.workflows.is_loading());
    let loaded: LoadState<u8> = LoadState::Loaded(7);
    assert_eq!(loaded.data(), Some(&7));
}
