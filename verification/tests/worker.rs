use t9s::action::Action;
use t9s::app::{App, Effect};
use t9s::client::{proto_status_to_domain, ClientError};
use t9s::domain::{
    HistoryEvent, Namespace, Poller, Schedule, ScheduleState, TaskQueueInfo, Timestamp,
    WorkflowDetail, WorkflowStatus, WorkflowSummary,
};
use t9s::kinds::KindId;
use t9s::worker::{failed, handle_effects, process, request_for, succeeded, CliRequest, Reply};

fn summary() -> WorkflowSummary {
    WorkflowSummary {
        workflow_id: "w".to_string(),
        run_id: "r".to_string(),
        workflow_type: "T".to_string(),
        status: WorkflowStatus::Completed,
        start_time: Timestamp { seconds: 10, nanos: 5 },
        close_time: Some(Timestamp { seconds: 20, nanos: 0 }),
        task_queue: "q".to_string(),
    }
}

fn queue_info() -> TaskQueueInfo {
    TaskQueueInfo {
        name: "q".to_string(),
        pollers: vec![Poller {
            identity: "worker-1".to_string(),
            last_access_time: None,
            rate_per_second_bits: 100_000.5f64.to_bits(),
        }],
    }
}

fn every_request() -> Vec<CliRequest> {
    let ns = "default".to_string();
    vec![
        CliRequest::LoadWorkflows {
            namespace: ns.clone(),
            query: None,
            page_size: 50,
            next_page_token: vec![],
        },
        CliRequest::LoadMoreWorkflows {
            namespace: ns.clone(),
            query: None,
            page_size: 50,
            next_page_token: vec![1],
        },
        CliRequest::LoadWorkflowDetail {
            namespace: ns.clone(),
            workflow_id: "w".to_string(),
            run_id: None,
        },
        CliRequest::LoadHistory {
            namespace: ns.clone(),
            workflow_id: "w".to_string(),
            run_id: None,
        },
        CliRequest::LoadNamespaces,
        CliRequest::LoadWorkflowCount { namespace: ns.clone(), query: None },
        CliRequest::LoadSchedules { namespace: ns.clone() },
        CliRequest::LoadScheduleDetail { namespace: ns.clone(), schedule_id: "s".to_string() },
        CliRequest::CancelWorkflow {
            namespace: ns.clone(),
            workflow_id: "w".to_string(),
            run_id: None,
        },
        CliRequest::TerminateWorkflow {
            namespace: ns.clone(),
            workflow_id: "w".to_string(),
            run_id: None,
        },
        CliRequest::PauseSchedule {
            namespace: ns.clone(),
            schedule_id: "s".to_string(),
            pause: true,
        },
        CliRequest::TriggerSchedule { namespace: ns.clone(), schedule_id: "s".to_string() },
        CliRequest::DeleteSchedule { namespace: ns.clone(), schedule_id: "s".to_string() },
        CliRequest::DescribeTaskQueue { namespace: ns.clone(), task_queue: "q".to_string() },
        CliRequest::SignalWorkflow {
            namespace: ns,
            workflow_id: "w".to_string(),
            run_id: None,
            signal_name: "go".to_string(),
            input: None,
        },
    ]
}

#[test]
fn effects_become_requests_in_order() {
    let mut app = App::new("prod".to_string());
    app.set_kind_query(KindId::WorkflowExecution, Some("A = 'b'".to_string()));
    app.set_kind_query(KindId::Schedule, Some("ignored".to_string()));
    app.next_page_token = vec![4, 2];
    app.page_size = 25;
    let effects = vec![
        Effect::LoadWorkflows,
        Effect::Quit,
        Effect::LoadMoreWorkflows,
        Effect::LoadWorkflowCount,
        Effect::LoadSchedules,
        Effect::LoadNamespaces,
    ];
    assert_eq!(
        handle_effects(&effects, &app),
        vec![
            CliRequest::LoadWorkflows {
                namespace: "prod".to_string(),
                query: Some("A = 'b'".to_string()),
                page_size: 25,
                next_page_token: vec![],
            },
            CliRequest::LoadMoreWorkflows {
                namespace: "prod".to_string(),
                query: Some("A = 'b'".to_string()),
                page_size: 25,
                next_page_token: vec![4, 2],
            },
            CliRequest::LoadWorkflowCount {
                namespace: "prod".to_string(),
                query: Some("A = 'b'".to_string()),
            },
            CliRequest::LoadSchedules { namespace: "prod".to_string() },
            CliRequest::LoadNamespaces,
        ]
    );
    assert_eq!(handle_effects(&vec![], &app), vec![]);
    assert_eq!(handle_effects(&vec![Effect::Quit], &app), vec![]);
}

#[test]
fn each_effect_has_its_request() {
    let app = App::new("ns".to_string());
    let ns = || "ns".to_string();
    let run = || Some("r".to_string());
    assert_eq!(
        request_for(&Effect::LoadWorkflowDetail("w".to_string(), run()), &app),
        Some(CliRequest::LoadWorkflowDetail {
            namespace: ns(),
            workflow_id: "w".to_string(),
            run_id: run(),
        })
    );
    assert_eq!(
        request_for(&Effect::LoadHistory("w".to_string(), None), &app),
        Some(CliRequest::LoadHistory {
            namespace: ns(),
            workflow_id: "w".to_string(),
            run_id: None,
        })
    );
    assert_eq!(
        request_for(&Effect::LoadScheduleDetail("s".to_string()), &app),
        Some(CliRequest::LoadScheduleDetail { namespace: ns(), schedule_id: "s".to_string() })
    );
    assert_eq!(
        request_for(&Effect::CancelWorkflow("w".to_string(), run()), &app),
        Some(CliRequest::CancelWorkflow {
            namespace: ns(),
            workflow_id: "w".to_string(),
            run_id: run(),
        })
    );
    assert_eq!(
        request_for(&Effect::TerminateWorkflow("w".to_string(), run()), &app),
        Some(CliRequest::TerminateWorkflow {
            namespace: ns(),
            workflow_id: "w".to_string(),
            run_id: run(),
        })
    );
    assert_eq!(
        request_for(&Effect::PauseSchedule("s".to_string(), false), &app),
        Some(CliRequest::PauseSchedule {
            namespace: ns(),
            schedule_id: "s".to_string(),
            pause: false,
        })
    );
    assert_eq!(
        request_for(&Effect::TriggerSchedule("s".to_string()), &app),
        Some(CliRequest::TriggerSchedule { namespace: ns(), schedule_id: "s".to_string() })
    );
    assert_eq!(
        request_for(&Effect::DeleteSchedule("s".to_string()), &app),
        Some(CliRequest::DeleteSchedule { namespace: ns(), schedule_id: "s".to_string() })
    );
    assert_eq!(
        request_for(&Effect::LoadTaskQueueDetail("q".to_string()), &app),
        Some(CliRequest::DescribeTaskQueue { namespace: ns(), task_queue: "q".to_string() })
    );
    assert_eq!(
        request_for(
            &Effect::SignalWorkflow("w".to_string(), run(), "go".to_string(), Some("1".to_string())),
            &app
        ),
        Some(CliRequest::SignalWorkflow {
            namespace: ns(),
            workflow_id: "w".to_string(),
            run_id: run(),
            signal_name: "go".to_string(),
            input: Some("1".to_string()),
        })
    );
    assert_eq!(request_for(&Effect::Quit, &app), None);
}

#[test]
fn failures_become_error_actions_with_a_message() {
    let error = ClientError::NotFound("no such thing".to_string());
    let expected = vec![
        "failed to load workflows",
        "failed to load workflows",
        "failed to load workflow detail",
        "failed to load history",
        "failed to load namespaces",
        "failed to count workflows",
        "failed to load schedules",
        "failed to load schedule detail",
        "failed to cancel workflow",
        "failed to terminate workflow",
        "failed to update schedule",
        "failed to trigger schedule",
        "failed to delete schedule",
        "failed to describe task queue",
        "failed to signal workflow",
    ];
    let requests = every_request();
    assert_eq!(requests.len(), expected.len());
    for (request, prefix) in requests.iter().zip(expected) {
        let want = Action::Error(format!("{}: not found: no such thing", prefix));
        assert_eq!(failed(request, &error), want);
        assert_eq!(process(request, Err(error.clone())), want);
    }
}

#[test]
fn client_errors_read_as_sentences() {
    assert_eq!(
        ClientError::ConnectionError("refused".to_string()).message(),
        "connection error: refused"
    );
    assert_eq!(ClientError::NotFound("x".to_string()).message(), "not found: x");
    assert_eq!(
        ClientError::RequestFailed("bad".to_string()).message(),
        "request failed: bad"
    );
    assert_eq!(ClientError::ParseError("p".to_string()).message(), "parse error: p");
    assert_eq!(ClientError::ConfigError("c".to_string()).message(), "config error: c");
    assert_eq!(ClientError::Timeout.message(), "timeout");
}

#[test]
fn loads_become_typed_results() {
    let requests = every_request();
    assert_eq!(
        process(&requests[0], Ok(Reply::Workflows(vec![summary()], vec![1]))),
        Action::WorkflowsLoaded(vec![summary()], vec![1])
    );
    assert_eq!(
        process(&requests[1], Ok(Reply::Workflows(vec![summary()], vec![]))),
        Action::MoreWorkflowsLoaded(vec![summary()], vec![])
    );
    let detail = WorkflowDetail {
        summary: summary(),
        input: None,
        output: None,
        failure: None,
        history_length: 3,
        memo: vec![("k".to_string(), "1".to_string())],
        search_attributes: vec![],
        pending_activities: vec![],
    };
    assert_eq!(
        process(&requests[2], Ok(Reply::WorkflowDetail(detail.clone()))),
        Action::WorkflowDetailLoaded(Box::new(detail))
    );
    let events = vec![HistoryEvent {
        event_id: 1,
        event_type: "WorkflowExecutionStarted".to_string(),
        timestamp: Timestamp { seconds: 1, nanos: 2 },
        details: "{}".to_string(),
    }];
    assert_eq!(
        process(&requests[3], Ok(Reply::History(events.clone()))),
        Action::HistoryLoaded(events)
    );
    let namespaces = vec![Namespace {
        name: "default".to_string(),
        state: "Registered".to_string(),
        description: "d".to_string(),
        owner_email: "o@example.com".to_string(),
        retention: None,
    }];
    assert_eq!(
        process(&requests[4], Ok(Reply::Namespaces(namespaces.clone()))),
        Action::NamespacesLoaded(namespaces)
    );
    assert_eq!(
        process(&requests[5], Ok(Reply::WorkflowCount(42))),
        Action::WorkflowCountLoaded(42)
    );
    let schedule = Schedule {
        schedule_id: "s".to_string(),
        workflow_type: "T".to_string(),
        state: ScheduleState::Paused,
        spec_description: String::new(),
        next_run: Some(Timestamp { seconds: 5, nanos: 0 }),
        recent_action_count: 1,
        notes: "n".to_string(),
    };
    assert_eq!(
        process(&requests[6], Ok(Reply::Schedules(vec![schedule.clone()]))),
        Action::SchedulesLoaded(vec![schedule.clone()])
    );
    assert_eq!(
        process(&requests[7], Ok(Reply::ScheduleDetail(schedule.clone()))),
        Action::ScheduleDetailLoaded(Box::new(schedule))
    );
    assert_eq!(
        process(&requests[13], Ok(Reply::TaskQueue(queue_info()))),
        Action::TaskQueueDetailLoaded(Box::new(queue_info()))
    );
}

#[test]
fn changes_become_a_refresh() {
    let requests = every_request();
    for i in [8usize, 9, 10, 11, 12, 14] {
        assert_eq!(process(&requests[i], Ok(Reply::Done)), Action::Refresh);
        assert_eq!(succeeded(&requests[i], Reply::Done), Some(Action::Refresh));
    }
}

#[test]
fn reply_of_the_wrong_kind_is_an_error() {
    let requests = every_request();
    assert_eq!(succeeded(&requests[0], Reply::Done), None);
    assert_eq!(
        process(&requests[0], Ok(Reply::Done)),
        Action::Error("failed to load workflows: parse error: unexpected reply".to_string())
    );
    assert_eq!(
        process(&requests[8], Ok(Reply::WorkflowCount(1))),
        Action::Error("failed to cancel workflow: parse error: unexpected reply".to_string())
    );
    assert_eq!(succeeded(&requests[5], Reply::Workflows(vec![], vec![])), None);
}

#[test]
fn status_codes_of_the_service() {
    assert_eq!(proto_status_to_domain(1), WorkflowStatus::Running);
    assert_eq!(proto_status_to_domain(2), WorkflowStatus::Completed);
    assert_eq!(proto_status_to_domain(3), WorkflowStatus::Failed);
    assert_eq!(proto_status_to_domain(4), WorkflowStatus::Canceled);
    assert_eq!(proto_status_to_domain(5), WorkflowStatus::Terminated);
    assert_eq!(proto_status_to_domain(6), WorkflowStatus::ContinuedAsNew);
    assert_eq!(proto_status_to_domain(7), WorkflowStatus::TimedOut);
    assert_eq!(proto_status_to_domain(0), WorkflowStatus::Running);
    assert_eq!(proto_status_to_domain(8), WorkflowStatus::Running);
    assert_eq!(proto_status_to_domain(-1), WorkflowStatus::Running);
}
