//! Snapshots of the service's resources, as the backend reports them.

pub mod activity;
pub mod history;
pub mod namespace;
pub mod schedule;
pub mod task_queue;
pub mod time;
pub mod workflow;

pub use activity::{PendingActivity, PendingActivityState, PendingActivityView};
pub use history::{HistoryEvent, HistoryEventView};
pub use namespace::{Namespace, NamespaceView};
pub use schedule::{Schedule, ScheduleState, ScheduleView};
pub use task_queue::{Poller, PollerView, TaskQueueInfo, TaskQueueInfoView};
pub use time::Timestamp;
pub use workflow::{
    FailureInfo, FailureInfoView, WorkflowDetail, WorkflowDetailView, WorkflowStatus,
    WorkflowSummary, WorkflowSummaryView,
};
