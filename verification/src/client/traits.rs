//! The failures of the backend, and the status codes of the service.

use vstd::prelude::*;
use vstd::string::*;
use crate::domain::WorkflowStatus;

verus! {

/// Why a call to the backend failed.
#[derive(Debug, Clone, PartialEq, Eq)]
pub enum ClientError {
    ConnectionError(String),
    NotFound(String),
    RequestFailed(String),
    ParseError(String),
    ConfigError(String),
    Timeout,
}

pub enum ClientErrorView {
    ConnectionError(Seq<char>),
    NotFound(Seq<char>),
    RequestFailed(Seq<char>),
    ParseError(Seq<char>),
    ConfigError(Seq<char>),
    Timeout,
}

impl View for ClientError {
    type V = ClientErrorView;

    open spec fn view(&self) -> ClientErrorView {
        match *self {
            ClientError::ConnectionError(m) => ClientErrorView::ConnectionError(m@),
            ClientError::NotFound(m) => ClientErrorView::NotFound(m@),
            ClientError::RequestFailed(m) => ClientErrorView::RequestFailed(m@),
            ClientError::ParseError(m) => ClientErrorView::ParseError(m@),
            ClientError::ConfigError(m) => ClientErrorView::ConfigError(m@),
            ClientError::Timeout => ClientErrorView::Timeout,
        }
    }
}

impl ClientErrorView {
    /// How the failure reads.
    pub open spec fn text(self) -> Seq<char> {
        match self {
            ClientErrorView::ConnectionError(m) => "connection error: "@ + m,
            ClientErrorView::NotFound(m) => "not found: "@ + m,
            ClientErrorView::RequestFailed(m) => "request failed: "@ + m,
            ClientErrorView::ParseError(m) => "parse error: "@ + m,
            ClientErrorView::ConfigError(m) => "config error: "@ + m,
            ClientErrorView::Timeout => "timeout"@,
        }
    }
}

impl ClientError {
    /// How the failure reads.
    pub fn message(&self) -> (text: String)
        ensures
            text@ == self@.text(),
    {
        match self {
            ClientError::ConnectionError(m) => String::from_str("connection error: ").concat(
                m.as_str(),
            ),
            ClientError::NotFound(m) => String::from_str("not found: ").concat(m.as_str()),
            ClientError::RequestFailed(m) => String::from_str("request failed: ").concat(
                m.as_str(),
            ),
            ClientError::ParseError(m) => String::from_str("parse error: ").concat(m.as_str()),
            ClientError::ConfigError(m) => String::from_str("config error: ").concat(m.as_str()),
            ClientError::Timeout => String::from_str("timeout"),
        }
    }
}

/// The status that the service's code for it stands for.
pub open spec fn status_of(code: i32) -> WorkflowStatus {
    if code == 2 {
        WorkflowStatus::Completed
    } else if code == 3 {
        WorkflowStatus::Failed
    } else if code == 4 {
        WorkflowStatus::Canceled
    } else if code == 5 {
        WorkflowStatus::Terminated
    } else if code == 6 {
        WorkflowStatus::ContinuedAsNew
    } else if code == 7 {
        WorkflowStatus::TimedOut
    } else {
        WorkflowStatus::Running
    }
}

/// The status that the service's code for it stands for; an unknown code
/// counts as running.
pub fn proto_status_to_domain(status: i32) -> (r: WorkflowStatus)
    ensures
        r == status_of(status),
{
    if status == 2 {
        WorkflowStatus::Completed
    } else if status == 3 {
        WorkflowStatus::Failed
    } else if status == 4 {
        WorkflowStatus::Canceled
    } else if status == 5 {
        WorkflowStatus::Terminated
    } else if status == 6 {
        WorkflowStatus::ContinuedAsNew
    } else if status == 7 {
        WorkflowStatus::TimedOut
    } else {
        WorkflowStatus::Running
    }
}

} // verus!
