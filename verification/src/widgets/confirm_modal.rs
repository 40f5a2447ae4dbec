//! The question that the confirmation overlay asks.

use vstd::prelude::*;
use vstd::string::*;
use crate::app::state::{
    OperationConfirm, OperationConfirmView, OperationTarget, OperationTargetView,
};
use crate::kinds::OperationId;
use crate::text::push_char;

verus! {

/// What the overlay calls an operation.
pub open spec fn question_label(op: OperationId) -> Seq<char> {
    match op {
        OperationId::CancelWorkflow => "Cancel workflow"@,
        OperationId::TerminateWorkflow => "Terminate workflow"@,
        OperationId::TriggerSchedule => "Trigger schedule"@,
        OperationId::DeleteSchedule => "Delete schedule"@,
        OperationId::PauseSchedule => "Pause schedule"@,
    }
}

/// The question: the operation, the target's id, and a question mark.
pub open spec fn question(confirm: OperationConfirmView) -> Seq<char> {
    question_label(confirm.op) + seq![' '] + match confirm.target {
        OperationTargetView::Workflow { workflow_id, .. } => workflow_id,
        OperationTargetView::Schedule { schedule_id } => schedule_id,
    } + seq!['?']
}

/// The question that the confirmation overlay asks.
pub fn confirm_message(confirm: &OperationConfirm) -> (text: String)
    ensures
        text@ == question(confirm@),
{
    let label = match confirm.op {
        OperationId::CancelWorkflow => "Cancel workflow",
        OperationId::TerminateWorkflow => "Terminate workflow",
        OperationId::TriggerSchedule => "Trigger schedule",
        OperationId::DeleteSchedule => "Delete schedule",
        OperationId::PauseSchedule => "Pause schedule",
    };
    let mut text = String::from_str(label);
    push_char(&mut text, ' ');
    match &confirm.target {
        OperationTarget::Workflow { workflow_id, .. } => {
            text.append(workflow_id.as_str());
        },
        OperationTarget::Schedule { schedule_id } => {
            text.append(schedule_id.as_str());
        },
    }
    push_char(&mut text, '?');
    assert(text@ =~= question(confirm@));
    text
}

} // verus!
