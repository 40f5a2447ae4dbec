//! What the history of an execution tells about it: its input, its output
//! and its failure. An event's details are a JSON document.

use vstd::prelude::*;
use vstd::string::*;
use crate::domain::{
    FailureInfo, FailureInfoView, HistoryEvent, HistoryEventView, WorkflowDetail,
    WorkflowDetailView,
};
use crate::text::{chars_of, find, find_in, opt_view, views};

verus! {

/// The member `key` of the JSON object that `doc` holds: the member
/// written as JSON text, and the string that it holds where it holds a
/// string. None where `doc` is no JSON document, holds no object, or the
/// object has no such member.
pub uninterp spec fn json_member(doc: Seq<char>, key: Seq<char>) -> Option<
    (Seq<char>, Option<Seq<char>>),
>;

/// The member `key` of the JSON object that `doc` holds, as JSON text.
pub open spec fn member_text(doc: Seq<char>, key: Seq<char>) -> Option<Seq<char>> {
    match json_member(doc, key) {
        Some(member) => Some(member.0),
        None => None,
    }
}

/// Whether `pat` stands somewhere in `s`.
pub open spec fn contains(s: Seq<char>, pat: Seq<char>) -> bool {
    find(s, pat) is Some
}

/// Whether an event of type `event_type` is the event `name` of the
/// execution itself, not of a child.
pub open spec fn is_own_event(event_type: Seq<char>, name: Seq<char>) -> bool {
    contains(event_type, name) && !contains(event_type, "Child"@)
}

/// The string member `key` of the JSON object that `doc` holds.
pub open spec fn text_member(doc: Seq<char>, key: Seq<char>) -> Option<Seq<char>> {
    match json_member(doc, key) {
        Some(member) => member.1,
        None => None,
    }
}

/// A text, or the empty text in its absence.
pub open spec fn or_empty(text: Option<Seq<char>>) -> Seq<char> {
    match text {
        Some(t) => t,
        None => Seq::empty(),
    }
}

/// The failure that is made of a message, a source and a stack trace.
pub open spec fn failure_of(
    message: Option<Seq<char>>,
    source: Option<Seq<char>>,
    stack_trace: Option<Seq<char>>,
) -> FailureInfoView {
    FailureInfoView {
        message: or_empty(message),
        failure_type: or_empty(source),
        stack_trace,
        cause: None,
    }
}

/// The failure that the JSON object `doc` describes.
pub open spec fn failure_in(doc: Seq<char>) -> FailureInfoView {
    failure_of(
        text_member(doc, "message"@),
        text_member(doc, "source"@),
        text_member(doc, "stack_trace"@),
    )
}

/// A detail after one event with the given attributes: the start of the
/// execution brings its input, its completion its output, its failure the
/// failure.
pub open spec fn noted(
    detail: WorkflowDetailView,
    event_type: Seq<char>,
    input: Option<Seq<char>>,
    result: Option<Seq<char>>,
    failure: Option<FailureInfoView>,
) -> WorkflowDetailView {
    WorkflowDetailView {
        input: if is_own_event(event_type, "WorkflowExecutionStarted"@) && input is Some {
            input
        } else {
            detail.input
        },
        output: if is_own_event(event_type, "WorkflowExecutionCompleted"@) && result is Some {
            result
        } else {
            detail.output
        },
        failure: if is_own_event(event_type, "WorkflowExecutionFailed"@) && failure is Some {
            failure
        } else {
            detail.failure
        },
        ..detail
    }
}

/// A detail after one event.
pub open spec fn absorbed_one(detail: WorkflowDetailView, event: HistoryEventView) -> WorkflowDetailView {
    noted(
        detail,
        event.event_type,
        member_text(event.details, "input"@),
        member_text(event.details, "result"@),
        match member_text(event.details, "failure"@) {
            Some(doc) => Some(failure_in(doc)),
            None => None,
        },
    )
}

/// A detail after a run of events, in order.
pub open spec fn absorbed(detail: WorkflowDetailView, events: Seq<HistoryEventView>) -> WorkflowDetailView
    decreases events.len(),
{
    if events.len() == 0 {
        detail
    } else {
        absorbed_one(absorbed(detail, events.drop_last()), events.last())
    }
}

/// Looks a member of a JSON object up.
///
/// Trusted: names what `serde_json::from_str`, `serde_json::Value::get`,
/// the member's `to_string` and its `as_str` give for a document and a
/// key; the result depends on the two texts alone.
#[verifier::external_body]
pub(crate) fn member_of(doc: &str, key: &str) -> (r: Option<(String, Option<String>)>)
    ensures
        match r {
            Some((text, string)) => json_member(doc@, key@) == Some((text@, opt_view(string))),
            None => json_member(doc@, key@) is None,
        },
{
    match serde_json::from_str::<serde_json::Value>(doc) {
        Ok(value) => match value.get(key) {
            Some(member) => Some(
                (
                    member.to_string(),
                    match member.as_str() {
                        Some(text) => Some(String::from(text)),
                        None => None,
                    },
                ),
            ),
            None => None,
        },
        Err(_) => None,
    }
}

fn member_text_of(doc: &str, key: &str) -> (r: Option<String>)
    ensures
        opt_view(r) == member_text(doc@, key@),
{
    match member_of(doc, key) {
        Some((text, _)) => Some(text),
        None => None,
    }
}

fn text_member_of(doc: &str, key: &str) -> (r: Option<String>)
    ensures
        opt_view(r) == text_member(doc@, key@),
{
    match member_of(doc, key) {
        Some((_, string)) => string,
        None => None,
    }
}

fn occurs_in(s: &str, pat: &str) -> (r: bool)
    ensures
        r == contains(s@, pat@),
{
    find_in(&chars_of(s), &chars_of(pat)).is_some()
}

fn own_event(event_type: &str, name: &str) -> (r: bool)
    ensures
        r == is_own_event(event_type@, name@),
{
    occurs_in(event_type, name) && !occurs_in(event_type, "Child")
}

/// The failure that is made of a message, a source and a stack trace.
pub fn failure_from(
    message: Option<String>,
    source: Option<String>,
    stack_trace: Option<String>,
) -> (r: FailureInfo)
    ensures
        r@ == failure_of(opt_view(message), opt_view(source), opt_view(stack_trace)),
{
    FailureInfo {
        message: match message {
            Some(m) => m,
            None => String::new(),
        },
        failure_type: match source {
            Some(s) => s,
            None => String::new(),
        },
        stack_trace,
        cause: None,
    }
}

/// Takes from one event, given by its type and attributes, what it tells
/// about the execution.
pub fn note_event(
    detail: &mut WorkflowDetail,
    event_type: &str,
    input: Option<String>,
    result: Option<String>,
    failure: Option<FailureInfo>,
)
    ensures
        final(detail)@ == noted(
            old(detail)@,
            event_type@,
            opt_view(input),
            opt_view(result),
            opt_view(failure),
        ),
{
    if own_event(event_type, "WorkflowExecutionStarted") && input.is_some() {
        detail.input = input;
    }
    if own_event(event_type, "WorkflowExecutionCompleted") && result.is_some() {
        detail.output = result;
    }
    if own_event(event_type, "WorkflowExecutionFailed") && failure.is_some() {
        detail.failure = failure;
    }
}

/// Takes from one event what it tells about the execution.
pub fn absorb_event(detail: &mut WorkflowDetail, event: &HistoryEvent)
    ensures
        final(detail)@ == absorbed_one(old(detail)@, event@),
{
    let details = event.details.as_str();
    let input = member_text_of(details, "input");
    let result = member_text_of(details, "result");
    let failure = match member_text_of(details, "failure") {
        Some(doc) => Some(
            failure_from(
                text_member_of(doc.as_str(), "message"),
                text_member_of(doc.as_str(), "source"),
                text_member_of(doc.as_str(), "stack_trace"),
            ),
        ),
        None => None,
    };
    note_event(detail, event.event_type.as_str(), input, result, failure);
}

/// Takes from a run of events, in order, what they tell about the
/// execution.
pub fn absorb_events(detail: &mut WorkflowDetail, events: &Vec<HistoryEvent>)
    ensures
        final(detail)@ == absorbed(old(detail)@, views(events@)),
{
    let mut i: usize = 0;
    assert(views(events@).take(0) =~= Seq::<HistoryEventView>::empty());
    while i < events.len()
        invariant
            i <= events.len(),
            detail@ == absorbed(old(detail)@, views(events@).take(i as int)),
        decreases events.len() - i,
    {
        let ghost done = views(events@).take(i + 1);
        assert(done.drop_last() =~= views(events@).take(i as int));
        assert(done.last() == events@[i as int]@);
        absorb_event(detail, &events[i]);
        i += 1;
    }
    assert(views(events@).take(i as int) =~= views(events@));
}

} // verus!
