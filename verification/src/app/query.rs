//! Small rules of the state machine that work on text: the filter for the
//! executions of a schedule, the tab that a name stands for, and the wording
//! of a refused deep link.

use vstd::prelude::*;
use vstd::string::*;
use crate::nav::uri::UriError;
use crate::text::{
    append_chars, append_str, chars_of, lowercase, opt_view, same_text, string_of, to_lower, trim,
    trim_chars,
};

verus! {

/// A text with a backslash before each single quote.
pub open spec fn escaped_quotes(s: Seq<char>) -> Seq<char>
    decreases s.len(),
{
    if s.len() == 0 {
        s
    } else if s[0] == '\'' {
        seq!['\\', '\''] + escaped_quotes(s.drop_first())
    } else {
        seq![s[0]] + escaped_quotes(s.drop_first())
    }
}

/// The filter that selects the executions that a schedule started.
pub open spec fn schedule_filter(schedule_id: Seq<char>) -> Seq<char> {
    "ScheduledBy = '"@ + escaped_quotes(schedule_id) + "'"@
}

/// The filter for the executions of a schedule, narrowed by the caller's
/// filter where that is not blank.
pub open spec fn combined_query(schedule_id: Seq<char>, extra: Option<Seq<char>>) -> Seq<char> {
    match extra {
        Some(filter) => if trim(filter).len() == 0 {
            schedule_filter(schedule_id)
        } else {
            "("@ + schedule_filter(schedule_id) + ") AND ("@ + trim(filter) + ")"@
        },
        None => schedule_filter(schedule_id),
    }
}

/// The tab of an execution's detail view that a lowercase name stands for;
/// the first tab for an unknown name.
pub open spec fn tab_for(name: Seq<char>) -> usize {
    if name == "io"@ || name == "input"@ || name == "output"@ || name == "input-output"@ || name
        == "input_output"@ {
        1
    } else if name == "history"@ {
        2
    } else if name == "pending"@ || name == "pending-activities"@ || name
        == "pending_activities"@ || name == "activities"@ {
        3
    } else if name == "task-queue"@ || name == "task_queue"@ || name == "taskqueue"@ {
        4
    } else {
        0
    }
}

/// The wording of the reason for refusing a deep link.
pub open spec fn uri_error_text(e: UriError) -> Seq<char> {
    match e {
        UriError::InvalidScheme => "invalid scheme"@,
        UriError::InvalidAuthority => "invalid authority"@,
        UriError::MissingNamespace => "missing namespace"@,
        UriError::InvalidPath => "invalid path"@,
        UriError::UnsupportedRoute => "unsupported route"@,
    }
}

/// Puts a backslash before each single quote.
pub fn escape_single_quotes(input: &str) -> (out: String)
    ensures
        out@ == escaped_quotes(input@),
{
    let s = chars_of(input);
    let mut out: Vec<char> = Vec::new();
    let mut i: usize = 0;
    assert(s@.skip(0) =~= s@);
    while i < s.len()
        invariant
            i <= s.len(),
            escaped_quotes(s@) == out@ + escaped_quotes(s@.skip(i as int)),
        decreases s.len() - i,
    {
        let ghost before = out@;
        assert(s@.skip(i as int).drop_first() =~= s@.skip(i + 1));
        assert(s@.skip(i as int)[0] == s@[i as int]);
        if s[i] == '\'' {
            out.push('\\');
            out.push('\'');
            assert(out@ =~= before + seq!['\\', '\'']);
        } else {
            out.push(s[i]);
            assert(out@ =~= before + seq![s@[i as int]]);
        }
        i += 1;
    }
    assert(s@.skip(i as int) =~= Seq::<char>::empty());
    string_of(&out)
}

/// The filter for the executions of a schedule, narrowed by the caller's
/// filter where that is not blank.
pub fn combine_schedule_workflow_query(schedule_id: &str, extra: Option<&str>) -> (out: String)
    ensures
        out@ == combined_query(schedule_id@, opt_view(extra)),
{
    let mut base: Vec<char> = Vec::new();
    append_str(&mut base, "ScheduledBy = '");
    append_str(&mut base, escape_single_quotes(schedule_id).as_str());
    append_str(&mut base, "'");
    assert(base@ =~= schedule_filter(schedule_id@));
    let extra = match extra {
        Some(filter) => filter,
        None => {
            return string_of(&base);
        },
    };
    let trimmed = trim_chars(&chars_of(extra));
    if trimmed.len() == 0 {
        return string_of(&base);
    }
    let mut out: Vec<char> = Vec::new();
    append_str(&mut out, "(");
    append_chars(&mut out, &base);
    append_str(&mut out, ") AND (");
    append_chars(&mut out, &trimmed);
    append_str(&mut out, ")");
    assert(out@ =~= "("@ + schedule_filter(schedule_id@) + ") AND ("@ + trim(extra@) + ")"@);
    string_of(&out)
}

/// The tab of an execution's detail view that a lowercase name stands for.
pub fn tab_index(name: &str) -> (tab: usize)
    ensures
        tab == tab_for(name@),
{
    if same_text(name, "io") || same_text(name, "input") || same_text(name, "output") || same_text(
        name,
        "input-output",
    ) || same_text(name, "input_output") {
        1
    } else if same_text(name, "history") {
        2
    } else if same_text(name, "pending") || same_text(name, "pending-activities") || same_text(
        name,
        "pending_activities",
    ) || same_text(name, "activities") {
        3
    } else if same_text(name, "task-queue") || same_text(name, "task_queue") || same_text(
        name,
        "taskqueue",
    ) {
        4
    } else {
        0
    }
}

/// The tab that the `tab` parameter of a deep link stands for, whatever its
/// case.
pub fn workflow_tab_from_param(tab: &str) -> (index: usize)
    ensures
        index == tab_for(lowercase(tab@)),
{
    let lower = to_lower(tab);
    tab_index(lower.as_str())
}

/// The wording of the reason for refusing a deep link.
pub fn format_uri_error(err: UriError) -> (text: &'static str)
    ensures
        text@ == uri_error_text(err),
{
    match err {
        UriError::InvalidScheme => "invalid scheme",
        UriError::InvalidAuthority => "invalid authority",
        UriError::MissingNamespace => "missing namespace",
        UriError::InvalidPath => "invalid path",
        UriError::UnsupportedRoute => "unsupported route",
    }
}

} // verus!
