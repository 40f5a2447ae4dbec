//! The navigable address of a view: a namespace and a stack of route
//! segments, of which the last one decides what is shown.

use vstd::prelude::*;
use crate::text::{clone_opt, lemma_views_push, opt_view, views};

verus! {

/// Routes of the executions family.
#[derive(Debug, PartialEq, Eq)]
pub enum WorkflowsRoute {
    Collection { query: Option<String> },
    Detail { workflow_id: String, run_id: Option<String>, tab: Option<String> },
    Activities { workflow_id: String, activity_id: Option<String> },
}

/// Routes of the schedules family.
#[derive(Debug, PartialEq, Eq)]
pub enum SchedulesRoute {
    Collection { query: Option<String> },
    Detail { schedule_id: String },
    Workflows { schedule_id: String, query: Option<String> },
}

#[derive(Debug, PartialEq, Eq)]
pub enum RouteSegment {
    Workflows(WorkflowsRoute),
    Schedules(SchedulesRoute),
}

#[derive(Debug, PartialEq, Eq)]
pub struct Location {
    pub namespace: String,
    pub segments: Vec<RouteSegment>,
}

pub enum WorkflowsRouteView {
    Collection { query: Option<Seq<char>> },
    Detail { workflow_id: Seq<char>, run_id: Option<Seq<char>>, tab: Option<Seq<char>> },
    Activities { workflow_id: Seq<char>, activity_id: Option<Seq<char>> },
}

pub enum SchedulesRouteView {
    Collection { query: Option<Seq<char>> },
    Detail { schedule_id: Seq<char> },
    Workflows { schedule_id: Seq<char>, query: Option<Seq<char>> },
}

pub enum RouteSegmentView {
    Workflows(WorkflowsRouteView),
    Schedules(SchedulesRouteView),
}

pub struct LocationView {
    pub namespace: Seq<char>,
    pub segments: Seq<RouteSegmentView>,
}

impl View for WorkflowsRoute {
    type V = WorkflowsRouteView;

    open spec fn view(&self) -> WorkflowsRouteView {
        match *self {
            WorkflowsRoute::Collection { query } => WorkflowsRouteView::Collection {
                query: opt_view(query),
            },
            WorkflowsRoute::Detail { workflow_id, run_id, tab } => WorkflowsRouteView::Detail {
                workflow_id: workflow_id@,
                run_id: opt_view(run_id),
                tab: opt_view(tab),
            },
            WorkflowsRoute::Activities { workflow_id, activity_id } => {
                WorkflowsRouteView::Activities {
                    workflow_id: workflow_id@,
                    activity_id: opt_view(activity_id),
                }
            },
        }
    }
}

impl View for SchedulesRoute {
    type V = SchedulesRouteView;

    open spec fn view(&self) -> SchedulesRouteView {
        match *self {
            SchedulesRoute::Collection { query } => SchedulesRouteView::Collection {
                query: opt_view(query),
            },
            SchedulesRoute::Detail { schedule_id } => SchedulesRouteView::Detail {
                schedule_id: schedule_id@,
            },
            SchedulesRoute::Workflows { schedule_id, query } => SchedulesRouteView::Workflows {
                schedule_id: schedule_id@,
                query: opt_view(query),
            },
        }
    }
}

impl View for RouteSegment {
    type V = RouteSegmentView;

    open spec fn view(&self) -> RouteSegmentView {
        match *self {
            RouteSegment::Workflows(route) => RouteSegmentView::Workflows(route@),
            RouteSegment::Schedules(route) => RouteSegmentView::Schedules(route@),
        }
    }
}

impl View for Location {
    type V = LocationView;

    open spec fn view(&self) -> LocationView {
        LocationView { namespace: self.namespace@, segments: views(self.segments@) }
    }
}

impl LocationView {
    /// The last segment, which decides the view to show.
    pub open spec fn leaf(self) -> Option<RouteSegmentView> {
        if self.segments.len() == 0 {
            None
        } else {
            Some(self.segments.last())
        }
    }
}

impl Clone for WorkflowsRoute {
    fn clone(&self) -> (r: Self)
        ensures
            r@ == self@,
    {
        match self {
            WorkflowsRoute::Collection { query } => WorkflowsRoute::Collection {
                query: clone_opt(query),
            },
            WorkflowsRoute::Detail { workflow_id, run_id, tab } => WorkflowsRoute::Detail {
                workflow_id: workflow_id.clone(),
                run_id: clone_opt(run_id),
                tab: clone_opt(tab),
            },
            WorkflowsRoute::Activities { workflow_id, activity_id } => WorkflowsRoute::Activities {
                workflow_id: workflow_id.clone(),
                activity_id: clone_opt(activity_id),
            },
        }
    }
}

impl Clone for SchedulesRoute {
    fn clone(&self) -> (r: Self)
        ensures
            r@ == self@,
    {
        match self {
            SchedulesRoute::Collection { query } => SchedulesRoute::Collection {
                query: clone_opt(query),
            },
            SchedulesRoute::Detail { schedule_id } => SchedulesRoute::Detail {
                schedule_id: schedule_id.clone(),
            },
            SchedulesRoute::Workflows { schedule_id, query } => SchedulesRoute::Workflows {
                schedule_id: schedule_id.clone(),
                query: clone_opt(query),
            },
        }
    }
}

impl Clone for RouteSegment {
    fn clone(&self) -> (r: Self)
        ensures
            r@ == self@,
    {
        match self {
            RouteSegment::Workflows(route) => RouteSegment::Workflows(route.clone()),
            RouteSegment::Schedules(route) => RouteSegment::Schedules(route.clone()),
        }
    }
}

impl Clone for Location {
    fn clone(&self) -> (r: Self)
        ensures
            r@ == self@,
    {
        let mut segments: Vec<RouteSegment> = Vec::new();
        let mut i: usize = 0;
        while i < self.segments.len()
            invariant
                i <= self.segments.len(),
                views(segments@) == views(self.segments@.take(i as int)),
            decreases self.segments.len() - i,
        {
            let segment = self.segments[i].clone();
            proof {
                lemma_views_push(segments@, segment);
                lemma_views_push(self.segments@.take(i as int), self.segments@[i as int]);
                assert(self.segments@.take(i as int).push(self.segments@[i as int])
                    =~= self.segments@.take(i + 1));
            }
            segments.push(segment);
            i += 1;
        }
        assert(self.segments@.take(i as int) =~= self.segments@);
        Location { namespace: self.namespace.clone(), segments }
    }
}

impl Location {
    /// The location of `namespace` with the given stack of segments.
    pub fn new(namespace: String, segments: Vec<RouteSegment>) -> (r: Self)
        ensures
            r.namespace == namespace,
            r.segments == segments,
    {
        Self { namespace, segments }
    }

    /// The last segment, which decides the view to show.
    pub fn leaf(&self) -> (r: Option<&RouteSegment>)
        ensures
            match r {
                Some(segment) => self.segments@.len() > 0 && *segment == self.segments@.last(),
                None => self.segments@.len() == 0,
            },
            opt_view(r) == self@.leaf(),
    {
        let n = self.segments.len();
        if n == 0 {
            None
        } else {
            Some(&self.segments[n - 1])
        }
    }
}

} // verus!
