//! Deep links: the navigable address of a view and its URI form.

pub mod laws;
pub mod location;
pub mod uri;

pub use location::{Location, RouteSegment, SchedulesRoute, WorkflowsRoute};
pub use uri::{format_deep_link, parse_deep_link, UriError};
