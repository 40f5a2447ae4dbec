//! What the state machine's host needs to know of the backend: how its
//! failures read, and how it numbers the states of an execution.

pub mod traits;

pub use traits::{proto_status_to_domain, ClientError, ClientErrorView};
