//! Task queues and their pollers.

use vstd::prelude::*;
use crate::domain::time::Timestamp;
use crate::text::views;

verus! {

/// A worker that polls a task queue. `rate_per_second_bits` is the bit
/// pattern of the rate as a 64-bit IEEE 754 number.
#[derive(Debug, Clone, PartialEq, Eq)]
pub struct Poller {
    pub identity: String,
    pub last_access_time: Option<Timestamp>,
    pub rate_per_second_bits: u64,
}

#[derive(Debug, Clone, PartialEq, Eq)]
pub struct TaskQueueInfo {
    pub name: String,
    pub pollers: Vec<Poller>,
}

pub struct PollerView {
    pub identity: Seq<char>,
    pub last_access_time: Option<Timestamp>,
    pub rate_per_second_bits: u64,
}

pub struct TaskQueueInfoView {
    pub name: Seq<char>,
    pub pollers: Seq<PollerView>,
}

impl View for Poller {
    type V = PollerView;

    open spec fn view(&self) -> PollerView {
        PollerView {
            identity: self.identity@,
            last_access_time: self.last_access_time,
            rate_per_second_bits: self.rate_per_second_bits,
        }
    }
}

impl View for TaskQueueInfo {
    type V = TaskQueueInfoView;

    open spec fn view(&self) -> TaskQueueInfoView {
        TaskQueueInfoView { name: self.name@, pollers: views(self.pollers@) }
    }
}

} // verus!
