//! Interaction engine of a terminal dashboard for a workflow-orchestration
//! service: state machine, kind registry, deep-link codec, event mapping and
//! worker protocol, each with a machine-checked contract.

pub mod action;
pub mod app;
pub mod client;
pub mod domain;
pub mod event;
pub mod input;
pub mod kinds;
pub mod nav;
pub mod text;
pub mod widgets;
pub mod worker;
