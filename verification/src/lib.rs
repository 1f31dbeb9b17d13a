//! Orchestration core for a desktop widget renderer: configuration
//! resolution, per-monitor instance building, the live instance registry,
//! and dispatch of control-plane instructions onto that registry.

pub mod config;
pub mod control;
pub mod layer;
pub mod registry;
pub mod surface;
pub mod widget;
