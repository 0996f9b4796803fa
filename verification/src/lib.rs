//! Sidebar bookkeeping for a terminal multiplexer: host resource readings,
//! per-pane working time, and the labels and geometry of the status overlays.

pub mod time;
pub mod agent;
pub mod app;
pub mod geometry;
pub mod status;
pub mod system_resources;
pub mod work_timer;
