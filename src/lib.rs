//! Run-time core of a terminal dashboard: tabs, key chords, component
//! visibility and the orchestrator's action loop, all stated and proved with
//! Verus. Terminal I/O and rendering live outside this crate.

pub mod tab;
pub mod mode;
pub mod key;
pub mod action;
pub mod keymap;
pub mod chord;
pub mod bus;
pub mod event;
pub mod component;
pub mod app;
