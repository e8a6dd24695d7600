//! An observer/event-bus primitive: a registry mapping emitter keys to
//! ordered collections of callbacks, supporting insertion, bulk removal,
//! and a re-entrancy-safe retain pass, together with the plain data types
//! of the surrounding editor shell.

pub mod buffer;
pub mod editor_pane;
pub mod elements;
pub mod panel;
pub mod player;
pub mod static_data;
pub mod status_bar;
pub mod subscriber_set;
pub mod theme;
