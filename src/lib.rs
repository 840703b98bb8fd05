//! A sequence of named, timed stages played one after another, with
//! play / pause / reset bookkeeping over a millisecond clock that the caller
//! reads and hands in.
pub mod stages;
pub mod timer;
pub mod controls;

pub use crate::stages::{Stage, StageView, Stages, StagesView};
pub use crate::timer::{RunState, Timer, TimerView};
pub use crate::controls::{format_time, TimerApp};
