//! The logic of a desktop productivity widget: the countdown calculator and
//! its once-a-second emitter, to-do items with their recurrence, the
//! settings tables, global-shortcut key combinations, window placement and
//! the public-holiday calendar.
//!
//! Every executable function is verified against its contract. The few
//! calls into `chrono`, `serde_json` and the standard library that the logic
//! relies on sit behind small wrappers in `clock`, `text` and `holiday`,
//! each with the contract it is trusted to meet.

pub mod clock;
pub mod config;
pub mod countdown;
pub mod holiday;
pub mod motivation;
pub mod presentation;
pub mod shortcut;
pub mod text;
pub mod todo;
pub mod window;
