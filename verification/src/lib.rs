//! Typed, bidirectional hand-off between a caller and a cooperatively
//! scheduled task.
//!
//! A caller and a task exchange single owned values over a raw stackful
//! context-switch engine that can only move one untyped machine word per
//! switch. The engine itself (stack allocation, register save and restore,
//! the switch) is out of scope and cannot be checked here; what this crate
//! verifies is the protocol layered on top of it:
//!
//! - [`messages`]: the tagged reply type that a switch out of the task
//!   carries, so the caller can tell a suspension from the task's final
//!   return, and the two task-side encode chokepoints.
//! - [`slot`]: the transfer slot, the single-value channel a switch uses
//!   once per crossing; its contracts force every value to be deposited into
//!   an empty slot and moved out at most once.
//! - [`gate`]: the caller-side state machine behind `resume_with` - when a
//!   resume is allowed, what each delivered reply makes it return, and that
//!   a completed task refuses every later resume with `DeadTask`.
//!
//! The unverifiable rim - boxing a value into a raw word, the engine calls,
//! and the spawn trampoline - lives outside this crate and hands these
//! functions plain values.

pub mod gate;
pub mod messages;
pub mod slot;
