//! Interrupt-dispatch and event core of a small kernel: a bounded unique-id
//! allocator, a wait/notify listener primitive, an interrupt registry that
//! dispatches firing vectors to registered handlers, and the sleep/clock
//! syscalls that consume this machinery.
//!
//! Hardware interrupt context is bridged to the cooperative scheduler by
//! keeping every operation reachable from interrupt context non-blocking:
//! dispatch and allocation run to completion, and the only suspension point
//! is the waiter registered with an [`event_listener::EventListener`].

pub mod error;
pub mod event_listener;
pub mod id_allocator;
pub mod irq_manager;
pub mod syscall;
pub mod time;
pub mod tooling;
pub mod user;
