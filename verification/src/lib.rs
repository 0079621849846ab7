//! Cancellation and lifetime safety for handlers that run on a single-threaded
//! event loop.
//!
//! A request handler runs as one pending operation. The host may revoke it
//! through a cancellation signal, and a fatal fault elsewhere may force the
//! most recently started operation to abort. This crate holds the decisions
//! of that subsystem as state machines whose transitions are proved:
//!
//! * [`signal`]: the two ends of a one-shot cancellation signal;
//! * [`cancellable_promise`]: the race between an operation and a signal,
//!   settled exactly once by whichever comes first;
//! * [`registry`]: the single slot that remembers the latest controller;
//! * [`dispatch`]: the life cycle of request invocations around the three;
//! * [`event`]: how a handler's attributes select its entry point.
//!
//! Nothing here waits or calls back. The host delivers what happens (a
//! signal fired, an operation finished, a fault struck) by calling a
//! transition, and acts on what the transition returns. Each type has a view,
//! its state as a plain value, and each transition says what it makes of the
//! view; the laws of the subsystem are proof functions over these views.

pub mod cancellable_promise;
pub mod dispatch;
pub mod event;
pub mod registry;
pub mod signal;
