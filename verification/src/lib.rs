//! Supervision of one conversation thread: messages that arrive on the thread
//! are relayed in order to a consumer, and a two-stage inactivity timer warns
//! and then ends the session when nothing arrives.
//!
//! The crate decides and keeps state; it performs no I/O and never waits. The
//! program around it delivers events (a message, a lifecycle change, the
//! current time) and carries out the steps that come back.
//!
//! - [`thread_message`]: the message that is relayed.
//! - [`thread_watcher`]: the watched thread with its relay queue, and the
//!   handler that turns events of the gateway into writes to the queue and
//!   into the end of the session.
//! - [`timeout`]: the inactivity timer.
//! - [`coordinator`]: the three of them as one session, which ends when the
//!   first of its tasks does.
//! - [`outcome`]: why a session ended, and the failures it knows.
//! - [`notice`]: what the timer tells the thread.
//! - [`duration`]: durations as texts.
//! - [`prompt`]: what the consumer is given to read.
//! - [`tools`]: the tool through which the consumer answers.
//! - [`session`]: the request that starts a session on the orchestration
//!   server.
//!
//! Each type has a view, a plain mathematical value, and each function says
//! in terms of the views what it returns and what it changes. What holds of
//! several functions together is stated and proved in the `lemma_` functions
//! that stand beside them.

pub mod coordinator;
pub mod duration;
pub mod notice;
pub mod outcome;
pub mod prompt;
pub mod session;
pub mod thread_message;
pub mod thread_watcher;
pub mod timeout;
pub mod tools;
