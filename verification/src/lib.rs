//! Tasks that a bounded set of people approve or reject by vote, the notifications that
//! tell each of them so, and the status that the votes add up to.
//!
//! The rows live in a store that offers conditional writes on one row at a time and
//! nothing more: insert if absent, update if a token still has its value, update if the
//! row exists, merge into a set. This crate holds the rules, not the connection. Every
//! operation is a function of a stage and the store's last reply to the next move:
//! either a statement to run, with the stage to come back with, or the result.
//!
//! ```text
//! let mut task = Task::with_pk(owner, id);
//! let mut stage = VoteStage::Begin;
//! let mut reply = Reply::Start;
//! let result = loop {
//!     match task.update_resolved(voter, stage, reply) {
//!         Next::Run(query, next) => {
//!             reply = run(&query);      // the caller's connection to the store
//!             stage = next;
//!         }
//!         Next::Done(result) => break result,
//!     }
//! };
//! ```
//!
//! [`statement`] gives each statement its text and parameters; [`model`] says what the
//! store does with it; [`db`] and [`api`] hold the operations; [`theorems`] proves what
//! they come to when the store behaves as the model says.

pub mod api;
pub mod columns;
pub mod db;
pub mod error;
pub mod field;
pub mod id;
pub mod idset;
pub mod model;
pub mod statement;
pub mod store;
pub mod text;
pub mod theorems;
