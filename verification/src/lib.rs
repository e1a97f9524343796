//! Order processing in three checked steps: validation, inventory
//! reservation and payment, each preceded by a wait.
//!
//! `order` holds the rules of each step and their composition; `task` holds
//! the resumable state machine that interleaves the waits with the checks,
//! so that an asynchronous driver only has to sleep and hand control back.

pub mod order;

pub mod task;
