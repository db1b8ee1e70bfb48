//! Registration of the channel (email or telegram) through which a user is notified, and
//! later changes to it.
//!
//! The library holds the user record and its row form in the store, the checks on submitted
//! data, and the registration and update workflows. A workflow is a state machine: it says
//! which lookup, write or verification to perform next, and takes the outcome back, so that
//! the caller does the I/O and every decision is made, and proved, here.
use vstd::prelude::*;

pub mod auth;
pub mod errors;
pub mod notifier;
pub mod payload;
pub mod query;
pub mod register;
pub mod store;
pub mod update;
pub mod user;
pub mod workflow;

verus! {

} // verus!
