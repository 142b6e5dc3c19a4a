//! Account value lookup: input sanitising, the lookup workflow and the
//! projection of its state onto the page, as verified logic.

pub mod api;
pub mod decimal;
pub mod guard;
pub mod markup;
pub mod presenter;
pub mod session;
pub mod workflow;
