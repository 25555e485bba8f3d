//! Newsletter subscription core: identity validation, a transactional
//! subscription store, confirmation tokens, and the subscribe / confirm
//! workflows, each stated and proved against a mathematical model.

pub mod domain;
pub mod errors;
pub mod store;
pub mod token;
pub mod email;
pub mod subscriptions;
pub mod confirm;
pub mod laws;
