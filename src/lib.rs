//! Login and authorization for a network of controllers: the OAuth login protocol as a
//! state machine driven by the outcomes of its outside steps, first-login provisioning,
//! audit entries, the fail-closed permission gate and roster redaction.

pub mod audit;
pub mod error;
pub mod gate;
pub mod login;
pub mod profile;
pub mod roster;
pub mod user;
