//! Challenge store and credential primitives for a login flow: single-use,
//! self-expiring challenges, password hashing, and signed session tokens,
//! composed into register, login and session-check decisions.

pub mod auth;
pub mod challenge;
pub mod clock;
pub mod password;
pub mod settings;
pub mod store;
pub mod text;
pub mod token;
