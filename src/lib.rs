//! A three-party custody escrow: a client funds it, and the client or the
//! arbiter releases the held amount to the freelancer, once.
pub mod auth;
pub mod escrow;
pub mod identity;
pub mod laws;
pub mod monitor;
pub mod path_payment;
