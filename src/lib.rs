//! A relay-circuit dialer: a node identity kept in a key file, the circuit
//! address through a relay, and the session controller that reacts to
//! network events.
pub mod address;
pub mod identity;
pub mod session;
