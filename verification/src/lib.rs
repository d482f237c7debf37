//! Interactive session controller for a chemical-equation balancer.
//!
//! The library holds the session state machine of a small terminal
//! application: the input modes, the key dispatcher, the live-validation
//! pipeline that classifies what the `chem_eq` crate makes of the typed
//! text, and the pure projection of the state into a frame of regions.
//! The terminal and clipboard themselves are driven by an unverified shell
//! around this crate.

pub mod eval;
pub mod keys;
pub mod render;
pub mod session;
