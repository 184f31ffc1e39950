//! State-transition core of a two-party wagering engine for chess matches.
//!
//! Users known by a numeric identity exchange invitations that carry a stake;
//! an accepted invitation becomes a match, and ending a match releases the pot
//! to the winner. The library never moves value itself: every operation
//! returns the transfer that its caller has to perform.

pub mod address;
pub mod escrow;
pub mod id_set;
pub mod laws;
pub mod ordered;
pub mod program;
pub mod services;
pub mod states;
