//! An automated teller machine's session logic, modeled as a finite state
//! machine: swiping a card begins a session, keyed-in pin digits accumulate
//! until `Enter` submits them, and every unrecognized combination of state
//! and action falls back to the waiting state.
//!
//! The machine's decision logic is a pure, total transition function; the
//! pin comparison goes through a deterministic digest of the ordered key
//! sequence, so the pin itself is never stored.

pub mod atm;
pub mod traits;

pub use atm::{Action, Atm, AtmView, Auth, Key};
pub use traits::{hash, Hashable, StateMachine};
