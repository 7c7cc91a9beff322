//! Waiting for a GPIO level or edge, modelled as a verified per-call state
//! machine. The async plumbing that drives it lives outside the library.

pub mod level;
pub mod wait;
pub mod lemmas;
