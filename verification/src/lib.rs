//! Plain-data core of a binding to the FMOD Ex audio engine.
//!
//! The native engine is reached through a foreign interface that lives
//! outside this crate.  What lives here is everything that can be stated
//! and checked on plain values: the status and enumeration codes that the
//! engine reports and their translation to typed values, the mode bit sets
//! that sound creation takes, and the plain structures that are filled in
//! or handed over at the boundary.

pub mod fmod;
pub mod fmod_sys;
pub mod types;
