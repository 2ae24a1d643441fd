//! Particle emission and ageing for a small collection of visual effects.
//!
//! Time is counted in nanoseconds, lengths in millionths of a world unit and
//! angles in microradians, so that every rule here is proved over integers.
pub mod particles;
pub mod random;
pub mod timer;
