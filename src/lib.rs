//! In-circuit ate pairing over the MNT4/MNT6 curve cycle: prepared G1/G2
//! points, the flipped Miller loop, and the final exponentiation.
//!
//! Field variables carry the assignment that the constraint system holds for
//! them (none while the system is only being set up). Native arithmetic on
//! the assigned values is done by `ark-ff`; everything built on top of it is
//! verified here against the spec functions that state the algorithms.

pub mod error;
pub mod field;
pub mod mnt4_fields;
pub mod mnt6_fields;
pub mod ate;
pub mod mnt4;
pub mod mnt6;
pub mod pairing;
