//! Combines two images into one by interleaving their RGBA pixels.
//!
//! The pipeline checks that both images share an encoding, brings them to a
//! common size, alternates their pixel blocks and hands the result to an
//! output placeholder that guards its capacity.

pub mod combine;
pub mod error;
pub mod format;
pub mod output;
pub mod picture;
pub mod pipeline;
pub mod reconcile;
