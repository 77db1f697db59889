//! Derives the risk level of a tracker artifact from its severity,
//! probability and detectability factors.
pub mod compute;
pub mod decimal;
pub mod json;
pub mod laws;
pub mod locate;
pub mod model;
pub mod patch;
pub mod respond;
