//! Stream rules of a semantic drift engine: which embedding establishes the
//! baseline, which lengths are refused and why, how errors read, and how a
//! health score is labelled.

pub mod error;
pub mod health;
pub mod stream;
pub mod tracker;

pub use error::UpdateError;
pub use health::HealthLabel;
pub use stream::StreamState;
pub use tracker::{Step, Tracker};
