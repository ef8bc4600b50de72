//! What holds of the agent as a whole.

pub mod authentication;
pub mod course;
pub mod credentials;
pub mod listings;
pub mod models;
pub mod opening;
pub mod run;
pub mod servers;
pub mod sessions;
pub mod state;
pub mod texts;
pub mod titles;
pub mod using;
