//! The persistent identity and synchronization record of one tracked project:
//! which key authenticates its git transport, and how the latest fetch on each
//! of its two sync channels ended.

pub mod api;
pub mod auth;
pub mod fetch;
pub mod foreign;
pub mod project;
pub mod stored;

pub use api::ApiProject;
pub use auth::AuthKey;
pub use fetch::FetchResult;
pub use project::{Project, ProjectId};
pub use stored::StoredProject;
