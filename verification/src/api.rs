//! What the remote collaboration service last reported about a project.

use vstd::prelude::*;

verus! {

/// A snapshot of a project as the remote service knows it. The record is
/// stored and handed back as it came: nothing here reads `sync` or parses the
/// two timestamps.
#[derive(Debug, PartialEq, Eq)]
pub struct ApiProject {
    pub name: String,
    pub description: Option<String>,
    pub repository_id: String,
    pub git_url: String,
    pub created_at: String,
    pub updated_at: String,
    /// Whether automatic synchronization with the service is switched on.
    pub sync: bool,
}

impl Clone for ApiProject {
    /// A clone is the same snapshot, field by field.
    fn clone(&self) -> (copy: Self)
        ensures
            copy == *self,
    {
        ApiProject {
            name: self.name.clone(),
            description: match &self.description {
                Some(text) => Some(text.clone()),
                None => None,
            },
            repository_id: self.repository_id.clone(),
            git_url: self.git_url.clone(),
            created_at: self.created_at.clone(),
            updated_at: self.updated_at.clone(),
            sync: self.sync,
        }
    }
}

} // verus!
