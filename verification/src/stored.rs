//! The persisted form of a project, and the defaults that fill what an older
//! record lacks.

use crate::api::ApiProject;
use crate::auth::AuthKey;
use crate::fetch::FetchResult;
use crate::project::{Project, ProjectId};
use std::path::PathBuf;
use vstd::prelude::*;

verus! {

/// A project as a persisted record holds it.
///
/// Records written before the key choice and the fetch slots existed lack
/// those fields. A field that the record lacks is `None` here, so every such
/// record still loads.
#[derive(Debug, PartialEq, Eq)]
pub struct StoredProject {
    pub id: ProjectId,
    pub title: String,
    pub description: Option<String>,
    pub path: PathBuf,
    /// `None` where the record names no key.
    pub preferred_key: Option<AuthKey>,
    pub api: Option<ApiProject>,
    pub project_data_last_fetch: Option<FetchResult>,
    pub gitbutler_data_last_fetch: Option<FetchResult>,
}

impl StoredProject {
    /// The project that this record loads as. A record that names no key
    /// prefers the managed one; a fetch slot that the record lacks has seen no
    /// attempt; everything else is taken as it stands.
    pub open spec fn loaded(self) -> Project {
        Project {
            id: self.id,
            title: self.title,
            description: self.description,
            path: self.path,
            preferred_key: match self.preferred_key {
                Some(key) => key,
                None => AuthKey::Generated,
            },
            api: self.api,
            project_data_last_fetch: self.project_data_last_fetch,
            gitbutler_data_last_fetch: self.gitbutler_data_last_fetch,
        }
    }
}

impl Project {
    /// The record that this project is persisted as: every field is written,
    /// the preferred key included.
    pub open spec fn stored(self) -> StoredProject {
        StoredProject {
            id: self.id,
            title: self.title,
            description: self.description,
            path: self.path,
            preferred_key: Some(self.preferred_key),
            api: self.api,
            project_data_last_fetch: self.project_data_last_fetch,
            gitbutler_data_last_fetch: self.gitbutler_data_last_fetch,
        }
    }

    /// Loads a project from its persisted record, filling in the defaults for
    /// what the record lacks. Loading never fails.
    pub fn from_stored(record: StoredProject) -> (project: Project)
        ensures
            project == record.loaded(),
    {
        Project {
            id: record.id,
            title: record.title,
            description: record.description,
            path: record.path,
            preferred_key: match record.preferred_key {
                Some(key) => key,
                None => AuthKey::default(),
            },
            api: record.api,
            project_data_last_fetch: record.project_data_last_fetch,
            gitbutler_data_last_fetch: record.gitbutler_data_last_fetch,
        }
    }

    /// Turns the project into the record that persists it.
    pub fn into_stored(self) -> (record: StoredProject)
        ensures
            record == self.stored(),
    {
        StoredProject {
            id: self.id,
            title: self.title,
            description: self.description,
            path: self.path,
            preferred_key: Some(self.preferred_key),
            api: self.api,
            project_data_last_fetch: self.project_data_last_fetch,
            gitbutler_data_last_fetch: self.gitbutler_data_last_fetch,
        }
    }
}

/// Storing a project and loading the record again gives back the project,
/// equal in every field.
pub proof fn lemma_store_then_load(project: Project)
    ensures
        project.stored().loaded() == project,
{
}

/// A record that lacks the key choice and both fetch slots loads all the same:
/// with the managed key preferred and no fetch attempted on either channel.
pub proof fn lemma_missing_fields_load_as_defaults(record: StoredProject)
    requires
        record.preferred_key is None,
        record.project_data_last_fetch is None,
        record.gitbutler_data_last_fetch is None,
    ensures
        record.loaded().preferred_key == AuthKey::Generated,
        record.loaded().project_data_last_fetch is None,
        record.loaded().gitbutler_data_last_fetch is None,
{
}

} // verus!
