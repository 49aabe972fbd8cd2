//! The project aggregate: identity, display data, the chosen key, the remote
//! snapshot, and the latest fetch outcome of each sync channel.

use crate::api::ApiProject;
use crate::auth::AuthKey;
use crate::fetch::FetchResult;
use std::path::PathBuf;
use vstd::prelude::*;

verus! {

/// The handle by which a project is known for its whole life. Whoever creates
/// the project supplies it and answers for its uniqueness.
#[derive(Debug, Clone, Copy, PartialEq, Eq, Structural, PartialOrd, Ord, Hash)]
pub struct ProjectId(pub u128);

/// One locally tracked working copy, optionally linked to a remote service.
///
/// The two fetch slots belong to two independent sync channels. Each holds at
/// most the outcome of the latest attempt on its channel, and is `None` until
/// the first attempt.
#[derive(Debug, PartialEq, Eq)]
pub struct Project {
    pub id: ProjectId,
    pub title: String,
    pub description: Option<String>,
    pub path: PathBuf,
    pub preferred_key: AuthKey,
    pub api: Option<ApiProject>,
    pub project_data_last_fetch: Option<FetchResult>,
    pub gitbutler_data_last_fetch: Option<FetchResult>,
}

impl AsRef<Project> for Project {
    /// A project viewed as itself.
    fn as_ref(&self) -> (project: &Project)
        ensures
            *project == *self,
    {
        self
    }
}

impl Project {
    /// A project as it is right after creation: the managed key, no link to a
    /// remote service, and no fetch attempted on either channel.
    pub open spec fn created(id: ProjectId, title: String, path: PathBuf) -> Project {
        Project {
            id,
            title,
            description: None,
            path,
            preferred_key: AuthKey::Generated,
            api: None,
            project_data_last_fetch: None,
            gitbutler_data_last_fetch: None,
        }
    }

    /// This project after an attempt on the project-data channel ended in
    /// `outcome`: the slot holds `outcome` alone, and nothing else has changed.
    pub open spec fn with_project_data_fetch(self, outcome: FetchResult) -> Project {
        Project { project_data_last_fetch: Some(outcome), ..self }
    }

    /// This project after an attempt on the gitbutler-data channel ended in
    /// `outcome`: the slot holds `outcome` alone, and nothing else has changed.
    pub open spec fn with_gitbutler_data_fetch(self, outcome: FetchResult) -> Project {
        Project { gitbutler_data_last_fetch: Some(outcome), ..self }
    }

    /// Creates a project under the handle `id`, anchored at `path`. No key is
    /// chosen yet, so the managed one is preferred.
    pub fn new(id: ProjectId, title: String, path: PathBuf) -> (project: Project)
        ensures
            project == Project::created(id, title, path),
    {
        Project {
            id,
            title,
            description: None,
            path,
            preferred_key: AuthKey::default(),
            api: None,
            project_data_last_fetch: None,
            gitbutler_data_last_fetch: None,
        }
    }

    /// Stores the outcome of the latest attempt on the project-data channel,
    /// in place of whatever the slot held.
    pub fn record_project_data_fetch(&mut self, outcome: FetchResult)
        ensures
            *final(self) == old(self).with_project_data_fetch(outcome),
    {
        self.project_data_last_fetch = Some(outcome);
    }

    /// Stores the outcome of the latest attempt on the gitbutler-data channel,
    /// in place of whatever the slot held.
    pub fn record_gitbutler_data_fetch(&mut self, outcome: FetchResult)
        ensures
            *final(self) == old(self).with_gitbutler_data_fetch(outcome),
    {
        self.gitbutler_data_last_fetch = Some(outcome);
    }
}

impl Clone for Project {
    /// A clone is the same project, field by field.
    fn clone(&self) -> (copy: Self)
        ensures
            copy == *self,
    {
        Project {
            id: self.id,
            title: self.title.clone(),
            description: match &self.description {
                Some(text) => Some(text.clone()),
                None => None,
            },
            path: self.path.clone(),
            preferred_key: self.preferred_key.clone(),
            api: match &self.api {
                Some(snapshot) => Some(snapshot.clone()),
                None => None,
            },
            project_data_last_fetch: match &self.project_data_last_fetch {
                Some(outcome) => Some(outcome.clone()),
                None => None,
            },
            gitbutler_data_last_fetch: match &self.gitbutler_data_last_fetch {
                Some(outcome) => Some(outcome.clone()),
                None => None,
            },
        }
    }
}

/// The two sync channels are independent: an outcome recorded on one leaves
/// the other's slot as it was, and two outcomes recorded on different channels
/// give the same project in either order.
pub proof fn lemma_fetch_channels_independent(
    project: Project,
    project_data: FetchResult,
    gitbutler_data: FetchResult,
)
    ensures
        project.with_project_data_fetch(project_data).gitbutler_data_last_fetch
            == project.gitbutler_data_last_fetch,
        project.with_gitbutler_data_fetch(gitbutler_data).project_data_last_fetch
            == project.project_data_last_fetch,
        ({
            let project_data_first = project.with_project_data_fetch(project_data);
            let gitbutler_data_first = project.with_gitbutler_data_fetch(gitbutler_data);
            project_data_first.with_gitbutler_data_fetch(gitbutler_data)
                == gitbutler_data_first.with_project_data_fetch(project_data)
        }),
{
}

/// A slot keeps only the latest outcome: recording `later` after `earlier` on
/// one channel gives the project that recording `later` alone gives.
pub proof fn lemma_latest_fetch_replaces(project: Project, earlier: FetchResult, later: FetchResult)
    ensures
        project.with_project_data_fetch(earlier).with_project_data_fetch(later)
            == project.with_project_data_fetch(later),
        project.with_gitbutler_data_fetch(earlier).with_gitbutler_data_fetch(later)
            == project.with_gitbutler_data_fetch(later),
{
}

} // verus!
