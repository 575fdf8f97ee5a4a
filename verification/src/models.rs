//! Entity types of the tracker and the validated inputs of each operation.
//!
//! Identifiers are opaque 128-bit values (rendered as UUID strings only at
//! the HTTP boundary); timestamps are epoch seconds.

use crate::store::Keyed;
use vstd::prelude::*;

verus! {

#[derive(Clone, Copy, PartialEq, Eq, Structural, Debug)]
pub enum Visibility {
    Public,
    Private,
    Unlisted,
}

#[derive(Clone, Copy, PartialEq, Eq, Structural, Debug)]
pub enum ProjectStatus {
    Draft,
    Active,
    Archived,
}

#[derive(Clone, Copy, PartialEq, Eq, Structural, Debug)]
pub enum IssueStatus {
    Open,
    Closed,
    InProgress,
}

#[derive(Clone, Copy, PartialEq, Eq, Structural, Debug)]
pub enum ProjectRole {
    Owner,
    Maintainer,
    Contributor,
    Viewer,
}

#[derive(Clone, Debug)]
pub struct Project {
    pub id: u128,
    pub name: String,
    pub description: String,
    pub created_at: i64,
    pub visibility: Visibility,
    pub status: ProjectStatus,
}

impl Keyed for Project {
    open spec fn key(&self) -> u128 {
        self.id
    }

    fn key_of(&self) -> (k: u128) {
        self.id
    }

    fn duplicate(&self) -> (r: Project) {
        Project {
            id: self.id,
            name: self.name.clone(),
            description: self.description.clone(),
            created_at: self.created_at,
            visibility: self.visibility,
            status: self.status,
        }
    }
}

#[derive(Clone, Debug)]
pub struct Issue {
    pub id: u128,
    pub project_id: u128,
    pub title: String,
    pub description: String,
    pub status: IssueStatus,
    pub created_at: i64,
    pub updated_at: i64,
}

impl Keyed for Issue {
    open spec fn key(&self) -> u128 {
        self.id
    }

    fn key_of(&self) -> (k: u128) {
        self.id
    }

    fn duplicate(&self) -> (r: Issue) {
        Issue {
            id: self.id,
            project_id: self.project_id,
            title: self.title.clone(),
            description: self.description.clone(),
            status: self.status,
            created_at: self.created_at,
            updated_at: self.updated_at,
        }
    }
}

#[derive(Clone, Debug)]
pub struct User {
    pub id: u128,
    pub username: String,
    pub email: String,
    /// The Argon2 hash of the password, in PHC string form; never the
    /// password itself.
    pub password: String,
    pub first_name: Option<String>,
    pub last_name: Option<String>,
    pub created_at: i64,
    pub updated_at: i64,
}

impl Keyed for User {
    open spec fn key(&self) -> u128 {
        self.id
    }

    fn key_of(&self) -> (k: u128) {
        self.id
    }

    fn duplicate(&self) -> (r: User) {
        User {
            id: self.id,
            username: self.username.clone(),
            email: self.email.clone(),
            password: self.password.clone(),
            first_name: clone_opt_string(&self.first_name),
            last_name: clone_opt_string(&self.last_name),
            created_at: self.created_at,
            updated_at: self.updated_at,
        }
    }
}

fn clone_opt_string(s: &Option<String>) -> (r: Option<String>)
    ensures
        r == *s,
{
    match s {
        Some(v) => Some(v.clone()),
        None => None,
    }
}

#[derive(Clone, Debug)]
pub struct ProjectMember {
    pub user_id: u128,
    pub project_id: u128,
    pub role: ProjectRole,
    pub joined_at: i64,
}

impl ProjectMember {
    /// An exact copy; unlike `clone`, its contract is visible to the verifier.
    pub fn duplicate(&self) -> (r: ProjectMember)
        ensures
            r == *self,
    {
        ProjectMember {
            user_id: self.user_id,
            project_id: self.project_id,
            role: self.role,
            joined_at: self.joined_at,
        }
    }
}

/// Validated login input: a user matches when the username or the email
/// equals the stored one.
pub struct LoginInput {
    pub username: String,
    pub email: String,
    pub password: String,
}

/// Validated registration input; the password arrives raw and is hashed
/// before anything is stored.
pub struct RegisterInput {
    pub username: String,
    pub email: String,
    pub password: String,
    pub first_name: Option<String>,
    pub last_name: Option<String>,
}

/// Validated token-refresh input.
pub struct RefreshInput {
    pub refresh_token: String,
}

/// Validated input of project creation.
pub struct CreateProjectInput {
    pub name: String,
    pub description: String,
}

/// Validated partial update of a project: absent fields keep their stored
/// values.
pub struct UpdateProjectInput {
    pub name: Option<String>,
    pub description: Option<String>,
    pub status: Option<ProjectStatus>,
    pub visibility: Option<Visibility>,
}

/// Validated input of issue creation.
pub struct CreateIssueInput {
    pub project_id: u128,
    pub title: String,
    pub description: String,
}

/// Validated partial update of an issue: absent fields keep their stored
/// values.
pub struct UpdateIssueInput {
    pub title: Option<String>,
    pub description: Option<String>,
    pub status: Option<IssueStatus>,
}

/// Validated input of direct user creation.
pub struct CreateUserInput {
    pub username: String,
    pub email: String,
    pub password: String,
}

/// Validated input of adding a project member.
pub struct AddMemberInput {
    pub user_id: u128,
    pub project_id: u128,
    pub role: ProjectRole,
}

impl Project {
    /// The record after a partial update: present fields are taken from the
    /// input, absent ones keep their stored values; the id and the creation
    /// time always stay.
    pub fn merged(&self, input: UpdateProjectInput) -> (r: Project)
        ensures
            r.id == self.id,
            r.created_at == self.created_at,
            r.name == (match input.name {
                Some(n) => n,
                None => self.name,
            }),
            r.description == (match input.description {
                Some(d) => d,
                None => self.description,
            }),
            r.status == (match input.status {
                Some(s) => s,
                None => self.status,
            }),
            r.visibility == (match input.visibility {
                Some(v) => v,
                None => self.visibility,
            }),
    {
        Project {
            id: self.id,
            name: match input.name {
                Some(n) => n,
                None => self.name.clone(),
            },
            description: match input.description {
                Some(d) => d,
                None => self.description.clone(),
            },
            created_at: self.created_at,
            visibility: match input.visibility {
                Some(v) => v,
                None => self.visibility,
            },
            status: match input.status {
                Some(s) => s,
                None => self.status,
            },
        }
    }
}

impl Issue {
    /// The record after a partial update: present fields are taken from the
    /// input, absent ones keep their stored values; the id, the project and
    /// the creation time always stay, and the update time becomes `now`.
    pub fn merged(&self, input: UpdateIssueInput, now: i64) -> (r: Issue)
        ensures
            r.id == self.id,
            r.project_id == self.project_id,
            r.created_at == self.created_at,
            r.updated_at == now,
            r.title == (match input.title {
                Some(t) => t,
                None => self.title,
            }),
            r.description == (match input.description {
                Some(d) => d,
                None => self.description,
            }),
            r.status == (match input.status {
                Some(s) => s,
                None => self.status,
            }),
    {
        Issue {
            id: self.id,
            project_id: self.project_id,
            title: match input.title {
                Some(t) => t,
                None => self.title.clone(),
            },
            description: match input.description {
                Some(d) => d,
                None => self.description.clone(),
            },
            status: match input.status {
                Some(s) => s,
                None => self.status,
            },
            created_at: self.created_at,
            updated_at: now,
        }
    }
}

} // verus!
