//! The thread-safe repositories: one verified reader-writer lock per entity
//! type guards that type's whole collection, and every operation runs inside
//! a single critical section.
//!
//! Operations on one store are therefore linearizable: a concurrent history
//! is some serialization of the sequential engine's exact contracts, so no
//! reader ever observes a partially applied write. The lock is vstd's
//! verified primitive, which has no poisoned state: a store can never become
//! permanently unusable after a failed critical section.

use crate::credentials::{login_matches, password_matches, CredentialStore};
use crate::errors::CoreError;
use crate::members::MembershipIndex;
use crate::models::{
    Issue, LoginInput, Project, ProjectMember, RegisterInput, UpdateIssueInput, UpdateProjectInput,
    User,
};
use crate::store::{distinct_keys, Keyed, RepositoryCore};
use crate::usecases::{issues_of_project, update_issue, update_project};
use vstd::prelude::*;
use vstd::rwlock::{RwLock, RwLockPredicate};

verus! {

/// The lock invariant of a keyed store: the engine inside is well-formed.
pub struct StoreInv<T> {
    marker: core::marker::PhantomData<T>,
}

impl<T: Keyed> RwLockPredicate<RepositoryCore<T>> for StoreInv<T> {
    open spec fn inv(self, v: RepositoryCore<T>) -> bool {
        v.wf()
    }
}

/// The lock invariant of the credential store: its user store is well-formed.
pub struct CredentialsInv;

impl RwLockPredicate<CredentialStore> for CredentialsInv {
    open spec fn inv(self, v: CredentialStore) -> bool {
        v.wf()
    }
}

/// The membership index maintains no invariant of its own.
pub struct MembersInv;

impl RwLockPredicate<MembershipIndex> for MembersInv {
    open spec fn inv(self, v: MembershipIndex) -> bool {
        true
    }
}

/// The thread-safe project repository.
pub struct InMemoryProjectRepo {
    store: RwLock<RepositoryCore<Project>, StoreInv<Project>>,
}

impl InMemoryProjectRepo {
    pub fn new() -> Self {
        InMemoryProjectRepo {
            store: RwLock::new(
                RepositoryCore::new(),
                Ghost(StoreInv { marker: core::marker::PhantomData }),
            ),
        }
    }

    /// Insert or overwrite by id, atomically; never rejects.
    pub fn save(&self, project: Project) {
        let (mut core, handle) = self.store.acquire_write();
        core.save(project);
        handle.release_write(core);
    }

    /// A point-in-time snapshot: ids are pairwise distinct and every record
    /// is complete — a concurrent writer's effect is either fully present or
    /// fully absent.
    pub fn list(&self) -> (r: Vec<Project>)
        ensures
            distinct_keys(r@),
    {
        let read = self.store.acquire_read();
        let r = read.borrow().list();
        read.release_read();
        r
    }

    /// A copy of the record stored under `id` at one instant, if any.
    pub fn get_by_id(&self, id: u128) -> (r: Option<Project>)
        ensures
            r matches Some(p) ==> p.id == id,
    {
        let read = self.store.acquire_read();
        let r = read.borrow().get_by_id(id);
        read.release_read();
        r
    }

    /// Remove by id, atomically; false when the id was absent.
    pub fn delete(&self, id: u128) -> bool {
        let (mut core, handle) = self.store.acquire_write();
        let r = core.delete(id);
        handle.release_write(core);
        r
    }

    /// Replace the record carrying the project's id, atomically; false when
    /// the id is absent — update never creates.
    pub fn update(&self, project: Project) -> bool {
        let (mut core, handle) = self.store.acquire_write();
        let r = core.update(project);
        handle.release_write(core);
        r
    }

    /// Partial update in one critical section: fetch, merge and replace
    /// atomically, so two concurrent merges cannot interleave.
    pub fn update_merged(&self, id: u128, input: UpdateProjectInput) -> (r: Result<
        Project,
        CoreError,
    >)
        ensures
            r matches Ok(p) ==> p.id == id,
            r matches Err(e) ==> e == CoreError::NotFound,
    {
        let (mut core, handle) = self.store.acquire_write();
        let r = update_project(&mut core, id, input);
        handle.release_write(core);
        r
    }
}

impl Default for InMemoryProjectRepo {
    fn default() -> Self {
        Self::new()
    }
}

/// The project repository under the name its storage crate used.
pub type InMemoryProjectRepository = InMemoryProjectRepo;

/// The thread-safe issue repository.
pub struct InMemoryIssueRepo {
    store: RwLock<RepositoryCore<Issue>, StoreInv<Issue>>,
}

impl InMemoryIssueRepo {
    pub fn new() -> Self {
        InMemoryIssueRepo {
            store: RwLock::new(
                RepositoryCore::new(),
                Ghost(StoreInv { marker: core::marker::PhantomData }),
            ),
        }
    }

    /// The issues of one project at one instant, as copies.
    pub fn list_by_project(&self, project_id: u128) -> (r: Vec<Issue>)
        ensures
            forall|i: int| 0 <= i < r@.len() ==> #[trigger] r@[i].project_id == project_id,
    {
        let read = self.store.acquire_read();
        let r = issues_of_project(read.borrow(), project_id);
        read.release_read();
        proof {
            crate::usecases::lemma_issues_of_project(read.view()@, project_id);
        }
        r
    }

    /// A copy of the issue stored under `id` at one instant, if any.
    pub fn get_by_id(&self, id: u128) -> (r: Option<Issue>)
        ensures
            r matches Some(p) ==> p.id == id,
    {
        let read = self.store.acquire_read();
        let r = read.borrow().get_by_id(id);
        read.release_read();
        r
    }

    /// Insert or overwrite by id, atomically; never rejects.
    pub fn save(&self, issue: Issue) {
        let (mut core, handle) = self.store.acquire_write();
        core.save(issue);
        handle.release_write(core);
    }

    /// Replace the record carrying the issue's id, atomically; false when
    /// the id is absent — update never creates.
    pub fn update(&self, issue: Issue) -> bool {
        let (mut core, handle) = self.store.acquire_write();
        let r = core.update(issue);
        handle.release_write(core);
        r
    }

    /// Partial update in one critical section: fetch, merge and replace
    /// atomically.
    pub fn update_merged(&self, id: u128, input: UpdateIssueInput) -> (r: Result<Issue, CoreError>)
        ensures
            r matches Ok(p) ==> p.id == id,
            r matches Err(e) ==> e == CoreError::NotFound,
    {
        let (mut core, handle) = self.store.acquire_write();
        let r = update_issue(&mut core, id, input);
        handle.release_write(core);
        r
    }

    /// Remove by id, atomically; false when the id was absent.
    pub fn delete(&self, id: u128) -> bool {
        let (mut core, handle) = self.store.acquire_write();
        let r = core.delete(id);
        handle.release_write(core);
        r
    }
}

/// The thread-safe user repository: the credential store and the membership
/// index, each behind its own lock. The two locks are independent — nothing
/// across them is atomic.
pub struct InMemoryUserRepo {
    users: RwLock<CredentialStore, CredentialsInv>,
    members: RwLock<MembershipIndex, MembersInv>,
}

impl InMemoryUserRepo {
    pub fn new() -> Self {
        InMemoryUserRepo {
            users: RwLock::new(CredentialStore::new(), Ghost(CredentialsInv)),
            members: RwLock::new(MembershipIndex::new(), Ghost(MembersInv)),
        }
    }

    /// A point-in-time snapshot of all users; ids are pairwise distinct.
    pub fn list_users(&self) -> (r: Vec<User>)
        ensures
            distinct_keys(r@),
    {
        let read = self.users.acquire_read();
        let r = read.borrow().users.list();
        read.release_read();
        r
    }

    /// A copy of the user stored under `id` at one instant, if any.
    pub fn get_user(&self, id: u128) -> (r: Option<User>)
        ensures
            r matches Some(u) ==> u.id == id,
    {
        let read = self.users.acquire_read();
        let r = read.borrow().users.get_by_id(id);
        read.release_read();
        r
    }

    /// Insert or overwrite by id, atomically. No uniqueness of username or
    /// email is enforced on this path; `register` is the path that enforces
    /// it.
    pub fn save_user(&self, user: User) {
        let (mut cred, handle) = self.users.acquire_write();
        cred.users.save(user);
        handle.release_write(cred);
    }

    /// Register a new user in one critical section: the uniqueness check and
    /// the insert cannot interleave with another registration.
    pub fn register(&self, input: RegisterInput) -> (r: Result<User, CoreError>)
        ensures
            r matches Ok(u) ==> u.username == input.username && u.email == input.email
                && password_matches(input.password@, u.password@) && u.password@.len() > 0
                && u.password@[0] == '$' && u.id != 0,
            r matches Err(e) ==> e == CoreError::Conflict || e == CoreError::InternalFault,
    {
        let (mut cred, handle) = self.users.acquire_write();
        let r = cred.register(input);
        handle.release_write(cred);
        r
    }

    /// Check presented credentials against one snapshot of the user store.
    pub fn login(&self, input: &LoginInput) -> (r: Result<User, CoreError>)
        ensures
            r matches Ok(u) ==> login_matches(u, input.username@, input.email@)
                && password_matches(input.password@, u.password@),
            r matches Err(e) ==> e == CoreError::Unauthorized,
    {
        let read = self.users.acquire_read();
        let r = read.borrow().verify(input);
        proof {
            if crate::credentials::spec_find_login(
                read.view().users@,
                input.username@,
                input.email@,
            ) is Some {
                crate::credentials::lemma_find_login_sound(
                    read.view().users@,
                    input.username@,
                    input.email@,
                );
            }
        }
        read.release_read();
        r
    }

    /// Append a membership row, atomically; duplicates are not rejected.
    pub fn add_member(&self, member: ProjectMember) {
        let (mut idx, handle) = self.members.acquire_write();
        idx.add_member(member);
        handle.release_write(idx);
    }

    /// The membership rows of one project at one instant, as copies.
    pub fn list_members(&self, project_id: u128) -> (r: Vec<ProjectMember>)
        ensures
            forall|i: int| 0 <= i < r@.len() ==> #[trigger] r@[i].project_id == project_id,
    {
        let read = self.members.acquire_read();
        let r = read.borrow().list_members(project_id);
        read.release_read();
        proof {
            crate::members::lemma_members_of_project(read.view()@, project_id);
        }
        r
    }

    /// Remove every row of the (project, user) pair, atomically.
    pub fn remove_member(&self, project_id: u128, user_id: u128) {
        let (mut idx, handle) = self.members.acquire_write();
        idx.remove_member(project_id, user_id);
        handle.release_write(idx);
    }
}

} // verus!
