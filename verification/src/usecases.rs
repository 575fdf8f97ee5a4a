//! The use cases above the stores: stamping identity and timestamps on new
//! entities, merging partial updates into stored records, and the per-project
//! issue listing.

use crate::credentials::{login_matches, password_matches};
use crate::errors::CoreError;
use crate::external::{fresh_uuid, now_ts, uuid_str_of, uuid_to_string};
use crate::models::{
    CreateIssueInput, CreateUserInput, Issue, IssueStatus, LoginInput, Project, ProjectStatus,
    RegisterInput, UpdateIssueInput, UpdateProjectInput, User, Visibility,
};
use crate::repos::InMemoryUserRepo;
use crate::store::{has_key, lookup, spec_update, Keyed, RepositoryCore};
use crate::token::{claims_of, TokenService, ACCESS_TOKEN_TTL_SECS, REFRESH_TOKEN_TTL_SECS};
use vstd::prelude::*;

verus! {

/// A new project: fresh identity, creation time stamped, and the fixed
/// starting state — private visibility, draft status.
pub fn create_project(name: &str, description: &str) -> (p: Project)
    ensures
        p.name@ == name@,
        p.description@ == description@,
        p.visibility == Visibility::Private,
        p.status == ProjectStatus::Draft,
        p.id != 0,
{
    Project {
        id: fresh_uuid(),
        name: name.to_string(),
        description: description.to_string(),
        created_at: now_ts(),
        visibility: Visibility::Private,
        status: ProjectStatus::Draft,
    }
}

/// A new issue in a project: fresh identity, open status, and one timestamp
/// stamped as both creation and update time.
pub fn create_issue(input: CreateIssueInput) -> (i: Issue)
    ensures
        i.project_id == input.project_id,
        i.title == input.title,
        i.description == input.description,
        i.status == IssueStatus::Open,
        i.created_at == i.updated_at,
        i.id != 0,
{
    let now = now_ts();
    Issue {
        id: fresh_uuid(),
        project_id: input.project_id,
        title: input.title,
        description: input.description,
        status: IssueStatus::Open,
        created_at: now,
        updated_at: now,
    }
}

/// Partial update of a stored project: absent input fields keep the stored
/// values, and the merged record replaces the stored one. An absent id is
/// reported, not an error, and moves nothing.
pub fn update_project(core: &mut RepositoryCore<Project>, id: u128, input: UpdateProjectInput) -> (r:
    Result<Project, CoreError>)
    requires
        old(core).wf(),
    ensures
        final(core).wf(),
        !has_key(old(core)@, id) ==> (r matches Err(e) && e == CoreError::NotFound && final(core)@
            == old(core)@),
        has_key(old(core)@, id) ==> (r matches Ok(p) && {
            let prev = lookup(old(core)@, id).unwrap();
            &&& p.id == id
            &&& p.created_at == prev.created_at
            &&& p.name == (match input.name {
                Some(n) => n,
                None => prev.name,
            })
            &&& p.description == (match input.description {
                Some(d) => d,
                None => prev.description,
            })
            &&& p.status == (match input.status {
                Some(s) => s,
                None => prev.status,
            })
            &&& p.visibility == (match input.visibility {
                Some(v) => v,
                None => prev.visibility,
            })
            &&& final(core)@ == spec_update(old(core)@, p)
            &&& lookup(final(core)@, id) == Some(p)
        }),
{
    let prev = match core.get_by_id(id) {
        Some(p) => p,
        None => {
            return Err(CoreError::NotFound);
        },
    };
    let merged = prev.merged(input);
    core.update(merged.duplicate());
    Ok(merged)
}

/// Partial update of a stored issue: absent input fields keep the stored
/// values, the update time is stamped anew, and the merged record replaces
/// the stored one.
pub fn update_issue(core: &mut RepositoryCore<Issue>, id: u128, input: UpdateIssueInput) -> (r:
    Result<Issue, CoreError>)
    requires
        old(core).wf(),
    ensures
        final(core).wf(),
        !has_key(old(core)@, id) ==> (r matches Err(e) && e == CoreError::NotFound && final(core)@
            == old(core)@),
        has_key(old(core)@, id) ==> (r matches Ok(p) && {
            let prev = lookup(old(core)@, id).unwrap();
            &&& p.id == id
            &&& p.project_id == prev.project_id
            &&& p.created_at == prev.created_at
            &&& p.title == (match input.title {
                Some(t) => t,
                None => prev.title,
            })
            &&& p.description == (match input.description {
                Some(d) => d,
                None => prev.description,
            })
            &&& p.status == (match input.status {
                Some(s) => s,
                None => prev.status,
            })
            &&& final(core)@ == spec_update(old(core)@, p)
            &&& lookup(final(core)@, id) == Some(p)
        }),
{
    let prev = match core.get_by_id(id) {
        Some(p) => p,
        None => {
            return Err(CoreError::NotFound);
        },
    };
    let now = now_ts();
    let merged = prev.merged(input, now);
    core.update(merged.duplicate());
    Ok(merged)
}

/// The issues of project `pid`, in storage order.
pub open spec fn issues_of(s: Seq<Issue>, pid: u128) -> Seq<Issue>
    decreases s.len(),
{
    if s.len() == 0 {
        Seq::empty()
    } else {
        let rest = issues_of(s.drop_last(), pid);
        if s.last().project_id == pid {
            rest.push(s.last())
        } else {
            rest
        }
    }
}

/// Every issue `issues_of` keeps belongs to the asked-for project.
pub proof fn lemma_issues_of_project(s: Seq<Issue>, pid: u128)
    ensures
        forall|i: int|
            0 <= i < issues_of(s, pid).len() ==> #[trigger] issues_of(s, pid)[i].project_id == pid,
    decreases s.len(),
{
    if s.len() == 0 {
    } else {
        lemma_issues_of_project(s.drop_last(), pid);
    }
}

/// The issues of one project, as copies, in storage order.
pub fn issues_of_project(core: &RepositoryCore<Issue>, project_id: u128) -> (r: Vec<Issue>)
    ensures
        r@ == issues_of(core@, project_id),
{
    let n = core.len();
    let mut out: Vec<Issue> = Vec::new();
    let mut i: usize = 0;
    while i < n
        invariant
            n == core@.len(),
            i <= n,
            out@ == issues_of(core@.take(i as int), project_id),
        decreases n - i,
    {
        proof {
            assert(core@.take(i + 1 as int).drop_last() =~= core@.take(i as int));
            assert(core@.take(i + 1 as int).last() == core@[i as int]);
        }
        let item = core.at_index(i);
        if item.project_id == project_id {
            out.push(item.duplicate());
        }
        i = i + 1;
    }
    proof {
        assert(core@.take(n as int) =~= core@);
    }
    out
}

/// A new user record from direct creation: fresh identity, hashed password,
/// one timestamp for creation and update. No uniqueness check happens here;
/// registration is the path that enforces it. Creation succeeds for every
/// password under the hash's length cap.
pub fn create_user(input: CreateUserInput) -> (r: Result<User, CoreError>)
    ensures
        input.password@.len() < 0x4000_0000 ==> r is Ok,
        r matches Ok(u) ==> {
            &&& u.username == input.username
            &&& u.email == input.email
            &&& password_matches(input.password@, u.password@)
            &&& u.password@.len() > 0 && u.password@[0] == '$'
            &&& u.first_name is None
            &&& u.last_name is None
            &&& u.created_at == u.updated_at
            &&& u.id != 0
        },
        r matches Err(e) ==> e == CoreError::InternalFault,
{
    let hash = match crate::credentials::derive_password_hash(&input.password) {
        Some(h) => h,
        None => {
            return Err(CoreError::InternalFault);
        },
    };
    let now = now_ts();
    Ok(
        User {
            id: fresh_uuid(),
            username: input.username,
            email: input.email,
            password: hash,
            first_name: None,
            last_name: None,
            created_at: now,
            updated_at: now,
        },
    )
}

/// The clock reading as the unsigned epoch seconds token expiries are
/// computed in, when it is sane: non-negative and with room for a refresh
/// lifetime. An insane clock is reported, never worked around.
fn token_clock() -> (r: Result<u64, CoreError>)
    ensures
        r matches Ok(now) ==> now + REFRESH_TOKEN_TTL_SECS <= u64::MAX,
        r matches Err(e) ==> e == CoreError::InternalFault,
{
    let now = now_ts();
    if now < 0 {
        return Err(CoreError::InternalFault);
    }
    let now_u = now as u64;
    if now_u > u64::MAX - REFRESH_TOKEN_TTL_SECS {
        return Err(CoreError::InternalFault);
    }
    Ok(now_u)
}

/// An access/refresh pair for a user, subject = the user's id as a UUID
/// string, at clock reading `now`. Issuance always succeeds.
fn issue_pair_for(service: &TokenService, user: &User, now: u64) -> (r: (String, String))
    requires
        now + REFRESH_TOKEN_TTL_SECS <= u64::MAX,
    ensures
        claims_of(r.0@, service.secret_view()) == Some(
            (uuid_str_of(user.id), user.email@, (now + ACCESS_TOKEN_TTL_SECS) as u64),
        ),
        claims_of(r.1@, service.secret_view()) == Some(
            (uuid_str_of(user.id), user.email@, (now + REFRESH_TOKEN_TTL_SECS) as u64),
        ),
{
    let sub = uuid_to_string(user.id);
    let access = service.issue_access(&sub, &user.email, now);
    let renewed = service.issue_refresh(&sub, &user.email, now);
    (access, renewed)
}

/// The login flow: check the credentials against one snapshot of the user
/// store, then issue an access/refresh pair whose subject is the user's id.
/// A failed check is the one opaque answer; only an insane clock is an
/// internal fault.
pub fn login_with_tokens(repo: &InMemoryUserRepo, service: &TokenService, input: &LoginInput) -> (r:
    Result<(User, String, String), CoreError>)
    ensures
        r matches Ok(t) ==> {
            &&& login_matches(t.0, input.username@, input.email@)
            &&& password_matches(input.password@, t.0.password@)
            &&& (claims_of(t.1@, service.secret_view()) matches Some(c) && c.0 == uuid_str_of(
                t.0.id,
            ) && c.1 == t.0.email@)
            &&& (claims_of(t.2@, service.secret_view()) matches Some(c) && c.0 == uuid_str_of(
                t.0.id,
            ) && c.1 == t.0.email@)
        },
        r matches Err(e) ==> e == CoreError::Unauthorized || e == CoreError::InternalFault,
{
    let user = match repo.login(input) {
        Ok(u) => u,
        Err(e) => {
            return Err(e);
        },
    };
    let now = match token_clock() {
        Ok(n) => n,
        Err(e) => {
            return Err(e);
        },
    };
    let pair = issue_pair_for(service, &user, now);
    Ok((user, pair.0, pair.1))
}

/// The registration flow: register atomically, then issue an access/refresh
/// pair for the new user.
pub fn register_with_tokens(
    repo: &InMemoryUserRepo,
    service: &TokenService,
    input: RegisterInput,
) -> (r: Result<(User, String, String), CoreError>)
    ensures
        r matches Ok(t) ==> {
            &&& t.0.username@ == input.username@
            &&& t.0.email@ == input.email@
            &&& password_matches(input.password@, t.0.password@)
            &&& (claims_of(t.1@, service.secret_view()) matches Some(c) && c.0 == uuid_str_of(
                t.0.id,
            ) && c.1 == t.0.email@)
            &&& (claims_of(t.2@, service.secret_view()) matches Some(c) && c.0 == uuid_str_of(
                t.0.id,
            ) && c.1 == t.0.email@)
        },
        r matches Err(e) ==> e == CoreError::Conflict || e == CoreError::InternalFault,
{
    let user = match repo.register(input) {
        Ok(u) => u,
        Err(e) => {
            return Err(e);
        },
    };
    let now = match token_clock() {
        Ok(n) => n,
        Err(e) => {
            return Err(e);
        },
    };
    let pair = issue_pair_for(service, &user, now);
    Ok((user, pair.0, pair.1))
}

/// The refresh flow: rotate a presented refresh token at the current clock
/// reading. The new pair is bound to the same subject and email the old
/// token carried; a token that does not verify is the one opaque answer.
pub fn refresh_tokens(service: &TokenService, refresh_token: &str) -> (r: Result<
    (String, String),
    CoreError,
>)
    ensures
        r matches Ok(pair) ==> (claims_of(refresh_token@, service.secret_view()) matches Some(c)
            && (claims_of(pair.0@, service.secret_view()) matches Some(c2) && c2.0 == c.0 && c2.1
            == c.1) && (claims_of(pair.1@, service.secret_view()) matches Some(c2) && c2.0 == c.0
            && c2.1 == c.1)),
        r matches Err(e) ==> e == CoreError::Unauthorized || e == CoreError::InternalFault,
{
    let now = match token_clock() {
        Ok(n) => n,
        Err(e) => {
            return Err(e);
        },
    };
    service.refresh(refresh_token, now)
}

} // verus!
