//! The membership index: project membership rows keyed by the composite
//! (project, user) relation.
//!
//! This layer is pure storage: it does not reject duplicate rows (the same
//! pair may be inserted more than once), and removal deletes every matching
//! copy. No role-based authorization decision is made here.

use crate::models::ProjectMember;
use vstd::prelude::*;

verus! {

/// The rows of project `pid`, in insertion order.
pub open spec fn members_of(s: Seq<ProjectMember>, pid: u128) -> Seq<ProjectMember>
    decreases s.len(),
{
    if s.len() == 0 {
        Seq::empty()
    } else {
        let rest = members_of(s.drop_last(), pid);
        if s.last().project_id == pid {
            rest.push(s.last())
        } else {
            rest
        }
    }
}

/// The rows left after removing every copy of the (pid, uid) pair, in
/// insertion order.
pub open spec fn without_member(s: Seq<ProjectMember>, pid: u128, uid: u128) -> Seq<ProjectMember>
    decreases s.len(),
{
    if s.len() == 0 {
        Seq::empty()
    } else {
        let rest = without_member(s.drop_last(), pid, uid);
        if s.last().project_id == pid && s.last().user_id == uid {
            rest
        } else {
            rest.push(s.last())
        }
    }
}

/// Every row `members_of` keeps belongs to the asked-for project.
pub proof fn lemma_members_of_project(s: Seq<ProjectMember>, pid: u128)
    ensures
        forall|i: int|
            0 <= i < members_of(s, pid).len() ==> #[trigger] members_of(s, pid)[i].project_id
                == pid,
    decreases s.len(),
{
    if s.len() == 0 {
    } else {
        lemma_members_of_project(s.drop_last(), pid);
    }
}

/// Law: removal is complete — no row of the removed pair survives, however
/// many copies were inserted.
pub proof fn lemma_removed_member_gone(s: Seq<ProjectMember>, pid: u128, uid: u128)
    ensures
        forall|i: int|
            0 <= i < without_member(s, pid, uid).len() ==> !(#[trigger] without_member(
                s,
                pid,
                uid,
            )[i].project_id == pid && without_member(s, pid, uid)[i].user_id == uid),
    decreases s.len(),
{
    if s.len() == 0 {
    } else {
        lemma_removed_member_gone(s.drop_last(), pid, uid);
    }
}

/// Membership rows behind one owned vector; the exact row sequence is the
/// contract of every operation.
pub struct MembershipIndex {
    members: Vec<ProjectMember>,
}

impl View for MembershipIndex {
    type V = Seq<ProjectMember>;

    closed spec fn view(&self) -> Seq<ProjectMember> {
        self.members@
    }
}

impl MembershipIndex {
    pub fn new() -> (s: Self)
        ensures
            s@ == Seq::<ProjectMember>::empty(),
    {
        MembershipIndex { members: Vec::new() }
    }

    /// Append a row; duplicates are not rejected.
    pub fn add_member(&mut self, member: ProjectMember)
        ensures
            final(self)@ == old(self)@.push(member),
    {
        self.members.push(member);
    }

    /// The rows of `project_id`, as copies, in insertion order.
    pub fn list_members(&self, project_id: u128) -> (r: Vec<ProjectMember>)
        ensures
            r@ == members_of(self@, project_id),
    {
        let n = self.members.len();
        let mut out: Vec<ProjectMember> = Vec::new();
        let mut i: usize = 0;
        while i < n
            invariant
                n == self@.len(),
                i <= n,
                out@ == members_of(self@.take(i as int), project_id),
            decreases n - i,
        {
            proof {
                assert(self@.take(i + 1 as int).drop_last() =~= self@.take(i as int));
                assert(self@.take(i + 1 as int).last() == self@[i as int]);
            }
            let m = &self.members[i];
            if m.project_id == project_id {
                out.push(m.duplicate());
            }
            i = i + 1;
        }
        proof {
            assert(self@.take(n as int) =~= self@);
        }
        out
    }

    /// Remove every row of the (project, user) pair; removing an absent pair
    /// changes nothing.
    pub fn remove_member(&mut self, project_id: u128, user_id: u128)
        ensures
            final(self)@ == without_member(old(self)@, project_id, user_id),
    {
        let n = self.members.len();
        let mut kept: Vec<ProjectMember> = Vec::new();
        let mut i: usize = 0;
        while i < n
            invariant
                n == self@.len(),
                i <= n,
                kept@ == without_member(self@.take(i as int), project_id, user_id),
            decreases n - i,
        {
            proof {
                assert(self@.take(i + 1 as int).drop_last() =~= self@.take(i as int));
                assert(self@.take(i + 1 as int).last() == self@[i as int]);
            }
            let m = &self.members[i];
            if !(m.project_id == project_id && m.user_id == user_id) {
                kept.push(m.duplicate());
            }
            i = i + 1;
        }
        proof {
            assert(self@.take(n as int) =~= self@);
        }
        self.members = kept;
    }
}

} // verus!
