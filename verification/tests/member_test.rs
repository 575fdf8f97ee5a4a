use openstudio::models::{ProjectMember, ProjectRole};
use openstudio::repos::InMemoryUserRepo;

fn member(project_id: u128, user_id: u128, role: ProjectRole) -> ProjectMember {
    ProjectMember { user_id, project_id, role, joined_at: 10 }
}

#[test]
fn list_members_filters_by_project_in_insertion_order() {
    let repo = InMemoryUserRepo::new();
    repo.add_member(member(1, 100, ProjectRole::Owner));
    repo.add_member(member(2, 100, ProjectRole::Viewer));
    repo.add_member(member(1, 200, ProjectRole::Contributor));
    let ms = repo.list_members(1);
    assert_eq!(ms.len(), 2);
    assert_eq!(ms[0].user_id, 100);
    assert_eq!(ms[1].user_id, 200);
    assert!(ms.iter().all(|m| m.project_id == 1));
    assert_eq!(repo.list_members(3).len(), 0);
}

#[test]
fn duplicate_rows_are_kept_and_removal_deletes_every_copy() {
    let repo = InMemoryUserRepo::new();
    repo.add_member(member(1, 100, ProjectRole::Owner));
    repo.add_member(member(1, 100, ProjectRole::Owner));
    repo.add_member(member(1, 200, ProjectRole::Maintainer));
    assert_eq!(repo.list_members(1).len(), 3);
    repo.remove_member(1, 100);
    let left = repo.list_members(1);
    assert_eq!(left.len(), 1);
    assert_eq!(left[0].user_id, 200);
}

#[test]
fn removing_an_absent_pair_changes_nothing() {
    let repo = InMemoryUserRepo::new();
    repo.add_member(member(1, 100, ProjectRole::Owner));
    repo.remove_member(1, 999);
    repo.remove_member(9, 100);
    assert_eq!(repo.list_members(1).len(), 1);
}
