use openstudio::errors::CoreError;
use openstudio::models::{CreateIssueInput, IssueStatus, UpdateIssueInput};
use openstudio::repos::InMemoryIssueRepo;
use openstudio::usecases::create_issue;

fn new_issue(project_id: u128, title: &str) -> openstudio::models::Issue {
    create_issue(CreateIssueInput {
        project_id,
        title: title.to_string(),
        description: "desc".to_string(),
    })
}

#[test]
fn created_issue_starts_open_with_one_timestamp() {
    let issue = new_issue(1, "bug");
    assert_eq!(issue.project_id, 1);
    assert_eq!(issue.title, "bug");
    assert_eq!(issue.status, IssueStatus::Open);
    assert_eq!(issue.created_at, issue.updated_at);
    assert!(issue.id != 0);
}

#[test]
fn list_by_project_filters_and_keeps_order() {
    let repo = InMemoryIssueRepo::new();
    let a = new_issue(1, "a");
    let b = new_issue(2, "b");
    let c = new_issue(1, "c");
    repo.save(a.clone());
    repo.save(b);
    repo.save(c.clone());
    let ones = repo.list_by_project(1);
    assert_eq!(ones.len(), 2);
    assert_eq!(ones[0].id, a.id);
    assert_eq!(ones[1].id, c.id);
    assert!(ones.iter().all(|i| i.project_id == 1));
    assert_eq!(repo.list_by_project(3).len(), 0);
}

#[test]
fn issue_partial_update_keeps_absent_fields_and_restamps() {
    let repo = InMemoryIssueRepo::new();
    let issue = new_issue(1, "bug");
    let id = issue.id;
    repo.save(issue);
    let merged = repo
        .update_merged(
            id,
            UpdateIssueInput {
                title: Some("fixed".to_string()),
                description: None,
                status: Some(IssueStatus::Closed),
            },
        )
        .unwrap();
    assert_eq!(merged.title, "fixed");
    assert_eq!(merged.description, "desc");
    assert_eq!(merged.status, IssueStatus::Closed);
    let stored = repo.get_by_id(id).unwrap();
    assert_eq!(stored.title, "fixed");
    assert_eq!(stored.status, IssueStatus::Closed);
}

#[test]
fn issue_update_and_delete_of_absent_id() {
    let repo = InMemoryIssueRepo::new();
    let r = repo.update_merged(
        42,
        UpdateIssueInput { title: None, description: None, status: None },
    );
    assert!(matches!(r, Err(CoreError::NotFound)));
    assert!(!repo.delete(42));
    let issue = new_issue(1, "bug");
    let id = issue.id;
    repo.save(issue);
    assert!(repo.delete(id));
    assert!(repo.get_by_id(id).is_none());
}
