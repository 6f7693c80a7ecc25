use hellai_core::errors::AccessError;
use hellai_core::hierarchy::{Company, HierarchyIndex, Note, Project, Task};
use hellai_core::model::{CompanyMembership, GrantStore, ResourceGrant, ResourceKind};
use hellai_core::mutation::{add_grant, cascade_delete_grants, remove_grant};
use hellai_core::queries::notes_query::NotesQuery;
use hellai_core::roles::{AccessLevelType, TaskStatusType};

fn world() -> HierarchyIndex {
    HierarchyIndex {
        companies: vec![Company {
            id: 1,
            name: "Acme".to_string(),
            name_alias: "acme".to_string(),
            description: None,
            contact_info: None,
        }],
        projects: vec![Project {
            id: 10,
            company_id: 1,
            title: "Build".to_string(),
            description: None,
            decoration_color: None,
        }],
        tasks: vec![
            Task {
                id: 100,
                project_id: 10,
                assigned_to: None,
                status: TaskStatusType::Pending,
                title: "Dig".to_string(),
                description: None,
                priority: None,
            },
            Task {
                id: 101,
                project_id: 11,
                assigned_to: None,
                status: TaskStatusType::Pending,
                title: "Elsewhere".to_string(),
                description: None,
                priority: None,
            },
        ],
        subtasks: vec![],
        notes: vec![],
    }
}

fn grant_on_project(user_id: i32, project_id: i32, level: i32) -> ResourceGrant {
    ResourceGrant {
        user_id,
        company_id: None,
        project_id: Some(project_id),
        task_id: None,
        subtask_id: None,
        role_id: Some(level),
        access_level: AccessLevelType::Limited,
    }
}

fn grant_on_task(user_id: i32, task_id: i32, level: i32) -> ResourceGrant {
    ResourceGrant {
        user_id,
        company_id: None,
        project_id: None,
        task_id: Some(task_id),
        subtask_id: None,
        role_id: Some(level),
        access_level: AccessLevelType::Limited,
    }
}

#[test]
fn self_removal_always_succeeds_even_for_guest() {
    let hi = world();
    let mut gs = GrantStore {
        memberships: vec![],
        grants: vec![grant_on_project(7, 10, 6)],
    };
    // A level-6 Guest removes their own grant.
    let removed = remove_grant(&mut gs, &hi, 7, 7, ResourceKind::Project, 10).expect("self");
    assert_eq!(removed.role_id, Some(6));
    assert!(gs.grants.is_empty());
}

#[test]
fn self_removal_without_grant_is_not_associated() {
    let hi = world();
    let mut gs = GrantStore { memberships: vec![], grants: vec![] };
    let r = remove_grant(&mut gs, &hi, 7, 7, ResourceKind::Project, 10);
    assert_eq!(r, Err(AccessError::NotAssociated));
}

#[test]
fn peer_removal_rule() {
    let hi = world();
    // Actor 5 holds level 2 on the project; target 6 holds level 3 and
    // target 8 holds level 1.
    let mut gs = GrantStore {
        memberships: vec![],
        grants: vec![
            grant_on_project(5, 10, 2),
            grant_on_project(6, 10, 3),
            grant_on_project(8, 10, 1),
        ],
    };
    // Level 2 removes a level-3 grant...
    assert!(remove_grant(&mut gs, &hi, 5, 6, ResourceKind::Project, 10).is_ok());
    assert_eq!(gs.grants.len(), 2);
    // ...but cannot remove a level-1 grant.
    let r = remove_grant(&mut gs, &hi, 5, 8, ResourceKind::Project, 10);
    assert_eq!(r, Err(AccessError::PermissionDenied));
    assert_eq!(gs.grants.len(), 2);
}

#[test]
fn remover_without_standing_is_denied() {
    let hi = world();
    let mut gs = GrantStore {
        memberships: vec![],
        grants: vec![grant_on_project(6, 10, 3)],
    };
    let r = remove_grant(&mut gs, &hi, 5, 6, ResourceKind::Project, 10);
    assert_eq!(r, Err(AccessError::PermissionDenied));
}

#[test]
fn idempotent_add() {
    let hi = world();
    let mut gs = GrantStore {
        memberships: vec![CompanyMembership {
            user_id: 5,
            company_id: 1,
            role_id: 2,
            access_level: AccessLevelType::Full,
        }],
        grants: vec![],
    };
    let first = add_grant(&mut gs, &hi, 5, 6, ResourceKind::Project, 10).expect("first add");
    assert_eq!(first.role_id, Some(3));
    assert_eq!(first.access_level, AccessLevelType::Limited);
    assert_eq!(gs.grants.len(), 1);
    let second = add_grant(&mut gs, &hi, 5, 6, ResourceKind::Project, 10).expect("second add");
    assert_eq!(second, first);
    assert_eq!(gs.grants.len(), 1);
}

#[test]
fn add_requires_the_gate() {
    let hi = world();
    // Level 3 on the company is too weak to manage members (needs 2).
    let mut gs = GrantStore {
        memberships: vec![CompanyMembership {
            user_id: 5,
            company_id: 1,
            role_id: 3,
            access_level: AccessLevelType::Limited,
        }],
        grants: vec![],
    };
    let r = add_grant(&mut gs, &hi, 5, 6, ResourceKind::Project, 10);
    assert_eq!(r, Err(AccessError::PermissionDenied));
    assert!(gs.grants.is_empty());
}

#[test]
fn add_grant_never_attaches_to_notes() {
    let hi = world();
    let mut gs = GrantStore { memberships: vec![], grants: vec![] };
    let r = add_grant(&mut gs, &hi, 5, 6, ResourceKind::Note, 1);
    assert_eq!(r, Err(AccessError::InvalidResourceScope));
}

#[test]
fn cascade_completeness_on_project() {
    let hi = world();
    let mut gs = GrantStore {
        memberships: vec![CompanyMembership {
            user_id: 9,
            company_id: 1,
            role_id: 1,
            access_level: AccessLevelType::Full,
        }],
        grants: vec![
            grant_on_project(6, 10, 3),
            grant_on_task(7, 100, 3),  // task 100 lives under project 10
            grant_on_task(7, 101, 3),  // task 101 lives under another project
            grant_on_project(6, 11, 3),
        ],
    };
    cascade_delete_grants(&mut gs, &hi, ResourceKind::Project, 10);
    // No grant references project 10 and no task under it keeps a grant.
    assert!(gs.grants.iter().all(|g| g.project_id != Some(10)));
    assert!(gs.grants.iter().all(|g| g.task_id != Some(100)));
    // Grants elsewhere survive, memberships untouched.
    assert_eq!(gs.grants.len(), 2);
    assert_eq!(gs.memberships.len(), 1);
}

#[test]
fn scope_exclusivity_rejected_for_grants() {
    // Two scope fields set: rejected before anything is persisted.
    let r = ResourceGrant::new(
        7,
        None,
        Some(10),
        Some(100),
        None,
        Some(3),
        AccessLevelType::Limited,
    );
    assert_eq!(r, Err(AccessError::InvalidResourceScope));
    // No scope field set is rejected too.
    let none = ResourceGrant::new(7, None, None, None, None, Some(3), AccessLevelType::Limited);
    assert_eq!(none, Err(AccessError::InvalidResourceScope));
    // Exactly one is accepted.
    let ok = ResourceGrant::new(7, None, Some(10), None, None, Some(3), AccessLevelType::Limited)
        .expect("single scope");
    assert_eq!(ok.project_id, Some(10));
}

#[test]
fn scope_exclusivity_rejected_for_notes() {
    let mut hi = world();
    let r = NotesQuery::create_note(
        &mut hi,
        7,
        Some(10),
        Some(1),
        None,
        None,
        "content here".to_string(),
        "tags".to_string(),
        "#aabbcc".to_string(),
    );
    assert!(r.is_err());
    assert!(hi.notes.is_empty());
    // A personal note (no scope at all) is fine.
    let ok = NotesQuery::create_note(
        &mut hi,
        7,
        None,
        None,
        None,
        None,
        "content here".to_string(),
        "tags".to_string(),
        "#aabbcc".to_string(),
    )
    .expect("personal note");
    assert_eq!(ok.user_id, 7);
    // Ids advance past the table's high-water mark.
    assert_eq!(ok.id, 1);
    assert_eq!(hi.notes.len(), 1);
}

#[test]
fn note_rows_keep_their_scope() {
    let mut hi = world();
    let n = NotesQuery::create_note(
        &mut hi,
        7,
        Some(10),
        None,
        None,
        None,
        "attached note".to_string(),
        "tags".to_string(),
        "#abc".to_string(),
    )
    .expect("attached note");
    assert_eq!(n.project_id, Some(10));
    assert_eq!(n.tags.as_deref(), Some("tags"));
    let fetched: Option<&Note> = hi.find_note(n.id);
    assert_eq!(fetched.map(|x| x.id), Some(n.id));
}
