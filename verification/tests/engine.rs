use hellai_core::gate::{authorize, check_company_permission, check_tasks_permission, Threshold};
use hellai_core::hierarchy::{Company, HierarchyIndex, Note, Project, Subtask, Task};
use hellai_core::model::{CompanyMembership, GrantStore, ResourceGrant, ResourceKind};
use hellai_core::resolver::{resolve, GrantPath};
use hellai_core::roles::{AccessLevelType, TaskStatusType};

fn company(id: i32, alias: &str) -> Company {
    Company {
        id,
        name: format!("Company {}", id),
        name_alias: alias.to_string(),
        description: None,
        contact_info: None,
    }
}

fn project(id: i32, company_id: i32) -> Project {
    Project {
        id,
        company_id,
        title: format!("Project {}", id),
        description: None,
        decoration_color: None,
    }
}

fn task(id: i32, project_id: i32) -> Task {
    Task {
        id,
        project_id,
        assigned_to: None,
        status: TaskStatusType::Pending,
        title: format!("Task {}", id),
        description: None,
        priority: None,
    }
}

fn subtask(id: i32, task_id: i32) -> Subtask {
    Subtask {
        id,
        task_id,
        assigned_to: None,
        status: TaskStatusType::Pending,
        title: format!("Subtask {}", id),
        description: None,
    }
}

fn membership(user_id: i32, company_id: i32, level: i32) -> CompanyMembership {
    CompanyMembership {
        user_id,
        company_id,
        role_id: level,
        access_level: AccessLevelType::Limited,
    }
}

fn project_grant(user_id: i32, project_id: i32, level: i32) -> ResourceGrant {
    ResourceGrant {
        user_id,
        company_id: None,
        project_id: Some(project_id),
        task_id: None,
        subtask_id: None,
        role_id: Some(level),
        access_level: AccessLevelType::Limited,
    }
}

fn task_grant(user_id: i32, task_id: i32, level: i32) -> ResourceGrant {
    ResourceGrant {
        user_id,
        company_id: None,
        project_id: None,
        task_id: Some(task_id),
        subtask_id: None,
        role_id: Some(level),
        access_level: AccessLevelType::Limited,
    }
}

fn basic_world() -> HierarchyIndex {
    HierarchyIndex {
        companies: vec![company(1, "acme")],
        projects: vec![project(10, 1)],
        tasks: vec![task(100, 10)],
        subtasks: vec![subtask(1000, 100)],
        notes: vec![],
    }
}

#[test]
fn union_of_paths_membership_only() {
    let hi = basic_world();
    let gs = GrantStore { memberships: vec![membership(7, 1, 3)], grants: vec![] };
    // A level-3 membership qualifies on the project (ceiling 3)...
    let r = resolve(&gs, &hi, 7, ResourceKind::Project, 10).expect("company path");
    assert_eq!(r.role_level, 3);
    assert_eq!(r.source_path, GrantPath::CompanyWide);
    // ...but not on the task (ceiling 2).
    assert!(resolve(&gs, &hi, 7, ResourceKind::Task, 100).is_none());
}

#[test]
fn union_of_paths_grant_only() {
    let hi = basic_world();
    let gs = GrantStore { memberships: vec![], grants: vec![project_grant(7, 10, 4)] };
    let r = resolve(&gs, &hi, 7, ResourceKind::Project, 10).expect("scoped path");
    assert_eq!(r.role_level, 4);
    assert_eq!(r.source_path, GrantPath::ResourceScoped);
}

#[test]
fn union_of_paths_neither() {
    let hi = basic_world();
    let gs = GrantStore { memberships: vec![], grants: vec![] };
    assert!(resolve(&gs, &hi, 7, ResourceKind::Project, 10).is_none());
    assert!(resolve(&gs, &hi, 7, ResourceKind::Company, 1).is_none());
    assert!(resolve(&gs, &hi, 7, ResourceKind::Task, 100).is_none());
}

#[test]
fn best_of_selection_picks_level_one() {
    // Two simultaneous candidate paths with levels 3 and 1: level 1 wins.
    let hi = basic_world();
    let gs = GrantStore {
        memberships: vec![membership(7, 1, 3)],
        grants: vec![project_grant(7, 10, 1)],
    };
    let r = resolve(&gs, &hi, 7, ResourceKind::Project, 10).expect("two paths");
    assert_eq!(r.role_level, 1);
    assert_eq!(r.source_path, GrantPath::ResourceScoped);
}

#[test]
fn missing_resource_resolves_to_none() {
    let hi = basic_world();
    let gs = GrantStore { memberships: vec![membership(7, 1, 1)], grants: vec![] };
    // Owner of the company, but the queried project does not exist.
    assert!(resolve(&gs, &hi, 7, ResourceKind::Project, 99).is_none());
}

#[test]
fn project_grant_reaches_task_with_ceiling() {
    let hi = basic_world();
    // Level 5 on the project still reaches the task...
    let gs = GrantStore { memberships: vec![], grants: vec![project_grant(7, 10, 5)] };
    let r = resolve(&gs, &hi, 7, ResourceKind::Task, 100).expect("parent path");
    assert_eq!(r.role_level, 5);
    assert_eq!(r.source_path, GrantPath::ParentScoped);
    // ...but level 6 does not.
    let gs6 = GrantStore { memberships: vec![], grants: vec![project_grant(8, 10, 6)] };
    assert!(resolve(&gs6, &hi, 8, ResourceKind::Task, 100).is_none());
}

#[test]
fn task_grant_reaches_subtask() {
    let hi = basic_world();
    let gs = GrantStore { memberships: vec![], grants: vec![task_grant(7, 100, 3)] };
    let r = resolve(&gs, &hi, 7, ResourceKind::Subtask, 1000).expect("parent path");
    assert_eq!(r.role_level, 3);
    assert_eq!(r.source_path, GrantPath::ParentScoped);
}

#[test]
fn note_author_always_has_access() {
    let mut hi = basic_world();
    hi.notes.push(Note {
        id: 5,
        user_id: 7,
        company_id: None,
        project_id: None,
        task_id: None,
        subtask_id: None,
        content: "personal".to_string(),
        tags: None,
        decoration_color: None,
    });
    let gs = GrantStore { memberships: vec![], grants: vec![] };
    let r = resolve(&gs, &hi, 7, ResourceKind::Note, 5).expect("self path");
    assert_eq!(r.source_path, GrantPath::SelfOwned);
    assert_eq!(r.role_level, 1);
    // Another user has no path onto a personal note.
    assert!(resolve(&gs, &hi, 8, ResourceKind::Note, 5).is_none());
}

#[test]
fn note_attachment_grant_needs_level_two() {
    let mut hi = basic_world();
    hi.notes.push(Note {
        id: 5,
        user_id: 7,
        company_id: None,
        project_id: Some(10),
        task_id: None,
        subtask_id: None,
        content: "attached".to_string(),
        tags: None,
        decoration_color: None,
    });
    let reader_ok = GrantStore { memberships: vec![], grants: vec![project_grant(8, 10, 2)] };
    assert!(resolve(&reader_ok, &hi, 8, ResourceKind::Note, 5).is_some());
    let reader_weak = GrantStore { memberships: vec![], grants: vec![project_grant(9, 10, 3)] };
    assert!(resolve(&reader_weak, &hi, 9, ResourceKind::Note, 5).is_none());
}

#[test]
fn gate_thresholds() {
    let hi = basic_world();
    let gs = GrantStore {
        memberships: vec![membership(7, 1, 2)],
        grants: vec![project_grant(8, 10, 1)],
    };
    // Level 2 meets AtMost(2) and AtMost(3) on the project, but not OwnerOnly.
    assert!(authorize(&gs, &hi, 7, ResourceKind::Project, 10, Threshold::AtMost(2)).is_ok());
    assert!(authorize(&gs, &hi, 7, ResourceKind::Project, 10, Threshold::AtMost(3)).is_ok());
    assert!(authorize(&gs, &hi, 7, ResourceKind::Project, 10, Threshold::OwnerOnly).is_err());
    // The project-grant owner passes OwnerOnly.
    assert!(authorize(&gs, &hi, 8, ResourceKind::Project, 10, Threshold::OwnerOnly).is_ok());
}

#[test]
fn check_permissions_report_uniform_denial() {
    let hi = basic_world();
    let gs = GrantStore { memberships: vec![membership(7, 1, 6)], grants: vec![] };
    let m = check_company_permission(&gs, 7, 1).expect("member");
    assert_eq!(m.role_id, 6);
    assert!(check_company_permission(&gs, 8, 1).is_err());
    // Guest membership (level 6) is above the task ceiling: denied.
    assert!(check_tasks_permission(&gs, &hi, 7, 100).is_err());
}

#[test]
fn ancestors_walk_up_the_hierarchy() {
    let hi = basic_world();
    let chain = hi.ancestors(ResourceKind::Subtask, 1000);
    assert_eq!(
        chain,
        vec![
            (ResourceKind::Task, 100),
            (ResourceKind::Project, 10),
            (ResourceKind::Company, 1)
        ]
    );
    assert_eq!(hi.ancestors(ResourceKind::Company, 1), vec![]);
    assert_eq!(hi.find_company_of(ResourceKind::Task, 100), Some(1));
}
