use hellai_core::claims::{RefreshClaims, SessionClaims, REFRESH_TOKEN_EXP, SESSION_TOKEN_EXP};
use hellai_core::errors::CoreErrors;
use hellai_core::hierarchy::HierarchyIndex;
use hellai_core::model::GrantStore;
use hellai_core::queries::company_query::CompanyQuery;
use hellai_core::queries::projects_query::ProjectQuery;
use hellai_core::queries::tasks_query::TasksQuery;
use hellai_core::queries::user_query::UserQuery;
use hellai_core::services::company_service;
use hellai_core::services::notes_service;
use hellai_core::services::project_service;
use hellai_core::services::task_service;
use hellai_core::users::UserStore;

fn fresh_world() -> (GrantStore, HierarchyIndex, UserStore) {
    (GrantStore::new(), HierarchyIndex::new(), UserStore::new())
}

fn is_denied<T: std::fmt::Debug>(r: Result<T, CoreErrors>) {
    match r {
        Err(CoreErrors::DatabaseServiceError(m)) => assert_eq!(m, "permission_denied"),
        other => panic!("expected permission_denied, got {:?}", other),
    }
}

#[test]
fn company_creation_and_membership() {
    let (mut gs, mut hi, _) = fresh_world();
    let company = company_service::create_company(
        &mut gs,
        &mut hi,
        1,
        "Tech Corp".to_string(),
        Some("An innovative tech company".to_string()),
        None,
    )
    .expect("create company");
    assert_eq!(company.name, "Tech Corp");
    assert_eq!(company.name_alias, "techcorp");
    // The creator became the Owner-level member.
    let m = gs.find_membership(1, company.id).expect("creator membership");
    assert_eq!(m.role_id, 1);
    // An invalid name never reaches the store.
    let bad = company_service::create_company(&mut gs, &mut hi, 1, "x".to_string(), None, None);
    assert!(matches!(bad, Err(CoreErrors::DataValidationError(_))));
    assert_eq!(hi.companies.len(), 1);
}

#[test]
fn company_alias_collision_gets_numeric_suffix() {
    let (mut gs, mut hi, _) = fresh_world();
    let first =
        company_service::create_company(&mut gs, &mut hi, 1, "Tech Corp".to_string(), None, None)
            .expect("first");
    let second =
        company_service::create_company(&mut gs, &mut hi, 2, "Tech Corp".to_string(), None, None)
            .expect("second");
    assert_eq!(first.name_alias, "techcorp");
    // The second alias extends the first with a 1-3 digit random suffix;
    // this fails if the random-suffix wrapper returns something else.
    assert!(second.name_alias.starts_with("techcorp"));
    let suffix = &second.name_alias["techcorp".len()..];
    assert!(!suffix.is_empty() && suffix.len() <= 3);
    let n: u32 = suffix.parse().expect("numeric suffix");
    assert!((1..1000).contains(&n));
}

#[test]
fn project_lifecycle_with_gating() {
    let (mut gs, mut hi, _) = fresh_world();
    let company =
        company_service::create_company(&mut gs, &mut hi, 1, "Acme".to_string(), None, None)
            .expect("company");
    // The Owner (level 1 < 3) creates a project; no self-grant is added.
    let project = project_service::create_project(
        &mut gs,
        &mut hi,
        1,
        company.id,
        "Great work".to_string(),
        "A long enough description".to_string(),
        "#aabbcc".to_string(),
    )
    .expect("project");
    assert_eq!(project.company_id, company.id);
    assert!(gs.grants.is_empty());
    // A stranger cannot create a project in this company.
    let denied = project_service::create_project(
        &mut gs,
        &mut hi,
        99,
        company.id,
        "Sneaky plan".to_string(),
        "A long enough description".to_string(),
        "#aabbcc".to_string(),
    );
    is_denied(denied);
    // The Owner adds user 2, who receives the default level-3 grant.
    let grant =
        project_service::add_user_to_project(&mut gs, &hi, 1, 2, project.id).expect("add");
    assert_eq!(grant.role_id, Some(3));
    assert_eq!(grant.project_id, Some(project.id));
    // User 2 (level 3) may not add members.
    let denied = project_service::add_user_to_project(&mut gs, &hi, 2, 5, project.id);
    is_denied(denied);
    // The listing shows the project for both users.
    let listed = ProjectQuery::get_all_company_project_by_access(&gs, &hi, company.id, 2);
    assert_eq!(listed.len(), 1);
    assert_eq!(listed[0].id, project.id);
    // User 2 sees their role through the project lookup.
    let up = ProjectQuery::get_user_project(&gs, &hi, 2, project.id).expect("standing");
    assert_eq!(up.user_role.id, 3);
    assert_eq!(up.user_role.name, "Manager");
}

#[test]
fn task_lifecycle() {
    let (mut gs, mut hi, users) = fresh_world();
    let company =
        company_service::create_company(&mut gs, &mut hi, 1, "Acme".to_string(), None, None)
            .expect("company");
    let project = project_service::create_project(
        &mut gs,
        &mut hi,
        1,
        company.id,
        "Great work".to_string(),
        "A long enough description".to_string(),
        "#aabbcc".to_string(),
    )
    .expect("project");
    let task = task_service::create_task(
        &mut gs,
        &mut hi,
        1,
        project.id,
        "Dig a hole".to_string(),
        "A long enough description".to_string(),
    )
    .expect("task");
    // The creator got an Owner-level grant on the task.
    let pair = TasksQuery::get_user_task_with_access_lvl(&gs, &hi, 1, task.id).expect("standing");
    assert_eq!(pair.1, 1);
    // The creator deletes the task; its grants vanish with it.
    task_service::delete_task(&mut gs, &mut hi, 1, task.id).expect("delete");
    assert!(hi.find_task(task.id).is_none());
    assert!(gs.grants.iter().all(|g| g.task_id != Some(task.id)));
    let _ = users;
}

#[test]
fn company_deletion_is_owner_only_and_total() {
    let (mut gs, mut hi, _) = fresh_world();
    let company =
        company_service::create_company(&mut gs, &mut hi, 1, "Acme".to_string(), None, None)
            .expect("company");
    company_service::add_user_to_company(&mut gs, 1, 2, company.id).expect("add member");
    // The level-3 member cannot delete the company.
    is_denied(company_service::delete_company(&mut gs, &mut hi, 2, company.id));
    // The Owner can; memberships vanish with it.
    company_service::delete_company(&mut gs, &mut hi, 1, company.id).expect("delete");
    assert!(hi.companies.is_empty());
    assert!(gs.memberships.is_empty());
}

#[test]
fn company_member_management() {
    let (mut gs, mut hi, _) = fresh_world();
    let company =
        company_service::create_company(&mut gs, &mut hi, 1, "Acme".to_string(), None, None)
            .expect("company");
    let m = company_service::add_user_to_company(&mut gs, 1, 2, company.id).expect("add");
    assert_eq!(m.role_id, 3);
    // Adding again is a no-op returning the same membership.
    let again = company_service::add_user_to_company(&mut gs, 1, 2, company.id).expect("again");
    assert_eq!(again, m);
    assert_eq!(gs.memberships.len(), 2);
    // The level-3 member cannot add others.
    is_denied(company_service::add_user_to_company(&mut gs, 2, 5, company.id));
    // The level-3 member cannot remove the Owner...
    is_denied(company_service::remove_user_from_company(&mut gs, &hi, 2, 1, company.id));
    // ...but may always remove themselves.
    company_service::remove_user_from_company(&mut gs, &hi, 2, 2, company.id).expect("self");
    assert_eq!(gs.memberships.len(), 1);
    // The company listing reflects the remaining membership.
    let listed = CompanyQuery::get_user_companies_with_roles(&gs, &hi, 1);
    assert_eq!(listed.len(), 1);
    assert_eq!(listed[0].name, "Acme");
    assert_eq!(listed[0].user_role.name, "Owner");
}

#[test]
fn note_creation_gating() {
    let (mut gs, mut hi, _) = fresh_world();
    let company =
        company_service::create_company(&mut gs, &mut hi, 1, "Acme".to_string(), None, None)
            .expect("company");
    let project = project_service::create_project(
        &mut gs,
        &mut hi,
        1,
        company.id,
        "Great work".to_string(),
        "A long enough description".to_string(),
        "#aabbcc".to_string(),
    )
    .expect("project");
    // The Owner attaches a note to the project.
    let note = notes_service::create_note(
        &gs,
        &mut hi,
        1,
        Some(project.id),
        None,
        None,
        None,
        "remember the milk".to_string(),
        "memo".to_string(),
        "#abc".to_string(),
    )
    .expect("note");
    assert_eq!(note.project_id, Some(project.id));
    // A level-3 member of the project cannot attach notes (needs 2).
    project_service::add_user_to_project(&mut gs, &hi, 1, 2, project.id).expect("add");
    let denied = notes_service::create_note(
        &gs,
        &mut hi,
        2,
        Some(project.id),
        None,
        None,
        None,
        "remember the milk".to_string(),
        "memo".to_string(),
        "#abc".to_string(),
    );
    is_denied(denied);
    // Subtask attachments are not offered.
    let bad_format = notes_service::create_note(
        &gs,
        &mut hi,
        1,
        None,
        None,
        None,
        Some(1),
        "remember the milk".to_string(),
        "memo".to_string(),
        "#abc".to_string(),
    );
    assert!(matches!(bad_format, Err(CoreErrors::DataValidationError(m)) if m == "bad_format"));
}

#[test]
fn user_accounts() {
    let (_, _, mut users) = fresh_world();
    let u = UserQuery::create_new_user(
        &mut users,
        "alice1".to_string(),
        "Alice".to_string(),
        "hash-of-password".to_string(),
        "alice@site.com".to_string(),
    )
    .expect("create user");
    assert!(u.is_active);
    let fetched = UserQuery::get_user_by_id(&users, u.id).expect("by id");
    assert_eq!(fetched.login, "alice1");
    // Sign-in looks the account up by display name.
    let pair = UserQuery::get_user_by_login(&users, &"Alice".to_string())
        .expect("no data error")
        .expect("found");
    assert_eq!(pair.0.id, u.id);
    assert_eq!(pair.1.password_hash, "hash-of-password");
    assert!(UserQuery::get_user_by_login(&users, &"Nobody".to_string()).unwrap().is_none());
}

#[test]
fn claims_expiries() {
    let s = SessionClaims::at_time(42, 1_000);
    assert_eq!(s.sub, 42);
    assert_eq!(s.exp, 1_000 + SESSION_TOKEN_EXP);
    let r = RefreshClaims::at_time(42, 1_000);
    assert_eq!(r.exp, 1_000 + REFRESH_TOKEN_EXP);
    assert!(r.is_refresh);
    // The clock-based constructors carry the subject through.
    assert_eq!(SessionClaims::new(7).sub, 7);
    assert_eq!(RefreshClaims::new(7).sub, 7);
    // Near the type bound the expiry saturates instead of wrapping.
    let clamped = SessionClaims::at_time(1, usize::MAX - 5);
    assert_eq!(clamped.exp, usize::MAX);
}
