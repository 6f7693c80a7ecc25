use hellai_core::hierarchy::HierarchyIndex;
use hellai_core::model::{GrantStore, ResourceKind};
use hellai_core::resolver::resolve;
use hellai_core::services::{company_service, project_service};

// The end-to-end story: user A founds a company, brings user B onto a
// project, B cannot delete the project, A can, and the deletion sweeps B's
// grant away.
#[test]
fn end_to_end_company_project_lifecycle() {
    let mut grants = GrantStore::new();
    let mut hierarchy = HierarchyIndex::new();
    let user_a = 1;
    let user_b = 2;

    // A creates company C and becomes its Owner (level 1).
    let company = company_service::create_company(
        &mut grants,
        &mut hierarchy,
        user_a,
        "Hellai Labs".to_string(),
        None,
        None,
    )
    .expect("company created");
    let membership = grants.find_membership(user_a, company.id).expect("owner membership");
    assert_eq!(membership.role_id, 1);

    // A creates project P under C.
    let project = project_service::create_project(
        &mut grants,
        &mut hierarchy,
        user_a,
        company.id,
        "Launch pad".to_string(),
        "Everything needed for the launch".to_string(),
        "#00ff00".to_string(),
    )
    .expect("project created");

    // A adds B to P: B receives a level-3 grant scoped to P.
    let grant = project_service::add_user_to_project(
        &mut grants,
        &hierarchy,
        user_a,
        user_b,
        project.id,
    )
    .expect("B added");
    assert_eq!(grant.user_id, user_b);
    assert_eq!(grant.project_id, Some(project.id));
    assert_eq!(grant.role_id, Some(3));

    // B attempts to delete P: denied, level 3 is not the required level 1.
    let denied = project_service::delete_project(&mut grants, &mut hierarchy, user_b, project.id);
    assert!(denied.is_err());
    assert!(hierarchy.find_project(project.id).is_some());

    // A deletes P: allowed, and the cascade removes B's grant.
    project_service::delete_project(&mut grants, &mut hierarchy, user_a, project.id)
        .expect("A deletes P");
    assert!(hierarchy.find_project(project.id).is_none());
    assert!(grants.grants.iter().all(|g| g.project_id != Some(project.id)));

    // A subsequent resolution for B on P finds nothing.
    assert!(resolve(&grants, &hierarchy, user_b, ResourceKind::Project, project.id).is_none());
}
