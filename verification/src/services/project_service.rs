use vstd::prelude::*;

use crate::errors::{is_db_error, AccessError, CoreErrors};
use crate::gate::{authorize, spec_authorized, Threshold};
use crate::find::max_key;
use crate::hierarchy::{project_id_key, HierarchyIndex, Project};
use crate::model::{grant_pred, GrantStore, ResourceGrant, ResourceKind};
use crate::mutation::{cascade_keep, spec_default_grant};
use crate::queries::projects_query::ProjectQuery;
use crate::resolver::resolve_spec;
use crate::roles::{AccessLevelType, ADMINISTRATOR_LEVEL, DEFAULT_GRANT_LEVEL, OWNER_LEVEL};
use crate::validators::{
    color_pipeline, color_validator, description_pipeline, description_validator,
    is_validation_err, name_pipeline, name_validator, pipeline_accepts, pipeline_error,
};

verus! {

/// Creates a project under the company after validating its fields; the
/// actor must be a company member at level 3 or better, and a creator
/// weaker than an administrator receives an Owner-level grant on the new
/// project.
pub fn create_project(
    grants: &mut GrantStore,
    hierarchy: &mut HierarchyIndex,
    actor_id: i32,
    company_id: i32,
    title: String,
    description: String,
    decoration_color: String,
) -> (r: Result<Project, CoreErrors>)
    requires
        old(grants).wf(),
        old(hierarchy).wf(),
    ensures
        final(grants).wf(),
        final(hierarchy).wf(),
        final(grants).memberships@ == old(grants).memberships@,
        !pipeline_accepts(name_pipeline(), title@) ==> is_validation_err(
            r,
            pipeline_error(name_pipeline(), title@),
        ) && unchanged_stores(*old(grants), *final(grants), *old(hierarchy), *final(hierarchy)),
        pipeline_accepts(name_pipeline(), title@) && !pipeline_accepts(
            description_pipeline(),
            description@,
        ) ==> is_validation_err(r, pipeline_error(description_pipeline(), description@))
            && unchanged_stores(*old(grants), *final(grants), *old(hierarchy), *final(hierarchy)),
        pipeline_accepts(name_pipeline(), title@) && pipeline_accepts(
            description_pipeline(),
            description@,
        ) && !pipeline_accepts(color_pipeline(), decoration_color@) ==> is_validation_err(
            r,
            pipeline_error(color_pipeline(), decoration_color@),
        ) && unchanged_stores(*old(grants), *final(grants), *old(hierarchy), *final(hierarchy)),
        pipeline_accepts(name_pipeline(), title@) && pipeline_accepts(
            description_pipeline(),
            description@,
        ) && pipeline_accepts(color_pipeline(), decoration_color@) ==> ({
            let gate = match old(grants).membership_of(actor_id, company_id) {
                Some(m) => m.role_id <= DEFAULT_GRANT_LEVEL,
                None => false,
            };
            if gate {
                let m = old(grants).membership_of(actor_id, company_id)->Some_0;
                &&& (r matches Ok(p) ==> {
                    &&& p.company_id == company_id
                    &&& p.title == title
                    &&& p.description == Some(description)
                    &&& p.decoration_color == Some(decoration_color)
                    &&& final(hierarchy).projects@ == old(hierarchy).projects@.push(p)
                    &&& (m.role_id >= DEFAULT_GRANT_LEVEL ==> final(grants).grants@ == old(
                        grants,
                    ).grants@.push(
                        ResourceGrant {
                            user_id: actor_id,
                            company_id: None,
                            project_id: Some(p.id),
                            task_id: None,
                            subtask_id: None,
                            role_id: Some(OWNER_LEVEL),
                            access_level: AccessLevelType::Full,
                        },
                    ))
                    &&& (m.role_id < DEFAULT_GRANT_LEVEL ==> final(grants).grants@ == old(
                        grants,
                    ).grants@)
                })
                &&& (r is Err ==> unchanged_stores(
                    *old(grants),
                    *final(grants),
                    *old(hierarchy),
                    *final(hierarchy),
                ))
                &&& ({
                    let top = max_key(old(hierarchy).projects@, project_id_key());
                    r is Ok <==> top < i32::MAX as int && (m.role_id < DEFAULT_GRANT_LEVEL
                        || old(grants).grant_of(
                        actor_id,
                        ResourceKind::Project,
                        ((top + 1) as i32),
                    ) is None)
                })
            } else {
                is_db_error(r, "permission_denied"@) && unchanged_stores(
                    *old(grants),
                    *final(grants),
                    *old(hierarchy),
                    *final(hierarchy),
                )
            }
        }),
{
    let validated_title = match name_validator().validate(title) {
        Ok(v) => v,
        Err(e) => {
            return Err(e);
        },
    };
    let validated_description = match description_validator().validate(description) {
        Ok(v) => v,
        Err(e) => {
            return Err(e);
        },
    };
    let validated_color = match color_validator().validate(decoration_color) {
        Ok(v) => v,
        Err(e) => {
            return Err(e);
        },
    };
    let member = match crate::gate::check_company_permission(grants, actor_id, company_id) {
        Ok(m) => m,
        Err(denial) => {
            return Err(denial.to_core());
        },
    };
    if member.role_id > DEFAULT_GRANT_LEVEL {
        return Err(AccessError::PermissionDenied.to_core());
    }
    ProjectQuery::create_project(
        grants,
        hierarchy,
        company_id,
        validated_title,
        validated_description,
        validated_color,
        actor_id,
        member.role_id,
    )
}

/// Both stores are exactly as they were.
pub open spec fn unchanged_stores(
    old_gs: GrantStore,
    new_gs: GrantStore,
    old_hi: HierarchyIndex,
    new_hi: HierarchyIndex,
) -> bool {
    &&& new_gs.grants@ == old_gs.grants@
    &&& new_gs.memberships@ == old_gs.memberships@
    &&& new_hi.companies@ == old_hi.companies@
    &&& new_hi.projects@ == old_hi.projects@
    &&& new_hi.tasks@ == old_hi.tasks@
    &&& new_hi.subtasks@ == old_hi.subtasks@
    &&& new_hi.notes@ == old_hi.notes@
}

/// Adds the target user to the project, provided the actor resolves on it
/// at level 2 or better; idempotent for a user already granted.
pub fn add_user_to_project(
    grants: &mut GrantStore,
    hierarchy: &HierarchyIndex,
    actor_id: i32,
    target_user_id: i32,
    project_id: i32,
) -> (r: Result<ResourceGrant, CoreErrors>)
    requires
        old(grants).wf(),
    ensures
        final(grants).wf(),
        final(grants).memberships@ == old(grants).memberships@,
        ({
            let gate = match resolve_spec(
                *old(grants),
                *hierarchy,
                actor_id,
                ResourceKind::Project,
                project_id,
            ) {
                Some(eg) => eg.role_level <= ADMINISTRATOR_LEVEL,
                None => false,
            };
            if gate {
                match old(grants).grant_of(target_user_id, ResourceKind::Project, project_id) {
                    Some(g) => r == Ok::<ResourceGrant, CoreErrors>(g) && final(grants).grants@
                        == old(grants).grants@,
                    None => {
                        let fresh = spec_default_grant(
                            target_user_id,
                            ResourceKind::Project,
                            project_id,
                        );
                        r == Ok::<ResourceGrant, CoreErrors>(fresh) && final(grants).grants@
                            == old(grants).grants@.push(fresh)
                    },
                }
            } else {
                is_db_error(r, "permission_denied"@) && final(grants).grants@ == old(
                    grants,
                ).grants@
            }
        }),
{
    let eg = match crate::resolver::resolve(
        grants,
        hierarchy,
        actor_id,
        ResourceKind::Project,
        project_id,
    ) {
        Some(eg) => eg,
        None => {
            return Err(AccessError::PermissionDenied.to_core());
        },
    };
    if eg.role_level > ADMINISTRATOR_LEVEL {
        return Err(AccessError::PermissionDenied.to_core());
    }
    ProjectQuery::add_user_to_project(grants, target_user_id, project_id)
}

/// Removes the target user's grant on the project, under the self-removal
/// and peer-removal rules of the grant mutation service.
pub fn remove_user_from_project(
    grants: &mut GrantStore,
    hierarchy: &HierarchyIndex,
    actor_id: i32,
    target_user_id: i32,
    project_id: i32,
) -> (r: Result<(), CoreErrors>)
    requires
        old(grants).wf(),
    ensures
        final(grants).wf(),
        final(grants).memberships@ == old(grants).memberships@,
        ({
            match old(grants).grant_of(target_user_id, ResourceKind::Project, project_id) {
                None => is_db_error(r, "not_associated"@) && final(grants).grants@ == old(
                    grants,
                ).grants@,
                Some(existing) => {
                    let allowed = actor_id == target_user_id || (match resolve_spec(
                        *old(grants),
                        *hierarchy,
                        actor_id,
                        ResourceKind::Project,
                        project_id,
                    ) {
                        Some(eg) => eg.role_level as int <= existing.target_level(),
                        None => false,
                    });
                    if allowed {
                        r is Ok && final(grants).grants@ == old(grants).grants@.filter(
                            |g: ResourceGrant|
                                !grant_pred(target_user_id, ResourceKind::Project, project_id)(
                                    g,
                                ),
                        )
                    } else {
                        is_db_error(r, "permission_denied"@) && final(grants).grants@ == old(
                            grants,
                        ).grants@
                    }
                },
            }
        }),
{
    match crate::mutation::remove_grant(
        grants,
        hierarchy,
        actor_id,
        target_user_id,
        ResourceKind::Project,
        project_id,
    ) {
        Ok(_) => Ok(()),
        Err(denial) => Err(denial.to_core()),
    }
}

/// Deletes the project: Owner-only. The project row and every grant at or
/// under it (its tasks' and subtasks' included) go away together.
pub fn delete_project(
    grants: &mut GrantStore,
    hierarchy: &mut HierarchyIndex,
    actor_id: i32,
    project_id: i32,
) -> (r: Result<(), CoreErrors>)
    requires
        old(grants).wf(),
        old(hierarchy).wf(),
    ensures
        final(grants).wf(),
        final(hierarchy).wf(),
        final(grants).memberships@ == old(grants).memberships@,
        spec_authorized(
            *old(grants),
            *old(hierarchy),
            actor_id,
            ResourceKind::Project,
            project_id,
            Threshold::OwnerOnly,
        ) ==> {
            &&& r is Ok
            &&& final(hierarchy).projects@ == old(hierarchy).projects@.filter(
                |p: Project| p.id != project_id,
            )
            &&& final(hierarchy).project_by_id(project_id) is None
            &&& final(grants).grants@ == old(grants).grants@.filter(
                cascade_keep(*old(hierarchy), ResourceKind::Project, project_id),
            )
        },
        !spec_authorized(
            *old(grants),
            *old(hierarchy),
            actor_id,
            ResourceKind::Project,
            project_id,
            Threshold::OwnerOnly,
        ) ==> is_db_error(r, "permission_denied"@) && final(hierarchy).projects@ == old(
            hierarchy,
        ).projects@ && final(grants).grants@ == old(grants).grants@,
        final(hierarchy).companies@ == old(hierarchy).companies@,
        final(hierarchy).tasks@ == old(hierarchy).tasks@,
        final(hierarchy).subtasks@ == old(hierarchy).subtasks@,
        final(hierarchy).notes@ == old(hierarchy).notes@,
{
    if let Err(denial) = authorize(
        grants,
        hierarchy,
        actor_id,
        ResourceKind::Project,
        project_id,
        Threshold::OwnerOnly,
    ) {
        return Err(denial.to_core());
    }
    crate::mutation::cascade_delete_grants(
        grants,
        hierarchy,
        ResourceKind::Project,
        project_id,
    );
    let _deleted = ProjectQuery::delete_project(hierarchy, project_id);
    Ok(())
}

} // verus!
