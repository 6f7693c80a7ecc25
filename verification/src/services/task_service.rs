use vstd::prelude::*;

use crate::errors::{is_db_error, AccessError, CoreErrors};
use crate::gate::{authorize, spec_authorized, Threshold};
use crate::find::max_key;
use crate::hierarchy::{task_id_key, HierarchyIndex, Task};
use crate::model::{grant_pred, GrantStore, ResourceGrant, ResourceKind};
use crate::mutation::{cascade_keep, spec_default_grant};
use crate::queries::tasks_query::TasksQuery;
use crate::resolver::resolve_spec;
use crate::roles::{AccessLevelType, ADMINISTRATOR_LEVEL, DEFAULT_GRANT_LEVEL, OWNER_LEVEL, TaskStatusType};
use crate::services::project_service::unchanged_stores;
use crate::validators::{
    description_pipeline, description_validator, is_validation_err, name_pipeline,
    name_validator, pipeline_accepts, pipeline_error,
};

verus! {

/// Creates a task under the project after validating its fields; the actor
/// must resolve on the project at level 3 or better, and becomes the task's
/// assignee and Owner-level grantee.
pub fn create_task(
    grants: &mut GrantStore,
    hierarchy: &mut HierarchyIndex,
    actor_id: i32,
    project_id: i32,
    title: String,
    description: String,
) -> (r: Result<Task, CoreErrors>)
    requires
        old(grants).wf(),
        old(hierarchy).wf(),
    ensures
        final(grants).wf(),
        final(hierarchy).wf(),
        final(grants).memberships@ == old(grants).memberships@,
        !pipeline_accepts(name_pipeline(), title@) ==> is_validation_err(
            r,
            pipeline_error(name_pipeline(), title@),
        ) && unchanged_stores(*old(grants), *final(grants), *old(hierarchy), *final(hierarchy)),
        pipeline_accepts(name_pipeline(), title@) && !pipeline_accepts(
            description_pipeline(),
            description@,
        ) ==> is_validation_err(r, pipeline_error(description_pipeline(), description@))
            && unchanged_stores(*old(grants), *final(grants), *old(hierarchy), *final(hierarchy)),
        pipeline_accepts(name_pipeline(), title@) && pipeline_accepts(
            description_pipeline(),
            description@,
        ) ==> ({
            let gate = match resolve_spec(
                *old(grants),
                *old(hierarchy),
                actor_id,
                ResourceKind::Project,
                project_id,
            ) {
                Some(eg) => eg.role_level <= DEFAULT_GRANT_LEVEL,
                None => false,
            };
            if gate {
                &&& (r matches Ok(t) ==> {
                    &&& t.project_id == project_id
                    &&& t.assigned_to == Some(actor_id)
                    &&& t.status == TaskStatusType::Pending
                    &&& t.title == title
                    &&& t.description == Some(description)
                    &&& final(hierarchy).tasks@ == old(hierarchy).tasks@.push(t)
                    &&& final(grants).grants@ == old(grants).grants@.push(
                        ResourceGrant {
                            user_id: actor_id,
                            company_id: None,
                            project_id: None,
                            task_id: Some(t.id),
                            subtask_id: None,
                            role_id: Some(OWNER_LEVEL),
                            access_level: AccessLevelType::Full,
                        },
                    )
                })
                &&& (r is Err ==> unchanged_stores(
                    *old(grants),
                    *final(grants),
                    *old(hierarchy),
                    *final(hierarchy),
                ))
                &&& ({
                    let top = max_key(old(hierarchy).tasks@, task_id_key());
                    r is Ok <==> top < i32::MAX as int && old(grants).grant_of(
                        actor_id,
                        ResourceKind::Task,
                        ((top + 1) as i32),
                    ) is None
                })
            } else {
                is_db_error(r, "permission_denied"@) && unchanged_stores(
                    *old(grants),
                    *final(grants),
                    *old(hierarchy),
                    *final(hierarchy),
                )
            }
        }),
{
    let validated_title = match name_validator().validate(title) {
        Ok(v) => v,
        Err(e) => {
            return Err(e);
        },
    };
    let validated_description = match description_validator().validate(description) {
        Ok(v) => v,
        Err(e) => {
            return Err(e);
        },
    };
    let eg = match crate::resolver::resolve(
        grants,
        hierarchy,
        actor_id,
        ResourceKind::Project,
        project_id,
    ) {
        Some(eg) => eg,
        None => {
            return Err(AccessError::PermissionDenied.to_core());
        },
    };
    if eg.role_level > DEFAULT_GRANT_LEVEL {
        return Err(AccessError::PermissionDenied.to_core());
    }
    TasksQuery::create_task(
        grants,
        hierarchy,
        project_id,
        validated_title,
        validated_description,
        actor_id,
    )
}

/// Adds the target user to the task, provided the actor resolves on it at
/// level 2 or better; idempotent for a user already granted.
pub fn add_user_to_task(
    grants: &mut GrantStore,
    hierarchy: &HierarchyIndex,
    actor_id: i32,
    target_user_id: i32,
    task_id: i32,
) -> (r: Result<ResourceGrant, CoreErrors>)
    requires
        old(grants).wf(),
    ensures
        final(grants).wf(),
        final(grants).memberships@ == old(grants).memberships@,
        ({
            let gate = match resolve_spec(
                *old(grants),
                *hierarchy,
                actor_id,
                ResourceKind::Task,
                task_id,
            ) {
                Some(eg) => eg.role_level <= ADMINISTRATOR_LEVEL,
                None => false,
            };
            if gate {
                match old(grants).grant_of(target_user_id, ResourceKind::Task, task_id) {
                    Some(g) => r == Ok::<ResourceGrant, CoreErrors>(g) && final(grants).grants@
                        == old(grants).grants@,
                    None => {
                        let fresh = spec_default_grant(
                            target_user_id,
                            ResourceKind::Task,
                            task_id,
                        );
                        r == Ok::<ResourceGrant, CoreErrors>(fresh) && final(grants).grants@
                            == old(grants).grants@.push(fresh)
                    },
                }
            } else {
                is_db_error(r, "permission_denied"@) && final(grants).grants@ == old(
                    grants,
                ).grants@
            }
        }),
{
    let eg = match crate::resolver::resolve(
        grants,
        hierarchy,
        actor_id,
        ResourceKind::Task,
        task_id,
    ) {
        Some(eg) => eg,
        None => {
            return Err(AccessError::PermissionDenied.to_core());
        },
    };
    if eg.role_level > ADMINISTRATOR_LEVEL {
        return Err(AccessError::PermissionDenied.to_core());
    }
    TasksQuery::add_user_to_task(grants, target_user_id, task_id)
}

/// Removes the target user's grant on the task, under the self-removal and
/// peer-removal rules of the grant mutation service.
pub fn remove_user_from_task(
    grants: &mut GrantStore,
    hierarchy: &HierarchyIndex,
    actor_id: i32,
    target_user_id: i32,
    task_id: i32,
) -> (r: Result<(), CoreErrors>)
    requires
        old(grants).wf(),
    ensures
        final(grants).wf(),
        final(grants).memberships@ == old(grants).memberships@,
        ({
            match old(grants).grant_of(target_user_id, ResourceKind::Task, task_id) {
                None => is_db_error(r, "not_associated"@) && final(grants).grants@ == old(
                    grants,
                ).grants@,
                Some(existing) => {
                    let allowed = actor_id == target_user_id || (match resolve_spec(
                        *old(grants),
                        *hierarchy,
                        actor_id,
                        ResourceKind::Task,
                        task_id,
                    ) {
                        Some(eg) => eg.role_level as int <= existing.target_level(),
                        None => false,
                    });
                    if allowed {
                        r is Ok && final(grants).grants@ == old(grants).grants@.filter(
                            |g: ResourceGrant|
                                !grant_pred(target_user_id, ResourceKind::Task, task_id)(g),
                        )
                    } else {
                        is_db_error(r, "permission_denied"@) && final(grants).grants@ == old(
                            grants,
                        ).grants@
                    }
                },
            }
        }),
{
    match crate::mutation::remove_grant(
        grants,
        hierarchy,
        actor_id,
        target_user_id,
        ResourceKind::Task,
        task_id,
    ) {
        Ok(_) => Ok(()),
        Err(denial) => Err(denial.to_core()),
    }
}

/// Deletes the task: Owner-only. The task row and every grant at or under
/// it go away together.
pub fn delete_task(
    grants: &mut GrantStore,
    hierarchy: &mut HierarchyIndex,
    actor_id: i32,
    task_id: i32,
) -> (r: Result<(), CoreErrors>)
    requires
        old(grants).wf(),
        old(hierarchy).wf(),
    ensures
        final(grants).wf(),
        final(hierarchy).wf(),
        final(grants).memberships@ == old(grants).memberships@,
        spec_authorized(
            *old(grants),
            *old(hierarchy),
            actor_id,
            ResourceKind::Task,
            task_id,
            Threshold::OwnerOnly,
        ) ==> {
            &&& r is Ok
            &&& final(hierarchy).tasks@ == old(hierarchy).tasks@.filter(
                |t: Task| t.id != task_id,
            )
            &&& final(hierarchy).task_by_id(task_id) is None
            &&& final(grants).grants@ == old(grants).grants@.filter(
                cascade_keep(*old(hierarchy), ResourceKind::Task, task_id),
            )
        },
        !spec_authorized(
            *old(grants),
            *old(hierarchy),
            actor_id,
            ResourceKind::Task,
            task_id,
            Threshold::OwnerOnly,
        ) ==> is_db_error(r, "permission_denied"@) && final(hierarchy).tasks@ == old(
            hierarchy,
        ).tasks@ && final(grants).grants@ == old(grants).grants@,
        final(hierarchy).companies@ == old(hierarchy).companies@,
        final(hierarchy).projects@ == old(hierarchy).projects@,
        final(hierarchy).subtasks@ == old(hierarchy).subtasks@,
        final(hierarchy).notes@ == old(hierarchy).notes@,
{
    if let Err(denial) = authorize(
        grants,
        hierarchy,
        actor_id,
        ResourceKind::Task,
        task_id,
        Threshold::OwnerOnly,
    ) {
        return Err(denial.to_core());
    }
    crate::mutation::cascade_delete_grants(grants, hierarchy, ResourceKind::Task, task_id);
    let _deleted = TasksQuery::delete_task(hierarchy, task_id);
    Ok(())
}

} // verus!
