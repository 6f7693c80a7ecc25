use vstd::prelude::*;

use crate::errors::{is_db_error, AccessError, CoreErrors};
use crate::find::max_key;
use crate::hierarchy::{note_id_key, HierarchyIndex, Note};
use crate::model::{scope_count, GrantStore, ResourceKind};
use crate::queries::notes_query::NotesQuery;
use crate::resolver::resolve_spec;
use crate::roles::ADMINISTRATOR_LEVEL;
use crate::validators::{
    color_pipeline, color_validator, description_pipeline, description_validator,
    is_validation_err, name_pipeline, name_validator, pipeline_accepts, pipeline_error,
};

verus! {

/// What a permitted note creation leaves behind: a single-scope note row
/// appended, or the scope-exclusivity rejection, with nothing else moved.
pub open spec fn created_note_outcome(
    old_hi: HierarchyIndex,
    new_hi: HierarchyIndex,
    user_id: i32,
    project_id: Option<i32>,
    company_id: Option<i32>,
    task_id: Option<i32>,
    subtask_id: Option<i32>,
    content: String,
    tags: String,
    decoration_color: String,
    r: Result<Note, CoreErrors>,
) -> bool {
    &&& (scope_count(company_id, project_id, task_id, subtask_id) > 1 ==> is_db_error(
        r,
        "invalid_resource_scope"@,
    ) && new_hi.notes@ == old_hi.notes@)
    &&& (r matches Ok(n) ==> {
        &&& scope_count(company_id, project_id, task_id, subtask_id) <= 1
        &&& n.user_id == user_id
        &&& n.company_id == company_id
        &&& n.project_id == project_id
        &&& n.task_id == task_id
        &&& n.subtask_id == subtask_id
        &&& n.content == content
        &&& n.tags == Some(tags)
        &&& n.decoration_color == Some(decoration_color)
        &&& new_hi.notes@ == old_hi.notes@.push(n)
    })
    &&& (r is Ok <==> scope_count(company_id, project_id, task_id, subtask_id) <= 1 && max_key(
        old_hi.notes@,
        note_id_key(),
    ) < i32::MAX as int)
    &&& (r is Err ==> new_hi.notes@ == old_hi.notes@)
}

/// The authorization a note creation needs, by the note's attachment: a
/// company
/// attachment demands a membership at level 2 or better, a project or task
/// attachment a resolved level of 2 or better; a personal note needs none.
pub open spec fn note_access_allowed(
    grants: GrantStore,
    hierarchy: HierarchyIndex,
    actor_id: i32,
    project_id: Option<i32>,
    company_id: Option<i32>,
    task_id: Option<i32>,
) -> bool {
    if company_id is Some {
        match grants.membership_of(actor_id, company_id->0) {
            Some(m) => m.role_id <= ADMINISTRATOR_LEVEL,
            None => false,
        }
    } else if project_id is Some {
        match resolve_spec(grants, hierarchy, actor_id, ResourceKind::Project, project_id->0) {
            Some(eg) => eg.role_level <= ADMINISTRATOR_LEVEL,
            None => false,
        }
    } else if task_id is Some {
        match resolve_spec(grants, hierarchy, actor_id, ResourceKind::Task, task_id->0) {
            Some(eg) => eg.role_level <= ADMINISTRATOR_LEVEL,
            None => false,
        }
    } else {
        true
    }
}

/// Creates a note after validating its fields and gating the actor on the
/// note's attachment. Attaching directly to a subtask is not offered.
pub fn create_note(
    grants: &GrantStore,
    hierarchy: &mut HierarchyIndex,
    actor_id: i32,
    project_id: Option<i32>,
    company_id: Option<i32>,
    task_id: Option<i32>,
    subtask_id: Option<i32>,
    content: String,
    tags: String,
    decoration_color: String,
) -> (r: Result<Note, CoreErrors>)
    requires
        old(hierarchy).wf(),
    ensures
        final(hierarchy).wf(),
        final(hierarchy).companies@ == old(hierarchy).companies@,
        final(hierarchy).projects@ == old(hierarchy).projects@,
        final(hierarchy).tasks@ == old(hierarchy).tasks@,
        final(hierarchy).subtasks@ == old(hierarchy).subtasks@,
        !pipeline_accepts(name_pipeline(), tags@) ==> is_validation_err(
            r,
            pipeline_error(name_pipeline(), tags@),
        ) && final(hierarchy).notes@ == old(hierarchy).notes@,
        pipeline_accepts(name_pipeline(), tags@) && !pipeline_accepts(
            description_pipeline(),
            content@,
        ) ==> is_validation_err(r, pipeline_error(description_pipeline(), content@)) && final(hierarchy).notes@ == old(hierarchy).notes@,
        pipeline_accepts(name_pipeline(), tags@) && pipeline_accepts(
            description_pipeline(),
            content@,
        ) && !pipeline_accepts(color_pipeline(), decoration_color@) ==> is_validation_err(
            r,
            pipeline_error(color_pipeline(), decoration_color@),
        ) && final(hierarchy).notes@ == old(hierarchy).notes@,
        pipeline_accepts(name_pipeline(), tags@) && pipeline_accepts(
            description_pipeline(),
            content@,
        ) && pipeline_accepts(color_pipeline(), decoration_color@) ==> ({
            if company_id is None && project_id is None && task_id is None && subtask_id
                is Some {
                is_validation_err(r, "bad_format"@) && final(hierarchy).notes@ == old(hierarchy).notes@
            } else if !note_access_allowed(
                *grants,
                *old(hierarchy),
                actor_id,
                project_id,
                company_id,
                task_id,
            ) {
                is_db_error(r, "permission_denied"@) && final(hierarchy).notes@ == old(hierarchy).notes@
            } else {
                created_note_outcome(
                    *old(hierarchy),
                    *final(hierarchy),
                    actor_id,
                    project_id,
                    company_id,
                    task_id,
                    subtask_id,
                    content,
                    tags,
                    decoration_color,
                    r,
                )
            }
        }),
{
    let validated_tags = match name_validator().validate(tags) {
        Ok(v) => v,
        Err(e) => {
            return Err(e);
        },
    };
    let validated_content = match description_validator().validate(content) {
        Ok(v) => v,
        Err(e) => {
            return Err(e);
        },
    };
    let validated_color = match color_validator().validate(decoration_color) {
        Ok(v) => v,
        Err(e) => {
            return Err(e);
        },
    };
    let gate_level: Option<i32> = if let Some(cid) = company_id {
        match grants.find_membership(actor_id, cid) {
            Some(m) => Some(m.role_id),
            None => {
                return Err(AccessError::PermissionDenied.to_core());
            },
        }
    } else if let Some(pid) = project_id {
        match crate::resolver::resolve(grants, hierarchy, actor_id, ResourceKind::Project, pid) {
            Some(eg) => Some(eg.role_level),
            None => {
                return Err(AccessError::PermissionDenied.to_core());
            },
        }
    } else if let Some(tid) = task_id {
        match crate::resolver::resolve(grants, hierarchy, actor_id, ResourceKind::Task, tid) {
            Some(eg) => Some(eg.role_level),
            None => {
                return Err(AccessError::PermissionDenied.to_core());
            },
        }
    } else if subtask_id.is_some() {
        let s: &str = "bad_format";
        return Err(CoreErrors::DataValidationError(s.to_owned()));
    } else {
        None
    };
    if let Some(level) = gate_level {
        if level > ADMINISTRATOR_LEVEL {
            return Err(AccessError::PermissionDenied.to_core());
        }
    }
    NotesQuery::create_note(
        hierarchy,
        actor_id,
        project_id,
        company_id,
        task_id,
        subtask_id,
        validated_content,
        validated_tags,
        validated_color,
    )
}

} // verus!
