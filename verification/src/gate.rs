use vstd::prelude::*;

use crate::errors::AccessError;
use crate::hierarchy::HierarchyIndex;
use crate::model::{GrantStore, ResourceKind};
use crate::resolver::{resolve, resolve_spec, EffectiveGrant};
use crate::roles::{ADMINISTRATOR_LEVEL, DEFAULT_GRANT_LEVEL, OWNER_LEVEL};

verus! {

/// What an operation demands of the caller's resolved role level.
#[derive(Clone, Copy, Debug, PartialEq, Eq, Structural)]
pub enum Threshold {
    /// The resolved level must be numerically at most this (lower is
    /// stronger).
    AtMost(i32),
    /// Owner-only operations: the resolved level must be exactly 1.
    OwnerOnly,
}

/// The gated operations, each with a fixed threshold on a fixed target kind.
/// Company creation is not an operation here: it is ungated, the creator
/// becoming the company's first grant.
#[derive(Clone, Copy, Debug, PartialEq, Eq, Structural)]
pub enum Operation {
    /// Create a project under a company.
    CreateProject,
    /// Create a task under a project.
    CreateTask,
    /// Attach a note to a resource.
    CreateNote,
    /// Add a member to a company.
    AddCompanyMember,
    /// Add a member to a project.
    AddProjectMember,
    /// Add a member to a task.
    AddTaskMember,
    /// Delete a company.
    DeleteCompany,
    /// Delete a project.
    DeleteProject,
    /// Delete a task.
    DeleteTask,
}

/// The operation-to-threshold table: creation of children needs level 3 or
/// better on the parent (notes need 2), member management needs level 2, and
/// deletion is Owner-only.
pub open spec fn spec_required_threshold(op: Operation) -> Threshold {
    match op {
        Operation::CreateProject => Threshold::AtMost(DEFAULT_GRANT_LEVEL),
        Operation::CreateTask => Threshold::AtMost(DEFAULT_GRANT_LEVEL),
        Operation::CreateNote => Threshold::AtMost(ADMINISTRATOR_LEVEL),
        Operation::AddCompanyMember => Threshold::AtMost(ADMINISTRATOR_LEVEL),
        Operation::AddProjectMember => Threshold::AtMost(ADMINISTRATOR_LEVEL),
        Operation::AddTaskMember => Threshold::AtMost(ADMINISTRATOR_LEVEL),
        Operation::DeleteCompany => Threshold::OwnerOnly,
        Operation::DeleteProject => Threshold::OwnerOnly,
        Operation::DeleteTask => Threshold::OwnerOnly,
    }
}

/// Executable form of the threshold table.
pub fn required_threshold(op: Operation) -> (r: Threshold)
    ensures
        r == spec_required_threshold(op),
{
    match op {
        Operation::CreateProject => Threshold::AtMost(DEFAULT_GRANT_LEVEL),
        Operation::CreateTask => Threshold::AtMost(DEFAULT_GRANT_LEVEL),
        Operation::CreateNote => Threshold::AtMost(ADMINISTRATOR_LEVEL),
        Operation::AddCompanyMember => Threshold::AtMost(ADMINISTRATOR_LEVEL),
        Operation::AddProjectMember => Threshold::AtMost(ADMINISTRATOR_LEVEL),
        Operation::AddTaskMember => Threshold::AtMost(ADMINISTRATOR_LEVEL),
        Operation::DeleteCompany => Threshold::OwnerOnly,
        Operation::DeleteProject => Threshold::OwnerOnly,
        Operation::DeleteTask => Threshold::OwnerOnly,
    }
}

/// Whether a resolved role level meets a threshold.
pub open spec fn spec_meets_threshold(level: i32, threshold: Threshold) -> bool {
    match threshold {
        Threshold::AtMost(limit) => level <= limit,
        Threshold::OwnerOnly => level == OWNER_LEVEL,
    }
}

/// Executable threshold comparison.
pub fn meets_threshold(level: i32, threshold: Threshold) -> (r: bool)
    ensures
        r == spec_meets_threshold(level, threshold),
{
    match threshold {
        Threshold::AtMost(limit) => level <= limit,
        Threshold::OwnerOnly => level == OWNER_LEVEL,
    }
}

/// Whether authorization lets the user through: resolution must find a
/// grant whose level meets the threshold.
pub open spec fn spec_authorized(
    grants: GrantStore,
    hierarchy: HierarchyIndex,
    user_id: i32,
    kind: ResourceKind,
    id: i32,
    threshold: Threshold,
) -> bool {
    match resolve_spec(grants, hierarchy, user_id, kind, id) {
        Some(g) => spec_meets_threshold(g.role_level, threshold),
        None => false,
    }
}

/// The authorization gate: resolves the caller once, compares the level
/// against the operation's threshold, and answers with one uniform denial on
/// failure — callers never learn which grant paths exist.
pub fn authorize(
    grants: &GrantStore,
    hierarchy: &HierarchyIndex,
    user_id: i32,
    kind: ResourceKind,
    id: i32,
    threshold: Threshold,
) -> (r: Result<EffectiveGrant, AccessError>)
    ensures
        r is Ok <==> spec_authorized(*grants, *hierarchy, user_id, kind, id, threshold),
        r matches Ok(g) ==> resolve_spec(*grants, *hierarchy, user_id, kind, id) == Some(g)
            && spec_meets_threshold(g.role_level, threshold),
        r is Err ==> r == Err::<EffectiveGrant, AccessError>(AccessError::PermissionDenied),
{
    match resolve(grants, hierarchy, user_id, kind, id) {
        Some(g) => {
            if meets_threshold(g.role_level, threshold) {
                Ok(g)
            } else {
                Err(AccessError::PermissionDenied)
            }
        },
        None => Err(AccessError::PermissionDenied),
    }
}

/// Authorization for a named operation, using the threshold table.
pub fn authorize_operation(
    grants: &GrantStore,
    hierarchy: &HierarchyIndex,
    user_id: i32,
    kind: ResourceKind,
    id: i32,
    op: Operation,
) -> (r: Result<EffectiveGrant, AccessError>)
    ensures
        r is Ok <==> spec_authorized(
            *grants,
            *hierarchy,
            user_id,
            kind,
            id,
            spec_required_threshold(op),
        ),
        r matches Ok(g) ==> resolve_spec(*grants, *hierarchy, user_id, kind, id) == Some(g)
            && spec_meets_threshold(g.role_level, spec_required_threshold(op)),
        r is Err ==> r == Err::<EffectiveGrant, AccessError>(AccessError::PermissionDenied),
{
    let threshold = required_threshold(op);
    authorize(grants, hierarchy, user_id, kind, id, threshold)
}

/// Lets the caller through exactly when they hold *any* membership in the
/// company, handing the membership back; the denial is uniform.
pub fn check_company_permission(grants: &GrantStore, user_id: i32, company_id: i32) -> (r: Result<
    crate::model::CompanyMembership,
    AccessError,
>)
    ensures
        r is Ok <==> grants.membership_of(user_id, company_id) is Some,
        r matches Ok(m) ==> grants.membership_of(user_id, company_id) == Some(m),
        r is Err ==> r == Err::<crate::model::CompanyMembership, AccessError>(
            AccessError::PermissionDenied,
        ),
{
    match grants.find_membership(user_id, company_id) {
        Some(m) => Ok(m),
        None => Err(AccessError::PermissionDenied),
    }
}

/// Lets the caller through exactly when the resolver grants them standing
/// on the project, handing back the project details and their role.
pub fn check_project_permission(
    grants: &GrantStore,
    hierarchy: &HierarchyIndex,
    user_id: i32,
    project_id: i32,
) -> (r: Result<crate::queries::projects_query::UserProject, AccessError>)
    ensures
        r is Ok <==> resolve_spec(
            *grants,
            *hierarchy,
            user_id,
            ResourceKind::Project,
            project_id,
        ) is Some,
        r matches Ok(up) ==> {
            let eg = resolve_spec(
                *grants,
                *hierarchy,
                user_id,
                ResourceKind::Project,
                project_id,
            )->Some_0;
            let p = hierarchy.project_by_id(project_id)->Some_0;
            &&& up.id == p.id
            &&& up.company_id == p.company_id
            &&& up.title == p.title
            &&& up.description == p.description
            &&& up.decoration_color == p.decoration_color
            &&& up.user_role.id == eg.role_level
            &&& up.user_role.name@ == crate::roles::spec_role_name(eg.role_level)
        },
        r is Err ==> r == Err::<crate::queries::projects_query::UserProject, AccessError>(
            AccessError::PermissionDenied,
        ),
{
    match crate::queries::projects_query::ProjectQuery::get_user_project(
        grants,
        hierarchy,
        user_id,
        project_id,
    ) {
        Some(up) => Ok(up),
        None => Err(AccessError::PermissionDenied),
    }
}

/// Lets the caller through exactly when the resolver grants them standing
/// on the task, handing back the task and the resolved role level.
pub fn check_tasks_permission(
    grants: &GrantStore,
    hierarchy: &HierarchyIndex,
    user_id: i32,
    task_id: i32,
) -> (r: Result<(crate::hierarchy::Task, i32), AccessError>)
    ensures
        r is Ok <==> resolve_spec(*grants, *hierarchy, user_id, ResourceKind::Task, task_id)
            is Some,
        r matches Ok(pair) ==> {
            let eg = resolve_spec(
                *grants,
                *hierarchy,
                user_id,
                ResourceKind::Task,
                task_id,
            )->Some_0;
            let t = hierarchy.task_by_id(task_id)->Some_0;
            &&& pair.0.id == t.id
            &&& pair.0.project_id == t.project_id
            &&& pair.0.assigned_to == Some(user_id)
            &&& pair.0.status == t.status
            &&& pair.0.title == t.title
            &&& pair.0.description == t.description
            &&& pair.0.priority == t.priority
            &&& pair.1 == eg.role_level
        },
        r is Err ==> r == Err::<(crate::hierarchy::Task, i32), AccessError>(
            AccessError::PermissionDenied,
        ),
{
    match crate::queries::tasks_query::TasksQuery::get_user_task_with_access_lvl(
        grants,
        hierarchy,
        user_id,
        task_id,
    ) {
        Some(pair) => Ok(pair),
        None => Err(AccessError::PermissionDenied),
    }
}

/// Lets the caller through exactly when the resolver grants them standing
/// on the note — its author always has it — handing the note back.
pub fn check_note_permission(
    grants: &GrantStore,
    hierarchy: &HierarchyIndex,
    user_id: i32,
    note_id: i32,
) -> (r: Result<crate::hierarchy::Note, AccessError>)
    ensures
        r is Ok <==> resolve_spec(*grants, *hierarchy, user_id, ResourceKind::Note, note_id)
            is Some,
        r matches Ok(n) ==> hierarchy.note_by_id(note_id) == Some(n),
        r is Err ==> r == Err::<crate::hierarchy::Note, AccessError>(
            AccessError::PermissionDenied,
        ),
{
    match crate::queries::notes_query::NotesQuery::check_user_permission(
        grants,
        hierarchy,
        note_id,
        user_id,
    ) {
        Some(n) => Ok(n),
        None => Err(AccessError::PermissionDenied),
    }
}

} // verus!
