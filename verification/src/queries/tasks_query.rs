use vstd::prelude::*;

use crate::errors::CoreErrors;
use crate::find::{lemma_filter_push, lemma_first_index_where_properties, max_key};
use crate::hierarchy::{clone_opt_string, task_id_key, HierarchyIndex, Task};
use crate::model::{grant_key, grant_pred, GrantStore, ResourceGrant, ResourceKind};
use crate::resolver::{resolve, resolve_spec};
use crate::roles::{AccessLevelType, DEFAULT_GRANT_LEVEL, OWNER_LEVEL, TaskStatusType};
use crate::users::UserStore;

verus! {

/// A task row joined with the name of its assignee, as the listing query
/// hands it out. A task without a resolvable assignee carries id 0 and an
/// empty name.
#[derive(Debug)]
pub struct TaskModelFromQueryResult {
    pub id: i32,
    pub project_id: i32,
    pub assigned_to_id: i32,
    pub assigned_to_name: String,
    pub status: TaskStatusType,
    pub title: String,
    pub description: Option<String>,
    pub priority: Option<String>,
}

/// Queries and mutations about tasks and the users granted onto them.
pub struct TasksQuery;

/// A task of the project that the user can reach: through a company-wide
/// membership at level 3 or better, a grant on the project, or a grant on
/// the task itself.
pub open spec fn accessible_task_pred(
    grants: GrantStore,
    hierarchy: HierarchyIndex,
    user_id: i32,
    project_id: i32,
) -> spec_fn(Task) -> bool {
    |t: Task|
        t.project_id == project_id && ((match hierarchy.company_of(
            ResourceKind::Project,
            project_id,
        ) {
            Some(company_id) => match grants.membership_of(user_id, company_id) {
                Some(m) => m.role_id <= DEFAULT_GRANT_LEVEL,
                None => false,
            },
            None => false,
        }) || grants.grant_of(user_id, ResourceKind::Project, project_id) is Some
            || grants.grant_of(user_id, ResourceKind::Task, t.id) is Some)
}

/// The listed entry faithfully reflects the task row and the user table.
pub open spec fn task_listing_matches(
    out: TaskModelFromQueryResult,
    t: Task,
    users: UserStore,
) -> bool {
    &&& out.id == t.id
    &&& out.project_id == t.project_id
    &&& out.status == t.status
    &&& out.title == t.title
    &&& out.description == t.description
    &&& out.priority == t.priority
    &&& match t.assigned_to {
        Some(uid) => match users.user_by_id(uid) {
            Some(u) => out.assigned_to_id == uid && out.assigned_to_name == u.user_name,
            None => out.assigned_to_id == 0 && out.assigned_to_name@.len() == 0,
        },
        None => out.assigned_to_id == 0 && out.assigned_to_name@.len() == 0,
    }
}

impl TasksQuery {
    /// Creates a task under the project, assigns it to its creator, and
    /// self-grants the creator Owner-level access on the new task.
    pub fn create_task(
        grants: &mut GrantStore,
        hierarchy: &mut HierarchyIndex,
        project_id: i32,
        title: String,
        description: String,
        user_id: i32,
    ) -> (r: Result<Task, CoreErrors>)
        requires
            old(grants).wf(),
            old(hierarchy).wf(),
        ensures
            final(grants).wf(),
            final(hierarchy).wf(),
            r matches Ok(t) ==> {
                &&& t.project_id == project_id
                &&& t.assigned_to == Some(user_id)
                &&& t.status == TaskStatusType::Pending
                &&& t.title == title
                &&& t.description == Some(description)
                &&& t.priority is None
                &&& (forall|j: int|
                    0 <= j < old(hierarchy).tasks@.len() ==> (#[trigger] old(hierarchy).tasks@[j]).id < t.id)
                &&& final(hierarchy).tasks@ == old(hierarchy).tasks@.push(t)
                &&& final(grants).grants@ == old(grants).grants@.push(
                    ResourceGrant {
                        user_id,
                        company_id: None,
                        project_id: None,
                        task_id: Some(t.id),
                        subtask_id: None,
                        role_id: Some(OWNER_LEVEL),
                        access_level: AccessLevelType::Full,
                    },
                )
            },
            ({
                let top = max_key(old(hierarchy).tasks@, task_id_key());
                r is Ok <==> top < i32::MAX as int && old(grants).grant_of(
                    user_id,
                    ResourceKind::Task,
                    ((top + 1) as i32),
                ) is None
            }),
            r matches Ok(t) ==> t.id as int == max_key(old(hierarchy).tasks@, task_id_key()) + 1,
            r is Err ==> crate::errors::is_db_error(r, "Failed to create task"@) && final(hierarchy).tasks@ == old(hierarchy).tasks@ && final(grants).grants@ == old(grants).grants@,
            final(hierarchy).companies@ == old(hierarchy).companies@,
            final(hierarchy).projects@ == old(hierarchy).projects@,
            final(hierarchy).subtasks@ == old(hierarchy).subtasks@,
            final(hierarchy).notes@ == old(hierarchy).notes@,
            final(grants).memberships@ == old(grants).memberships@,
    {
        let task_id = match hierarchy.fresh_task_id() {
            Some(id) => id,
            None => {
                return Err(failed_to_create_task());
            },
        };
        if grants.find_grant(user_id, ResourceKind::Task, task_id).is_some() {
            return Err(failed_to_create_task());
        }
        let row = Task {
            id: task_id,
            project_id,
            assigned_to: Some(user_id),
            status: TaskStatusType::Pending,
            title,
            description: Some(description),
            priority: None,
        };
        let result = row.clone();
        hierarchy.insert_task(row);
        let fresh = ResourceGrant {
            user_id,
            company_id: None,
            project_id: None,
            task_id: Some(task_id),
            subtask_id: None,
            role_id: Some(OWNER_LEVEL),
            access_level: AccessLevelType::Full,
        };
        proof {
            assert(fresh.valid_scope());
            lemma_first_index_where_properties(
                old(grants).grants@,
                grant_pred(user_id, ResourceKind::Task, task_id),
            );
            assert forall|j: int| 0 <= j < grants.grants@.len() implies grant_key()(
                #[trigger] grants.grants@[j],
            ) != grant_key()(fresh) by {
                if grant_key()(grants.grants@[j]) == grant_key()(fresh) {
                    assert(grant_pred(user_id, ResourceKind::Task, task_id)(grants.grants@[j]));
                }
            }
        }
        grants.insert_grant(fresh);
        Ok(result)
    }

    /// The user's standing on a task: the task's details (assigned to the
    /// requesting user, as the source query reports it) and the best role
    /// level the resolver finds.
    pub fn get_user_task_with_access_lvl(
        grants: &GrantStore,
        hierarchy: &HierarchyIndex,
        user_id: i32,
        task_id: i32,
    ) -> (r: Option<(Task, i32)>)
        ensures
            r is Some <==> resolve_spec(
                *grants,
                *hierarchy,
                user_id,
                ResourceKind::Task,
                task_id,
            ) is Some,
            r matches Some(pair) ==> {
                let eg = resolve_spec(
                    *grants,
                    *hierarchy,
                    user_id,
                    ResourceKind::Task,
                    task_id,
                )->Some_0;
                let t = hierarchy.task_by_id(task_id)->Some_0;
                &&& pair.0.id == t.id
                &&& pair.0.project_id == t.project_id
                &&& pair.0.assigned_to == Some(user_id)
                &&& pair.0.status == t.status
                &&& pair.0.title == t.title
                &&& pair.0.description == t.description
                &&& pair.0.priority == t.priority
                &&& pair.1 == eg.role_level
            },
    {
        let eg = match resolve(grants, hierarchy, user_id, ResourceKind::Task, task_id) {
            Some(eg) => eg,
            None => {
                return None;
            },
        };
        match hierarchy.find_task(task_id) {
            Some(t) => Some(
                (
                    Task {
                        id: t.id,
                        project_id: t.project_id,
                        assigned_to: Some(user_id),
                        status: t.status,
                        title: t.title.clone(),
                        description: clone_opt_string(&t.description),
                        priority: clone_opt_string(&t.priority),
                    },
                    eg.role_level,
                ),
            ),
            None => None,
        }
    }

    /// Grants the user the default role on the task, or returns the grant
    /// they already hold; never gated at this layer.
    pub fn add_user_to_task(grants: &mut GrantStore, user_id: i32, task_id: i32) -> (r: Result<
        ResourceGrant,
        CoreErrors,
    >)
        requires
            old(grants).wf(),
        ensures
            final(grants).wf(),
            r is Ok,
            old(grants).grant_of(user_id, ResourceKind::Task, task_id) matches Some(g) ==> r
                == Ok::<ResourceGrant, CoreErrors>(g) && final(grants).grants@ == old(grants).grants@,
            old(grants).grant_of(user_id, ResourceKind::Task, task_id) is None ==> {
                let fresh = crate::mutation::spec_default_grant(
                    user_id,
                    ResourceKind::Task,
                    task_id,
                );
                r == Ok::<ResourceGrant, CoreErrors>(fresh) && final(grants).grants@ == old(grants).grants@.push(fresh)
            },
            final(grants).memberships@ == old(grants).memberships@,
    {
        if let Some(existing) = grants.find_grant(user_id, ResourceKind::Task, task_id) {
            return Ok(existing);
        }
        let fresh = ResourceGrant {
            user_id,
            company_id: None,
            project_id: None,
            task_id: Some(task_id),
            subtask_id: None,
            role_id: Some(DEFAULT_GRANT_LEVEL),
            access_level: AccessLevelType::Limited,
        };
        proof {
            lemma_first_index_where_properties(
                grants.grants@,
                grant_pred(user_id, ResourceKind::Task, task_id),
            );
            assert forall|j: int| 0 <= j < grants.grants@.len() implies grant_key()(
                #[trigger] grants.grants@[j],
            ) != grant_key()(fresh) by {
                if grant_key()(grants.grants@[j]) == grant_key()(fresh) {
                    assert(grant_pred(user_id, ResourceKind::Task, task_id)(grants.grants@[j]));
                }
            }
        }
        grants.insert_grant(fresh);
        Ok(fresh)
    }

    /// Removes the user's grant on the task. With a requester level given,
    /// only a grant at that level or weaker may be removed; a grant that is
    /// missing or too strong reports the user as not associated.
    pub fn remove_user_from_task(
        grants: &mut GrantStore,
        user_id: i32,
        task_id: i32,
        request_user_id_lvl: Option<i32>,
    ) -> (r: Result<(), CoreErrors>)
        requires
            old(grants).wf(),
        ensures
            final(grants).wf(),
            final(grants).memberships@ == old(grants).memberships@,
            ({
                let existing = old(grants).grant_of(user_id, ResourceKind::Task, task_id);
                let allowed = match existing {
                    Some(g) => match request_user_id_lvl {
                        Some(level) => g.target_level() >= level,
                        None => true,
                    },
                    None => false,
                };
                if allowed {
                    r is Ok && final(grants).grants@ == old(grants).grants@.filter(
                        |g: ResourceGrant| !grant_pred(user_id, ResourceKind::Task, task_id)(g),
                    )
                } else {
                    r is Err && crate::errors::is_db_error(
                        r,
                        "User not associated with the specified task"@,
                    ) && final(grants).grants@ == old(grants).grants@
                }
            }),
    {
        let existing = match grants.find_grant(user_id, ResourceKind::Task, task_id) {
            Some(g) => g,
            None => {
                return not_associated_with_task();
            },
        };
        let allowed = match request_user_id_lvl {
            Some(level) => match existing.role_id {
                Some(role) => role >= level,
                None => true,
            },
            None => true,
        };
        if !allowed {
            return not_associated_with_task();
        }
        let _removed = grants.remove_grant_row(user_id, ResourceKind::Task, task_id);
        Ok(())
    }

    /// Deletes the task row itself; reports an error when it is absent.
    pub fn delete_task(hierarchy: &mut HierarchyIndex, task_id: i32) -> (r: Result<(), CoreErrors>)
        requires
            old(hierarchy).wf(),
        ensures
            final(hierarchy).wf(),
            r is Ok <==> old(hierarchy).task_by_id(task_id) is Some,
            final(hierarchy).tasks@ == old(hierarchy).tasks@.filter(|t: Task| t.id != task_id),
            final(hierarchy).task_by_id(task_id) is None,
            r is Err ==> crate::errors::is_db_error(r, "Task with the given id does not exist"@)
                && final(hierarchy).tasks@ == old(hierarchy).tasks@,
            final(hierarchy).companies@ == old(hierarchy).companies@,
            final(hierarchy).projects@ == old(hierarchy).projects@,
            final(hierarchy).subtasks@ == old(hierarchy).subtasks@,
            final(hierarchy).notes@ == old(hierarchy).notes@,
    {
        let exists = hierarchy.find_task(task_id).is_some();
        hierarchy.remove_task_row(task_id);
        if exists {
            Ok(())
        } else {
            proof {
                lemma_first_index_where_properties(
                    old(hierarchy).tasks@,
                    crate::hierarchy::task_pred(task_id),
                );
                crate::find::lemma_filter_all_true(
                    old(hierarchy).tasks@,
                    |t: Task| t.id != task_id,
                );
            }
            let s: &str = "Task with the given id does not exist";
            Err(CoreErrors::DatabaseServiceError(s.to_owned()))
        }
    }

    /// Deletes every grant scoped exactly to the task, for all users.
    pub fn delete_all_users_from_task(grants: &mut GrantStore, task_id: i32) -> (r: Result<
        (),
        CoreErrors,
    >)
        requires
            old(grants).wf(),
        ensures
            final(grants).wf(),
            r is Ok,
            final(grants).grants@ == old(grants).grants@.filter(
                |g: ResourceGrant| !g.scoped_to(ResourceKind::Task, task_id),
            ),
            final(grants).memberships@ == old(grants).memberships@,
    {
        grants.remove_grants_scoped_to(ResourceKind::Task, task_id);
        Ok(())
    }

    /// The tasks of the project that the user can reach, in store order,
    /// each joined with its assignee's name.
    #[verifier::loop_isolation(false)]
    pub fn get_all_project_tasks_by_access(
        grants: &GrantStore,
        hierarchy: &HierarchyIndex,
        users: &UserStore,
        project_id: i32,
        user_id: i32,
    ) -> (r: Vec<TaskModelFromQueryResult>)
        ensures
            r@.len() == hierarchy.tasks@.filter(
                accessible_task_pred(*grants, *hierarchy, user_id, project_id),
            ).len(),
            forall|i: int|
                0 <= i < r@.len() ==> task_listing_matches(
                    #[trigger] r@[i],
                    hierarchy.tasks@.filter(
                        accessible_task_pred(*grants, *hierarchy, user_id, project_id),
                    )[i],
                    *users,
                ),
    {
        let ghost p = accessible_task_pred(*grants, *hierarchy, user_id, project_id);
        let company_ok = match hierarchy.find_company_of(ResourceKind::Project, project_id) {
            Some(company_id) => match grants.find_membership(user_id, company_id) {
                Some(m) => m.role_id <= DEFAULT_GRANT_LEVEL,
                None => false,
            },
            None => false,
        };
        let project_grant_ok = grants.find_grant(
            user_id,
            ResourceKind::Project,
            project_id,
        ).is_some();
        let mut out: Vec<TaskModelFromQueryResult> = Vec::new();
        let mut i: usize = 0;
        while i < hierarchy.tasks.len()
            invariant
                i <= hierarchy.tasks@.len(),
                out@.len() == hierarchy.tasks@.take(i as int).filter(p).len(),
                forall|k: int|
                    0 <= k < out@.len() ==> task_listing_matches(
                        #[trigger] out@[k],
                        hierarchy.tasks@.take(i as int).filter(p)[k],
                        *users,
                    ),
            decreases hierarchy.tasks@.len() - i,
        {
            proof {
                assert(hierarchy.tasks@.take(i + 1int) =~= hierarchy.tasks@.take(i as int).push(
                    hierarchy.tasks@[i as int],
                ));
                lemma_filter_push(hierarchy.tasks@.take(i as int), p, hierarchy.tasks@[i as int]);
            }
            let t = &hierarchy.tasks[i];
            if t.project_id == project_id {
                let reachable = company_ok || project_grant_ok || grants.find_grant(
                    user_id,
                    ResourceKind::Task,
                    t.id,
                ).is_some();
                if reachable {
                    let (assigned_to_id, assigned_to_name) = match t.assigned_to {
                        Some(uid) => match users.find_user_by_id(uid) {
                            Some(u) => (uid, u.user_name.clone()),
                            None => (0, String::new()),
                        },
                        None => (0, String::new()),
                    };
                    out.push(
                        TaskModelFromQueryResult {
                            id: t.id,
                            project_id: t.project_id,
                            assigned_to_id,
                            assigned_to_name,
                            status: t.status,
                            title: t.title.clone(),
                            description: clone_opt_string(&t.description),
                            priority: clone_opt_string(&t.priority),
                        },
                    );
                }
            }
            i += 1;
        }
        proof {
            assert(hierarchy.tasks@.take(hierarchy.tasks@.len() as int) =~= hierarchy.tasks@);
        }
        out
    }
}

fn failed_to_create_task() -> (r: CoreErrors)
    ensures
        r matches CoreErrors::DatabaseServiceError(m) && m@ == "Failed to create task"@,
{
    let s: &str = "Failed to create task";
    CoreErrors::DatabaseServiceError(s.to_owned())
}

fn not_associated_with_task() -> (r: Result<(), CoreErrors>)
    ensures
        crate::errors::is_db_error(r, "User not associated with the specified task"@),
        r is Err,
{
    let s: &str = "User not associated with the specified task";
    Err(CoreErrors::DatabaseServiceError(s.to_owned()))
}

} // verus!
