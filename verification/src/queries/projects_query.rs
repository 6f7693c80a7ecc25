use vstd::prelude::*;

use crate::errors::CoreErrors;
use crate::find::{lemma_filter_push, lemma_first_index_where_properties, max_key};
use crate::hierarchy::{clone_opt_string, project_id_key, HierarchyIndex, Project};
use crate::model::{grant_key, grant_pred, GrantStore, ResourceGrant, ResourceKind};
use crate::resolver::{resolve, resolve_spec};
use crate::roles::{
    role_name, spec_role_name, AccessLevelType, DEFAULT_GRANT_LEVEL, OWNER_LEVEL,
};

verus! {

/// The role a user has in a project.
#[derive(Debug)]
pub struct UserProjectRole {
    pub id: i32,
    pub name: String,
}

/// A project together with the requesting user's role in it.
#[derive(Debug)]
pub struct UserProject {
    pub id: i32,
    pub company_id: i32,
    pub title: String,
    pub description: Option<String>,
    pub decoration_color: Option<String>,
    pub user_role: UserProjectRole,
}

/// Queries and mutations about projects and the users granted onto them.
pub struct ProjectQuery;

/// A project-scoped grant of this user that carries a role and points at a
/// project present in the index.
pub open spec fn user_project_grant_pred(hierarchy: HierarchyIndex, user_id: i32) -> spec_fn(
    ResourceGrant,
) -> bool {
    |g: ResourceGrant|
        g.user_id == user_id && g.project_id is Some && g.role_id is Some
            && hierarchy.project_by_id(g.project_id->0) is Some
}

/// The listed entry faithfully reflects the grant and its project row.
pub open spec fn user_project_matches(
    up: UserProject,
    g: ResourceGrant,
    hierarchy: HierarchyIndex,
) -> bool {
    let p = hierarchy.project_by_id(g.project_id->0)->Some_0;
    &&& up.id == p.id
    &&& up.company_id == p.company_id
    &&& up.title == p.title
    &&& up.description == p.description
    &&& up.decoration_color == p.decoration_color
    &&& up.user_role.id == g.role_id->0
    &&& up.user_role.name@ == spec_role_name(g.role_id->0)
}

/// A project of the company that the user can reach: through a company-wide
/// membership at level 3 or better, or through a grant on the project
/// itself.
pub open spec fn accessible_project_pred(
    grants: GrantStore,
    user_id: i32,
    company_id: i32,
) -> spec_fn(Project) -> bool {
    |p: Project|
        p.company_id == company_id && (match grants.membership_of(user_id, company_id) {
            Some(m) => m.role_id <= DEFAULT_GRANT_LEVEL,
            None => false,
        } || grants.grant_of(user_id, ResourceKind::Project, p.id) is Some)
}

impl ProjectQuery {
    /// All projects the user holds a project-scoped grant on, with the role
    /// each grant carries, in store order.
    #[verifier::loop_isolation(false)]
    pub fn get_user_projects_with_roles(
        grants: &GrantStore,
        hierarchy: &HierarchyIndex,
        user_id: i32,
    ) -> (r: Vec<UserProject>)
        ensures
            r@.len() == grants.grants@.filter(user_project_grant_pred(*hierarchy, user_id)).len(),
            forall|i: int|
                0 <= i < r@.len() ==> user_project_matches(
                    #[trigger] r@[i],
                    grants.grants@.filter(user_project_grant_pred(*hierarchy, user_id))[i],
                    *hierarchy,
                ),
    {
        let ghost p = user_project_grant_pred(*hierarchy, user_id);
        let mut out: Vec<UserProject> = Vec::new();
        let mut i: usize = 0;
        while i < grants.grants.len()
            invariant
                i <= grants.grants@.len(),
                out@.len() == grants.grants@.take(i as int).filter(p).len(),
                forall|k: int|
                    0 <= k < out@.len() ==> user_project_matches(
                        #[trigger] out@[k],
                        grants.grants@.take(i as int).filter(p)[k],
                        *hierarchy,
                    ),
            decreases grants.grants@.len() - i,
        {
            let g = grants.grants[i];
            proof {
                assert(grants.grants@.take(i + 1int) =~= grants.grants@.take(i as int).push(
                    grants.grants@[i as int],
                ));
                lemma_filter_push(grants.grants@.take(i as int), p, g);
            }
            if g.user_id == user_id {
                if let Some(project_id) = g.project_id {
                    if let Some(level) = g.role_id {
                        if let Some(project) = hierarchy.find_project(project_id) {
                            out.push(
                                UserProject {
                                    id: project.id,
                                    company_id: project.company_id,
                                    title: project.title.clone(),
                                    description: clone_opt_string(&project.description),
                                    decoration_color: clone_opt_string(
                                        &project.decoration_color,
                                    ),
                                    user_role: UserProjectRole {
                                        id: level,
                                        name: role_name(level),
                                    },
                                },
                            );
                        }
                    }
                }
            }
            i += 1;
        }
        proof {
            assert(grants.grants@.take(grants.grants@.len() as int) =~= grants.grants@);
        }
        out
    }

    /// Creates a project under the company and, when the creator's
    /// company-wide role is weaker than an administrator's, self-grants the
    /// creator Owner-level access on the new project.
    pub fn create_project(
        grants: &mut GrantStore,
        hierarchy: &mut HierarchyIndex,
        company_id: i32,
        title: String,
        description: String,
        decoration_color: String,
        user_id: i32,
        role_id: i32,
    ) -> (r: Result<Project, CoreErrors>)
        requires
            old(grants).wf(),
            old(hierarchy).wf(),
        ensures
            final(grants).wf(),
            final(hierarchy).wf(),
            r matches Ok(p) ==> {
                &&& p.company_id == company_id
                &&& p.title == title
                &&& p.description == Some(description)
                &&& p.decoration_color == Some(decoration_color)
                &&& (forall|j: int|
                    0 <= j < old(hierarchy).projects@.len() ==> (#[trigger] old(hierarchy).projects@[j]).id < p.id)
                &&& final(hierarchy).projects@ == old(hierarchy).projects@.push(p)
                &&& (role_id >= DEFAULT_GRANT_LEVEL ==> final(grants).grants@ == old(grants).grants@.push(
                    ResourceGrant {
                        user_id,
                        company_id: None,
                        project_id: Some(p.id),
                        task_id: None,
                        subtask_id: None,
                        role_id: Some(OWNER_LEVEL),
                        access_level: AccessLevelType::Full,
                    },
                ))
                &&& (role_id < DEFAULT_GRANT_LEVEL ==> final(grants).grants@ == old(grants).grants@)
            },
            ({
                let top = max_key(old(hierarchy).projects@, project_id_key());
                r is Ok <==> top < i32::MAX as int && (role_id < DEFAULT_GRANT_LEVEL || old(
                    grants,
                ).grant_of(user_id, ResourceKind::Project, ((top + 1) as i32)) is None)
            }),
            r matches Ok(p) ==> p.id as int == max_key(
                old(hierarchy).projects@,
                project_id_key(),
            ) + 1,
            r is Err ==> crate::errors::is_db_error(r, "Failed to create project"@) && final(hierarchy).projects@ == old(hierarchy).projects@ && final(grants).grants@ == old(grants).grants@,
            final(hierarchy).companies@ == old(hierarchy).companies@,
            final(hierarchy).tasks@ == old(hierarchy).tasks@,
            final(hierarchy).subtasks@ == old(hierarchy).subtasks@,
            final(hierarchy).notes@ == old(hierarchy).notes@,
            final(grants).memberships@ == old(grants).memberships@,
    {
        let project_id = match hierarchy.fresh_project_id() {
            Some(id) => id,
            None => {
                return Err(failed_to_create_project());
            },
        };
        if role_id >= DEFAULT_GRANT_LEVEL {
            if grants.find_grant(user_id, ResourceKind::Project, project_id).is_some() {
                return Err(failed_to_create_project());
            }
        }
        let row = Project {
            id: project_id,
            company_id,
            title,
            description: Some(description),
            decoration_color: Some(decoration_color),
        };
        let result = row.clone();
        hierarchy.insert_project(row);
        if role_id >= DEFAULT_GRANT_LEVEL {
            let fresh = ResourceGrant {
                user_id,
                company_id: None,
                project_id: Some(project_id),
                task_id: None,
                subtask_id: None,
                role_id: Some(OWNER_LEVEL),
                access_level: AccessLevelType::Full,
            };
            proof {
                assert(fresh.valid_scope());
                lemma_first_index_where_properties(
                    old(grants).grants@,
                    grant_pred(user_id, ResourceKind::Project, project_id),
                );
                assert forall|j: int| 0 <= j < grants.grants@.len() implies grant_key()(
                    #[trigger] grants.grants@[j],
                ) != grant_key()(fresh) by {
                    if grant_key()(grants.grants@[j]) == grant_key()(fresh) {
                        assert(grant_pred(user_id, ResourceKind::Project, project_id)(
                            grants.grants@[j],
                        ));
                    }
                }
            }
            grants.insert_grant(fresh);
        }
        Ok(result)
    }

    /// The user's standing on a project: the project's details and the best
    /// role the resolver finds, or nothing when no path qualifies.
    pub fn get_user_project(
        grants: &GrantStore,
        hierarchy: &HierarchyIndex,
        user_id: i32,
        project_id: i32,
    ) -> (r: Option<UserProject>)
        ensures
            r is Some <==> resolve_spec(
                *grants,
                *hierarchy,
                user_id,
                ResourceKind::Project,
                project_id,
            ) is Some,
            r matches Some(up) ==> {
                let eg = resolve_spec(
                    *grants,
                    *hierarchy,
                    user_id,
                    ResourceKind::Project,
                    project_id,
                )->Some_0;
                let p = hierarchy.project_by_id(project_id)->Some_0;
                &&& up.id == p.id
                &&& up.company_id == p.company_id
                &&& up.title == p.title
                &&& up.description == p.description
                &&& up.decoration_color == p.decoration_color
                &&& up.user_role.id == eg.role_level
                &&& up.user_role.name@ == spec_role_name(eg.role_level)
            },
    {
        let eg = match resolve(grants, hierarchy, user_id, ResourceKind::Project, project_id) {
            Some(eg) => eg,
            None => {
                return None;
            },
        };
        match hierarchy.find_project(project_id) {
            Some(p) => Some(
                UserProject {
                    id: p.id,
                    company_id: p.company_id,
                    title: p.title.clone(),
                    description: clone_opt_string(&p.description),
                    decoration_color: clone_opt_string(&p.decoration_color),
                    user_role: UserProjectRole {
                        id: eg.role_level,
                        name: role_name(eg.role_level),
                    },
                },
            ),
            None => None,
        }
    }

    /// Grants the user the default role on the project, or returns the
    /// grant they already hold; never gated at this layer.
    pub fn add_user_to_project(
        grants: &mut GrantStore,
        user_id: i32,
        project_id: i32,
    ) -> (r: Result<ResourceGrant, CoreErrors>)
        requires
            old(grants).wf(),
        ensures
            final(grants).wf(),
            r is Ok,
            old(grants).grant_of(user_id, ResourceKind::Project, project_id) matches Some(g) ==> r
                == Ok::<ResourceGrant, CoreErrors>(g) && final(grants).grants@ == old(grants).grants@,
            old(grants).grant_of(user_id, ResourceKind::Project, project_id) is None ==> {
                let fresh = crate::mutation::spec_default_grant(
                    user_id,
                    ResourceKind::Project,
                    project_id,
                );
                r == Ok::<ResourceGrant, CoreErrors>(fresh) && final(grants).grants@ == old(grants).grants@.push(fresh)
            },
            final(grants).memberships@ == old(grants).memberships@,
    {
        if let Some(existing) = grants.find_grant(user_id, ResourceKind::Project, project_id) {
            return Ok(existing);
        }
        let fresh = ResourceGrant {
            user_id,
            company_id: None,
            project_id: Some(project_id),
            task_id: None,
            subtask_id: None,
            role_id: Some(DEFAULT_GRANT_LEVEL),
            access_level: AccessLevelType::Limited,
        };
        proof {
            lemma_first_index_where_properties(
                grants.grants@,
                grant_pred(user_id, ResourceKind::Project, project_id),
            );
            assert forall|j: int| 0 <= j < grants.grants@.len() implies grant_key()(
                #[trigger] grants.grants@[j],
            ) != grant_key()(fresh) by {
                if grant_key()(grants.grants@[j]) == grant_key()(fresh) {
                    assert(grant_pred(user_id, ResourceKind::Project, project_id)(
                        grants.grants@[j],
                    ));
                }
            }
        }
        grants.insert_grant(fresh);
        Ok(fresh)
    }

    /// Removes the user's grant on the project. With a requester level
    /// given, only a grant at that level or weaker may be removed; a grant
    /// that is missing or too strong reports the user as not associated.
    pub fn remove_user_from_project(
        grants: &mut GrantStore,
        user_id: i32,
        project_id: i32,
        request_user_id_lvl: Option<i32>,
    ) -> (r: Result<(), CoreErrors>)
        requires
            old(grants).wf(),
        ensures
            final(grants).wf(),
            final(grants).memberships@ == old(grants).memberships@,
            ({
                let existing = old(grants).grant_of(user_id, ResourceKind::Project, project_id);
                let allowed = match existing {
                    Some(g) => match request_user_id_lvl {
                        Some(level) => g.target_level() >= level,
                        None => true,
                    },
                    None => false,
                };
                if allowed {
                    r is Ok && final(grants).grants@ == old(grants).grants@.filter(
                        |g: ResourceGrant|
                            !grant_pred(user_id, ResourceKind::Project, project_id)(g),
                    )
                } else {
                    r is Err && crate::errors::is_db_error(
                        r,
                        "User not associated with the specified project"@,
                    ) && final(grants).grants@ == old(grants).grants@
                }
            }),
    {
        let existing = match grants.find_grant(user_id, ResourceKind::Project, project_id) {
            Some(g) => g,
            None => {
                return not_associated_with_project();
            },
        };
        let allowed = match request_user_id_lvl {
            Some(level) => match existing.role_id {
                Some(role) => role >= level,
                None => true,
            },
            None => true,
        };
        if !allowed {
            return not_associated_with_project();
        }
        let _removed = grants.remove_grant_row(user_id, ResourceKind::Project, project_id);
        Ok(())
    }

    /// Deletes the project row itself; reports an error when it is absent.
    pub fn delete_project(hierarchy: &mut HierarchyIndex, project_id: i32) -> (r: Result<
        (),
        CoreErrors,
    >)
        requires
            old(hierarchy).wf(),
        ensures
            final(hierarchy).wf(),
            r is Ok <==> old(hierarchy).project_by_id(project_id) is Some,
            final(hierarchy).projects@ == old(hierarchy).projects@.filter(
                |p: Project| p.id != project_id,
            ),
            final(hierarchy).project_by_id(project_id) is None,
            r is Err ==> crate::errors::is_db_error(
                r,
                "Project with the given id does not exist"@,
            ) && final(hierarchy).projects@ == old(hierarchy).projects@,
            final(hierarchy).companies@ == old(hierarchy).companies@,
            final(hierarchy).tasks@ == old(hierarchy).tasks@,
            final(hierarchy).subtasks@ == old(hierarchy).subtasks@,
            final(hierarchy).notes@ == old(hierarchy).notes@,
    {
        let exists = hierarchy.find_project(project_id).is_some();
        hierarchy.remove_project_row(project_id);
        if exists {
            Ok(())
        } else {
            proof {
                lemma_first_index_where_properties(
                    old(hierarchy).projects@,
                    crate::hierarchy::project_pred(project_id),
                );
                crate::find::lemma_filter_all_true(
                    old(hierarchy).projects@,
                    |p: Project| p.id != project_id,
                );
            }
            Err(CoreErrors::DatabaseServiceError(
                project_missing_message(),
            ))
        }
    }

    /// Deletes every grant scoped exactly to the project, for all users.
    pub fn delete_all_users_from_project(grants: &mut GrantStore, project_id: i32) -> (r: Result<
        (),
        CoreErrors,
    >)
        requires
            old(grants).wf(),
        ensures
            final(grants).wf(),
            r is Ok,
            final(grants).grants@ == old(grants).grants@.filter(
                |g: ResourceGrant| !g.scoped_to(ResourceKind::Project, project_id),
            ),
            final(grants).memberships@ == old(grants).memberships@,
    {
        grants.remove_grants_scoped_to(ResourceKind::Project, project_id);
        Ok(())
    }

    /// The projects of the company that the user can reach, in store order:
    /// through a company membership at level 3 or better, or a grant on the
    /// project itself.
    #[verifier::loop_isolation(false)]
    pub fn get_all_company_project_by_access(
        grants: &GrantStore,
        hierarchy: &HierarchyIndex,
        company_id: i32,
        user_id: i32,
    ) -> (r: Vec<Project>)
        ensures
            r@ == hierarchy.projects@.filter(
                accessible_project_pred(*grants, user_id, company_id),
            ),
    {
        let ghost p = accessible_project_pred(*grants, user_id, company_id);
        let company_ok = match grants.find_membership(user_id, company_id) {
            Some(m) => m.role_id <= DEFAULT_GRANT_LEVEL,
            None => false,
        };
        let mut out: Vec<Project> = Vec::new();
        let mut i: usize = 0;
        while i < hierarchy.projects.len()
            invariant
                i <= hierarchy.projects@.len(),
                out@ == hierarchy.projects@.take(i as int).filter(p),
            decreases hierarchy.projects@.len() - i,
        {
            proof {
                assert(hierarchy.projects@.take(i + 1int) =~= hierarchy.projects@.take(
                    i as int,
                ).push(hierarchy.projects@[i as int]));
                lemma_filter_push(
                    hierarchy.projects@.take(i as int),
                    p,
                    hierarchy.projects@[i as int],
                );
            }
            let project = &hierarchy.projects[i];
            if project.company_id == company_id {
                let reachable = company_ok || grants.find_grant(
                    user_id,
                    ResourceKind::Project,
                    project.id,
                ).is_some();
                if reachable {
                    out.push(project.clone());
                }
            }
            i += 1;
        }
        proof {
            assert(hierarchy.projects@.take(hierarchy.projects@.len() as int)
                =~= hierarchy.projects@);
        }
        out
    }
}

fn failed_to_create_project() -> (r: CoreErrors)
    ensures
        r matches CoreErrors::DatabaseServiceError(m) && m@ == "Failed to create project"@,
{
    let s: &str = "Failed to create project";
    CoreErrors::DatabaseServiceError(s.to_owned())
}

fn not_associated_with_project() -> (r: Result<(), CoreErrors>)
    ensures
        crate::errors::is_db_error(r, "User not associated with the specified project"@),
        r is Err,
{
    let s: &str = "User not associated with the specified project";
    Err(CoreErrors::DatabaseServiceError(s.to_owned()))
}

fn project_missing_message() -> (r: String)
    ensures
        r@ == "Project with the given id does not exist"@,
{
    let s: &str = "Project with the given id does not exist";
    s.to_owned()
}

} // verus!
