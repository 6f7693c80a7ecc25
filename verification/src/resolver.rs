use vstd::prelude::*;

use crate::hierarchy::HierarchyIndex;
use crate::model::{GrantStore, ResourceKind};
use crate::roles::{
    AccessLevelType, ADMINISTRATOR_LEVEL, DEFAULT_GRANT_LEVEL, OWNER_LEVEL,
    PROJECT_GRANT_TASK_CEILING, TASK_GRANT_SUBTASK_CEILING,
};

verus! {

/// Which kind of path produced the winning candidate.
#[derive(Clone, Copy, Debug, PartialEq, Eq, Structural)]
pub enum GrantPath {
    /// The requesting user is the note's author.
    SelfOwned,
    /// A grant scoped exactly to the target (or, for a note, to its
    /// attachment).
    ResourceScoped,
    /// A grant scoped to the target's parent reaching down (project grant on
    /// a task, task grant on a subtask).
    ParentScoped,
    /// A company-wide membership covering the target's owning company.
    CompanyWide,
}

/// The outcome of access resolution: the user's best role level on the
/// target, the tier that came with it, and which path supplied it.
#[derive(Clone, Copy, Debug, PartialEq, Eq, Structural)]
pub struct EffectiveGrant {
    pub role_level: i32,
    pub access_level: AccessLevelType,
    pub source_path: GrantPath,
}

/// The ceiling a company-wide membership must stay at or above (numerically
/// at or below) to cover a resource of this kind. Company-wide roles are
/// broad but not unlimited: they reach projects only up to level 3 and the
/// finer-grained levels only up to level 2. On the company itself the
/// membership is the grant, so no ceiling applies.
pub open spec fn spec_company_wide_ceiling(kind: ResourceKind) -> Option<i32> {
    match kind {
        ResourceKind::Company => None,
        ResourceKind::Project => Some(DEFAULT_GRANT_LEVEL),
        ResourceKind::Task => Some(ADMINISTRATOR_LEVEL),
        ResourceKind::Subtask => Some(ADMINISTRATOR_LEVEL),
        ResourceKind::Note => Some(ADMINISTRATOR_LEVEL),
    }
}

/// Executable form of `spec_company_wide_ceiling`.
pub fn company_wide_ceiling(kind: ResourceKind) -> (r: Option<i32>)
    ensures
        r == spec_company_wide_ceiling(kind),
{
    match kind {
        ResourceKind::Company => None,
        ResourceKind::Project => Some(DEFAULT_GRANT_LEVEL),
        ResourceKind::Task => Some(ADMINISTRATOR_LEVEL),
        ResourceKind::Subtask => Some(ADMINISTRATOR_LEVEL),
        ResourceKind::Note => Some(ADMINISTRATOR_LEVEL),
    }
}

/// The self path: a note's author always has standing on their own note,
/// regardless of any role. It counts as Owner level with full access.
pub open spec fn spec_self_candidate(
    hierarchy: HierarchyIndex,
    user_id: i32,
    kind: ResourceKind,
    id: i32,
) -> Option<EffectiveGrant> {
    if kind == ResourceKind::Note {
        match hierarchy.note_by_id(id) {
            Some(n) => if n.user_id == user_id {
                Some(
                    EffectiveGrant {
                        role_level: OWNER_LEVEL,
                        access_level: AccessLevelType::Full,
                        source_path: GrantPath::SelfOwned,
                    },
                )
            } else {
                None
            },
            None => None,
        }
    } else {
        None
    }
}

/// The resource-scoped path: a grant scoped exactly to the target. For a
/// note the grant sits on the note's attachment and must be at or above
/// level 2; a grant without a role conveys nothing.
pub open spec fn spec_scoped_candidate(
    grants: GrantStore,
    hierarchy: HierarchyIndex,
    user_id: i32,
    kind: ResourceKind,
    id: i32,
) -> Option<EffectiveGrant> {
    if kind == ResourceKind::Note {
        match hierarchy.note_by_id(id) {
            Some(n) => match n.attachment() {
                Some((attach_kind, attach_id)) => match grants.grant_of(
                    user_id,
                    attach_kind,
                    attach_id,
                ) {
                    Some(g) => match g.role_id {
                        Some(level) => if level <= ADMINISTRATOR_LEVEL {
                            Some(
                                EffectiveGrant {
                                    role_level: level,
                                    access_level: g.access_level,
                                    source_path: GrantPath::ResourceScoped,
                                },
                            )
                        } else {
                            None
                        },
                        None => None,
                    },
                    None => None,
                },
                None => None,
            },
            None => None,
        }
    } else {
        match grants.grant_of(user_id, kind, id) {
            Some(g) => match g.role_id {
                Some(level) => Some(
                    EffectiveGrant {
                        role_level: level,
                        access_level: g.access_level,
                        source_path: GrantPath::ResourceScoped,
                    },
                ),
                None => None,
            },
            None => None,
        }
    }
}

/// The parent-scoped path: a project grant reaches the tasks under the
/// project, and a task grant the subtasks under the task, each under a
/// looser ceiling.
pub open spec fn spec_parent_candidate(
    grants: GrantStore,
    hierarchy: HierarchyIndex,
    user_id: i32,
    kind: ResourceKind,
    id: i32,
) -> Option<EffectiveGrant> {
    match kind {
        ResourceKind::Task => match hierarchy.task_by_id(id) {
            Some(t) => match grants.grant_of(user_id, ResourceKind::Project, t.project_id) {
                Some(g) => match g.role_id {
                    Some(level) => if level <= PROJECT_GRANT_TASK_CEILING {
                        Some(
                            EffectiveGrant {
                                role_level: level,
                                access_level: g.access_level,
                                source_path: GrantPath::ParentScoped,
                            },
                        )
                    } else {
                        None
                    },
                    None => None,
                },
                None => None,
            },
            None => None,
        },
        ResourceKind::Subtask => match hierarchy.subtask_by_id(id) {
            Some(s) => match grants.grant_of(user_id, ResourceKind::Task, s.task_id) {
                Some(g) => match g.role_id {
                    Some(level) => if level <= TASK_GRANT_SUBTASK_CEILING {
                        Some(
                            EffectiveGrant {
                                role_level: level,
                                access_level: g.access_level,
                                source_path: GrantPath::ParentScoped,
                            },
                        )
                    } else {
                        None
                    },
                    None => None,
                },
                None => None,
            },
            None => None,
        },
        _ => None,
    }
}

/// The company-wide path: a membership in the company the target belongs to
/// (directly or transitively), qualified by the per-kind ceiling.
pub open spec fn spec_company_candidate(
    grants: GrantStore,
    hierarchy: HierarchyIndex,
    user_id: i32,
    kind: ResourceKind,
    id: i32,
) -> Option<EffectiveGrant> {
    match hierarchy.company_of(kind, id) {
        Some(company_id) => match grants.membership_of(user_id, company_id) {
            Some(m) => {
                let qualifies = match spec_company_wide_ceiling(kind) {
                    Some(ceiling) => m.role_id <= ceiling,
                    None => true,
                };
                if qualifies {
                    Some(
                        EffectiveGrant {
                            role_level: m.role_id,
                            access_level: m.access_level,
                            source_path: GrantPath::CompanyWide,
                        },
                    )
                } else {
                    None
                }
            },
            None => None,
        },
        None => None,
    }
}

/// Of two optional candidates, the one with the lower (stronger) level; on a
/// tie the first argument wins, which encodes the fixed priority order of
/// the paths.
pub open spec fn spec_better(a: Option<EffectiveGrant>, b: Option<EffectiveGrant>) -> Option<
    EffectiveGrant,
> {
    match a {
        None => b,
        Some(x) => match b {
            None => Some(x),
            Some(y) => if x.role_level <= y.role_level {
                Some(x)
            } else {
                Some(y)
            },
        },
    }
}

/// The access resolution algorithm, as a mathematical function: every path
/// is a candidate (union, not first-match), the strongest level wins, and a
/// resource that is not in the index yields no access — indistinguishable
/// from an authorization failure.
pub open spec fn resolve_spec(
    grants: GrantStore,
    hierarchy: HierarchyIndex,
    user_id: i32,
    kind: ResourceKind,
    id: i32,
) -> Option<EffectiveGrant> {
    if !hierarchy.resource_exists(kind, id) {
        None
    } else {
        spec_better(
            spec_better(
                spec_self_candidate(hierarchy, user_id, kind, id),
                spec_scoped_candidate(grants, hierarchy, user_id, kind, id),
            ),
            spec_better(
                spec_parent_candidate(grants, hierarchy, user_id, kind, id),
                spec_company_candidate(grants, hierarchy, user_id, kind, id),
            ),
        )
    }
}

/// Executable combination of two optional candidates.
fn better(a: Option<EffectiveGrant>, b: Option<EffectiveGrant>) -> (r: Option<EffectiveGrant>)
    ensures
        r == spec_better(a, b),
{
    match a {
        None => b,
        Some(x) => match b {
            None => Some(x),
            Some(y) => if x.role_level <= y.role_level {
                Some(x)
            } else {
                Some(y)
            },
        },
    }
}

/// Computes the self-path candidate.
fn self_candidate(
    hierarchy: &HierarchyIndex,
    user_id: i32,
    kind: ResourceKind,
    id: i32,
) -> (r: Option<EffectiveGrant>)
    ensures
        r == spec_self_candidate(*hierarchy, user_id, kind, id),
{
    if let ResourceKind::Note = kind {
        match hierarchy.find_note(id) {
            Some(n) => {
                if n.user_id == user_id {
                    Some(
                        EffectiveGrant {
                            role_level: OWNER_LEVEL,
                            access_level: AccessLevelType::Full,
                            source_path: GrantPath::SelfOwned,
                        },
                    )
                } else {
                    None
                }
            },
            None => None,
        }
    } else {
        None
    }
}

/// Computes the resource-scoped candidate.
fn scoped_candidate(
    grants: &GrantStore,
    hierarchy: &HierarchyIndex,
    user_id: i32,
    kind: ResourceKind,
    id: i32,
) -> (r: Option<EffectiveGrant>)
    ensures
        r == spec_scoped_candidate(*grants, *hierarchy, user_id, kind, id),
{
    if let ResourceKind::Note = kind {
        let attachment = match hierarchy.find_note(id) {
            Some(n) => crate::hierarchy::note_attachment(n),
            None => {
                return None;
            },
        };
        let (attach_kind, attach_id) = match attachment {
            Some(a) => a,
            None => {
                return None;
            },
        };
        match grants.find_grant(user_id, attach_kind, attach_id) {
            Some(g) => match g.role_id {
                Some(level) => {
                    if level <= ADMINISTRATOR_LEVEL {
                        Some(
                            EffectiveGrant {
                                role_level: level,
                                access_level: g.access_level,
                                source_path: GrantPath::ResourceScoped,
                            },
                        )
                    } else {
                        None
                    }
                },
                None => None,
            },
            None => None,
        }
    } else {
        match grants.find_grant(user_id, kind, id) {
            Some(g) => match g.role_id {
                Some(level) => Some(
                    EffectiveGrant {
                        role_level: level,
                        access_level: g.access_level,
                        source_path: GrantPath::ResourceScoped,
                    },
                ),
                None => None,
            },
            None => None,
        }
    }
}

/// Computes the parent-scoped candidate.
fn parent_candidate(
    grants: &GrantStore,
    hierarchy: &HierarchyIndex,
    user_id: i32,
    kind: ResourceKind,
    id: i32,
) -> (r: Option<EffectiveGrant>)
    ensures
        r == spec_parent_candidate(*grants, *hierarchy, user_id, kind, id),
{
    let (parent_kind, parent_id, ceiling) = match kind {
        ResourceKind::Task => {
            match hierarchy.find_task(id) {
                Some(t) => (ResourceKind::Project, t.project_id, PROJECT_GRANT_TASK_CEILING),
                None => {
                    return None;
                },
            }
        },
        ResourceKind::Subtask => {
            match hierarchy.find_subtask(id) {
                Some(s) => (ResourceKind::Task, s.task_id, TASK_GRANT_SUBTASK_CEILING),
                None => {
                    return None;
                },
            }
        },
        _ => {
            return None;
        },
    };
    match grants.find_grant(user_id, parent_kind, parent_id) {
        Some(g) => match g.role_id {
            Some(level) => {
                if level <= ceiling {
                    Some(
                        EffectiveGrant {
                            role_level: level,
                            access_level: g.access_level,
                            source_path: GrantPath::ParentScoped,
                        },
                    )
                } else {
                    None
                }
            },
            None => None,
        },
        None => None,
    }
}

/// Computes the company-wide candidate.
fn company_candidate(
    grants: &GrantStore,
    hierarchy: &HierarchyIndex,
    user_id: i32,
    kind: ResourceKind,
    id: i32,
) -> (r: Option<EffectiveGrant>)
    ensures
        r == spec_company_candidate(*grants, *hierarchy, user_id, kind, id),
{
    let company_id = match hierarchy.find_company_of(kind, id) {
        Some(c) => c,
        None => {
            return None;
        },
    };
    let m = match grants.find_membership(user_id, company_id) {
        Some(m) => m,
        None => {
            return None;
        },
    };
    let qualifies = match company_wide_ceiling(kind) {
        Some(ceiling) => m.role_id <= ceiling,
        None => true,
    };
    if qualifies {
        Some(
            EffectiveGrant {
                role_level: m.role_id,
                access_level: m.access_level,
                source_path: GrantPath::CompanyWide,
            },
        )
    } else {
        None
    }
}

/// Resolves the user's effective grant on a target resource by evaluating
/// every grant path and returning the best (lowest-numbered) level found;
/// `None` means no access, whether the resource is missing or no path
/// qualifies.
pub fn resolve(
    grants: &GrantStore,
    hierarchy: &HierarchyIndex,
    user_id: i32,
    kind: ResourceKind,
    id: i32,
) -> (r: Option<EffectiveGrant>)
    ensures
        r == resolve_spec(*grants, *hierarchy, user_id, kind, id),
{
    if !hierarchy.check_resource_exists(kind, id) {
        return None;
    }
    let own = self_candidate(hierarchy, user_id, kind, id);
    let scoped = scoped_candidate(grants, hierarchy, user_id, kind, id);
    let parent = parent_candidate(grants, hierarchy, user_id, kind, id);
    let company = company_candidate(grants, hierarchy, user_id, kind, id);
    better(better(own, scoped), better(parent, company))
}

/// Resolution reads the store only through its contents: two stores holding
/// the same rows resolve identically.
pub proof fn lemma_resolve_depends_on_rows(
    a: GrantStore,
    b: GrantStore,
    hierarchy: HierarchyIndex,
    user_id: i32,
    kind: ResourceKind,
    id: i32,
)
    requires
        a.grants@ == b.grants@,
        a.memberships@ == b.memberships@,
    ensures
        resolve_spec(a, hierarchy, user_id, kind, id) == resolve_spec(
            b,
            hierarchy,
            user_id,
            kind,
            id,
        ),
{
    assert(spec_scoped_candidate(a, hierarchy, user_id, kind, id) == spec_scoped_candidate(
        b,
        hierarchy,
        user_id,
        kind,
        id,
    ));
    assert(spec_parent_candidate(a, hierarchy, user_id, kind, id) == spec_parent_candidate(
        b,
        hierarchy,
        user_id,
        kind,
        id,
    ));
    assert(spec_company_candidate(a, hierarchy, user_id, kind, id) == spec_company_candidate(
        b,
        hierarchy,
        user_id,
        kind,
        id,
    ));
}

/// Union of paths: resolution succeeds exactly when at least one path
/// yields a candidate on an existing resource — a qualifying company-wide
/// membership, a qualifying grant, or authorship — and fails when none does.
pub proof fn lemma_resolve_union_of_paths(
    grants: GrantStore,
    hierarchy: HierarchyIndex,
    user_id: i32,
    kind: ResourceKind,
    id: i32,
)
    ensures
        resolve_spec(grants, hierarchy, user_id, kind, id) is Some <==> (hierarchy.resource_exists(
            kind,
            id,
        ) && (spec_self_candidate(hierarchy, user_id, kind, id) is Some || spec_scoped_candidate(
            grants,
            hierarchy,
            user_id,
            kind,
            id,
        ) is Some || spec_parent_candidate(grants, hierarchy, user_id, kind, id) is Some
            || spec_company_candidate(grants, hierarchy, user_id, kind, id) is Some)),
{
}

/// Best-of selection: the resolved level is at or below the level of every
/// candidate path, and is itself the level of one of them.
pub proof fn lemma_resolve_best_of(
    grants: GrantStore,
    hierarchy: HierarchyIndex,
    user_id: i32,
    kind: ResourceKind,
    id: i32,
)
    ensures
        resolve_spec(grants, hierarchy, user_id, kind, id) matches Some(win) ==> {
            &&& spec_self_candidate(hierarchy, user_id, kind, id) matches Some(c)
                ==> win.role_level <= c.role_level
            &&& spec_scoped_candidate(grants, hierarchy, user_id, kind, id) matches Some(c)
                ==> win.role_level <= c.role_level
            &&& spec_parent_candidate(grants, hierarchy, user_id, kind, id) matches Some(c)
                ==> win.role_level <= c.role_level
            &&& spec_company_candidate(grants, hierarchy, user_id, kind, id) matches Some(c)
                ==> win.role_level <= c.role_level
            &&& (spec_self_candidate(hierarchy, user_id, kind, id) == Some(win)
                || spec_scoped_candidate(grants, hierarchy, user_id, kind, id) == Some(win)
                || spec_parent_candidate(grants, hierarchy, user_id, kind, id) == Some(win)
                || spec_company_candidate(grants, hierarchy, user_id, kind, id) == Some(win))
        },
{
}

} // verus!
