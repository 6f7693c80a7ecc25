use vstd::prelude::*;

use crate::errors::AccessError;
use crate::find::{lemma_filter_keeps_forall, lemma_first_index_where_properties};
use crate::gate::{authorize, spec_authorized, spec_meets_threshold, Threshold};
use crate::hierarchy::HierarchyIndex;
use crate::model::{grant_key, grant_pred, GrantStore, ResourceGrant, ResourceKind};
use crate::resolver::{resolve_spec, spec_company_candidate, spec_parent_candidate, spec_self_candidate};
use crate::roles::{AccessLevelType, ADMINISTRATOR_LEVEL, DEFAULT_GRANT_LEVEL};

verus! {

/// The grant a user receives when added to a resource without an explicit
/// role: level 3 ("Manager"), limited tier.
pub open spec fn spec_default_grant(target: i32, kind: ResourceKind, id: i32) -> ResourceGrant {
    ResourceGrant {
        user_id: target,
        company_id: if kind == ResourceKind::Company {
            Some(id)
        } else {
            None
        },
        project_id: if kind == ResourceKind::Project {
            Some(id)
        } else {
            None
        },
        task_id: if kind == ResourceKind::Task {
            Some(id)
        } else {
            None
        },
        subtask_id: if kind == ResourceKind::Subtask {
            Some(id)
        } else {
            None
        },
        role_id: Some(DEFAULT_GRANT_LEVEL),
        access_level: AccessLevelType::Limited,
    }
}

/// The two stores agree: nothing changed.
pub open spec fn grants_unchanged(old_gs: GrantStore, new_gs: GrantStore) -> bool {
    new_gs.grants@ == old_gs.grants@ && new_gs.memberships@ == old_gs.memberships@
}

/// The target's grant on (kind, id) is gone and nothing else moved.
pub open spec fn grant_removed(
    old_gs: GrantStore,
    new_gs: GrantStore,
    target: i32,
    kind: ResourceKind,
    id: i32,
) -> bool {
    new_gs.grants@ == old_gs.grants@.filter(|g: ResourceGrant| !grant_pred(target, kind, id)(g))
        && new_gs.memberships@ == old_gs.memberships@
}

/// Everything `add_grant` promises, as a relation between the store before
/// and after the call: grants never attach to notes; the actor must clear the
/// member-management threshold; adding a user who already holds
/// a grant on the exact resource is a no-op returning the existing row;
/// otherwise the default grant is appended.
pub open spec fn add_grant_post(
    old_gs: GrantStore,
    new_gs: GrantStore,
    hierarchy: HierarchyIndex,
    actor: i32,
    target: i32,
    kind: ResourceKind,
    id: i32,
    r: Result<ResourceGrant, AccessError>,
) -> bool {
    if kind == ResourceKind::Note {
        r == Err::<ResourceGrant, AccessError>(AccessError::InvalidResourceScope)
            && grants_unchanged(old_gs, new_gs)
    } else if !spec_authorized(
        old_gs,
        hierarchy,
        actor,
        kind,
        id,
        Threshold::AtMost(ADMINISTRATOR_LEVEL),
    ) {
        r == Err::<ResourceGrant, AccessError>(AccessError::PermissionDenied) && grants_unchanged(
            old_gs,
            new_gs,
        )
    } else {
        match old_gs.grant_of(target, kind, id) {
            Some(existing) => r == Ok::<ResourceGrant, AccessError>(existing) && grants_unchanged(
                old_gs,
                new_gs,
            ),
            None => r == Ok::<ResourceGrant, AccessError>(spec_default_grant(target, kind, id))
                && new_gs.grants@ == old_gs.grants@.push(spec_default_grant(target, kind, id))
                && new_gs.memberships@ == old_gs.memberships@,
        }
    }
}

/// Everything `remove_grant` promises: a missing target grant is "not
/// associated"; a user always removes their own grant; anyone else needs a
/// resolved level at or above (numerically at most) the target's level.
pub open spec fn remove_grant_post(
    old_gs: GrantStore,
    new_gs: GrantStore,
    hierarchy: HierarchyIndex,
    actor: i32,
    target: i32,
    kind: ResourceKind,
    id: i32,
    r: Result<ResourceGrant, AccessError>,
) -> bool {
    match old_gs.grant_of(target, kind, id) {
        None => r == Err::<ResourceGrant, AccessError>(AccessError::NotAssociated)
            && grants_unchanged(old_gs, new_gs),
        Some(existing) => if actor == target {
            r == Ok::<ResourceGrant, AccessError>(existing) && grant_removed(
                old_gs,
                new_gs,
                target,
                kind,
                id,
            )
        } else {
            match resolve_spec(old_gs, hierarchy, actor, kind, id) {
                Some(eg) => if eg.role_level as int <= existing.target_level() {
                    r == Ok::<ResourceGrant, AccessError>(existing) && grant_removed(
                        old_gs,
                        new_gs,
                        target,
                        kind,
                        id,
                    )
                } else {
                    r == Err::<ResourceGrant, AccessError>(AccessError::PermissionDenied)
                        && grants_unchanged(old_gs, new_gs)
                },
                None => r == Err::<ResourceGrant, AccessError>(AccessError::PermissionDenied)
                    && grants_unchanged(old_gs, new_gs),
            }
        },
    }
}

/// Grants the target user access to a resource, gated on the actor.
///
/// The actor must resolve on the resource at level 2 or better. If the
/// target already holds a grant scoped exactly to the resource the call is
/// idempotent: it returns the existing row untouched. Otherwise it inserts
/// the default grant (level 3, limited tier).
pub fn add_grant(
    grants: &mut GrantStore,
    hierarchy: &HierarchyIndex,
    actor: i32,
    target: i32,
    kind: ResourceKind,
    id: i32,
) -> (r: Result<ResourceGrant, AccessError>)
    requires
        old(grants).wf(),
    ensures
        final(grants).wf(),
        add_grant_post(*old(grants), *final(grants), *hierarchy, actor, target, kind, id, r),
{
    if let ResourceKind::Note = kind {
        return Err(AccessError::InvalidResourceScope);
    }
    if let Err(denial) = authorize(
        grants,
        hierarchy,
        actor,
        kind,
        id,
        Threshold::AtMost(ADMINISTRATOR_LEVEL),
    ) {
        return Err(denial);
    }
    if let Some(existing) = grants.find_grant(target, kind, id) {
        return Ok(existing);
    }
    let fresh = match ResourceGrant::for_resource(
        target,
        kind,
        id,
        Some(DEFAULT_GRANT_LEVEL),
        AccessLevelType::Limited,
    ) {
        Ok(g) => g,
        Err(e) => {
            return Err(e);
        },
    };
    proof {
        assert(fresh == spec_default_grant(target, kind, id));
        lemma_first_index_where_properties(grants.grants@, grant_pred(target, kind, id));
        assert forall|i: int| 0 <= i < grants.grants@.len() implies grant_key()(
            #[trigger] grants.grants@[i],
        ) != grant_key()(fresh) by {
            if grant_key()(grants.grants@[i]) == grant_key()(fresh) {
                assert(grant_pred(target, kind, id)(grants.grants@[i]));
            }
        }
    }
    grants.insert_grant(fresh);
    Ok(fresh)
}

/// Removes the target user's grant on a resource.
///
/// Self-removal always succeeds when the grant exists, whatever the actor's
/// level. Removing someone else requires the actor's resolved level to be
/// numerically at or below the target's: peers and weaker grants can be
/// removed, stronger ones cannot. A target with no grant at all is reported
/// as not associated.
///
/// Unlike additions, removal carries no separate management threshold: the
/// level comparison against the target is the entire authorization for
/// removing another user.
pub fn remove_grant(
    grants: &mut GrantStore,
    hierarchy: &HierarchyIndex,
    actor: i32,
    target: i32,
    kind: ResourceKind,
    id: i32,
) -> (r: Result<ResourceGrant, AccessError>)
    requires
        old(grants).wf(),
    ensures
        final(grants).wf(),
        remove_grant_post(*old(grants), *final(grants), *hierarchy, actor, target, kind, id, r),
{
    let existing = match grants.find_grant(target, kind, id) {
        Some(g) => g,
        None => {
            return Err(AccessError::NotAssociated);
        },
    };
    if actor == target {
        let _removed = grants.remove_grant_row(target, kind, id);
        return Ok(existing);
    }
    let actor_grant = match crate::resolver::resolve(grants, hierarchy, actor, kind, id) {
        Some(eg) => eg,
        None => {
            return Err(AccessError::PermissionDenied);
        },
    };
    let target_level_ok = match existing.role_id {
        Some(level) => actor_grant.role_level <= level,
        None => true,
    };
    if target_level_ok {
        let _removed = grants.remove_grant_row(target, kind, id);
        Ok(existing)
    } else {
        Err(AccessError::PermissionDenied)
    }
}

/// A grant's own scope as a (kind, id) pair; `None` when no scope field is
/// set. With a valid scope this is the single field that is set.
pub open spec fn spec_grant_scope(g: ResourceGrant) -> Option<(ResourceKind, i32)> {
    if g.company_id is Some {
        Some((ResourceKind::Company, g.company_id->0))
    } else if g.project_id is Some {
        Some((ResourceKind::Project, g.project_id->0))
    } else if g.task_id is Some {
        Some((ResourceKind::Task, g.task_id->0))
    } else if g.subtask_id is Some {
        Some((ResourceKind::Subtask, g.subtask_id->0))
    } else {
        None
    }
}

/// Executable form of `spec_grant_scope`.
pub fn grant_scope(g: &ResourceGrant) -> (r: Option<(ResourceKind, i32)>)
    ensures
        r == spec_grant_scope(*g),
{
    if let Some(c) = g.company_id {
        Some((ResourceKind::Company, c))
    } else if let Some(p) = g.project_id {
        Some((ResourceKind::Project, p))
    } else if let Some(t) = g.task_id {
        Some((ResourceKind::Task, t))
    } else if let Some(s) = g.subtask_id {
        Some((ResourceKind::Subtask, s))
    } else {
        None
    }
}

/// Whether a grant's scope lies at or under the given resource: scoped to it
/// exactly, or to a descendant whose ancestor chain passes through it.
pub open spec fn spec_grant_under(
    hierarchy: HierarchyIndex,
    kind: ResourceKind,
    id: i32,
    g: ResourceGrant,
) -> bool {
    match spec_grant_scope(g) {
        Some(scope) => scope == (kind, id) || hierarchy.ancestors_of(scope.0, scope.1).contains(
            (kind, id),
        ),
        None => false,
    }
}

/// The grants that survive a cascade on (kind, id).
pub open spec fn cascade_keep(hierarchy: HierarchyIndex, kind: ResourceKind, id: i32) -> spec_fn(
    ResourceGrant,
) -> bool {
    |g: ResourceGrant| !spec_grant_under(hierarchy, kind, id, g)
}

/// Executable test for `spec_grant_under`.
#[verifier::loop_isolation(false)]
pub fn grant_under(
    hierarchy: &HierarchyIndex,
    kind: ResourceKind,
    id: i32,
    g: &ResourceGrant,
) -> (r: bool)
    ensures
        r == spec_grant_under(*hierarchy, kind, id, *g),
{
    let (scope_kind, scope_id) = match grant_scope(g) {
        Some(s) => s,
        None => {
            return false;
        },
    };
    if scope_kind == kind && scope_id == id {
        return true;
    }
    let chain = hierarchy.ancestors(scope_kind, scope_id);
    let ghost target = (kind, id);
    let mut i: usize = 0;
    while i < chain.len()
        invariant
            i <= chain@.len(),
            forall|j: int| 0 <= j < i ==> chain@[j] != target,
        decreases chain@.len() - i,
    {
        let (k, v) = chain[i];
        if k == kind && v == id {
            return true;
        }
        i += 1;
    }
    proof {
        if hierarchy.ancestors_of(scope_kind, scope_id).contains(target) {
            let j = choose|j: int|
                0 <= j < chain@.len() && chain@[j] == target;
            assert(chain@[j] != target);
        }
    }
    false
}

/// Deletes every grant scoped to the resource or to anything beneath it in
/// the hierarchy. Invoked by the resource-deletion operations after their
/// Owner-level check; not itself gated. Memberships are untouched.
#[verifier::loop_isolation(false)]
pub fn cascade_delete_grants(
    grants: &mut GrantStore,
    hierarchy: &HierarchyIndex,
    kind: ResourceKind,
    id: i32,
)
    requires
        old(grants).wf(),
    ensures
        final(grants).wf(),
        final(grants).grants@ == old(grants).grants@.filter(cascade_keep(*hierarchy, kind, id)),
        final(grants).memberships@ == old(grants).memberships@,
{
    let ghost keep = cascade_keep(*hierarchy, kind, id);
    let mut kept: Vec<ResourceGrant> = Vec::new();
    let mut i: usize = 0;
    while i < grants.grants.len()
        invariant
            i <= grants.grants@.len(),
            grants.grants@ == old(grants).grants@,
            grants.memberships@ == old(grants).memberships@,
            kept@ == grants.grants@.take(i as int).filter(keep),
        decreases grants.grants@.len() - i,
    {
        let g = grants.grants[i];
        proof {
            assert(grants.grants@.take(i + 1int) =~= grants.grants@.take(i as int).push(
                grants.grants@[i as int],
            ));
            crate::find::lemma_filter_push(grants.grants@.take(i as int), keep, g);
        }
        if !grant_under(hierarchy, kind, id, &g) {
            kept.push(g);
        }
        i += 1;
    }
    proof {
        assert(grants.grants@.take(grants.grants@.len() as int) =~= grants.grants@);
        crate::find::lemma_filter_keeps_distinct_by(grants.grants@, keep, grant_key());
        lemma_filter_keeps_forall(grants.grants@, keep, |g: ResourceGrant| g.valid_scope());
    }
    grants.grants = kept;
}

/// Cascade completeness: after a cascade on a project, no surviving grant is
/// scoped to that project, and no surviving grant is scoped to a task that
/// belongs to that project.
pub proof fn lemma_cascade_completeness(
    old_gs: GrantStore,
    new_gs: GrantStore,
    hierarchy: HierarchyIndex,
    project_id: i32,
)
    requires
        old_gs.wf(),
        new_gs.grants@ == old_gs.grants@.filter(
            cascade_keep(hierarchy, ResourceKind::Project, project_id),
        ),
    ensures
        forall|i: int|
            0 <= i < new_gs.grants@.len() ==> (#[trigger] new_gs.grants@[i]).project_id != Some(
                project_id,
            ),
        forall|i: int, task_id: i32|
            0 <= i < new_gs.grants@.len() && (#[trigger] hierarchy.task_by_id(task_id)) is Some
                && hierarchy.task_by_id(task_id)->Some_0.project_id == project_id ==> (
            #[trigger] new_gs.grants@[i]).task_id != Some(task_id),
{
    let keep = cascade_keep(hierarchy, ResourceKind::Project, project_id);
    let target = (ResourceKind::Project, project_id);
    lemma_filter_keeps_forall(old_gs.grants@, keep, |g: ResourceGrant| g.valid_scope());
    assert forall|i: int|
        0 <= i < new_gs.grants@.len() implies (#[trigger] new_gs.grants@[i]).project_id != Some(
        project_id,
    ) by {
        Seq::lemma_filter_pred(old_gs.grants@, keep, i);
        let g = new_gs.grants@[i];
        if g.project_id == Some(project_id) {
            assert(g.valid_scope());
            assert(spec_grant_scope(g) == Some((ResourceKind::Project, project_id)));
            assert(spec_grant_under(hierarchy, ResourceKind::Project, project_id, g));
        }
    }
    assert forall|i: int, task_id: i32|
        0 <= i < new_gs.grants@.len() && (#[trigger] hierarchy.task_by_id(task_id)) is Some
            && hierarchy.task_by_id(task_id)->Some_0.project_id == project_id implies (
    #[trigger] new_gs.grants@[i]).task_id != Some(task_id) by {
        Seq::lemma_filter_pred(old_gs.grants@, keep, i);
        let g = new_gs.grants@[i];
        if g.task_id == Some(task_id) {
            assert(g.valid_scope());
            assert(spec_grant_scope(g) == Some((ResourceKind::Task, task_id)));
            let t = hierarchy.task_by_id(task_id)->Some_0;
            assert(hierarchy.ancestors_of(ResourceKind::Task, task_id) == seq![
                (ResourceKind::Project, t.project_id),
            ] + hierarchy.ancestors_of(ResourceKind::Project, t.project_id));
            assert(hierarchy.ancestors_of(ResourceKind::Task, task_id)[0] == target);
            assert(hierarchy.ancestors_of(ResourceKind::Task, task_id).contains(target));
            assert(spec_grant_under(hierarchy, ResourceKind::Project, project_id, g));
        }
    }
}

/// Idempotent add: a second `add_grant` with the same actor, target and
/// resource returns the same grant row as the first and leaves the store
/// exactly as the first call left it — no duplicate is created.
pub proof fn lemma_add_grant_idempotent(
    s0: GrantStore,
    s1: GrantStore,
    s2: GrantStore,
    hierarchy: HierarchyIndex,
    actor: i32,
    target: i32,
    kind: ResourceKind,
    id: i32,
    r1: Result<ResourceGrant, AccessError>,
    r2: Result<ResourceGrant, AccessError>,
)
    requires
        add_grant_post(s0, s1, hierarchy, actor, target, kind, id, r1),
        r1 is Ok,
        add_grant_post(s1, s2, hierarchy, actor, target, kind, id, r2),
    ensures
        r2 == r1,
        grants_unchanged(s1, s2),
{
    let threshold = Threshold::AtMost(ADMINISTRATOR_LEVEL);
    assert(kind != ResourceKind::Note);
    assert(spec_authorized(s0, hierarchy, actor, kind, id, threshold));
    let p = grant_pred(target, kind, id);
    match s0.grant_of(target, kind, id) {
        Some(existing) => {
            crate::resolver::lemma_resolve_depends_on_rows(s1, s0, hierarchy, actor, kind, id);
            assert(s1.grant_of(target, kind, id) == s0.grant_of(target, kind, id));
        },
        None => {
            let fresh = spec_default_grant(target, kind, id);
            assert(s1.grants@ == s0.grants@.push(fresh));
            crate::find::lemma_first_where_push(s0.grants@, p, fresh);
            assert(p(fresh));
            assert(s1.grant_of(target, kind, id) == Some(fresh));
            // the actor is still authorized against the grown store
            let before = resolve_spec(s0, hierarchy, actor, kind, id);
            assert(before is Some && spec_meets_threshold(before->Some_0.role_level, threshold));
            assert(spec_self_candidate(hierarchy, actor, kind, id) == spec_self_candidate(
                hierarchy,
                actor,
                kind,
                id,
            ));
            // company path: memberships did not change
            assert(spec_company_candidate(s1, hierarchy, actor, kind, id)
                == spec_company_candidate(s0, hierarchy, actor, kind, id));
            // parent path: the fresh grant is scoped to (kind, id), never to
            // the parent resource the path inspects
            match kind {
                ResourceKind::Task => {
                    if hierarchy.task_by_id(id) is Some {
                        let t = hierarchy.task_by_id(id)->Some_0;
                        crate::find::lemma_first_where_push(
                            s0.grants@,
                            grant_pred(actor, ResourceKind::Project, t.project_id),
                            fresh,
                        );
                    }
                },
                ResourceKind::Subtask => {
                    if hierarchy.subtask_by_id(id) is Some {
                        let st = hierarchy.subtask_by_id(id)->Some_0;
                        crate::find::lemma_first_where_push(
                            s0.grants@,
                            grant_pred(actor, ResourceKind::Task, st.task_id),
                            fresh,
                        );
                    }
                },
                _ => {},
            }
            assert(spec_parent_candidate(s1, hierarchy, actor, kind, id) == spec_parent_candidate(
                s0,
                hierarchy,
                actor,
                kind,
                id,
            ));
            // scoped path: unchanged unless the actor is the target, in which
            // case the fresh level-3 grant joins the candidates
            crate::find::lemma_first_where_push(s0.grants@, grant_pred(actor, kind, id), fresh);
            let after = resolve_spec(s1, hierarchy, actor, kind, id);
            assert(after is Some && after->Some_0.role_level <= DEFAULT_GRANT_LEVEL
                && (after->Some_0.role_level <= before->Some_0.role_level
                || after->Some_0.role_level == DEFAULT_GRANT_LEVEL));
            assert(spec_meets_threshold(after->Some_0.role_level, threshold) || after->Some_0.role_level == DEFAULT_GRANT_LEVEL);
            assert(spec_authorized(s1, hierarchy, actor, kind, id, threshold) || !spec_meets_threshold(after->Some_0.role_level, threshold));
            assert(spec_authorized(s1, hierarchy, actor, kind, id, threshold));
        },
    }
}

/// Self-removal always succeeds: whatever the user's own role level, a user
/// removing their own existing grant gets it back and the row is gone.
pub proof fn lemma_self_removal_always_succeeds(
    old_gs: GrantStore,
    new_gs: GrantStore,
    hierarchy: HierarchyIndex,
    user_id: i32,
    kind: ResourceKind,
    id: i32,
    r: Result<ResourceGrant, AccessError>,
)
    requires
        remove_grant_post(old_gs, new_gs, hierarchy, user_id, user_id, kind, id, r),
        old_gs.grant_of(user_id, kind, id) is Some,
    ensures
        r == Ok::<ResourceGrant, AccessError>(old_gs.grant_of(user_id, kind, id)->Some_0),
        grant_removed(old_gs, new_gs, user_id, kind, id),
{
}

/// The peer-removal rule: for distinct actor and target, with the target
/// holding a grant and the actor resolving on the resource, removal succeeds
/// exactly when the actor's level is numerically at or below the target's.
pub proof fn lemma_peer_removal_rule(
    old_gs: GrantStore,
    new_gs: GrantStore,
    hierarchy: HierarchyIndex,
    actor: i32,
    target: i32,
    kind: ResourceKind,
    id: i32,
    r: Result<ResourceGrant, AccessError>,
)
    requires
        remove_grant_post(old_gs, new_gs, hierarchy, actor, target, kind, id, r),
        actor != target,
        old_gs.grant_of(target, kind, id) is Some,
        resolve_spec(old_gs, hierarchy, actor, kind, id) is Some,
    ensures
        r is Ok <==> resolve_spec(old_gs, hierarchy, actor, kind, id)->Some_0.role_level as int
            <= old_gs.grant_of(target, kind, id)->Some_0.target_level(),
        r is Err ==> r == Err::<ResourceGrant, AccessError>(AccessError::PermissionDenied)
            && grants_unchanged(old_gs, new_gs),
{
}

} // verus!
