use vstd::prelude::*;

use crate::errors::AccessError;
use crate::find::{
    distinct_by, first_where, lemma_filter_all_true, lemma_filter_keeps_distinct_by, lemma_filter_keeps_forall,
    lemma_filter_push, lemma_first_where_push, lemma_first_index_where_found, lemma_first_index_where_none,
    lemma_first_index_where_properties,
};
use crate::roles::AccessLevelType;

verus! {

/// The hierarchy levels a grant or an operation can target.
#[derive(Clone, Copy, Debug, PartialEq, Eq, Structural)]
pub enum ResourceKind {
    Company,
    Project,
    Task,
    Subtask,
    Note,
}

/// A company-wide grant: the user holds `role_id` across the whole company.
/// Unique per (user, company).
#[derive(Clone, Copy, Debug, PartialEq, Eq)]
pub struct CompanyMembership {
    pub user_id: i32,
    pub company_id: i32,
    pub role_id: i32,
    pub access_level: AccessLevelType,
}

/// A fine-grained grant scoped to exactly one hierarchy level: precisely one
/// of the four scope fields is set. A grant without a role conveys no
/// standing to the resolver and counts as the weakest possible level when it
/// is the target of a removal.
#[derive(Clone, Copy, Debug, PartialEq, Eq)]
pub struct ResourceGrant {
    pub user_id: i32,
    pub company_id: Option<i32>,
    pub project_id: Option<i32>,
    pub task_id: Option<i32>,
    pub subtask_id: Option<i32>,
    pub role_id: Option<i32>,
    pub access_level: AccessLevelType,
}

/// How many of the four scope fields are set.
pub open spec fn scope_count(
    company_id: Option<i32>,
    project_id: Option<i32>,
    task_id: Option<i32>,
    subtask_id: Option<i32>,
) -> int {
    (if company_id is Some {
        1int
    } else {
        0int
    }) + (if project_id is Some {
        1int
    } else {
        0int
    }) + (if task_id is Some {
        1int
    } else {
        0int
    }) + (if subtask_id is Some {
        1int
    } else {
        0int
    })
}

/// Executable count of the set scope fields.
pub fn count_scopes(
    company_id: &Option<i32>,
    project_id: &Option<i32>,
    task_id: &Option<i32>,
    subtask_id: &Option<i32>,
) -> (n: u32)
    ensures
        n as int == scope_count(*company_id, *project_id, *task_id, *subtask_id),
{
    let mut n: u32 = 0;
    if company_id.is_some() {
        n += 1;
    }
    if project_id.is_some() {
        n += 1;
    }
    if task_id.is_some() {
        n += 1;
    }
    if subtask_id.is_some() {
        n += 1;
    }
    n
}

impl ResourceGrant {
    /// The scope-exclusivity invariant: a grant targets exactly one level.
    pub open spec fn valid_scope(self) -> bool {
        scope_count(self.company_id, self.project_id, self.task_id, self.subtask_id) == 1
    }

    /// Whether this grant is scoped exactly to the given resource.
    pub open spec fn scoped_to(self, kind: ResourceKind, id: i32) -> bool {
        match kind {
            ResourceKind::Company => self.company_id == Some(id),
            ResourceKind::Project => self.project_id == Some(id),
            ResourceKind::Task => self.task_id == Some(id),
            ResourceKind::Subtask => self.subtask_id == Some(id),
            ResourceKind::Note => false,
        }
    }

    /// Scope fields pairwise equal.
    pub open spec fn same_scope(self, other: Self) -> bool {
        self.company_id == other.company_id && self.project_id == other.project_id && self.task_id
            == other.task_id && self.subtask_id == other.subtask_id
    }

    /// The level this grant counts as when it is the *target* of a removal:
    /// a grant without a role is the weakest possible target.
    pub open spec fn target_level(self) -> int {
        match self.role_id {
            Some(l) => l as int,
            None => i32::MAX as int,
        }
    }

    /// Builds a grant, rejecting any row that does not target exactly one
    /// hierarchy level. This is the write-time guard on scope exclusivity.
    pub fn new(
        user_id: i32,
        company_id: Option<i32>,
        project_id: Option<i32>,
        task_id: Option<i32>,
        subtask_id: Option<i32>,
        role_id: Option<i32>,
        access_level: AccessLevelType,
    ) -> (r: Result<ResourceGrant, AccessError>)
        ensures
            r is Ok <==> scope_count(company_id, project_id, task_id, subtask_id) == 1,
            r matches Ok(g) ==> g == (ResourceGrant {
                user_id,
                company_id,
                project_id,
                task_id,
                subtask_id,
                role_id,
                access_level,
            }) && g.valid_scope(),
            r is Err ==> r == Err::<ResourceGrant, AccessError>(AccessError::InvalidResourceScope),
    {
        let n = count_scopes(&company_id, &project_id, &task_id, &subtask_id);
        if n == 1 {
            Ok(
                ResourceGrant {
                    user_id,
                    company_id,
                    project_id,
                    task_id,
                    subtask_id,
                    role_id,
                    access_level,
                },
            )
        } else {
            Err(AccessError::InvalidResourceScope)
        }
    }

    /// Builds the single-scope grant for the given resource kind and id.
    /// Grants never attach to notes.
    pub fn for_resource(
        user_id: i32,
        kind: ResourceKind,
        id: i32,
        role_id: Option<i32>,
        access_level: AccessLevelType,
    ) -> (r: Result<ResourceGrant, AccessError>)
        ensures
            r is Ok <==> kind != ResourceKind::Note,
            r matches Ok(g) ==> g.valid_scope() && g.scoped_to(kind, id) && g.user_id == user_id
                && g.role_id == role_id && g.access_level == access_level,
            r is Err ==> r == Err::<ResourceGrant, AccessError>(AccessError::InvalidResourceScope),
    {
        match kind {
            ResourceKind::Company => ResourceGrant::new(
                user_id,
                Some(id),
                None,
                None,
                None,
                role_id,
                access_level,
            ),
            ResourceKind::Project => ResourceGrant::new(
                user_id,
                None,
                Some(id),
                None,
                None,
                role_id,
                access_level,
            ),
            ResourceKind::Task => ResourceGrant::new(
                user_id,
                None,
                None,
                Some(id),
                None,
                role_id,
                access_level,
            ),
            ResourceKind::Subtask => ResourceGrant::new(
                user_id,
                None,
                None,
                None,
                Some(id),
                role_id,
                access_level,
            ),
            ResourceKind::Note => Err(AccessError::InvalidResourceScope),
        }
    }
}

/// The key under which company memberships are unique.
pub open spec fn membership_key() -> spec_fn(CompanyMembership) -> (i32, i32) {
    |m: CompanyMembership| (m.user_id, m.company_id)
}

/// The key under which resource grants are unique.
pub open spec fn grant_key() -> spec_fn(ResourceGrant) -> (
    i32,
    Option<i32>,
    Option<i32>,
    Option<i32>,
    Option<i32>,
) {
    |g: ResourceGrant| (g.user_id, g.company_id, g.project_id, g.task_id, g.subtask_id)
}

/// The predicate selecting a user's membership in a company.
pub open spec fn membership_pred(user_id: i32, company_id: i32) -> spec_fn(CompanyMembership) -> bool {
    |m: CompanyMembership| m.user_id == user_id && m.company_id == company_id
}

/// The predicate selecting a user's grant scoped exactly to a resource.
pub open spec fn grant_pred(user_id: i32, kind: ResourceKind, id: i32) -> spec_fn(
    ResourceGrant,
) -> bool {
    |g: ResourceGrant| g.user_id == user_id && g.scoped_to(kind, id)
}

/// The single source of truth for who can touch what: company-wide
/// memberships and resource-scoped grants.
#[derive(Debug)]
pub struct GrantStore {
    pub memberships: Vec<CompanyMembership>,
    pub grants: Vec<ResourceGrant>,
}

impl GrantStore {
    /// Well-formedness: every grant targets exactly one scope, memberships
    /// are unique per (user, company), and grants are unique per
    /// (user, scope).
    pub open spec fn wf(self) -> bool {
        &&& forall|i: int|
            0 <= i < self.grants@.len() ==> (#[trigger] self.grants@[i]).valid_scope()
        &&& distinct_by(self.memberships@, membership_key())
        &&& distinct_by(self.grants@, grant_key())
    }

    /// The user's membership in the company, if any.
    pub open spec fn membership_of(self, user_id: i32, company_id: i32) -> Option<
        CompanyMembership,
    > {
        first_where(self.memberships@, membership_pred(user_id, company_id))
    }

    /// The user's grant scoped exactly to the resource, if any.
    pub open spec fn grant_of(self, user_id: i32, kind: ResourceKind, id: i32) -> Option<
        ResourceGrant,
    > {
        first_where(self.grants@, grant_pred(user_id, kind, id))
    }

    pub fn new() -> (r: GrantStore)
        ensures
            r.wf(),
            r.memberships@ =~= Seq::<CompanyMembership>::empty(),
            r.grants@ =~= Seq::<ResourceGrant>::empty(),
    {
        GrantStore { memberships: Vec::new(), grants: Vec::new() }
    }

    /// Looks a membership up by (user, company).
    #[verifier::loop_isolation(false)]
    pub fn find_membership(&self, user_id: i32, company_id: i32) -> (r: Option<CompanyMembership>)
        ensures
            r == self.membership_of(user_id, company_id),
    {
        let ghost p = membership_pred(user_id, company_id);
        let mut i: usize = 0;
        while i < self.memberships.len()
            invariant
                i <= self.memberships@.len(),
                forall|j: int| 0 <= j < i ==> !p(#[trigger] self.memberships@[j]),
            decreases self.memberships@.len() - i,
        {
            let m = self.memberships[i];
            if m.user_id == user_id && m.company_id == company_id {
                proof {
                    lemma_first_index_where_found(self.memberships@, p, i as int);
                }
                return Some(m);
            }
            i += 1;
        }
        proof {
            lemma_first_index_where_none(self.memberships@, p);
        }
        None
    }

    /// Looks a grant up by (user, resource).
    #[verifier::loop_isolation(false)]
    pub fn find_grant(&self, user_id: i32, kind: ResourceKind, id: i32) -> (r: Option<
        ResourceGrant,
    >)
        ensures
            r == self.grant_of(user_id, kind, id),
    {
        let ghost p = grant_pred(user_id, kind, id);
        let mut i: usize = 0;
        while i < self.grants.len()
            invariant
                i <= self.grants@.len(),
                forall|j: int| 0 <= j < i ==> !p(#[trigger] self.grants@[j]),
            decreases self.grants@.len() - i,
        {
            let g = self.grants[i];
            if g.user_id == user_id && grant_targets(&g, kind, id) {
                proof {
                    lemma_first_index_where_found(self.grants@, p, i as int);
                }
                return Some(g);
            }
            i += 1;
        }
        proof {
            lemma_first_index_where_none(self.grants@, p);
        }
        None
    }

    /// Adds a membership; the caller has checked that none exists yet.
    pub fn insert_membership(&mut self, m: CompanyMembership)
        requires
            old(self).wf(),
            old(self).membership_of(m.user_id, m.company_id) is None,
        ensures
            final(self).wf(),
            final(self).memberships@ == old(self).memberships@.push(m),
            final(self).grants@ == old(self).grants@,
    {
        proof {
            lemma_first_index_where_properties(
                self.memberships@,
                membership_pred(m.user_id, m.company_id),
            );
        }
        self.memberships.push(m);
    }

    /// Adds a grant; the caller has checked scope validity and absence.
    pub fn insert_grant(&mut self, g: ResourceGrant)
        requires
            old(self).wf(),
            g.valid_scope(),
            forall|i: int|
                0 <= i < old(self).grants@.len() ==> grant_key()(#[trigger] old(self).grants@[i])
                    != grant_key()(g),
        ensures
            final(self).wf(),
            final(self).grants@ == old(self).grants@.push(g),
            final(self).memberships@ == old(self).memberships@,
    {
        self.grants.push(g);
    }

    /// Removes the user's membership in the company, handing back the removed
    /// row; the store is untouched when there was none.
    #[verifier::loop_isolation(false)]
    pub fn remove_membership(&mut self, user_id: i32, company_id: i32) -> (r: Option<
        CompanyMembership,
    >)
        requires
            old(self).wf(),
        ensures
            final(self).wf(),
            r == old(self).membership_of(user_id, company_id),
            final(self).memberships@ == old(self).memberships@.filter(
                |m: CompanyMembership| !membership_pred(user_id, company_id)(m),
            ),
            final(self).grants@ == old(self).grants@,
            r is None ==> final(self).memberships@ == old(self).memberships@,
    {
        let ghost p = membership_pred(user_id, company_id);
        let ghost keep = |m: CompanyMembership| !membership_pred(user_id, company_id)(m);
        let mut kept: Vec<CompanyMembership> = Vec::new();
        let mut removed: Option<CompanyMembership> = None;
        let mut i: usize = 0;
        while i < self.memberships.len()
            invariant
                i <= self.memberships@.len(),
                kept@ == self.memberships@.take(i as int).filter(keep),
                removed == first_where(self.memberships@.take(i as int), p),
            decreases self.memberships@.len() - i,
        {
            let m = self.memberships[i];
            proof {
                assert(self.memberships@.take(i + 1int) =~= self.memberships@.take(i as int).push(
                    self.memberships@[i as int],
                ));
                lemma_filter_push(self.memberships@.take(i as int), keep, m);
                lemma_first_where_push(self.memberships@.take(i as int), p, m);
            }
            if m.user_id == user_id && m.company_id == company_id {
                if removed.is_none() {
                    removed = Some(m);
                }
            } else {
                kept.push(m);
            }
            i += 1;
        }
        proof {
            assert(self.memberships@.take(self.memberships@.len() as int) =~= self.memberships@);
            lemma_filter_keeps_distinct_by(self.memberships@, keep, membership_key());
            if removed is None {
                lemma_first_index_where_properties(self.memberships@, p);
                lemma_filter_all_true(self.memberships@, keep);
            }
        }
        self.memberships = kept;
        removed
    }

    /// Removes the user's grant on the resource, handing back the removed
    /// row; the store is untouched when there was none.
    #[verifier::loop_isolation(false)]
    pub fn remove_grant_row(&mut self, user_id: i32, kind: ResourceKind, id: i32) -> (r: Option<
        ResourceGrant,
    >)
        requires
            old(self).wf(),
        ensures
            final(self).wf(),
            r == old(self).grant_of(user_id, kind, id),
            final(self).grants@ == old(self).grants@.filter(
                |g: ResourceGrant| !grant_pred(user_id, kind, id)(g),
            ),
            final(self).memberships@ == old(self).memberships@,
            r is None ==> final(self).grants@ == old(self).grants@,
    {
        let ghost p = grant_pred(user_id, kind, id);
        let ghost keep = |g: ResourceGrant| !grant_pred(user_id, kind, id)(g);
        let mut kept: Vec<ResourceGrant> = Vec::new();
        let mut removed: Option<ResourceGrant> = None;
        let mut i: usize = 0;
        while i < self.grants.len()
            invariant
                i <= self.grants@.len(),
                kept@ == self.grants@.take(i as int).filter(keep),
                removed == first_where(self.grants@.take(i as int), p),
            decreases self.grants@.len() - i,
        {
            let g = self.grants[i];
            proof {
                assert(self.grants@.take(i + 1int) =~= self.grants@.take(i as int).push(
                    self.grants@[i as int],
                ));
                lemma_filter_push(self.grants@.take(i as int), keep, g);
                lemma_first_where_push(self.grants@.take(i as int), p, g);
            }
            if g.user_id == user_id && grant_targets(&g, kind, id) {
                if removed.is_none() {
                    removed = Some(g);
                }
            } else {
                kept.push(g);
            }
            i += 1;
        }
        proof {
            assert(self.grants@.take(self.grants@.len() as int) =~= self.grants@);
            lemma_filter_keeps_distinct_by(self.grants@, keep, grant_key());
            lemma_filter_keeps_forall(self.grants@, keep, |g: ResourceGrant| g.valid_scope());
            if removed is None {
                lemma_first_index_where_properties(self.grants@, p);
                lemma_filter_all_true(self.grants@, keep);
            }
        }
        self.grants = kept;
        removed
    }

    /// Deletes every grant scoped exactly to the given resource, whoever
    /// holds it. Memberships are untouched.
    #[verifier::loop_isolation(false)]
    pub fn remove_grants_scoped_to(&mut self, kind: ResourceKind, id: i32)
        requires
            old(self).wf(),
        ensures
            final(self).wf(),
            final(self).grants@ == old(self).grants@.filter(
                |g: ResourceGrant| !g.scoped_to(kind, id),
            ),
            final(self).memberships@ == old(self).memberships@,
    {
        let ghost keep = |g: ResourceGrant| !g.scoped_to(kind, id);
        let mut kept: Vec<ResourceGrant> = Vec::new();
        let mut i: usize = 0;
        while i < self.grants.len()
            invariant
                i <= self.grants@.len(),
                kept@ == self.grants@.take(i as int).filter(keep),
            decreases self.grants@.len() - i,
        {
            let g = self.grants[i];
            proof {
                assert(self.grants@.take(i + 1int) =~= self.grants@.take(i as int).push(
                    self.grants@[i as int],
                ));
                lemma_filter_push(self.grants@.take(i as int), keep, g);
            }
            if !grant_targets(&g, kind, id) {
                kept.push(g);
            }
            i += 1;
        }
        proof {
            assert(self.grants@.take(self.grants@.len() as int) =~= self.grants@);
            lemma_filter_keeps_distinct_by(self.grants@, keep, grant_key());
            lemma_filter_keeps_forall(self.grants@, keep, |g: ResourceGrant| g.valid_scope());
        }
        self.grants = kept;
    }

    /// Deletes every membership of the given company. Grants are untouched.
    #[verifier::loop_isolation(false)]
    #[verifier::loop_isolation(false)]
    pub fn remove_memberships_of_company(&mut self, company_id: i32)
        requires
            old(self).wf(),
        ensures
            final(self).wf(),
            final(self).memberships@ == old(self).memberships@.filter(
                |m: CompanyMembership| m.company_id != company_id,
            ),
            final(self).grants@ == old(self).grants@,
    {
        let ghost keep = |m: CompanyMembership| m.company_id != company_id;
        let mut kept: Vec<CompanyMembership> = Vec::new();
        let mut i: usize = 0;
        while i < self.memberships.len()
            invariant
                i <= self.memberships@.len(),
                kept@ == self.memberships@.take(i as int).filter(keep),
            decreases self.memberships@.len() - i,
        {
            let m = self.memberships[i];
            proof {
                assert(self.memberships@.take(i + 1int) =~= self.memberships@.take(i as int).push(
                    self.memberships@[i as int],
                ));
                lemma_filter_push(self.memberships@.take(i as int), keep, m);
            }
            if m.company_id != company_id {
                kept.push(m);
            }
            i += 1;
        }
        proof {
            assert(self.memberships@.take(self.memberships@.len() as int) =~= self.memberships@);
            lemma_filter_keeps_distinct_by(self.memberships@, keep, membership_key());
        }
        self.memberships = kept;
    }
}

/// Executable test for `ResourceGrant::scoped_to`.
pub fn grant_targets(g: &ResourceGrant, kind: ResourceKind, id: i32) -> (r: bool)
    ensures
        r == g.scoped_to(kind, id),
{
    let field = match kind {
        ResourceKind::Company => &g.company_id,
        ResourceKind::Project => &g.project_id,
        ResourceKind::Task => &g.task_id,
        ResourceKind::Subtask => &g.subtask_id,
        ResourceKind::Note => {
            return false;
        },
    };
    match field {
        Some(v) => *v == id,
        None => false,
    }
}

} // verus!
