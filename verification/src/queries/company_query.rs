use vstd::prelude::*;

use crate::find::lemma_filter_push;
use crate::hierarchy::HierarchyIndex;
use crate::model::{CompanyMembership, GrantStore};
use crate::queries::companies_query::member_with_company_pred;
use crate::roles::{role_description, role_name, spec_role_description, spec_role_name};

verus! {

/// The role a user has in a company, with its catalog description.
#[derive(Debug)]
pub struct UserCompanyRole {
    pub id: i32,
    pub name: String,
    pub description: Option<String>,
}

/// One company the user belongs to, with the user's role in it.
#[derive(Debug)]
pub struct UserCompany {
    pub id: i32,
    pub name: String,
    pub user_role: UserCompanyRole,
}

/// The listing of a user's companies.
pub struct CompanyQuery;

/// The listed entry faithfully reflects the membership and its company row.
pub open spec fn company_listing_matches(
    uc: UserCompany,
    m: CompanyMembership,
    hierarchy: HierarchyIndex,
) -> bool {
    let c = hierarchy.company_by_id(m.company_id)->Some_0;
    &&& uc.id == c.id
    &&& uc.name == c.name
    &&& uc.user_role.id == m.role_id
    &&& uc.user_role.name@ == spec_role_name(m.role_id)
    &&& match uc.user_role.description {
        Some(d) => d@ == spec_role_description(m.role_id),
        None => false,
    }
}

impl CompanyQuery {
    /// Every company the user is a member of, with the user's role, in
    /// store order; memberships pointing at no company row are skipped.
    #[verifier::loop_isolation(false)]
    pub fn get_user_companies_with_roles(
        grants: &GrantStore,
        hierarchy: &HierarchyIndex,
        user_id: i32,
    ) -> (r: Vec<UserCompany>)
        ensures
            r@.len() == grants.memberships@.filter(
                member_with_company_pred(*hierarchy, user_id),
            ).len(),
            forall|i: int|
                0 <= i < r@.len() ==> company_listing_matches(
                    #[trigger] r@[i],
                    grants.memberships@.filter(member_with_company_pred(*hierarchy, user_id))[i],
                    *hierarchy,
                ),
    {
        let ghost p = member_with_company_pred(*hierarchy, user_id);
        let mut out: Vec<UserCompany> = Vec::new();
        let mut i: usize = 0;
        while i < grants.memberships.len()
            invariant
                i <= grants.memberships@.len(),
                out@.len() == grants.memberships@.take(i as int).filter(p).len(),
                forall|k: int|
                    0 <= k < out@.len() ==> company_listing_matches(
                        #[trigger] out@[k],
                        grants.memberships@.take(i as int).filter(p)[k],
                        *hierarchy,
                    ),
            decreases grants.memberships@.len() - i,
        {
            let m = grants.memberships[i];
            proof {
                assert(grants.memberships@.take(i + 1int) =~= grants.memberships@.take(
                    i as int,
                ).push(grants.memberships@[i as int]));
                lemma_filter_push(grants.memberships@.take(i as int), p, m);
            }
            if m.user_id == user_id {
                if let Some(c) = hierarchy.find_company(m.company_id) {
                    out.push(
                        UserCompany {
                            id: c.id,
                            name: c.name.clone(),
                            user_role: UserCompanyRole {
                                id: m.role_id,
                                name: role_name(m.role_id),
                                description: Some(role_description(m.role_id)),
                            },
                        },
                    );
                }
            }
            i += 1;
        }
        proof {
            assert(grants.memberships@.take(grants.memberships@.len() as int)
                =~= grants.memberships@);
        }
        out
    }
}

} // verus!
