use vstd::prelude::*;

use crate::errors::{is_db_error, AccessError, CoreErrors};
use crate::gate::{authorize, spec_authorized, Threshold};
use crate::find::max_key;
use crate::hierarchy::{company_id_key, Company, HierarchyIndex};
use crate::model::{membership_pred, CompanyMembership, GrantStore, ResourceKind};
use crate::mutation::cascade_keep;
use crate::queries::companies_query::{alias_extends, spec_identifier, CompaniesQuery};
use crate::resolver::resolve_spec;
use crate::roles::{AccessLevelType, ADMINISTRATOR_LEVEL, DEFAULT_GRANT_LEVEL, OWNER_LEVEL};
use crate::validators::{
    is_validation_err, name_pipeline, name_validator, pipeline_accepts, pipeline_error,
};

verus! {

/// Creates a company from a validated name; the creator becomes its first,
/// Owner-level member. Company creation is not gated.
pub fn create_company(
    grants: &mut GrantStore,
    hierarchy: &mut HierarchyIndex,
    user_id: i32,
    name: String,
    description: Option<String>,
    contact_info: Option<String>,
) -> (r: Result<Company, CoreErrors>)
    requires
        old(grants).wf(),
        old(hierarchy).wf(),
    ensures
        final(grants).wf(),
        final(hierarchy).wf(),
        final(grants).grants@ == old(grants).grants@,
        !pipeline_accepts(name_pipeline(), name@) ==> is_validation_err(
            r,
            pipeline_error(name_pipeline(), name@),
        ) && final(hierarchy).companies@ == old(hierarchy).companies@ && final(grants).memberships@ == old(grants).memberships@,
        pipeline_accepts(name_pipeline(), name@) ==> {
            &&& (r matches Ok(c) ==> {
                &&& c.name == name
                &&& c.description == description
                &&& c.contact_info == contact_info
                &&& alias_extends(spec_identifier(name@), c.name_alias@)
                &&& final(hierarchy).companies@ == old(hierarchy).companies@.push(c)
                &&& final(grants).memberships@ == old(grants).memberships@.push(
                    CompanyMembership {
                        user_id,
                        company_id: c.id,
                        role_id: OWNER_LEVEL,
                        access_level: AccessLevelType::Full,
                    },
                )
            })
            &&& (r is Err ==> is_db_error(r, "Failed to create company"@) && final(hierarchy).companies@ == old(hierarchy).companies@ && final(grants).memberships@ == old(grants).memberships@)
            &&& ({
                let base_taken = exists|j: int|
                    0 <= j < old(hierarchy).companies@.len() && (#[trigger] old(
                        hierarchy,
                    ).companies@[j]).name_alias@ == spec_identifier(name@);
                let top = max_key(old(hierarchy).companies@, company_id_key());
                let membership_free = old(grants).membership_of(
                    user_id,
                    ((top + 1) as i32),
                ) is None;
                &&& (!base_taken && top < i32::MAX as int && membership_free ==> r is Ok)
                &&& (!base_taken ==> (r matches Ok(c) ==> c.name_alias@ == spec_identifier(
                    name@,
                )))
            })
        },
{
    let validator = name_validator();
    let validated_name = match validator.validate(name) {
        Ok(v) => v,
        Err(e) => {
            return Err(e);
        },
    };
    match CompaniesQuery::create_new_company(
        grants,
        hierarchy,
        user_id,
        validated_name,
        description,
        contact_info,
    ) {
        Ok(c) => Ok(c),
        Err(e) => Err(e),
    }
}

/// Adds the target user to the company, provided the actor is a member at
/// level 2 or better; idempotent for a user already on the company.
pub fn add_user_to_company(
    grants: &mut GrantStore,
    actor_id: i32,
    target_user_id: i32,
    company_id: i32,
) -> (r: Result<CompanyMembership, CoreErrors>)
    requires
        old(grants).wf(),
    ensures
        final(grants).wf(),
        final(grants).grants@ == old(grants).grants@,
        ({
            let gate = match old(grants).membership_of(actor_id, company_id) {
                Some(am) => am.role_id <= ADMINISTRATOR_LEVEL,
                None => false,
            };
            if gate {
                match old(grants).membership_of(target_user_id, company_id) {
                    Some(m) => r == Ok::<CompanyMembership, CoreErrors>(m) && final(grants).memberships@ == old(grants).memberships@,
                    None => {
                        let fresh = CompanyMembership {
                            user_id: target_user_id,
                            company_id,
                            role_id: DEFAULT_GRANT_LEVEL,
                            access_level: AccessLevelType::Limited,
                        };
                        r == Ok::<CompanyMembership, CoreErrors>(fresh) && final(grants).memberships@ == old(grants).memberships@.push(fresh)
                    },
                }
            } else {
                is_db_error(r, "permission_denied"@) && final(grants).memberships@ == old(grants).memberships@
            }
        }),
{
    let actor = match crate::gate::check_company_permission(grants, actor_id, company_id) {
        Ok(m) => m,
        Err(denial) => {
            return Err(denial.to_core());
        },
    };
    if actor.role_id > ADMINISTRATOR_LEVEL {
        return Err(AccessError::PermissionDenied.to_core());
    }
    CompaniesQuery::add_user_to_company(grants, target_user_id, company_id)
}

/// Removes the target user's membership in the company. Users always remove
/// themselves; anyone else must resolve on the company at a level
/// numerically at or below the target's membership level.
pub fn remove_user_from_company(
    grants: &mut GrantStore,
    hierarchy: &HierarchyIndex,
    actor_id: i32,
    target_user_id: i32,
    company_id: i32,
) -> (r: Result<(), CoreErrors>)
    requires
        old(grants).wf(),
    ensures
        final(grants).wf(),
        final(grants).grants@ == old(grants).grants@,
        ({
            match old(grants).membership_of(target_user_id, company_id) {
                None => is_db_error(r, "not_associated"@) && final(grants).memberships@ == old(grants).memberships@,
                Some(tm) => {
                    let allowed = actor_id == target_user_id || (match resolve_spec(
                        *old(grants),
                        *hierarchy,
                        actor_id,
                        ResourceKind::Company,
                        company_id,
                    ) {
                        Some(eg) => eg.role_level <= tm.role_id,
                        None => false,
                    });
                    if allowed {
                        r is Ok && final(grants).memberships@ == old(grants).memberships@.filter(
                            |m: CompanyMembership|
                                !membership_pred(target_user_id, company_id)(m),
                        )
                    } else {
                        is_db_error(r, "permission_denied"@) && final(grants).memberships@ == old(grants).memberships@
                    }
                },
            }
        }),
{
    let target = match grants.find_membership(target_user_id, company_id) {
        Some(m) => m,
        None => {
            return Err(AccessError::NotAssociated.to_core());
        },
    };
    if actor_id != target_user_id {
        let eg = match crate::resolver::resolve(
            grants,
            hierarchy,
            actor_id,
            ResourceKind::Company,
            company_id,
        ) {
            Some(eg) => eg,
            None => {
                return Err(AccessError::PermissionDenied.to_core());
            },
        };
        if eg.role_level > target.role_id {
            return Err(AccessError::PermissionDenied.to_core());
        }
    }
    let _removed = grants.remove_membership(target_user_id, company_id);
    Ok(())
}

/// Deletes the company: Owner-only. The company row, every membership in
/// it, and every grant at or under it go away together.
pub fn delete_company(
    grants: &mut GrantStore,
    hierarchy: &mut HierarchyIndex,
    actor_id: i32,
    company_id: i32,
) -> (r: Result<(), CoreErrors>)
    requires
        old(grants).wf(),
        old(hierarchy).wf(),
    ensures
        final(grants).wf(),
        final(hierarchy).wf(),
        spec_authorized(
            *old(grants),
            *old(hierarchy),
            actor_id,
            ResourceKind::Company,
            company_id,
            Threshold::OwnerOnly,
        ) ==> {
            &&& r is Ok
            &&& final(hierarchy).companies@ == old(hierarchy).companies@.filter(
                |c: Company| c.id != company_id,
            )
            &&& final(hierarchy).company_by_id(company_id) is None
            &&& final(grants).memberships@ == old(grants).memberships@.filter(
                |m: CompanyMembership| m.company_id != company_id,
            )
            &&& final(grants).grants@ == old(grants).grants@.filter(
                cascade_keep(*old(hierarchy), ResourceKind::Company, company_id),
            )
        },
        !spec_authorized(
            *old(grants),
            *old(hierarchy),
            actor_id,
            ResourceKind::Company,
            company_id,
            Threshold::OwnerOnly,
        ) ==> is_db_error(r, "permission_denied"@) && final(hierarchy).companies@ == old(hierarchy).companies@ && final(grants).memberships@ == old(grants).memberships@ && final(grants).grants@ == old(grants).grants@,
        final(hierarchy).projects@ == old(hierarchy).projects@,
        final(hierarchy).tasks@ == old(hierarchy).tasks@,
        final(hierarchy).subtasks@ == old(hierarchy).subtasks@,
        final(hierarchy).notes@ == old(hierarchy).notes@,
{
    if let Err(denial) = authorize(
        grants,
        hierarchy,
        actor_id,
        ResourceKind::Company,
        company_id,
        Threshold::OwnerOnly,
    ) {
        return Err(denial.to_core());
    }
    crate::mutation::cascade_delete_grants(
        grants,
        hierarchy,
        ResourceKind::Company,
        company_id,
    );
    let _deleted = CompaniesQuery::delete_company(hierarchy, company_id);
    let _cleared = CompaniesQuery::delete_all_users_from_company(grants, company_id);
    Ok(())
}

} // verus!
