use vstd::prelude::*;

use vstd::string::StrSliceExecFns;

use crate::chars::{alphanumeric_char, dec_digit_char, lower_of, lowercase};
use crate::errors::CoreErrors;
use crate::find::{first_where, lemma_filter_push, lemma_first_index_where_found,
    lemma_first_index_where_none, lemma_first_index_where_properties, max_key};
use crate::hierarchy::{clone_opt_string, company_id_key, Company, HierarchyIndex, Project};
use crate::model::{CompanyMembership, GrantStore};
use crate::roles::{
    role_name, spec_role_name, AccessLevelType, DEFAULT_GRANT_LEVEL, OWNER_LEVEL,
};

verus! {

/// The role a user has in a company.
#[derive(Debug)]
pub struct UserRole {
    pub id: i32,
    pub name: String,
    pub level: i32,
}

/// A project listed inside a company answer, with the user's role in it.
#[derive(Debug)]
pub struct UserCompanyProjects {
    pub id: i32,
    pub user_role: UserRole,
    pub company_id: i32,
    pub title: String,
    pub description: Option<String>,
    pub decoration_color: Option<String>,
}

/// A company together with the user's role and the company's projects.
#[derive(Debug)]
pub struct UserCompany {
    pub id: i32,
    pub name: String,
    pub name_alias: String,
    pub user_role: UserRole,
    pub description: Option<String>,
    pub contact_info: Option<String>,
    pub company_projects: Vec<UserCompanyProjects>,
}

/// Queries and mutations about companies and their memberships.
pub struct CompaniesQuery;

/// The projects belonging to a company, in store order.
pub open spec fn company_project_pred(company_id: i32) -> spec_fn(Project) -> bool {
    |p: Project| p.company_id == company_id
}

/// A membership of this user whose company row is present.
pub open spec fn member_with_company_pred(hierarchy: HierarchyIndex, user_id: i32) -> spec_fn(
    CompanyMembership,
) -> bool {
    |m: CompanyMembership| m.user_id == user_id && hierarchy.company_by_id(m.company_id) is Some
}

/// The role record reflects the membership's role level.
pub open spec fn role_reflects(ur: UserRole, level: i32) -> bool {
    ur.id == level && ur.level == level && ur.name@ == spec_role_name(level)
}

/// The listed project entry reflects the project row and the user's role.
pub open spec fn company_project_matches(e: UserCompanyProjects, p: Project, level: i32) -> bool {
    &&& e.id == p.id
    &&& e.company_id == p.company_id
    &&& e.title == p.title
    &&& e.description == p.description
    &&& e.decoration_color == p.decoration_color
    &&& role_reflects(e.user_role, level)
}

/// The company answer reflects the company row and membership.
pub open spec fn user_company_header_matches(
    uc: UserCompany,
    c: Company,
    level: i32,
) -> bool {
    &&& uc.id == c.id
    &&& uc.name == c.name
    &&& uc.name_alias == c.name_alias
    &&& uc.description == c.description
    &&& uc.contact_info == c.contact_info
    &&& role_reflects(uc.user_role, level)
}

/// What the company alias is derived from: the name's alphanumeric
/// characters, lowercased.
pub open spec fn alnum_pred() -> spec_fn(char) -> bool {
    |c: char| alphanumeric_char(c)
}

pub open spec fn spec_identifier(s: Seq<char>) -> Seq<char> {
    lower_of(s.filter(alnum_pred()))
}

/// The alias is the base identifier, possibly with a short numeric suffix
/// appended to sidestep a collision.
pub open spec fn alias_extends(base: Seq<char>, alias: Seq<char>) -> bool {
    alias == base || (alias.len() > base.len() && alias.len() <= base.len() + 3
        && alias.subrange(0, base.len() as int) == base && alias[base.len() as int] != '0' && (
    forall|i: int| base.len() <= i < alias.len() ==> dec_digit_char(#[trigger] alias[i])))
}

impl CompaniesQuery {
    /// With a company id: that company, the user's role in it, and every
    /// project under it, provided the user is a member. Without one: the
    /// first company the user belongs to, without project details.
    #[verifier::loop_isolation(false)]
    pub fn get_company_with_projects(
        grants: &GrantStore,
        hierarchy: &HierarchyIndex,
        user_id: i32,
        company_id: Option<i32>,
    ) -> (r: Option<UserCompany>)
        ensures
            company_id matches Some(cid) ==> {
                &&& (r is Some <==> grants.membership_of(user_id, cid) is Some
                    && hierarchy.company_by_id(cid) is Some)
                &&& (r matches Some(uc) ==> {
                    let m = grants.membership_of(user_id, cid)->Some_0;
                    let c = hierarchy.company_by_id(cid)->Some_0;
                    &&& user_company_header_matches(uc, c, m.role_id)
                    &&& uc.company_projects@.len() == hierarchy.projects@.filter(
                        company_project_pred(cid),
                    ).len()
                    &&& (forall|k: int|
                        0 <= k < uc.company_projects@.len() ==> company_project_matches(
                            #[trigger] uc.company_projects@[k],
                            hierarchy.projects@.filter(company_project_pred(cid))[k],
                            m.role_id,
                        ))
                })
            },
            company_id is None ==> {
                let fm = first_where(
                    grants.memberships@,
                    member_with_company_pred(*hierarchy, user_id),
                );
                &&& (r is Some <==> fm is Some)
                &&& (r matches Some(uc) ==> {
                    let m = fm->Some_0;
                    let c = hierarchy.company_by_id(m.company_id)->Some_0;
                    &&& user_company_header_matches(uc, c, m.role_id)
                    &&& uc.company_projects@.len() == 0
                })
            },
    {
        match company_id {
            Some(cid) => {
                let m = match grants.find_membership(user_id, cid) {
                    Some(m) => m,
                    None => {
                        return None;
                    },
                };
                let c = match hierarchy.find_company(cid) {
                    Some(c) => c,
                    None => {
                        return None;
                    },
                };
                let ghost pp = company_project_pred(cid);
                let mut projects: Vec<UserCompanyProjects> = Vec::new();
                let mut i: usize = 0;
                while i < hierarchy.projects.len()
                    invariant
                        i <= hierarchy.projects@.len(),
                        projects@.len() == hierarchy.projects@.take(i as int).filter(pp).len(),
                        forall|k: int|
                            0 <= k < projects@.len() ==> company_project_matches(
                                #[trigger] projects@[k],
                                hierarchy.projects@.take(i as int).filter(pp)[k],
                                m.role_id,
                            ),
                    decreases hierarchy.projects@.len() - i,
                {
                    proof {
                        assert(hierarchy.projects@.take(i + 1int) =~= hierarchy.projects@.take(
                            i as int,
                        ).push(hierarchy.projects@[i as int]));
                        lemma_filter_push(
                            hierarchy.projects@.take(i as int),
                            pp,
                            hierarchy.projects@[i as int],
                        );
                    }
                    let p = &hierarchy.projects[i];
                    if p.company_id == cid {
                        projects.push(
                            UserCompanyProjects {
                                id: p.id,
                                user_role: UserRole {
                                    id: m.role_id,
                                    name: role_name(m.role_id),
                                    level: m.role_id,
                                },
                                company_id: p.company_id,
                                title: p.title.clone(),
                                description: clone_opt_string(&p.description),
                                decoration_color: clone_opt_string(&p.decoration_color),
                            },
                        );
                    }
                    i += 1;
                }
                proof {
                    assert(hierarchy.projects@.take(hierarchy.projects@.len() as int)
                        =~= hierarchy.projects@);
                }
                Some(
                    UserCompany {
                        id: c.id,
                        name: c.name.clone(),
                        name_alias: c.name_alias.clone(),
                        user_role: UserRole {
                            id: m.role_id,
                            name: role_name(m.role_id),
                            level: m.role_id,
                        },
                        description: clone_opt_string(&c.description),
                        contact_info: clone_opt_string(&c.contact_info),
                        company_projects: projects,
                    },
                )
            },
            None => {
                let ghost fp = member_with_company_pred(*hierarchy, user_id);
                let mut i: usize = 0;
                while i < grants.memberships.len()
                    invariant
                        i <= grants.memberships@.len(),
                        forall|j: int| 0 <= j < i ==> !fp(#[trigger] grants.memberships@[j]),
                    decreases grants.memberships@.len() - i,
                {
                    let m = grants.memberships[i];
                    if m.user_id == user_id {
                        if let Some(c) = hierarchy.find_company(m.company_id) {
                            proof {
                                lemma_first_index_where_found(grants.memberships@, fp, i as int);
                            }
                            return Some(
                                UserCompany {
                                    id: c.id,
                                    name: c.name.clone(),
                                    name_alias: c.name_alias.clone(),
                                    user_role: UserRole {
                                        id: m.role_id,
                                        name: role_name(m.role_id),
                                        level: m.role_id,
                                    },
                                    description: clone_opt_string(&c.description),
                                    contact_info: clone_opt_string(&c.contact_info),
                                    company_projects: Vec::new(),
                                },
                            );
                        }
                    }
                    i += 1;
                }
                proof {
                    lemma_first_index_where_none(grants.memberships@, fp);
                }
                None
            },
        }
    }

    /// Creates a company whose alias is derived from its name — retrying
    /// with a short random suffix while the alias is taken — and makes the
    /// creator its Owner-level member with full access.
    #[verifier::loop_isolation(false)]
    pub fn create_new_company(
        grants: &mut GrantStore,
        hierarchy: &mut HierarchyIndex,
        user_id: i32,
        name: String,
        description: Option<String>,
        contact_info: Option<String>,
    ) -> (r: Result<Company, CoreErrors>)
        requires
            old(grants).wf(),
            old(hierarchy).wf(),
        ensures
            final(grants).wf(),
            final(hierarchy).wf(),
            r matches Ok(c) ==> {
                &&& c.name == name
                &&& c.description == description
                &&& c.contact_info == contact_info
                &&& alias_extends(spec_identifier(name@), c.name_alias@)
                &&& (forall|j: int|
                    0 <= j < old(hierarchy).companies@.len() ==> (#[trigger] old(hierarchy).companies@[j]).name_alias@ != c.name_alias@)
                &&& (forall|j: int|
                    0 <= j < old(hierarchy).companies@.len() ==> (#[trigger] old(hierarchy).companies@[j]).id < c.id)
                &&& final(hierarchy).companies@ == old(hierarchy).companies@.push(c)
                &&& final(grants).memberships@ == old(grants).memberships@.push(
                    CompanyMembership {
                        user_id,
                        company_id: c.id,
                        role_id: OWNER_LEVEL,
                        access_level: AccessLevelType::Full,
                    },
                )
            },
            ({
                let base_taken = exists|j: int|
                    0 <= j < old(hierarchy).companies@.len() && (#[trigger] old(
                        hierarchy,
                    ).companies@[j]).name_alias@ == spec_identifier(name@);
                let top = max_key(old(hierarchy).companies@, company_id_key());
                let membership_free = old(grants).membership_of(
                    user_id,
                    ((top + 1) as i32),
                ) is None;
                &&& (!base_taken && top < i32::MAX as int && membership_free ==> r is Ok)
                &&& (!base_taken ==> (r matches Ok(c) ==> c.name_alias@ == spec_identifier(
                    name@,
                )))
                &&& (r is Err ==> base_taken || top == i32::MAX as int || !membership_free)
            }),
            r matches Ok(c) ==> c.id as int == max_key(
                old(hierarchy).companies@,
                company_id_key(),
            ) + 1,
            r is Err ==> crate::errors::is_db_error(r, "Failed to create company"@) && final(hierarchy).companies@ == old(hierarchy).companies@ && final(grants).memberships@ == old(grants).memberships@,
            final(hierarchy).projects@ == old(hierarchy).projects@,
            final(hierarchy).tasks@ == old(hierarchy).tasks@,
            final(hierarchy).subtasks@ == old(hierarchy).subtasks@,
            final(hierarchy).notes@ == old(hierarchy).notes@,
            final(grants).grants@ == old(grants).grants@,
    {
        let identifier = convert_to_identifier(name.as_str());
        let mut alias: Option<String> = None;
        if !hierarchy.alias_taken(&identifier) {
            alias = Some(identifier.clone());
        } else {
            let mut attempt: usize = 0;
            while attempt < 10
                invariant
                    match alias {
                        Some(a) => alias_extends(spec_identifier(name@), a@) && (forall|j: int|
                            0 <= j < hierarchy.companies@.len() ==> (
                            #[trigger] hierarchy.companies@[j]).name_alias@ != a@),
                        None => true,
                    },
                    alias is Some ==> attempt >= 10,
                decreases 10 - attempt,
            {
                let suffix = random_suffix();
                let candidate = identifier.clone().concat(suffix.as_str());
                proof {
                    assert(candidate@.subrange(0, identifier@.len() as int) =~= identifier@);
                    assert(forall|i: int|
                        identifier@.len() <= i < candidate@.len() ==> #[trigger] candidate@[i]
                            == suffix@[i - identifier@.len()]);
                }
                if !hierarchy.alias_taken(&candidate) {
                    alias = Some(candidate);
                    attempt = 10;
                } else {
                    attempt += 1;
                }
            }
        }
        let alias = match alias {
            Some(a) => a,
            None => {
                return Err(failed_to_create_company());
            },
        };
        let company_id = match hierarchy.fresh_company_id() {
            Some(id) => id,
            None => {
                return Err(failed_to_create_company());
            },
        };
        if grants.find_membership(user_id, company_id).is_some() {
            return Err(failed_to_create_company());
        }
        let row = Company {
            id: company_id,
            name,
            name_alias: alias,
            description,
            contact_info,
        };
        let result = row.clone();
        hierarchy.insert_company(row);
        grants.insert_membership(
            CompanyMembership {
                user_id,
                company_id,
                role_id: OWNER_LEVEL,
                access_level: AccessLevelType::Full,
            },
        );
        Ok(result)
    }

    /// The user's membership in the company, if any.
    pub fn get_user_company(grants: &GrantStore, user_id: i32, company_id: i32) -> (r: Option<
        CompanyMembership,
    >)
        ensures
            r == grants.membership_of(user_id, company_id),
    {
        grants.find_membership(user_id, company_id)
    }

    /// Makes the user a member of the company at the default role and
    /// limited access, or returns the membership they already hold; never
    /// gated at this layer.
    pub fn add_user_to_company(grants: &mut GrantStore, user_id: i32, company_id: i32) -> (r:
        Result<CompanyMembership, CoreErrors>)
        requires
            old(grants).wf(),
        ensures
            final(grants).wf(),
            r is Ok,
            old(grants).membership_of(user_id, company_id) matches Some(m) ==> r == Ok::<
                CompanyMembership,
                CoreErrors,
            >(m) && final(grants).memberships@ == old(grants).memberships@,
            old(grants).membership_of(user_id, company_id) is None ==> {
                let fresh = CompanyMembership {
                    user_id,
                    company_id,
                    role_id: DEFAULT_GRANT_LEVEL,
                    access_level: AccessLevelType::Limited,
                };
                r == Ok::<CompanyMembership, CoreErrors>(fresh) && final(grants).memberships@
                    == old(grants).memberships@.push(fresh)
            },
            final(grants).grants@ == old(grants).grants@,
    {
        if let Some(existing) = grants.find_membership(user_id, company_id) {
            return Ok(existing);
        }
        let fresh = CompanyMembership {
            user_id,
            company_id,
            role_id: DEFAULT_GRANT_LEVEL,
            access_level: AccessLevelType::Limited,
        };
        grants.insert_membership(fresh);
        Ok(fresh)
    }

    /// Removes the user's membership in the company. With a requester level
    /// given, only a membership at that level or weaker may be removed; a
    /// membership that is missing or too strong reports the user as not
    /// associated.
    pub fn remove_user_from_company(
        grants: &mut GrantStore,
        user_id: i32,
        company_id: i32,
        request_user_id_lvl: Option<i32>,
    ) -> (r: Result<(), CoreErrors>)
        requires
            old(grants).wf(),
        ensures
            final(grants).wf(),
            final(grants).grants@ == old(grants).grants@,
            ({
                let existing = old(grants).membership_of(user_id, company_id);
                let allowed = match existing {
                    Some(m) => match request_user_id_lvl {
                        Some(level) => m.role_id >= level,
                        None => true,
                    },
                    None => false,
                };
                if allowed {
                    r is Ok && final(grants).memberships@ == old(grants).memberships@.filter(
                        |m: CompanyMembership|
                            !crate::model::membership_pred(user_id, company_id)(m),
                    )
                } else {
                    r is Err && crate::errors::is_db_error(
                        r,
                        "User not associated with the specified company"@,
                    ) && final(grants).memberships@ == old(grants).memberships@
                }
            }),
    {
        let existing = match grants.find_membership(user_id, company_id) {
            Some(m) => m,
            None => {
                return not_associated_with_company();
            },
        };
        let allowed = match request_user_id_lvl {
            Some(level) => existing.role_id >= level,
            None => true,
        };
        if !allowed {
            return not_associated_with_company();
        }
        let _removed = grants.remove_membership(user_id, company_id);
        Ok(())
    }

    /// Deletes the company row itself; reports an error when it is absent.
    pub fn delete_company(hierarchy: &mut HierarchyIndex, company_id: i32) -> (r: Result<
        (),
        CoreErrors,
    >)
        requires
            old(hierarchy).wf(),
        ensures
            final(hierarchy).wf(),
            r is Ok <==> old(hierarchy).company_by_id(company_id) is Some,
            final(hierarchy).companies@ == old(hierarchy).companies@.filter(
                |c: Company| c.id != company_id,
            ),
            final(hierarchy).company_by_id(company_id) is None,
            r is Err ==> crate::errors::is_db_error(
                r,
                "Company with the given id does not exist"@,
            ) && final(hierarchy).companies@ == old(hierarchy).companies@,
            final(hierarchy).projects@ == old(hierarchy).projects@,
            final(hierarchy).tasks@ == old(hierarchy).tasks@,
            final(hierarchy).subtasks@ == old(hierarchy).subtasks@,
            final(hierarchy).notes@ == old(hierarchy).notes@,
    {
        let exists = hierarchy.find_company(company_id).is_some();
        hierarchy.remove_company_row(company_id);
        if exists {
            Ok(())
        } else {
            proof {
                lemma_first_index_where_properties(
                    old(hierarchy).companies@,
                    crate::hierarchy::company_pred(company_id),
                );
                crate::find::lemma_filter_all_true(
                    old(hierarchy).companies@,
                    |c: Company| c.id != company_id,
                );
            }
            let s: &str = "Company with the given id does not exist";
            Err(CoreErrors::DatabaseServiceError(s.to_owned()))
        }
    }

    /// Removes every membership of the company, for all users.
    pub fn delete_all_users_from_company(grants: &mut GrantStore, company_id: i32) -> (r: Result<
        (),
        CoreErrors,
    >)
        requires
            old(grants).wf(),
        ensures
            final(grants).wf(),
            r is Ok,
            final(grants).memberships@ == old(grants).memberships@.filter(
                |m: CompanyMembership| m.company_id != company_id,
            ),
            final(grants).grants@ == old(grants).grants@,
    {
        grants.remove_memberships_of_company(company_id);
        Ok(())
    }
}

/// Keeps only the alphanumeric characters of the input and lowercases them:
/// the derivation of a company's alias from its display name.
#[verifier::loop_isolation(false)]
pub fn convert_to_identifier(input: &str) -> (r: String)
    ensures
        r@ == spec_identifier(input@),
{
    let ghost p = alnum_pred();
    let n = input.unicode_len();
    let mut kept = String::new();
    let mut i: usize = 0;
    while i < n
        invariant
            i <= n,
            n == input@.len(),
            kept@ == input@.take(i as int).filter(p),
        decreases n - i,
    {
        let c = input.get_char(i);
        proof {
            assert(input@.take(i + 1int) =~= input@.take(i as int).push(input@[i as int]));
            lemma_filter_push(input@.take(i as int), p, input@[i as int]);
        }
        if c.is_alphanumeric() {
            kept.push(c);
        }
        i += 1;
    }
    proof {
        assert(input@.take(n as int) =~= input@);
    }
    lowercase(kept.as_str())
}

/// A short collision-breaking suffix.
///
/// Relies on rand's `thread_rng` and `Rng::gen_range`: a value drawn
/// uniformly from 1..1000, rendered in decimal, which gives 1 to 3 digits
/// with no leading zero. Only the shape of the text is stated; the value
/// depends on chance.
#[verifier::external_body]
fn random_suffix() -> (s: String)
    ensures
        1 <= s@.len() <= 3,
        forall|i: int| 0 <= i < s@.len() ==> dec_digit_char(#[trigger] s@[i]),
        s@[0] != '0',
{
    format!("{}", rand::Rng::gen_range(&mut rand::thread_rng(), 1..1000u32))
}

fn failed_to_create_company() -> (r: CoreErrors)
    ensures
        r matches CoreErrors::DatabaseServiceError(m) && m@ == "Failed to create company"@,
{
    let s: &str = "Failed to create company";
    CoreErrors::DatabaseServiceError(s.to_owned())
}

fn not_associated_with_company() -> (r: Result<(), CoreErrors>)
    ensures
        crate::errors::is_db_error(r, "User not associated with the specified company"@),
        r is Err,
{
    let s: &str = "User not associated with the specified company";
    Err(CoreErrors::DatabaseServiceError(s.to_owned()))
}

} // verus!
