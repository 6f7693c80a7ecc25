use vstd::prelude::*;

verus! {

/// Role levels are integers where a *lower* number means *more* privilege.
pub const OWNER_LEVEL: i32 = 1;

pub const ADMINISTRATOR_LEVEL: i32 = 2;

/// The level a user receives when added to a resource without an explicit
/// role: "Manager".
pub const DEFAULT_GRANT_LEVEL: i32 = 3;

pub const GUEST_LEVEL: i32 = 6;

/// A grant scoped to a project also reaches the tasks under that project,
/// but only for role levels at or above this ceiling.
pub const PROJECT_GRANT_TASK_CEILING: i32 = 5;

/// A grant scoped to a task likewise reaches the subtasks under that task.
pub const TASK_GRANT_SUBTASK_CEILING: i32 = 5;

/// The coarse capability flag carried by every grant, orthogonal to the
/// role level.
#[derive(Clone, Copy, Debug, PartialEq, Eq, Structural)]
pub enum AccessLevelType {
    Full,
    Limited,
    Restricted,
}

/// The lifecycle states a task or subtask can be in.
#[derive(Clone, Copy, Debug, PartialEq, Eq, Structural)]
pub enum TaskStatusType {
    Pending,
    InProgress,
    Completed,
}

impl TaskStatusType {
    /// Parses the textual status used by the persisted rows; anything else
    /// is a data-format error.
    pub fn try_from_text(value: &str) -> (r: Result<TaskStatusType, crate::errors::CoreErrors>)
        ensures
            value@ == "completed"@ ==> r == Ok::<TaskStatusType, crate::errors::CoreErrors>(
                TaskStatusType::Completed,
            ),
            value@ == "in_progress"@ ==> r == Ok::<TaskStatusType, crate::errors::CoreErrors>(
                TaskStatusType::InProgress,
            ),
            value@ == "pending"@ ==> r == Ok::<TaskStatusType, crate::errors::CoreErrors>(
                TaskStatusType::Pending,
            ),
            r is Err <==> value@ != "completed"@ && value@ != "in_progress"@ && value@
                != "pending"@,
    {
        proof {
            reveal_strlit("completed");
            reveal_strlit("in_progress");
            reveal_strlit("pending");
            assert("completed"@.len() == 9);
            assert("in_progress"@.len() == 11);
            assert("pending"@.len() == 7);
        }
        if streq(value, "completed") {
            Ok(TaskStatusType::Completed)
        } else if streq(value, "in_progress") {
            Ok(TaskStatusType::InProgress)
        } else if streq(value, "pending") {
            Ok(TaskStatusType::Pending)
        } else {
            Err(crate::errors::CoreErrors::DatabaseServiceError(invalid_status_message()))
        }
    }
}

/// String-slice comparison by contents.
fn streq(a: &str, b: &str) -> (r: bool)
    ensures
        r <==> a@ == b@,
{
    let owned_a: String = a.to_owned();
    let owned_b: String = b.to_owned();
    owned_a == owned_b
}

fn invalid_status_message() -> (r: String)
    ensures
        r@ == "Invalid task_status value"@,
{
    let s: &str = "Invalid task_status value";
    s.to_owned()
}

/// One entry of the static role catalog: reference data seeded once.
/// The parent link is informational and plays no part in decisions.
#[derive(Debug)]
pub struct Role {
    pub id: i32,
    pub name: String,
    pub description: String,
    pub parent_role_id: Option<i32>,
    pub level: i32,
}

/// The seeded role catalog: Owner (1) down to Guest (6).
pub fn default_roles() -> (r: Vec<Role>)
    ensures
        r@.len() == 6,
        forall|i: int| 0 <= i < 6 ==> (#[trigger] r@[i]).id == i + 1,
        forall|i: int| 0 <= i < 6 ==> (#[trigger] r@[i]).level == i + 1,
        forall|i: int| 0 <= i < 6 ==> (#[trigger] r@[i]).parent_role_id is None,
        r@[0].name@ == "Owner"@,
        r@[1].name@ == "Administrator"@,
        r@[2].name@ == "Manager"@,
        r@[3].name@ == "User"@,
        r@[4].name@ == "Support"@,
        r@[5].name@ == "Guest"@,
{
    let mut roles: Vec<Role> = Vec::new();
    roles.push(make_role(1, "Owner", "Company owner", 1));
    roles.push(make_role(2, "Administrator", "Administrator with full access", 2));
    roles.push(make_role(3, "Manager", "Manager with limited administrative rights", 3));
    roles.push(make_role(4, "User", "Regular user", 4));
    roles.push(make_role(5, "Support", "Support staff", 5));
    roles.push(make_role(6, "Guest", "Guest with limited access", 6));
    roles
}

fn make_role(id: i32, name: &str, description: &str, level: i32) -> (r: Role)
    ensures
        r.id == id,
        r.name@ == name@,
        r.description@ == description@,
        r.parent_role_id is None,
        r.level == level,
{
    Role { id, name: name.to_owned(), description: description.to_owned(), parent_role_id: None, level }
}

/// The seeded name of a role level; levels outside the catalog read as
/// "Unknown".
pub open spec fn spec_role_name(level: i32) -> Seq<char> {
    if level == 1 {
        "Owner"@
    } else if level == 2 {
        "Administrator"@
    } else if level == 3 {
        "Manager"@
    } else if level == 4 {
        "User"@
    } else if level == 5 {
        "Support"@
    } else if level == 6 {
        "Guest"@
    } else {
        "Unknown"@
    }
}

/// Executable lookup of a role level's name in the static catalog.
pub fn role_name(level: i32) -> (r: String)
    ensures
        r@ == spec_role_name(level),
{
    let s: &str = if level == 1 {
        "Owner"
    } else if level == 2 {
        "Administrator"
    } else if level == 3 {
        "Manager"
    } else if level == 4 {
        "User"
    } else if level == 5 {
        "Support"
    } else if level == 6 {
        "Guest"
    } else {
        "Unknown"
    };
    s.to_owned()
}

/// The seeded description of a role level.
pub open spec fn spec_role_description(level: i32) -> Seq<char> {
    if level == 1 {
        "Company owner"@
    } else if level == 2 {
        "Administrator with full access"@
    } else if level == 3 {
        "Manager with limited administrative rights"@
    } else if level == 4 {
        "Regular user"@
    } else if level == 5 {
        "Support staff"@
    } else if level == 6 {
        "Guest with limited access"@
    } else {
        "Unknown"@
    }
}

/// Executable lookup of a role level's description in the static catalog.
pub fn role_description(level: i32) -> (r: String)
    ensures
        r@ == spec_role_description(level),
{
    let s: &str = if level == 1 {
        "Company owner"
    } else if level == 2 {
        "Administrator with full access"
    } else if level == 3 {
        "Manager with limited administrative rights"
    } else if level == 4 {
        "Regular user"
    } else if level == 5 {
        "Support staff"
    } else if level == 6 {
        "Guest with limited access"
    } else {
        "Unknown"
    };
    s.to_owned()
}

} // verus!
