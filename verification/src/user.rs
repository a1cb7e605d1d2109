//! Users, their roles in a tenant, and what a role may do.

use crate::text::same;
use crate::time::Timestamp;
use vstd::prelude::*;

verus! {

/// Whether a user may log in.
#[derive(Clone, Copy, Debug, PartialEq, Eq, Structural)]
pub enum UserStatus {
    Active,
    Disabled,
}

/// What a user is in a tenant.
#[derive(Clone, Copy, Debug, PartialEq, Eq, Structural, Hash)]
pub enum TenantRole {
    TenantAdmin,
    Developer,
    Operator,
    Viewer,
}

/// Something that a user may do.
#[derive(Clone, Copy, Debug, PartialEq, Eq, Structural)]
pub enum Permission {
    TenantManage,
    UserManage,
    TemplateWrite,
    InstanceExecute,
    ApprovalAdmin,
    ApprovalDecide,
    ReadOnly,
}

impl UserStatus {
    /// The name of the status.
    pub open spec fn label(self) -> Seq<char> {
        match self {
            UserStatus::Active => "Active"@,
            UserStatus::Disabled => "Disabled"@,
        }
    }

    /// The name of the status.
    pub fn name(&self) -> (r: &'static str)
        ensures
            r@ == self.label(),
    {
        match self {
            UserStatus::Active => "Active",
            UserStatus::Disabled => "Disabled",
        }
    }
}

impl TenantRole {
    /// The name of the role.
    pub open spec fn label(self) -> Seq<char> {
        match self {
            TenantRole::TenantAdmin => "TenantAdmin"@,
            TenantRole::Developer => "Developer"@,
            TenantRole::Operator => "Operator"@,
            TenantRole::Viewer => "Viewer"@,
        }
    }

    /// The name of the role.
    pub fn name(&self) -> (r: &'static str)
        ensures
            r@ == self.label(),
    {
        match self {
            TenantRole::TenantAdmin => "TenantAdmin",
            TenantRole::Developer => "Developer",
            TenantRole::Operator => "Operator",
            TenantRole::Viewer => "Viewer",
        }
    }

    /// The role with a given name, if there is one.
    pub open spec fn named(s: Seq<char>) -> Option<TenantRole> {
        if s == "TenantAdmin"@ {
            Some(TenantRole::TenantAdmin)
        } else if s == "Developer"@ {
            Some(TenantRole::Developer)
        } else if s == "Operator"@ {
            Some(TenantRole::Operator)
        } else if s == "Viewer"@ {
            Some(TenantRole::Viewer)
        } else {
            None
        }
    }

    /// The role with a given name, if there is one.
    pub fn from_str(s: &str) -> (r: Option<TenantRole>)
        ensures
            r == TenantRole::named(s@),
    {
        if same(s, "TenantAdmin") {
            Some(TenantRole::TenantAdmin)
        } else if same(s, "Developer") {
            Some(TenantRole::Developer)
        } else if same(s, "Operator") {
            Some(TenantRole::Operator)
        } else if same(s, "Viewer") {
            Some(TenantRole::Viewer)
        } else {
            None
        }
    }

    /// Whether a role may do something: no role may manage tenants; only the admin manages users
    /// and approvals; templates are written by admin and developer; instances are run and
    /// approvals decided by all but the viewer; everybody may read.
    pub open spec fn may(self, perm: Permission) -> bool {
        match perm {
            Permission::TenantManage => false,
            Permission::UserManage | Permission::ApprovalAdmin => self is TenantAdmin,
            Permission::TemplateWrite => self is TenantAdmin || self is Developer,
            Permission::InstanceExecute | Permission::ApprovalDecide => !(self is Viewer),
            Permission::ReadOnly => true,
        }
    }

    /// Whether the role may do something.
    pub fn has_permission(&self, perm: &Permission) -> (r: bool)
        ensures
            r == self.may(*perm),
    {
        match perm {
            Permission::TenantManage => false,
            Permission::UserManage => matches!(self, TenantRole::TenantAdmin),
            Permission::TemplateWrite => {
                matches!(self, TenantRole::TenantAdmin | TenantRole::Developer)
            },
            Permission::InstanceExecute | Permission::ApprovalDecide => matches!(
                self,
                TenantRole::TenantAdmin | TenantRole::Developer | TenantRole::Operator
            ),
            Permission::ApprovalAdmin => matches!(self, TenantRole::TenantAdmin),
            Permission::ReadOnly => true,
        }
    }
}

/// Each role may do all that the role below it may: the viewer is below the operator, the operator
/// below the developer, the developer below the admin.
pub proof fn law_roles_build_on_each_other(perm: Permission)
    ensures
        TenantRole::Viewer.may(perm) ==> TenantRole::Operator.may(perm),
        TenantRole::Operator.may(perm) ==> TenantRole::Developer.may(perm),
        TenantRole::Developer.may(perm) ==> TenantRole::TenantAdmin.may(perm),
{
}

/// A viewer may read and nothing else; managing tenants is in no role.
pub proof fn law_viewers_only_read(perm: Permission)
    ensures
        TenantRole::Viewer.may(perm) <==> perm is ReadOnly,
        forall|role: TenantRole| !#[trigger] role.may(Permission::TenantManage),
{
}

/// A role is found again by its name.
pub proof fn law_roles_are_named(role: TenantRole)
    ensures
        TenantRole::named(role.label()) == Some(role),
{
    reveal_strlit("TenantAdmin");
    reveal_strlit("Developer");
    reveal_strlit("Operator");
    reveal_strlit("Viewer");
    assert("TenantAdmin"@[0] == 'T' && "Developer"@[0] == 'D' && "Operator"@[0] == 'O'
        && "Viewer"@[0] == 'V');
}

/// A user.
#[derive(Debug)]
pub struct UserEntity {
    pub user_id: String,
    pub username: String,
    pub email: String,
    pub password_hash: String,
    pub is_super_admin: bool,
    pub status: UserStatus,
    pub created_at: Timestamp,
    pub updated_at: Timestamp,
}

/// The role of a user in a tenant.
#[derive(Debug)]
pub struct UserTenantRole {
    pub user_id: String,
    pub tenant_id: String,
    pub role: TenantRole,
    pub created_at: Timestamp,
}

/// What each role may: an admin everything but managing tenants, a developer of that everything but
/// managing users and approvals, an operator of that everything but writing templates.
pub proof fn law_what_each_role_may(perm: Permission)
    ensures
        TenantRole::TenantAdmin.may(perm) <==> !(perm is TenantManage),
        TenantRole::Developer.may(perm) <==> TenantRole::TenantAdmin.may(perm) && !(perm
            is UserManage || perm is ApprovalAdmin),
        TenantRole::Operator.may(perm) <==> TenantRole::Developer.may(perm) && !(perm
            is TemplateWrite),
        TenantRole::Viewer.may(perm) <==> TenantRole::Operator.may(perm) && !(perm
            is InstanceExecute || perm is ApprovalDecide),
{
}

/// A text names a role exactly if it is the role's own name.
pub proof fn law_only_names_name_roles(text: Seq<char>, role: TenantRole)
    ensures
        TenantRole::named(text) == Some(role) <==> text == role.label(),
        TenantRole::TenantAdmin.label() == "TenantAdmin"@,
        TenantRole::Developer.label() == "Developer"@,
        TenantRole::Operator.label() == "Operator"@,
        TenantRole::Viewer.label() == "Viewer"@,
{
    law_roles_are_named(TenantRole::TenantAdmin);
    law_roles_are_named(TenantRole::Developer);
    law_roles_are_named(TenantRole::Operator);
    law_roles_are_named(TenantRole::Viewer);
}

} // verus!
