//! The first start: the first user, the first tenant, and where the servers listen.

use crate::account::{hash_password, password_checked};
use crate::config::InitConfig;
use crate::text::{concat2, decimal, decimal_text};
use crate::user::TenantRole;
use vstd::prelude::*;

verus! {

/// A user that is to be made.
#[derive(Debug)]
pub struct NewUser {
    pub username: String,
    pub email: String,
    pub password_hash: String,
    pub is_super_admin: bool,
}

/// A tenant that is to be made.
#[derive(Debug)]
pub struct NewTenant {
    pub name: String,
    pub description: String,
}

/// The super admin that is to be made, given what came of hashing the password. It is an error if
/// the password could not be hashed.
pub fn admin_hashed(init: &InitConfig, hash: Result<String, String>) -> (r: Result<NewUser, String>)
    ensures
        match (hash, r) {
            (Ok(h), Ok(u)) => {
                &&& u.username@ == init.admin_username@
                &&& u.email@ == init.admin_email@
                &&& u.password_hash@ == h@
                &&& u.is_super_admin
            },
            (Err(why), Err(e)) => e@ == "Password hashing failed: "@ + why@,
            _ => false,
        },
{
    match hash {
        Ok(password_hash) => Ok(
            NewUser {
                username: init.admin_username.clone(),
                email: init.admin_email.clone(),
                password_hash,
                is_super_admin: true,
            },
        ),
        Err(why) => Err(concat2("Password hashing failed: ", why.as_str())),
    }
}

/// The super admin that is to be made; none if there is a user of that name already. It is an error
/// if the password cannot be hashed.
pub fn bootstrap_admin(init: &InitConfig, exists: bool) -> (r: Result<Option<NewUser>, String>)
    ensures
        match r {
            Ok(None) => exists,
            Ok(Some(u)) => {
                &&& !exists
                &&& u.username@ == init.admin_username@
                &&& u.email@ == init.admin_email@
                &&& u.is_super_admin
                &&& password_checked(init.admin_password@, u.password_hash@) == Ok::<
                    bool,
                    Seq<char>,
                >(true)
            },
            Err(e) => !exists && exists|why: Seq<char>|
                e@ == #[trigger] ("Password hashing failed: "@ + why),
        },
{
    if exists {
        return Ok(None);
    }
    match admin_hashed(init, hash_password(init.admin_password.as_str())) {
        Ok(u) => Ok(Some(u)),
        Err(e) => Err(e),
    }
}

/// The tenant that is to be made; none if there is one of that name already.
pub fn bootstrap_tenant(init: &InitConfig, exists: bool) -> (r: Option<NewTenant>)
    ensures
        match r {
            None => exists,
            Some(t) => !exists && t.name@ == init.default_tenant_name@ && t.description@
                == init.default_tenant_description@,
        },
{
    if exists {
        None
    } else {
        Some(
            NewTenant {
                name: init.default_tenant_name.clone(),
                description: init.default_tenant_description.clone(),
            },
        )
    }
}

/// The role that the super admin is to get in the tenant; none if they have one already.
pub fn bootstrap_role(has_role: bool) -> (r: Option<TenantRole>)
    ensures
        r == if has_role {
            None
        } else {
            Some(TenantRole::TenantAdmin)
        },
{
    if has_role {
        None
    } else {
        Some(TenantRole::TenantAdmin)
    }
}

/// Where a server listens that takes a port on every address.
pub fn listen_address(port: u16) -> (r: String)
    ensures
        r@ == "0.0.0.0:"@ + decimal(port as nat),
{
    concat2("0.0.0.0:", decimal_text(port as u64).as_str())
}

/// The port of the server for tools: the one after that of the web server.
pub fn mcp_port(port: u16) -> (r: u16)
    requires
        port < u16::MAX,
    ensures
        r == port + 1,
{
    port + 1
}

/// The first start makes what is missing and nothing that is there: the super admin can log in with
/// the password that was configured, and gets the role of an admin in the tenant.
pub proof fn law_the_first_start_makes_what_is_missing(
    init: &InitConfig,
    known: bool,
    user: Result<Option<NewUser>, String>,
    tenant: Option<NewTenant>,
    role: Option<TenantRole>,
)
    requires
        call_ensures(bootstrap_admin, (init, known), user),
        call_ensures(bootstrap_tenant, (init, known), tenant),
        call_ensures(bootstrap_role, (known,), role),
    ensures
        known ==> user == Ok::<Option<NewUser>, String>(None) && tenant is None && role is None,
        !known ==> tenant is Some && role == Some(TenantRole::TenantAdmin),
        user matches Ok(Some(u)) ==> {
            &&& u.username@ == init.admin_username@
            &&& u.email@ == init.admin_email@
            &&& u.is_super_admin
            &&& password_checked(init.admin_password@, u.password_hash@) == Ok::<bool, Seq<char>>(
                true,
            )
        },
        tenant matches Some(t) ==> t.name@ == init.default_tenant_name@ && t.description@
            == init.default_tenant_description@,
{
}

/// A server listens on every address at its port, and two servers at different ports listen at
/// different places.
pub proof fn law_servers_listen_at_their_ports(a: u16, b: u16, x: String, y: String)
    requires
        call_ensures(listen_address, (a,), x),
        call_ensures(listen_address, (b,), y),
    ensures
        x@ == "0.0.0.0:"@ + decimal(a as nat),
        x@ == y@ <==> a == b,
{
    crate::text::lemma_same_prefix("0.0.0.0:"@, decimal(a as nat), decimal(b as nat));
    crate::text::law_decimals_tell_numbers_apart(a as nat, b as nat);
}

} // verus!
