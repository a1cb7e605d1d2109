//! Accounts: logging in, registering, changing a password. Looking users and tenants up, and
//! writing them, is the caller's.

use crate::api_error::{ApiError, ErrorView};
use crate::auth::{create_token, payload_of, signed_payload, Claims, ClaimsView};
use crate::json::{json_text, put_str, Json, JsonView};
use crate::text::{concat2, owned};
use crate::time::{now, rfc3339, to_rfc3339, Timestamp};
use crate::user::{UserEntity, UserStatus, UserTenantRole};
use vstd::prelude::*;
use vstd::utf8::encode_utf8;

verus! {

/// How long a token is good, in seconds.
pub const TOKEN_SECONDS: u32 = 86400;

/// The fewest bytes of a new password.
pub const MIN_PASSWORD_BYTES: usize = 6;

/// Somebody wants to log in.
#[derive(Debug)]
pub struct LoginRequest {
    pub username: String,
    pub password: String,
    pub tenant_id: String,
}

/// Somebody wants an account.
#[derive(Debug)]
pub struct RegisterRequest {
    pub username: String,
    pub email: String,
    pub password: String,
}

/// Somebody wants another password.
#[derive(Debug)]
pub struct ChangePasswordRequest {
    pub old_password: String,
    pub new_password: String,
}

/// A tenant that somebody can log in to.
#[derive(Debug)]
pub struct TenantOption {
    pub tenant_id: String,
    pub name: String,
}

/// What is known of a tenant.
#[derive(Debug)]
pub struct TenantSummary {
    pub tenant_id: String,
    pub name: String,
    pub active: bool,
}

/// What [`bcrypt::verify`] says of a password and a hash: whether they belong together, or the text
/// of its error.
pub uninterp spec fn password_checked(password: Seq<char>, hash: Seq<char>) -> Result<
    bool,
    Seq<char>,
>;

/// [`bcrypt::verify`]: whether a password belongs to a hash, or the error as text.
#[verifier::external_body]
fn check_password(password: &str, hash: &str) -> (r: Result<bool, String>)
    ensures
        match r {
            Ok(b) => password_checked(password@, hash@) == Ok::<bool, Seq<char>>(b),
            Err(e) => password_checked(password@, hash@) == Err::<bool, Seq<char>>(e@),
        },
{
    bcrypt::verify(password, hash).map_err(|e| e.to_string())
}

/// [`bcrypt::hash`] with the default cost: a hash that the password belongs to, or the error as
/// text. The hash is salted at random, so nothing more is said of it; it can fail where the system
/// gives no random bytes.
#[verifier::external_body]
pub(crate) fn hash_password(password: &str) -> (r: Result<String, String>)
    ensures
        match r {
            Ok(h) => password_checked(password@, h@) == Ok::<bool, Seq<char>>(true),
            Err(_) => true,
        },
{
    bcrypt::hash(password, bcrypt::DEFAULT_COST).map_err(|e| e.to_string())
}

/// Why somebody cannot log in with a password; nothing if they can. `check` is what is found of the
/// password and the user's hash. A wrong name is answered as a wrong password is.
pub open spec fn login_refusal(
    user: Option<UserEntity>,
    check: Result<bool, Seq<char>>,
) -> Option<ErrorView> {
    match user {
        None => Some(ErrorView::BadRequest("Invalid username or password"@)),
        Some(u) => if !(u.status is Active) {
            Some(ErrorView::BadRequest("User is disabled"@))
        } else {
            match check {
                Err(_) => Some(ErrorView::Internal("Password verification failed"@)),
                Ok(false) => Some(ErrorView::BadRequest("Invalid username or password"@)),
                Ok(true) => None,
            }
        },
    }
}

/// Why a user cannot log in with a password.
pub open spec fn password_refusal(user: Option<UserEntity>, password: Seq<char>) -> Option<
    ErrorView,
> {
    login_refusal(
        user,
        match user {
            Some(u) => password_checked(password, u.password_hash@),
            None => Ok(false),
        },
    )
}

/// The value of a reference that may be missing.
pub open spec fn found_user(user: Option<&UserEntity>) -> Option<UserEntity> {
    match user {
        Some(u) => Some(*u),
        None => None,
    }
}

/// Whether a user may log in, by what is found of their password.
pub fn password_compared(user: Option<&UserEntity>, check: Result<bool, String>) -> (r: Result<
    (),
    ApiError,
>)
    ensures
        match r {
            Ok(_) => None,
            Err(e) => Some(e@),
        } == login_refusal(
            found_user(user),
            match check {
                Ok(b) => Ok::<bool, Seq<char>>(b),
                Err(e) => Err::<bool, Seq<char>>(e@),
            },
        ),
{
    let u = match user {
        Some(u) => u,
        None => {
            return Err(ApiError::bad_request("Invalid username or password"));
        },
    };
    if !matches!(u.status, UserStatus::Active) {
        return Err(ApiError::bad_request("User is disabled"));
    }
    match check {
        Err(_) => Err(ApiError::internal("Password verification failed")),
        Ok(false) => Err(ApiError::bad_request("Invalid username or password")),
        Ok(true) => Ok(()),
    }
}

/// Whether the user that was found under a name may log in with a password.
pub fn fetch_valid_user(user: Option<&UserEntity>, password: &str) -> (r: Result<(), ApiError>)
    ensures
        match r {
            Ok(_) => None,
            Err(e) => Some(e@),
        } == password_refusal(found_user(user), password@),
{
    let check = match user {
        Some(u) => check_password(password, u.password_hash.as_str()),
        None => Ok(false),
    };
    password_compared(user, check)
}

/// The name of the role that somebody logs in with; it is an error to have none in the tenant.
pub open spec fn login_role(user: UserEntity, role: Option<UserTenantRole>) -> Result<
    Seq<char>,
    ErrorView,
> {
    if user.is_super_admin {
        Ok("SuperAdmin"@)
    } else {
        match role {
            Some(r) => Ok(r.role.label()),
            None => Err(ErrorView::BadRequest("User does not belong to this tenant"@)),
        }
    }
}

/// The name of the role that somebody logs in with. `role` is what was found of them in the tenant.
pub fn resolve_login_role(user: &UserEntity, role: Option<&UserTenantRole>) -> (r: Result<
    String,
    ApiError,
>)
    ensures
        match r {
            Ok(s) => Ok::<Seq<char>, ErrorView>(s@),
            Err(e) => Err::<Seq<char>, ErrorView>(e@),
        } == login_role(
            *user,
            match role {
                Some(x) => Some(*x),
                None => None,
            },
        ),
{
    if user.is_super_admin {
        return Ok(owned("SuperAdmin"));
    }
    match role {
        Some(x) => Ok(owned(x.role.name())),
        None => Err(ApiError::bad_request("User does not belong to this tenant")),
    }
}

/// The claims of somebody who logs in at a given time: they run out a day later.
pub open spec fn login_claims(
    user: UserEntity,
    tenant_id: Seq<char>,
    role: Seq<char>,
    at: Timestamp,
) -> ClaimsView {
    ClaimsView {
        sub: user.user_id@,
        username: user.username@,
        is_super_admin: user.is_super_admin,
        tenant_id,
        role,
        exp: (at.secs + TOKEN_SECONDS) as usize,
    }
}

/// Whether a token can say when it runs out, if it is made at a given time.
pub open spec fn can_expire(at: Timestamp) -> bool {
    0 <= at.secs && at.secs + TOKEN_SECONDS <= usize::MAX
}

/// Why no token can be made at a given time: it could not say when it runs out.
pub open spec fn token_failure(at: Timestamp) -> ErrorView {
    if at.secs < 0 {
        ErrorView::Internal("Token creation failed: the clock is before 1970"@)
    } else {
        ErrorView::Internal("Token creation failed: the clock is too late"@)
    }
}

/// The token of somebody who logs in at a given time.
pub fn generate_login_token_at(
    user: &UserEntity,
    tenant_id: String,
    role: String,
    secret: &str,
    at: Timestamp,
) -> (r: Result<String, ApiError>)
    ensures
        match r {
            Ok(t) => can_expire(at) && signed_payload(t@, secret@) == Some(
                payload_of(login_claims(*user, tenant_id@, role@, at)),
            ),
            Err(e) => !can_expire(at) && e@ == token_failure(at),
        },
{
    if at.secs < 0 {
        return Err(ApiError::internal("Token creation failed: the clock is before 1970"));
    }
    if at.secs as u64 > (usize::MAX - TOKEN_SECONDS as usize) as u64 {
        return Err(ApiError::internal("Token creation failed: the clock is too late"));
    }
    let claims = Claims {
        sub: user.user_id.clone(),
        username: user.username.clone(),
        is_super_admin: user.is_super_admin,
        tenant_id,
        role,
        exp: at.secs as usize + TOKEN_SECONDS as usize,
    };
    match create_token(&claims, secret) {
        Ok(t) => Ok(t),
        Err(e) => Err(ApiError::Internal(concat2("Token creation failed: ", e.as_str()))),
    }
}

/// The token of somebody who logs in now. See [`generate_login_token_at`].
pub fn generate_login_token(
    user: &UserEntity,
    tenant_id: String,
    role: String,
    secret: &str,
) -> (r: Result<String, ApiError>)
    ensures
        match r {
            Ok(t) => exists|at: Timestamp|
                at.has_date() && can_expire(at) && signed_payload(t@, secret@) == Some(
                    #[trigger] payload_of(login_claims(*user, tenant_id@, role@, at)),
                ),
            Err(e) => exists|at: Timestamp|
                at.has_date() && 0 <= at.secs && !can_expire(at) && e@ == #[trigger] token_failure(at),
        },
{
    generate_login_token_at(user, tenant_id, role, secret, now())
}

/// What a login is answered with.
pub open spec fn login_answer(token: Seq<char>, user: UserEntity) -> JsonView {
    JsonView::Object(
        map!["token"@ => JsonView::Str(token), "user_id"@ => JsonView::Str(user.user_id@), "username"@ => JsonView::Str(user.username@)],
    )
}

/// What a login is answered with, where the tenant was found or not and `role` is what was found
/// of the user in it. The password has been checked.
pub fn login_at(
    user: &UserEntity,
    tenant_found: bool,
    role: Option<&UserTenantRole>,
    tenant_id: String,
    secret: &str,
    at: Timestamp,
) -> (r: Result<Json, ApiError>)
    ensures
        ({
            let named = login_role(
                *user,
                match role {
                    Some(x) => Some(*x),
                    None => None,
                },
            );
            match r {
                Ok(answer) => tenant_found && named is Ok && can_expire(at) && exists|t: Seq<char>|
                    answer@ == #[trigger] login_answer(t, *user) && signed_payload(t, secret@) == Some(
                        payload_of(login_claims(*user, tenant_id@, named->Ok_0, at)),
                    ),
                Err(e) => if !tenant_found {
                    e@ == ErrorView::BadRequest("Tenant not found"@)
                } else if named is Err {
                    e@ == named->Err_0
                } else {
                    !can_expire(at) && e@ == token_failure(at)
                },
            }
        }),
{
    if !tenant_found {
        return Err(ApiError::bad_request("Tenant not found"));
    }
    let name = match resolve_login_role(user, role) {
        Ok(n) => n,
        Err(e) => {
            return Err(e);
        },
    };
    let token = match generate_login_token_at(user, tenant_id, name, secret, at) {
        Ok(t) => t,
        Err(e) => {
            return Err(e);
        },
    };
    let ghost text = token@;
    let mut e: Vec<(String, Json)> = Vec::new();
    put_str(&mut e, "token", Json::Str(token));
    put_str(&mut e, "user_id", Json::Str(user.user_id.clone()));
    put_str(&mut e, "username", Json::Str(user.username.clone()));
    let answer = Json::Object(e);
    assert(answer@ == login_answer(text, *user));
    Ok(answer)
}

/// The hash of the password of a new account.
pub fn register(req: &RegisterRequest) -> (r: Result<String, ApiError>)
    ensures
        match r {
            Ok(h) => password_checked(req.password@, h@) == Ok::<bool, Seq<char>>(true),
            Err(e) => exists|why: Seq<char>|
                e@ == ErrorView::Internal(#[trigger] ("Password hashing failed: "@ + why)),
        },
{
    hashed(hash_password(req.password.as_str()))
}

/// A hash, or the error that there is none.
pub fn hashed(hash: Result<String, String>) -> (r: Result<String, ApiError>)
    ensures
        match (hash, r) {
            (Ok(h), Ok(x)) => x == h,
            (Err(why), Err(e)) => e@ == ErrorView::Internal("Password hashing failed: "@ + why@),
            _ => false,
        },
{
    match hash {
        Ok(h) => Ok(h),
        Err(why) => Err(ApiError::Internal(concat2("Password hashing failed: ", why.as_str()))),
    }
}

/// What a registration is answered with.
pub fn registered(user: &UserEntity) -> (r: Json)
    ensures
        r@ == JsonView::Object(
            map!["user_id"@ => JsonView::Str(user.user_id@), "username"@ => JsonView::Str(user.username@)],
        ),
{
    let mut e: Vec<(String, Json)> = Vec::new();
    put_str(&mut e, "user_id", Json::Str(user.user_id.clone()));
    put_str(&mut e, "username", Json::Str(user.username.clone()));
    Json::Object(e)
}

/// Why a password cannot be changed with the old one; nothing if it can.
pub open spec fn old_password_refusal(check: Result<bool, Seq<char>>) -> Option<ErrorView> {
    match check {
        Err(_) => Some(ErrorView::Internal("Password verification failed"@)),
        Ok(false) => Some(ErrorView::BadRequest("Old password is incorrect"@)),
        Ok(true) => None,
    }
}

/// Whether the old password of a change is right, by what is found of it.
pub fn old_password_compared(check: Result<bool, String>) -> (r: Result<(), ApiError>)
    ensures
        match r {
            Ok(_) => None,
            Err(e) => Some(e@),
        } == old_password_refusal(
            match check {
                Ok(b) => Ok::<bool, Seq<char>>(b),
                Err(e) => Err::<bool, Seq<char>>(e@),
            },
        ),
{
    match check {
        Err(_) => Err(ApiError::internal("Password verification failed")),
        Ok(false) => Err(ApiError::bad_request("Old password is incorrect")),
        Ok(true) => Ok(()),
    }
}

/// Whether the old password of a change is right.
pub fn validate_old_password(user: &UserEntity, old_password: &str) -> (r: Result<(), ApiError>)
    ensures
        match r {
            Ok(_) => None,
            Err(e) => Some(e@),
        } == old_password_refusal(password_checked(old_password@, user.password_hash@)),
{
    old_password_compared(check_password(old_password, user.password_hash.as_str()))
}

/// The hash of a new password, which must not be too short.
pub fn hash_new_password(new_password: &str) -> (r: Result<String, ApiError>)
    ensures
        match r {
            Ok(h) => encode_utf8(new_password@).len() >= MIN_PASSWORD_BYTES && password_checked(
                new_password@,
                h@,
            ) == Ok::<bool, Seq<char>>(true),
            Err(e) => if encode_utf8(new_password@).len() < MIN_PASSWORD_BYTES {
                e@ == ErrorView::BadRequest("New password must be at least 6 characters"@)
            } else {
                exists|why: Seq<char>|
                    e@ == ErrorView::Internal(#[trigger] ("Password hashing failed: "@ + why))
            },
        },
{
    if new_password.as_bytes().len() < MIN_PASSWORD_BYTES {
        return Err(ApiError::bad_request("New password must be at least 6 characters"));
    }
    hashed(hash_password(new_password))
}

/// The hash that a change of password leads to, for the user that was found.
pub fn change_password(user: Option<&UserEntity>, req: &ChangePasswordRequest) -> (r: Result<
    String,
    ApiError,
>)
    ensures
        match user {
            None => r matches Err(e) && e@ == ErrorView::BadRequest("User not found"@),
            Some(u) => {
                let refused = old_password_refusal(
                    password_checked(req.old_password@, u.password_hash@),
                );
                match r {
                    Ok(h) => refused is None && encode_utf8(req.new_password@).len()
                        >= MIN_PASSWORD_BYTES && password_checked(req.new_password@, h@) == Ok::<
                        bool,
                        Seq<char>,
                    >(true),
                    Err(e) => if refused is Some {
                        Some(e@) == refused
                    } else if encode_utf8(req.new_password@).len() < MIN_PASSWORD_BYTES {
                        e@ == ErrorView::BadRequest("New password must be at least 6 characters"@)
                    } else {
                        exists|why: Seq<char>|
                            e@ == ErrorView::Internal(
                                #[trigger] ("Password hashing failed: "@ + why),
                            )
                    },
                }
            },
        },
{
    let u = match user {
        Some(u) => u,
        None => {
            return Err(ApiError::bad_request("User not found"));
        },
    };
    match validate_old_password(u, req.old_password.as_str()) {
        Ok(_) => hash_new_password(req.new_password.as_str()),
        Err(e) => Err(e),
    }
}

/// Whoever set a password can log in with it, as long as they are active: the hash that was made of
/// the password is taken for it.
pub proof fn law_a_set_password_opens_the_account(user: UserEntity, password: Seq<char>)
    requires
        user.status is Active,
        password_checked(password, user.password_hash@) == Ok::<bool, Seq<char>>(true),
    ensures
        password_refusal(Some(user), password) is None,
        old_password_refusal(password_checked(password, user.password_hash@)) is None,
{
}

/// Nobody can log in to a disabled account, whatever their password.
pub proof fn law_disabled_users_stay_out(user: UserEntity, password: Seq<char>)
    requires
        user.status is Disabled,
    ensures
        password_refusal(Some(user), password) == Some(ErrorView::BadRequest("User is disabled"@)),
{
}

/// A user's profile.
pub open spec fn profile(user: UserEntity) -> JsonView {
    JsonView::Object(
        map!["user_id"@ => JsonView::Str(user.user_id@), "username"@ => JsonView::Str(user.username@), "email"@ => JsonView::Str(user.email@), "is_super_admin"@ => JsonView::Bool(user.is_super_admin), "status"@ => JsonView::Str(user.status.label()), "created_at"@ => JsonView::Str(rfc3339(user.created_at))],
    )
}

/// The profile of the user that was found; the hash of the password is not in it.
pub fn get_profile(user: Option<&UserEntity>) -> (r: Result<Json, ApiError>)
    requires
        user matches Some(u) ==> u.created_at.has_date(),
    ensures
        match (user, r) {
            (None, Err(e)) => e@ == ErrorView::BadRequest("User not found"@),
            (Some(u), Ok(p)) => p@ == profile(*u),
            _ => false,
        },
{
    let u = match user {
        Some(u) => u,
        None => {
            return Err(ApiError::bad_request("User not found"));
        },
    };
    let mut e: Vec<(String, Json)> = Vec::new();
    put_str(&mut e, "user_id", Json::Str(u.user_id.clone()));
    put_str(&mut e, "username", Json::Str(u.username.clone()));
    put_str(&mut e, "email", Json::Str(u.email.clone()));
    put_str(&mut e, "is_super_admin", Json::Bool(u.is_super_admin));
    put_str(&mut e, "status", json_text(u.status.name()));
    put_str(&mut e, "created_at", Json::Str(to_rfc3339(u.created_at)));
    Ok(Json::Object(e))
}

/// The tenants that somebody can log in to: those that are active, in their order.
pub open spec fn open_tenants(tenants: Seq<TenantSummary>) -> Seq<(Seq<char>, Seq<char>)>
    decreases tenants.len(),
{
    if tenants.len() == 0 {
        seq![]
    } else {
        let front = open_tenants(tenants.drop_last());
        if tenants.last().active {
            front.push((tenants.last().tenant_id@, tenants.last().name@))
        } else {
            front
        }
    }
}

/// The values of a list of options.
pub open spec fn options_view(s: Seq<TenantOption>) -> Seq<(Seq<char>, Seq<char>)> {
    Seq::new(s.len(), |i: int| (s[i].tenant_id@, s[i].name@))
}

/// The tenants that somebody can log in to.
pub fn list_tenants(tenants: &Vec<TenantSummary>) -> (r: Vec<TenantOption>)
    ensures
        options_view(r@) == open_tenants(tenants@),
{
    let mut out: Vec<TenantOption> = Vec::new();
    assert(options_view(out@) =~= seq![]);
    let mut i: usize = 0;
    while i < tenants.len()
        invariant
            i <= tenants@.len(),
            options_view(out@) == open_tenants(tenants@.take(i as int)),
        decreases tenants@.len() - i,
    {
        let ghost done = out@;
        assert(tenants@.take(i + 1).drop_last() =~= tenants@.take(i as int));
        let t = &tenants[i];
        if t.active {
            out.push(TenantOption { tenant_id: t.tenant_id.clone(), name: t.name.clone() });
            assert(options_view(out@) =~= options_view(done).push((t.tenant_id@, t.name@)));
        }
        i = i + 1;
    }
    assert(tenants@.take(i as int) =~= tenants@);
    out
}

/// Somebody can log in exactly if they are known, active, and the password is found to be theirs; and
/// a wrong password is answered as a name that nobody has.
pub proof fn law_a_login_needs_a_known_active_user_and_their_password(
    user: Option<UserEntity>,
    check: Result<bool, Seq<char>>,
)
    ensures
        login_refusal(user, check) is None <==> (user matches Some(u) && u.status is Active)
            && check == Ok::<bool, Seq<char>>(true),
        (user matches Some(u) && u.status is Active) && check == Ok::<bool, Seq<char>>(false)
            ==> login_refusal(user, check) == login_refusal(None, check),
        login_refusal(user, check) matches Some(ErrorView::Internal(_)) <==> (user matches Some(u)
            && u.status is Active) && check is Err,
{
}

/// The password of a login is held against the hash of the user who logs in.
pub proof fn law_a_password_is_held_against_its_own_hash(user: UserEntity, password: Seq<char>)
    requires
        user.status is Active,
    ensures
        password_refusal(Some(user), password) is None <==> password_checked(
            password,
            user.password_hash@,
        ) == Ok::<bool, Seq<char>>(true),
        password_refusal(None, password) is Some,
        old_password_refusal(password_checked(password, user.password_hash@)) is None
            <==> password_checked(password, user.password_hash@) == Ok::<bool, Seq<char>>(true),
{
}

/// Somebody logs in with the role that they have in the tenant; a super admin needs none, and anybody
/// else without one is refused.
pub proof fn law_a_login_has_the_role_in_the_tenant(
    user: UserEntity,
    role: Option<UserTenantRole>,
)
    ensures
        user.is_super_admin ==> login_role(user, role) == Ok::<Seq<char>, ErrorView>(
            "SuperAdmin"@,
        ),
        !user.is_super_admin ==> (login_role(user, role) is Err <==> role is None),
        !user.is_super_admin ==> (role matches Some(r) ==> login_role(user, role) == Ok::<
            Seq<char>,
            ErrorView,
        >(r.role.label())),
{
}

/// The claims of a login are the user's, for the tenant and with the role that they log in to and
/// with, and run out a day later. Read back, they are who logged in.
pub proof fn law_login_claims_are_the_users(
    user: UserEntity,
    tenant_id: Seq<char>,
    role: Seq<char>,
    at: Timestamp,
)
    requires
        can_expire(at),
    ensures
        ({
            let claims = login_claims(user, tenant_id, role, at);
            &&& claims.sub == user.user_id@
            &&& claims.username == user.username@
            &&& claims.is_super_admin == user.is_super_admin
            &&& claims.tenant_id == tenant_id
            &&& claims.role == role
            &&& claims.exp == at.secs + 24 * 60 * 60
        }),
{
}

/// A login is answered with its token and with who logged in.
pub proof fn law_a_login_is_answered_with_its_token(token: Seq<char>, user: UserEntity)
    ensures
        ({
            let answer = login_answer(token, user);
            &&& answer.field("token"@) == Some(JsonView::Str(token))
            &&& answer.field("user_id"@) == Some(JsonView::Str(user.user_id@))
            &&& answer.field("username"@) == Some(JsonView::Str(user.username@))
        }),
{
    reveal_strlit("token");
    reveal_strlit("user_id");
    reveal_strlit("username");
    assert("token"@.len() == 5 && "user_id"@.len() == 7 && "username"@.len() == 8);
}

/// A profile tells the user, and never the hash of their password: it does not depend on that.
pub proof fn law_a_profile_tells_the_user(user: UserEntity, other: UserEntity)
    ensures
        ({
            let p = profile(user);
            &&& p.field("user_id"@) == Some(JsonView::Str(user.user_id@))
            &&& p.field("username"@) == Some(JsonView::Str(user.username@))
            &&& p.field("email"@) == Some(JsonView::Str(user.email@))
            &&& p.field("is_super_admin"@) == Some(JsonView::Bool(user.is_super_admin))
            &&& p.field("status"@) == Some(JsonView::Str(user.status.label()))
            &&& p.field("created_at"@) == Some(JsonView::Str(rfc3339(user.created_at)))
        }),
        (user.user_id@ == other.user_id@ && user.username@ == other.username@ && user.email@
            == other.email@ && user.is_super_admin == other.is_super_admin && user.status
            == other.status && user.created_at == other.created_at) ==> profile(user) == profile(
            other,
        ),
{
    reveal_strlit("user_id");
    reveal_strlit("username");
    reveal_strlit("email");
    reveal_strlit("is_super_admin");
    reveal_strlit("status");
    reveal_strlit("created_at");
    assert("user_id"@.len() == 7 && "username"@.len() == 8 && "email"@.len() == 5
        && "is_super_admin"@.len() == 14 && "status"@.len() == 6 && "created_at"@.len() == 10);
}

/// Somebody is offered the active tenants, each under its id and its name, in their order, and no
/// others.
pub proof fn law_the_active_tenants_are_offered(tenants: Seq<TenantSummary>)
    ensures
        ({
            let active = tenants.filter(|t: TenantSummary| t.active);
            &&& open_tenants(tenants).len() == active.len()
            &&& forall|i: int|
                0 <= i < active.len() ==> #[trigger] open_tenants(tenants)[i] == (
                    active[i].tenant_id@,
                    active[i].name@,
                )
        }),
    decreases tenants.len(),
{
    reveal(Seq::filter);
    if tenants.len() > 0 {
        law_the_active_tenants_are_offered(tenants.drop_last());
    }
}

} // verus!
