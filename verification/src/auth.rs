//! Who sends a request, and what they may do: tokens, the tenant of a request, and permissions.

use crate::api_error::{ApiError, ErrorView};
use crate::codec::{from_value, to_value};
use crate::json::{json_number, number, put_str, text_of, unsigned_of, Json, JsonView};
use crate::text::{concat2, opt_slice, owned, strip_prefix, stripped};
use crate::user::{Permission, TenantRole};
use vstd::prelude::*;

verus! {

/// What a token says of its bearer, and the second at which it runs out.
#[derive(Debug)]
pub struct Claims {
    pub sub: String,
    pub username: String,
    pub is_super_admin: bool,
    pub tenant_id: String,
    pub role: String,
    pub exp: usize,
}

/// The mathematical value of [`Claims`].
#[verifier::ext_equal]
pub struct ClaimsView {
    pub sub: Seq<char>,
    pub username: Seq<char>,
    pub is_super_admin: bool,
    pub tenant_id: Seq<char>,
    pub role: Seq<char>,
    pub exp: usize,
}

impl View for Claims {
    type V = ClaimsView;

    open spec fn view(&self) -> ClaimsView {
        ClaimsView {
            sub: self.sub@,
            username: self.username@,
            is_super_admin: self.is_super_admin,
            tenant_id: self.tenant_id@,
            role: self.role@,
            exp: self.exp,
        }
    }
}

impl Clone for Claims {
    fn clone(&self) -> (r: Self)
        ensures
            r == *self,
    {
        Claims {
            sub: self.sub.clone(),
            username: self.username.clone(),
            is_super_admin: self.is_super_admin,
            tenant_id: self.tenant_id.clone(),
            role: self.role.clone(),
            exp: self.exp,
        }
    }
}

/// Who sends a request, and for which tenant.
#[derive(Debug)]
pub struct AuthContext {
    pub user_id: String,
    pub username: String,
    pub is_super_admin: bool,
    pub tenant_id: String,
    pub role: Option<TenantRole>,
}

/// The mathematical value of an [`AuthContext`].
#[verifier::ext_equal]
pub struct AuthView {
    pub user_id: Seq<char>,
    pub username: Seq<char>,
    pub is_super_admin: bool,
    pub tenant_id: Seq<char>,
    pub role: Option<TenantRole>,
}

impl View for AuthContext {
    type V = AuthView;

    open spec fn view(&self) -> AuthView {
        AuthView {
            user_id: self.user_id@,
            username: self.username@,
            is_super_admin: self.is_super_admin,
            tenant_id: self.tenant_id@,
            role: self.role,
        }
    }
}

impl Clone for AuthContext {
    fn clone(&self) -> (r: Self)
        ensures
            r == *self,
    {
        AuthContext {
            user_id: self.user_id.clone(),
            username: self.username.clone(),
            is_super_admin: self.is_super_admin,
            tenant_id: self.tenant_id.clone(),
            role: self.role,
        }
    }
}

/// The secret that tokens are signed with if none is configured.
pub open spec fn default_secret() -> Seq<char> {
    "workflow-default-secret-change-me"@
}

/// The secret that tokens are signed with: the configured one, or the default.
pub fn jwt_secret(configured: Option<String>) -> (r: String)
    ensures
        r@ == match configured {
            Some(s) => s@,
            None => default_secret(),
        },
{
    match configured {
        Some(s) => s,
        None => owned("workflow-default-secret-change-me"),
    }
}

/// The payload of a token as JSON has it.
pub open spec fn payload_of(claims: ClaimsView) -> JsonView {
    JsonView::Object(
        map!["sub"@ => JsonView::Str(claims.sub), "username"@ => JsonView::Str(claims.username), "is_super_admin"@ => JsonView::Bool(claims.is_super_admin), "tenant_id"@ => JsonView::Str(claims.tenant_id), "role"@ => JsonView::Str(claims.role), "exp"@ => number(claims.exp as u64)],
    )
}

/// What a payload says, if it holds all that a token has to say.
pub open spec fn claims_of(payload: JsonView) -> Option<ClaimsView> {
    match (
        text_of(payload.field("sub"@)),
        text_of(payload.field("username"@)),
        payload.field("is_super_admin"@),
        text_of(payload.field("tenant_id"@)),
        text_of(payload.field("role"@)),
        unsigned_of(payload.field("exp"@)),
    ) {
        (Some(sub), Some(username), Some(JsonView::Bool(b)), Some(tenant_id), Some(role), Some(exp)) => if exp
            <= usize::MAX {
            Some(
                ClaimsView {
                    sub,
                    username,
                    is_super_admin: b,
                    tenant_id,
                    role,
                    exp: exp as usize,
                },
            )
        } else {
            None
        },
        _ => None,
    }
}

/// A payload says what it was made of.
pub proof fn law_payloads_read_back(claims: ClaimsView)
    ensures
        claims_of(payload_of(claims)) == Some(claims),
{
    reveal_strlit("sub");
    reveal_strlit("username");
    reveal_strlit("is_super_admin");
    reveal_strlit("tenant_id");
    reveal_strlit("role");
    reveal_strlit("exp");
    assert("sub"@[0] == 's' && "username"@[0] == 'u' && "is_super_admin"@[0] == 'i' && "tenant_id"@[0]
        == 't' && "role"@[0] == 'r' && "exp"@[0] == 'e');
}

/// Whether a value is an object whose entries are strings, truth values and non-negative integers.
pub open spec fn is_plain(payload: JsonView) -> bool {
    match payload {
        JsonView::Object(m) => forall|k: Seq<char>| #[trigger]
            m.contains_key(k) ==> m[k] is Str || m[k] is Bool || unsigned_of(Some(m[k])) is Some,
        _ => false,
    }
}

/// Whether a token with that payload is accepted as long as it has not run out: it says when that
/// is, and names no audience.
pub open spec fn is_acceptable(payload: JsonView) -> bool {
    &&& is_plain(payload)
    &&& unsigned_of(payload.field("exp"@)) is Some
    &&& payload.field("aud"@) is None
}

/// What [`jsonwebtoken::decode`] finds in a token under a secret if it validates the signature alone:
/// the payload, or the text of its error.
pub uninterp spec fn token_payload(token: Seq<char>, secret: Seq<char>) -> Result<
    JsonView,
    Seq<char>,
>;

/// The payload of a token that [`jsonwebtoken::decode`], with the default validation, accepts under
/// a secret at some time; nothing if it accepts the token at no time.
pub uninterp spec fn signed_payload(token: Seq<char>, secret: Seq<char>) -> Option<JsonView>;

/// Whether [`jsonwebtoken::decode`], with the default validation, can refuse a token under a secret
/// with an error of that text.
pub uninterp spec fn decode_refuses(
    token: Seq<char>,
    secret: Seq<char>,
    why: Seq<char>,
) -> bool;

/// [`jsonwebtoken::encode`] with the default header: a token with the given payload, signed with the
/// secret. It does not fail on a payload of strings, truth values and integers. If the payload says
/// when it runs out and names no audience, it reads back as long as it has not run out.
#[verifier::external_body]
fn sign_payload(payload: &Json, secret: &str) -> (r: Result<String, String>)
    requires
        is_acceptable(payload@),
    ensures
        match r {
            Ok(t) => signed_payload(t@, secret@) == Some(payload@),
            Err(_) => false,
        },
{
    let key = jsonwebtoken::EncodingKey::from_secret(secret.as_bytes());
    jsonwebtoken::encode(&jsonwebtoken::Header::default(), &to_value(payload), &key).map_err(
        |e| e.to_string(),
    )
}

/// Whether a token can be refused with that error: if it is accepted at some time, the error is that
/// it has run out.
pub open spec fn refused_by_decode(token: Seq<char>, secret: Seq<char>, why: Seq<char>) -> bool {
    &&& decode_refuses(token, secret, why)
    &&& signed_payload(token, secret) is Some ==> why == "ExpiredSignature"@
}

/// [`jsonwebtoken::decode`] with the default validation: the payload of a token that is signed with
/// the secret and has not run out, or the error as text. A token that is accepted at some time is
/// refused only because it has run out. Whether it has is the clock's matter, so a right signature
/// does not promise success.
#[verifier::external_body]
fn check_token(token: &str, secret: &str) -> (r: Result<Json, String>)
    ensures
        match r {
            Ok(p) => signed_payload(token@, secret@) == Some(p@),
            Err(e) => decode_refuses(token@, secret@, e@) && (signed_payload(token@, secret@) is Some
                ==> e@ == "ExpiredSignature"@),
        },
{
    let key = jsonwebtoken::DecodingKey::from_secret(secret.as_bytes());
    let validation = jsonwebtoken::Validation::default();
    match jsonwebtoken::decode::<serde_json::Value>(token, &key, &validation) {
        Ok(data) => Ok(from_value(data.claims)),
        Err(e) => Err(e.to_string()),
    }
}

/// [`jsonwebtoken::decode`] with a validation of the signature alone: the payload of a token that is
/// signed with the secret, or the error as text. It depends on the token and the secret alone. A
/// token that is accepted at some time has the payload that it is accepted with.
#[verifier::external_body]
fn open_token(token: &str, secret: &str) -> (r: Result<Json, String>)
    ensures
        match r {
            Ok(p) => token_payload(token@, secret@) == Ok::<JsonView, Seq<char>>(p@) && (
            signed_payload(token@, secret@) is None || signed_payload(token@, secret@) == Some(p@)),
            Err(e) => token_payload(token@, secret@) == Err::<JsonView, Seq<char>>(e@)
                && signed_payload(token@, secret@) is None,
        },
{
    let key = jsonwebtoken::DecodingKey::from_secret(secret.as_bytes());
    let mut validation = jsonwebtoken::Validation::default();
    validation.validate_exp = false;
    validation.validate_aud = false;
    validation.required_spec_claims.clear();
    match jsonwebtoken::decode::<serde_json::Value>(token, &key, &validation) {
        Ok(data) => Ok(from_value(data.claims)),
        Err(e) => Err(e.to_string()),
    }
}

/// The payload of claims says when it runs out, and names no audience.
proof fn lemma_claims_are_acceptable(claims: ClaimsView)
    ensures
        is_acceptable(payload_of(claims)),
{
    law_payloads_read_back(claims);
    reveal_strlit("sub");
    reveal_strlit("username");
    reveal_strlit("is_super_admin");
    reveal_strlit("tenant_id");
    reveal_strlit("role");
    reveal_strlit("exp");
    reveal_strlit("aud");
    assert("sub"@[0] == 's' && "username"@[0] == 'u' && "is_super_admin"@[0] == 'i' && "tenant_id"@[0]
        == 't' && "role"@[0] == 'r' && "exp"@[0] == 'e' && "aud"@[0] == 'a');
}

/// A token that says what the claims say, signed with the secret.
pub fn create_token(claims: &Claims, secret: &str) -> (r: Result<String, String>)
    ensures
        r matches Ok(t) && signed_payload(t@, secret@) == Some(payload_of(claims@)),
{
    let mut e: Vec<(String, Json)> = Vec::new();
    put_str(&mut e, "sub", Json::Str(claims.sub.clone()));
    put_str(&mut e, "username", Json::Str(claims.username.clone()));
    put_str(&mut e, "is_super_admin", Json::Bool(claims.is_super_admin));
    put_str(&mut e, "tenant_id", Json::Str(claims.tenant_id.clone()));
    put_str(&mut e, "role", Json::Str(claims.role.clone()));
    put_str(&mut e, "exp", json_number(claims.exp as u64));
    let payload = Json::Object(e);
    proof {
        assert(payload@ == payload_of(claims@));
        lemma_claims_are_acceptable(claims@);
    }
    sign_payload(&payload, secret)
}

/// Whether reading a token may give `r`. A token that is not signed with the secret gives the error
/// that says so, and one whose payload lacks some of the claims gives that error, whether it has run
/// out or not. Any other gives its claims if it is accepted, and else an error that it can be refused
/// with.
pub open spec fn token_read(
    token: Seq<char>,
    secret: Seq<char>,
    r: Result<ClaimsView, Seq<char>>,
) -> bool {
    &&& signed_payload(token, secret) matches Some(q) ==> token_payload(token, secret) == Ok::<
        JsonView,
        Seq<char>,
    >(q)
    &&& match token_payload(token, secret) {
        Err(e) => r == Err::<ClaimsView, Seq<char>>(e),
        Ok(p) => match claims_of(p) {
            None => r == Err::<ClaimsView, Seq<char>>("JSON error: invalid claims"@),
            Some(c) => match r {
                Ok(x) => x == c && signed_payload(token, secret) == Some(p),
                Err(why) => refused_by_decode(token, secret, why),
            },
        },
    }
}

/// The mathematical value of the claims of a token, or of the error.
pub open spec fn claims_result(r: Result<Claims, String>) -> Result<ClaimsView, Seq<char>> {
    match r {
        Ok(c) => Ok(c@),
        Err(e) => Err(e@),
    }
}

/// What the payload of a token says. A payload without all the claims is an error.
pub fn read_claims(payload: Result<Json, String>) -> (r: Result<Claims, String>)
    ensures
        match (payload, r) {
            (Ok(p), Ok(c)) => claims_of(p@) == Some(c@),
            (Ok(p), Err(e)) => claims_of(p@) is None && e@ == "JSON error: invalid claims"@,
            (Err(why), Err(e)) => e@ == why@,
            (Err(_), Ok(_)) => false,
        },
{
    let payload = match payload {
        Ok(p) => p,
        Err(e) => {
            return Err(e);
        },
    };
    let admin = match payload.get("is_super_admin") {
        Some(Json::Bool(b)) => Some(*b),
        _ => None,
    };
    match (
        payload.get_str("sub"),
        payload.get_str("username"),
        admin,
        payload.get_str("tenant_id"),
        payload.get_str("role"),
        payload.get_u64("exp"),
    ) {
        (Some(sub), Some(username), Some(b), Some(tenant_id), Some(role), Some(exp)) => {
            if exp <= usize::MAX as u64 {
                Ok(
                    Claims {
                        sub: owned(sub),
                        username: owned(username),
                        is_super_admin: b,
                        tenant_id: owned(tenant_id),
                        role: owned(role),
                        exp: exp as usize,
                    },
                )
            } else {
                Err(owned("JSON error: invalid claims"))
            }
        },
        _ => Err(owned("JSON error: invalid claims")),
    }
}

/// What a token says, if it is signed with the secret and has not run out.
pub fn verify_token(token: &str, secret: &str) -> (r: Result<Claims, String>)
    ensures
        token_read(token@, secret@, claims_result(r)),
{
    match read_claims(open_token(token, secret)) {
        Ok(claims) => match check_token(token, secret) {
            Ok(_) => Ok(claims),
            Err(e) => Err(e),
        },
        Err(e) => Err(e),
    }
}

/// A token gives back the claims it was made of and never others, and is refused only because it
/// has run out.
pub proof fn law_tokens_give_back_their_claims(
    token: Seq<char>,
    secret: Seq<char>,
    claims: ClaimsView,
    r: Result<ClaimsView, Seq<char>>,
)
    requires
        signed_payload(token, secret) == Some(payload_of(claims)),
        token_read(token, secret, r),
    ensures
        match r {
            Ok(c) => c == claims,
            Err(why) => why == "ExpiredSignature"@,
        },
{
    law_payloads_read_back(claims);
}

/// The tenant of a request: a super admin may name one, anybody else has that of the token.
pub open spec fn tenant_of(claims: ClaimsView, header: Option<Seq<char>>) -> Seq<char> {
    match header {
        Some(h) => if claims.is_super_admin {
            h
        } else {
            claims.tenant_id
        },
        None => claims.tenant_id,
    }
}

/// The tenant of a request.
pub fn resolve_tenant_id(claims: &Claims, header_tenant_id: Option<&str>) -> (r: String)
    ensures
        r@ == tenant_of(claims@, opt_slice(header_tenant_id)),
{
    if claims.is_super_admin {
        match header_tenant_id {
            Some(h) => owned(h),
            None => claims.tenant_id.clone(),
        }
    } else {
        claims.tenant_id.clone()
    }
}

/// Who sends a request with the given claims, and for which tenant.
pub open spec fn context_of(claims: ClaimsView, header: Option<Seq<char>>) -> AuthView {
    AuthView {
        user_id: claims.sub,
        username: claims.username,
        is_super_admin: claims.is_super_admin,
        tenant_id: tenant_of(claims, header),
        role: TenantRole::named(claims.role),
    }
}

/// Nobody but a super admin can act for another tenant than that of their token, whatever tenant
/// the request names.
pub proof fn law_tenants_are_kept_apart(claims: ClaimsView, header: Option<Seq<char>>)
    requires
        !claims.is_super_admin,
    ensures
        context_of(claims, header).tenant_id == claims.tenant_id,
        !context_of(claims, header).is_super_admin,
{
}

/// Makes tokens and reads them.
#[derive(Debug)]
pub struct TokenService {
    secret: String,
}

impl Clone for TokenService {
    fn clone(&self) -> (r: Self)
        ensures
            r == *self,
    {
        TokenService { secret: self.secret.clone() }
    }
}

impl TokenService {
    /// The secret that tokens are signed with.
    pub closed spec fn key(self) -> Seq<char> {
        self.secret@
    }

    pub fn new(secret: String) -> (r: Self)
        ensures
            r.key() == secret@,
    {
        TokenService { secret }
    }

    /// The secret that tokens are signed with: the configured one, or the default.
    pub fn jwt_secret(configured: Option<String>) -> (r: String)
        ensures
            r@ == match configured {
                Some(s) => s@,
                None => default_secret(),
            },
    {
        jwt_secret(configured)
    }

    /// A token that says what the claims say.
    pub fn create_token(&self, claims: &Claims) -> (r: Result<String, String>)
        ensures
            r matches Ok(t) && signed_payload(t@, self.key()) == Some(payload_of(claims@)),
    {
        create_token(claims, self.secret.as_str())
    }

    /// What a token says, if it is signed with the secret and has not run out.
    pub fn verify_token(&self, token: &str) -> (r: Result<Claims, String>)
        ensures
            token_read(token@, self.key(), claims_result(r)),
    {
        verify_token(token, self.secret.as_str())
    }

    /// The tenant of a request.
    pub fn resolve_tenant_id(&self, claims: &Claims, header_tenant_id: Option<&str>) -> (r: String)
        ensures
            r@ == tenant_of(claims@, opt_slice(header_tenant_id)),
    {
        resolve_tenant_id(claims, header_tenant_id)
    }

    /// Who sends a request with the given claims, and for which tenant.
    pub fn claims_to_auth_context(&self, claims: &Claims, header_tenant_id: Option<&str>) -> (r:
        AuthContext)
        ensures
            r@ == context_of(claims@, opt_slice(header_tenant_id)),
    {
        let tenant_id = self.resolve_tenant_id(claims, header_tenant_id);
        AuthContext {
            user_id: claims.sub.clone(),
            username: claims.username.clone(),
            is_super_admin: claims.is_super_admin,
            tenant_id,
            role: TenantRole::from_str(claims.role.as_str()),
        }
    }
}

/// Why somebody may not do something; nothing if they may. A super admin may do everything; only
/// they manage tenants; anybody else may do what their role may.
pub open spec fn refusal(ctx: AuthView, perm: Permission) -> Option<Seq<char>> {
    if ctx.is_super_admin {
        None
    } else if perm is TenantManage {
        Some("SuperAdmin only"@)
    } else {
        match ctx.role {
            Some(role) => if role.may(perm) {
                None
            } else {
                Some("insufficient permissions"@)
            },
            None => Some("insufficient permissions"@),
        }
    }
}

/// A super admin is refused nothing.
pub proof fn law_super_admins_may_do_everything(ctx: AuthView, perm: Permission)
    requires
        ctx.is_super_admin,
    ensures
        refusal(ctx, perm) is None,
{
}

/// Somebody without a role in the tenant, who is no super admin, is refused everything, even to
/// read; and nobody but a super admin manages tenants.
pub proof fn law_without_a_role_nothing_is_allowed(ctx: AuthView, perm: Permission)
    requires
        !ctx.is_super_admin,
    ensures
        ctx.role is None ==> refusal(ctx, perm) is Some,
        refusal(ctx, Permission::TenantManage) is Some,
{
}

/// Whether checking a token may give `r`, for a request that names a tenant or does not.
pub open spec fn checked_token(
    token: Seq<char>,
    secret: Seq<char>,
    header: Option<Seq<char>>,
    r: Result<AuthContext, String>,
) -> bool {
    match r {
        Ok(ctx) => match signed_payload(token, secret) {
            Some(p) => match claims_of(p) {
                Some(c) => ctx@ == context_of(c, header),
                None => false,
            },
            None => false,
        },
        Err(e) => exists|why: Seq<char>|
            e@ == #[trigger] ("invalid token: "@ + why) && token_read(token, secret, Err(why)),
    }
}

/// Checks tokens and permissions.
#[derive(Debug)]
pub struct AuthService {
    token_service: TokenService,
}

impl Clone for AuthService {
    fn clone(&self) -> (r: Self)
        ensures
            r == *self,
    {
        AuthService { token_service: self.token_service.clone() }
    }
}

impl AuthService {
    /// The service that makes and reads the tokens.
    pub closed spec fn tokens(self) -> TokenService {
        self.token_service
    }

    pub fn new(token_service: TokenService) -> (r: Self)
        ensures
            r.tokens() == token_service,
    {
        AuthService { token_service }
    }

    /// Who bears a token whose claims have been read, for a request that may name a tenant.
    pub fn token_verified(
        &self,
        claims: Result<Claims, String>,
        x_tenant_id: Option<&str>,
    ) -> (r: Result<AuthContext, String>)
        ensures
            match (claims, r) {
                (Ok(c), Ok(ctx)) => ctx@ == context_of(c@, opt_slice(x_tenant_id)),
                (Err(why), Err(e)) => e@ == "invalid token: "@ + why@,
                _ => false,
            },
    {
        match claims {
            Ok(c) => Ok(self.token_service.claims_to_auth_context(&c, x_tenant_id)),
            Err(why) => Err(concat2("invalid token: ", why.as_str())),
        }
    }

    /// Who bears a token.
    pub fn verify_token(&self, token: &str) -> (r: Result<AuthContext, String>)
        ensures
            checked_token(token@, self.tokens().key(), None, r),
    {
        self.verify_token_with_tenant(token, None)
    }

    /// Who bears a token, for a request that may name a tenant.
    pub fn verify_token_with_tenant(&self, token: &str, x_tenant_id: Option<&str>) -> (r: Result<
        AuthContext,
        String,
    >)
        ensures
            checked_token(token@, self.tokens().key(), opt_slice(x_tenant_id), r),
    {
        let claims = self.token_service.verify_token(token);
        let ghost read = claims_result(claims);
        let r = self.token_verified(claims, x_tenant_id);
        assert(r matches Err(e) ==> e@ == "invalid token: "@ + read->Err_0 && token_read(
            token@,
            self.tokens().key(),
            Err(read->Err_0),
        ));
        r
    }

    /// Whether somebody may do something, or why not.
    pub fn authorize(&self, ctx: &AuthContext, perm: &Permission) -> (r: Result<(), String>)
        ensures
            match r {
                Ok(_) => refusal(ctx@, *perm) is None,
                Err(e) => refusal(ctx@, *perm) == Some(e@),
            },
    {
        if ctx.is_super_admin {
            return Ok(());
        }
        if matches!(perm, Permission::TenantManage) {
            return Err(owned("SuperAdmin only"));
        }
        match &ctx.role {
            Some(role) => if role.has_permission(perm) {
                Ok(())
            } else {
                Err(owned("insufficient permissions"))
            },
            None => Err(owned("insufficient permissions")),
        }
    }

    /// The service that makes and reads the tokens.
    pub fn token(&self) -> (r: &TokenService)
        ensures
            *r == self.tokens(),
    {
        &self.token_service
    }
}

/// The token of an `Authorization` header, if it is one for bearers.
pub open spec fn bearer(header: Option<Seq<char>>) -> Option<Seq<char>> {
    match header {
        Some(h) => stripped(h, "Bearer "@),
        None => None,
    }
}

/// The token of an `Authorization` header, if it is one for bearers.
pub fn bearer_token(header: Option<&str>) -> (r: Option<&str>)
    ensures
        opt_slice(r) == bearer(opt_slice(header)),
{
    match header {
        Some(h) => strip_prefix(h, "Bearer "),
        None => None,
    }
}

/// Who sends a request whose token has been read: a token that says nothing is refused.
pub fn request_verified(
    tokens: &TokenService,
    claims: Result<Claims, String>,
    x_tenant_id: Option<&str>,
) -> (r: Result<AuthContext, ApiError>)
    ensures
        match (claims, r) {
            (Ok(c), Ok(ctx)) => ctx@ == context_of(c@, opt_slice(x_tenant_id)),
            (Err(_), Err(e)) => e@ == ErrorView::Unauthorized("Invalid or expired token"@),
            _ => false,
        },
{
    match claims {
        Ok(c) => Ok(tokens.claims_to_auth_context(&c, x_tenant_id)),
        Err(_) => Err(ApiError::unauthorized("Invalid or expired token")),
    }
}

/// Who sends a request, by its `Authorization` header and the tenant that it names. A request
/// without a bearer's token is refused, and so is one whose token is not signed with the secret.
pub fn auth_middleware(
    tokens: &TokenService,
    authorization: Option<&str>,
    x_tenant_id: Option<&str>,
) -> (r: Result<AuthContext, ApiError>)
    ensures
        match (bearer(opt_slice(authorization)), r) {
            (None, Err(e)) => e@ == ErrorView::Unauthorized(
                "Missing or invalid Authorization header"@,
            ),
            (None, Ok(_)) => false,
            (Some(t), Ok(ctx)) => match signed_payload(t, tokens.key()) {
                Some(p) => match claims_of(p) {
                    Some(c) => ctx@ == context_of(c, opt_slice(x_tenant_id)),
                    None => false,
                },
                None => false,
            },
            (Some(t), Err(e)) => e@ == ErrorView::Unauthorized("Invalid or expired token"@)
                && exists|why: Seq<char>| #[trigger] token_read(t, tokens.key(), Err(why)),
        },
{
    let token = match bearer_token(authorization) {
        Some(t) => t,
        None => {
            return Err(ApiError::unauthorized("Missing or invalid Authorization header"));
        },
    };
    let claims = tokens.verify_token(token);
    assert(claims matches Err(e) ==> token_read(token@, tokens.key(), Err(e@)));
    request_verified(tokens, claims, x_tenant_id)
}

/// A token says who it is for under the names that others read it by.
pub proof fn law_a_payload_has_every_claim(claims: ClaimsView)
    ensures
        ({
            let payload = payload_of(claims);
            &&& payload.field("sub"@) == Some(JsonView::Str(claims.sub))
            &&& payload.field("username"@) == Some(JsonView::Str(claims.username))
            &&& payload.field("is_super_admin"@) == Some(JsonView::Bool(claims.is_super_admin))
            &&& payload.field("tenant_id"@) == Some(JsonView::Str(claims.tenant_id))
            &&& payload.field("role"@) == Some(JsonView::Str(claims.role))
            &&& payload.field("exp"@) == Some(number(claims.exp as u64))
        }),
{
    reveal_strlit("sub");
    reveal_strlit("username");
    reveal_strlit("is_super_admin");
    reveal_strlit("tenant_id");
    reveal_strlit("role");
    reveal_strlit("exp");
    assert("sub"@[0] == 's' && "username"@[0] == 'u' && "is_super_admin"@[0] == 'i' && "tenant_id"@[0]
        == 't' && "role"@[0] == 'r' && "exp"@[0] == 'e');
}

/// Whoever sends a request is who the token says, with the role that it names. A super admin acts for
/// the tenant that the request names, and else for that of the token.
pub proof fn law_a_request_is_sent_by_whom_the_token_says(
    claims: ClaimsView,
    header: Option<Seq<char>>,
)
    ensures
        ({
            let ctx = context_of(claims, header);
            &&& ctx.user_id == claims.sub
            &&& ctx.username == claims.username
            &&& ctx.is_super_admin == claims.is_super_admin
            &&& ctx.role == TenantRole::named(claims.role)
            &&& (header matches Some(named) && claims.is_super_admin) ==> ctx.tenant_id
                == header->0
            &&& header is None ==> ctx.tenant_id == claims.tenant_id
            &&& ctx.tenant_id == claims.tenant_id || Some(ctx.tenant_id) == header
        }),
{
}

/// Somebody who is no super admin may do exactly what their role may, and never manage tenants.
pub proof fn law_a_role_decides(ctx: AuthView, perm: Permission)
    requires
        !ctx.is_super_admin,
    ensures
        refusal(ctx, perm) is None <==> (ctx.role matches Some(role) && role.may(perm)) && !(perm
            is TenantManage),
        refusal(ctx, Permission::TenantManage) == Some("SuperAdmin only"@),
        !(perm is TenantManage) && refusal(ctx, perm) is Some ==> refusal(ctx, perm) == Some(
            "insufficient permissions"@,
        ),
{
}

/// A bearer's token is what follows the word in the header; any other header has none.
pub proof fn law_a_bearers_token_is_read(token: Seq<char>, header: Seq<char>)
    ensures
        bearer(Some("Bearer "@ + token)) == Some(token),
        bearer(Some(header)) matches Some(t) ==> header == "Bearer "@ + t,
        bearer(None) is None,
{
    crate::text::law_prefixes_come_off("Bearer "@, token, header);
}

/// A token that is let in was signed with the secret and holds every claim; whoever sent it is who
/// those claims say, and a super admin only if they say so.
pub proof fn law_only_signed_claims_are_let_in(
    token: Seq<char>,
    secret: Seq<char>,
    header: Option<Seq<char>>,
    r: Result<AuthContext, String>,
)
    requires
        checked_token(token, secret, header, r),
    ensures
        r matches Ok(ctx) ==> {
            &&& signed_payload(token, secret) matches Some(p)
            &&& p.field("sub"@) == Some(JsonView::Str(ctx@.user_id))
            &&& p.field("username"@) == Some(JsonView::Str(ctx@.username))
            &&& p.field("is_super_admin"@) == Some(JsonView::Bool(ctx@.is_super_admin))
            &&& !ctx@.is_super_admin ==> p.field("tenant_id"@) == Some(
                JsonView::Str(ctx@.tenant_id),
            )
        },
{
}

} // verus!
