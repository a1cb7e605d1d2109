use workflow::account::{
    change_password, fetch_valid_user, generate_login_token_at, get_profile, hash_new_password,
    list_tenants, login_at, register, resolve_login_role, ChangePasswordRequest, RegisterRequest,
    TenantSummary,
};
use workflow::auth::{
    auth_middleware, jwt_secret, resolve_tenant_id, AuthContext, AuthService, Claims, TokenService,
};
use workflow::bootstrap::{
    admin_hashed, bootstrap_admin, bootstrap_role, bootstrap_tenant, listen_address, mcp_port,
};
use workflow::config::InitConfig;
use workflow::time::Timestamp;
use workflow::user::{Permission, TenantRole, UserEntity, UserStatus, UserTenantRole};

fn make_claims(super_admin: bool, tenant_id: &str) -> Claims {
    Claims {
        sub: "u1".into(),
        username: "test".into(),
        is_super_admin: super_admin,
        tenant_id: tenant_id.into(),
        role: "Developer".into(),
        exp: 9999999999,
    }
}

fn make_ctx(role: TenantRole) -> AuthContext {
    AuthContext {
        user_id: "u1".into(),
        username: "test".into(),
        is_super_admin: false,
        tenant_id: "t1".into(),
        role: Some(role),
    }
}

fn make_super_admin() -> AuthContext {
    AuthContext {
        user_id: "admin".into(),
        username: "admin".into(),
        is_super_admin: true,
        tenant_id: "t1".into(),
        role: None,
    }
}

#[test]
fn auth_resolve_tenant_id_normal_user() {
    let claims = make_claims(false, "tenant-a");
    assert_eq!(resolve_tenant_id(&claims, None), "tenant-a");
    assert_eq!(resolve_tenant_id(&claims, Some("other")), "tenant-a");
}

#[test]
fn auth_resolve_tenant_id_super_admin_with_header() {
    let claims = make_claims(true, "tenant-a");
    assert_eq!(resolve_tenant_id(&claims, Some("tenant-b")), "tenant-b");
}

#[test]
fn auth_resolve_tenant_id_super_admin_no_header() {
    let claims = make_claims(true, "tenant-a");
    assert_eq!(resolve_tenant_id(&claims, None), "tenant-a");
}

#[test]
fn authorize_super_admin_always_ok() {
    let svc = AuthService::new(TokenService::new("secret".into()));
    let ctx = make_super_admin();
    assert!(svc.authorize(&ctx, &Permission::TenantManage).is_ok());
    assert!(svc.authorize(&ctx, &Permission::UserManage).is_ok());
    assert!(svc.authorize(&ctx, &Permission::TemplateWrite).is_ok());
}

#[test]
fn authorize_normal_user_denied_tenant_manage() {
    let svc = AuthService::new(TokenService::new("secret".into()));
    let ctx = make_ctx(TenantRole::TenantAdmin);
    assert!(svc.authorize(&ctx, &Permission::TenantManage).is_err());
}

#[test]
fn authorize_viewer_can_only_read() {
    let svc = AuthService::new(TokenService::new("secret".into()));
    let ctx = make_ctx(TenantRole::Viewer);
    assert!(svc.authorize(&ctx, &Permission::ReadOnly).is_ok());
    assert!(svc.authorize(&ctx, &Permission::TemplateWrite).is_err());
    assert!(svc.authorize(&ctx, &Permission::InstanceExecute).is_err());
}

#[test]
fn refusals_say_why() {
    let svc = AuthService::new(TokenService::new("secret".into()));
    let admin = make_ctx(TenantRole::TenantAdmin);
    assert_eq!(
        svc.authorize(&admin, &Permission::TenantManage),
        Err("SuperAdmin only".to_string())
    );
    let viewer = make_ctx(TenantRole::Viewer);
    assert_eq!(
        svc.authorize(&viewer, &Permission::UserManage),
        Err("insufficient permissions".to_string())
    );
    let mut nobody = make_ctx(TenantRole::Viewer);
    nobody.role = None;
    assert_eq!(
        svc.authorize(&nobody, &Permission::ReadOnly),
        Err("insufficient permissions".to_string())
    );
}

#[test]
fn token_resolve_tenant_id_normal_user() {
    let svc = TokenService::new("secret".into());
    let claims = make_claims(false, "tenant-a");
    assert_eq!(svc.resolve_tenant_id(&claims, None), "tenant-a");
    assert_eq!(svc.resolve_tenant_id(&claims, Some("other")), "tenant-a");
}

#[test]
fn token_resolve_tenant_id_super_admin_with_header() {
    let svc = TokenService::new("secret".into());
    let claims = make_claims(true, "tenant-a");
    assert_eq!(svc.resolve_tenant_id(&claims, Some("tenant-b")), "tenant-b");
}

#[test]
fn token_resolve_tenant_id_super_admin_no_header() {
    let svc = TokenService::new("secret".into());
    let claims = make_claims(true, "tenant-a");
    assert_eq!(svc.resolve_tenant_id(&claims, None), "tenant-a");
}

#[test]
fn create_and_verify_token() {
    let svc = TokenService::new("test-secret-123".into());
    let claims = make_claims(false, "tenant-a");
    let token = svc.create_token(&claims).unwrap();
    let verified = svc.verify_token(&token).unwrap();
    assert_eq!(verified.sub, "u1");
    assert_eq!(verified.tenant_id, "tenant-a");
    assert_eq!(verified.role, "Developer");
}

#[test]
fn verify_invalid_token() {
    let svc = TokenService::new("test-secret-123".into());
    assert!(svc.verify_token("invalid-token").is_err());
}

#[test]
fn tokens_of_another_secret_or_time_are_refused() {
    let svc = TokenService::new("test-secret-123".into());
    let token = svc.create_token(&make_claims(true, "t")).unwrap();
    assert!(TokenService::new("other".into()).verify_token(&token).is_err());

    let mut old = make_claims(true, "t");
    old.exp = 1000;
    let token = svc.create_token(&old).unwrap();
    assert_eq!(svc.verify_token(&token).unwrap_err(), "ExpiredSignature");
}

#[test]
fn tokens_without_the_claims_are_refused() {
    let key = jsonwebtoken::EncodingKey::from_secret(b"s");
    let payload: serde_json::Value = serde_json::from_str(r#"{"exp": 9999999999}"#).unwrap();
    let token =
        jsonwebtoken::encode(&jsonwebtoken::Header::default(), &payload, &key).unwrap();
    let svc = TokenService::new("s".into());
    assert_eq!(svc.verify_token(&token).unwrap_err(), "JSON error: invalid claims");
    let over: serde_json::Value = serde_json::from_str(r#"{"exp": 1000}"#).unwrap();
    let token = jsonwebtoken::encode(&jsonwebtoken::Header::default(), &over, &key).unwrap();
    assert_eq!(svc.verify_token(&token).unwrap_err(), "JSON error: invalid claims");
    let other = TokenService::new("t".into());
    assert_eq!(other.verify_token(&token).unwrap_err(), "InvalidSignature");
}

#[test]
fn a_token_for_an_audience_is_refused() {
    let key = jsonwebtoken::EncodingKey::from_secret(b"s");
    let text = r#"{"sub": "u1", "username": "n", "is_super_admin": false, "tenant_id": "t",
        "role": "Viewer", "exp": 9999999999, "aud": "others"}"#;
    let payload: serde_json::Value = serde_json::from_str(text).unwrap();
    let token = jsonwebtoken::encode(&jsonwebtoken::Header::default(), &payload, &key).unwrap();
    assert_eq!(TokenService::new("s".into()).verify_token(&token).unwrap_err(), "InvalidAudience");
}

#[test]
fn the_service_says_who_bears_a_token() {
    let tokens = TokenService::new("k".into());
    let token = tokens.create_token(&make_claims(true, "a")).unwrap();
    let svc = AuthService::new(tokens);
    let ctx = svc.verify_token(&token).unwrap();
    assert_eq!(ctx.user_id, "u1");
    assert_eq!(ctx.tenant_id, "a");
    assert_eq!(ctx.role, Some(TenantRole::Developer));
    assert_eq!(svc.verify_token_with_tenant(&token, Some("b")).unwrap().tenant_id, "b");
    assert!(svc.verify_token("x").unwrap_err().starts_with("invalid token: "));
}

#[test]
fn requests_need_a_bearers_token() {
    let tokens = TokenService::new("k".into());
    let token = tokens.create_token(&make_claims(false, "a")).unwrap();
    let e = auth_middleware(&tokens, None, None).unwrap_err();
    assert_eq!((e.status(), e.message()), (401, "Missing or invalid Authorization header"));
    let e = auth_middleware(&tokens, Some(&token), None).unwrap_err();
    assert_eq!((e.status(), e.message()), (401, "Missing or invalid Authorization header"));
    let e = auth_middleware(&tokens, Some("Bearer nonsense"), None).unwrap_err();
    assert_eq!((e.status(), e.message()), (401, "Invalid or expired token"));
    let header = format!("Bearer {}", token);
    let ctx = auth_middleware(&tokens, Some(&header), Some("b")).unwrap();
    assert_eq!(ctx.tenant_id, "a");
}

#[test]
fn the_secret_has_a_default() {
    assert_eq!(jwt_secret(None), "workflow-default-secret-change-me");
    assert_eq!(TokenService::jwt_secret(Some("x".into())), "x");
}

#[test]
fn from_str_valid() {
    assert_eq!(TenantRole::from_str("TenantAdmin"), Some(TenantRole::TenantAdmin));
    assert_eq!(TenantRole::from_str("Developer"), Some(TenantRole::Developer));
    assert_eq!(TenantRole::from_str("Operator"), Some(TenantRole::Operator));
    assert_eq!(TenantRole::from_str("Viewer"), Some(TenantRole::Viewer));
}

#[test]
fn from_str_invalid() {
    assert_eq!(TenantRole::from_str("Admin"), None);
    assert_eq!(TenantRole::from_str(""), None);
}

#[test]
fn has_permission_admin() {
    let role = TenantRole::TenantAdmin;
    assert!(!role.has_permission(&Permission::TenantManage));
    assert!(role.has_permission(&Permission::UserManage));
    assert!(role.has_permission(&Permission::TemplateWrite));
    assert!(role.has_permission(&Permission::InstanceExecute));
    assert!(role.has_permission(&Permission::ApprovalAdmin));
    assert!(role.has_permission(&Permission::ApprovalDecide));
    assert!(role.has_permission(&Permission::ReadOnly));
}

#[test]
fn has_permission_developer() {
    let role = TenantRole::Developer;
    assert!(role.has_permission(&Permission::TemplateWrite));
    assert!(role.has_permission(&Permission::InstanceExecute));
    assert!(!role.has_permission(&Permission::UserManage));
    assert!(!role.has_permission(&Permission::ApprovalAdmin));
}

#[test]
fn has_permission_viewer() {
    let role = TenantRole::Viewer;
    assert!(role.has_permission(&Permission::ReadOnly));
    assert!(!role.has_permission(&Permission::TemplateWrite));
    assert!(!role.has_permission(&Permission::InstanceExecute));
}

#[test]
fn operators_run_and_decide_but_write_no_templates() {
    let role = TenantRole::Operator;
    assert!(role.has_permission(&Permission::InstanceExecute));
    assert!(role.has_permission(&Permission::ApprovalDecide));
    assert!(!role.has_permission(&Permission::TemplateWrite));
    assert_eq!(role.name(), "Operator");
}

fn user(hash: &str, status: UserStatus, super_admin: bool) -> UserEntity {
    UserEntity {
        user_id: "u1".into(),
        username: "ann".into(),
        email: "ann@example.com".into(),
        password_hash: hash.into(),
        is_super_admin: super_admin,
        status,
        created_at: Timestamp { secs: 0, nanos: 0 },
        updated_at: Timestamp { secs: 0, nanos: 0 },
    }
}

#[test]
fn a_registered_password_opens_the_account() {
    let req = RegisterRequest {
        username: "ann".into(),
        email: "ann@example.com".into(),
        password: "sesame".into(),
    };
    let hash = register(&req).unwrap();
    assert_ne!(hash, "sesame");
    let active = user(&hash, UserStatus::Active, false);
    assert!(fetch_valid_user(Some(&active), "sesame").is_ok());
    let e = fetch_valid_user(Some(&active), "Sesame").unwrap_err();
    assert_eq!((e.status(), e.message()), (400, "Invalid username or password"));
    let e = fetch_valid_user(None, "sesame").unwrap_err();
    assert_eq!((e.status(), e.message()), (400, "Invalid username or password"));
    let disabled = user(&hash, UserStatus::Disabled, false);
    let e = fetch_valid_user(Some(&disabled), "sesame").unwrap_err();
    assert_eq!((e.status(), e.message()), (400, "User is disabled"));
    let broken = user("no hash", UserStatus::Active, false);
    let e = fetch_valid_user(Some(&broken), "sesame").unwrap_err();
    assert_eq!((e.status(), e.message()), (500, "Password verification failed"));
}

#[test]
fn changing_a_password_needs_the_old_one_and_a_long_new_one() {
    let hash = hash_new_password("sesame").unwrap();
    let u = user(&hash, UserStatus::Active, false);
    let ask = |old: &str, new: &str| ChangePasswordRequest {
        old_password: old.to_string(),
        new_password: new.to_string(),
    };
    let e = change_password(None, &ask("sesame", "another")).unwrap_err();
    assert_eq!(e.message(), "User not found");
    let e = change_password(Some(&u), &ask("wrong", "another")).unwrap_err();
    assert_eq!((e.status(), e.message()), (400, "Old password is incorrect"));
    let e = change_password(Some(&u), &ask("sesame", "short")).unwrap_err();
    assert_eq!((e.status(), e.message()), (400, "New password must be at least 6 characters"));
    let changed = change_password(Some(&u), &ask("sesame", "another")).unwrap();
    let u = user(&changed, UserStatus::Active, false);
    assert!(fetch_valid_user(Some(&u), "another").is_ok());
    assert!(fetch_valid_user(Some(&u), "sesame").is_err());
}

#[test]
fn a_password_is_measured_in_bytes() {
    assert!(hash_new_password("\u{e9}\u{e9}\u{e9}").is_ok());
    assert!(hash_new_password("\u{e9}\u{e9}a").is_err());
}

#[test]
fn login_names_the_role_and_lasts_a_day() {
    let u = user("h", UserStatus::Active, false);
    let role = UserTenantRole {
        user_id: "u1".into(),
        tenant_id: "t1".into(),
        role: TenantRole::Operator,
        created_at: Timestamp { secs: 0, nanos: 0 },
    };
    assert_eq!(resolve_login_role(&u, Some(&role)).unwrap(), "Operator");
    let e = resolve_login_role(&u, None).unwrap_err();
    assert_eq!((e.status(), e.message()), (400, "User does not belong to this tenant"));
    let admin = user("h", UserStatus::Active, true);
    assert_eq!(resolve_login_role(&admin, None).unwrap(), "SuperAdmin");

    let at = Timestamp { secs: 9_000_000_000, nanos: 0 };
    let token = generate_login_token_at(&u, "t1".into(), "Operator".into(), "k", at).unwrap();
    let claims = TokenService::new("k".into()).verify_token(&token).unwrap();
    assert_eq!(claims.exp, 9_000_086_400);
    assert_eq!(claims.role, "Operator");

    let before = Timestamp { secs: -1, nanos: 0 };
    let e = generate_login_token_at(&u, "t1".into(), "Viewer".into(), "k", before).unwrap_err();
    assert_eq!(e.status(), 500);

    let answer = login_at(&u, true, Some(&role), "t1".into(), "k", at).unwrap();
    assert_eq!(answer.get_str("username"), Some("ann"));
    let token = answer.get_str("token").unwrap();
    assert_eq!(TokenService::new("k".into()).verify_token(token).unwrap().tenant_id, "t1");
    let e = login_at(&u, false, Some(&role), "t1".into(), "k", at).unwrap_err();
    assert_eq!(e.message(), "Tenant not found");
    let e = login_at(&u, true, None, "t1".into(), "k", at).unwrap_err();
    assert_eq!(e.message(), "User does not belong to this tenant");
}

#[test]
fn profiles_hold_no_hash() {
    let u = user("hash", UserStatus::Active, true);
    let p = get_profile(Some(&u)).unwrap();
    assert_eq!(
        serde_json::from_str::<serde_json::Value>(&p.to_text()).unwrap(),
        serde_json::from_str::<serde_json::Value>(r#"{"created_at":"1970-01-01T00:00:00+00:00","email":"ann@example.com","is_super_admin":true,"status":"Active","user_id":"u1","username":"ann"}"#).unwrap()
    );
    assert_eq!(get_profile(None).unwrap_err().message(), "User not found");
}

#[test]
fn only_active_tenants_are_offered() {
    let summary = |id: &str, active: bool| TenantSummary {
        tenant_id: id.to_string(),
        name: format!("Tenant {}", id),
        active,
    };
    let offered = list_tenants(&vec![summary("a", true), summary("b", false), summary("c", true)]);
    let ids: Vec<&str> = offered.iter().map(|t| t.tenant_id.as_str()).collect();
    assert_eq!(ids, ["a", "c"]);
    assert_eq!(offered[1].name, "Tenant c");
}

#[test]
fn the_first_start_makes_what_is_missing() {
    let init = InitConfig {
        admin_username: "root".into(),
        admin_password: "secret".into(),
        admin_email: "r@example.com".into(),
        default_tenant_name: "main".into(),
        default_tenant_description: "first".into(),
    };
    assert!(bootstrap_admin(&init, true).unwrap().is_none());
    let made = bootstrap_admin(&init, false).unwrap().unwrap();
    assert!(made.is_super_admin);
    assert_eq!(made.username, "root");
    let u = user(&made.password_hash, UserStatus::Active, true);
    assert!(fetch_valid_user(Some(&u), "secret").is_ok());
    let made = admin_hashed(&init, Ok("h".into())).unwrap();
    assert_eq!(made.username, "root");
    assert_eq!(made.email, "r@example.com");
    assert_eq!(made.password_hash, "h");
    assert!(made.is_super_admin);
    assert_eq!(
        admin_hashed(&init, Err("no random bytes".into())).unwrap_err(),
        "Password hashing failed: no random bytes"
    );
    assert!(bootstrap_tenant(&init, true).is_none());
    assert_eq!(bootstrap_tenant(&init, false).unwrap().name, "main");
    assert_eq!(bootstrap_role(false), Some(TenantRole::TenantAdmin));
    assert_eq!(bootstrap_role(true), None);
    assert_eq!(listen_address(mcp_port(3000)), "0.0.0.0:3001");
}
