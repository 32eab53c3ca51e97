use multitenant_worker::routes::{oauth_callback, try_handle};

#[test]
fn healthz_ok() {
    let resp = try_handle("GET", "/healthz").unwrap();
    assert_eq!(resp.status, 200);
    assert_eq!(resp.body, "ok");
}

#[test]
fn rpc_paths_defer() {
    assert!(try_handle("POST", "/workers.auth.v1.AuthService/Login").is_none());
}

#[test]
fn oauth_callback_requires_code() {
    let resp = try_handle("GET", "/oauth/callback?state=x").unwrap();
    assert_eq!(resp.status, 400);
}

#[test]
fn oauth_callback_echoes_code_and_state() {
    let resp = try_handle("GET", "/oauth/callback?code=a%20b&state=s1&code=c").unwrap();
    assert_eq!(resp.status, 200);
    assert_eq!(
        resp.body,
        "OAuth callback received: code=c, state=s1.\nFor the demo this is a stub \u{2014} call Auth.SsoComplete with the same `state`."
    );
    let resp = oauth_callback(Some("code=a+b"));
    assert!(resp.body.starts_with("OAuth callback received: code=a b, state=."));
}

#[test]
fn verify_email_is_bypassed_and_other_methods_defer() {
    let resp = try_handle("GET", "/verify-email?token=t").unwrap();
    assert_eq!(resp.status, 200);
    assert!(resp.body.starts_with("email verification is bypassed"));
    assert!(try_handle("POST", "/healthz").is_none());
    assert!(try_handle("GET", "/nowhere").is_none());
}
