use multitenant_worker::auth::Keyring;
use multitenant_worker::state::{keyring_from_setting, read_bool, read_secs, Config, ConfigSettings};

#[test]
fn settings_read_over_defaults() {
    assert_eq!(read_secs(Some("3600"), 5), 3600);
    assert_eq!(read_secs(Some("-1"), 5), -1);
    assert_eq!(read_secs(Some("1h"), 5), 5);
    assert_eq!(read_secs(None, 5), 5);
    assert!(read_bool(Some("yes"), false));
    assert!(read_bool(Some("1"), false));
    assert!(!read_bool(Some("TRUE"), true));
    assert!(read_bool(None, true));
}

#[test]
fn config_from_settings() {
    let c = Config::from_settings(&ConfigSettings {
        session_ttl_seconds: Some("60".to_string()),
        invitation_ttl_seconds: None,
        password_reset_ttl_seconds: Some("oops".to_string()),
        email_verify_ttl_seconds: None,
        sso_state_ttl_seconds: None,
        enforce_email_verification: Some("true".to_string()),
    });
    assert_eq!(c.session_ttl_seconds, 60);
    assert_eq!(c.invitation_ttl_seconds, 7 * 86_400);
    assert_eq!(c.password_reset_ttl_seconds, 15 * 60);
    assert_eq!(c.email_verify_ttl_seconds, 86_400);
    assert_eq!(c.sso_state_ttl_seconds, 600);
    assert!(c.enforce_email_verification);
}

#[test]
fn keyring_setting_falls_back_to_the_dev_key() {
    let dev = Keyring::dev_default();
    assert_eq!(keyring_from_setting(None).unwrap().root(), dev.root());
    assert_eq!(keyring_from_setting(Some("   ")).unwrap().root(), dev.root());
    let k = keyring_from_setting(Some(" AAAAAAAAAAAAAAAAAAAAAAAAAAAAAAAAAAAAAAAAAAA= ")).unwrap();
    assert_eq!(k.root(), &[0u8; 32]);
    assert!(keyring_from_setting(Some("not base64!")).is_err());
}
