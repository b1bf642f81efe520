use blobstore_vault::config::{Config, ConfigError, DEFAULT_VAULT_ADDR};

fn pairs(items: &[(&str, &str)]) -> Vec<(String, String)> {
    items.iter().map(|(k, v)| (k.to_string(), v.to_string())).collect()
}

#[test]
fn empty_parameters_lack_a_token() {
    let r = Config::from_values(&[]);
    assert!(matches!(r, Err(ConfigError::MissingToken)));
}

#[test]
fn address_alone_still_lacks_a_token() {
    let r = Config::from_values(&pairs(&[("addr", "not a url")]));
    assert!(matches!(r, Err(ConfigError::MissingToken)));
}

#[test]
fn unparsable_address_falls_back_to_default() {
    let c = Config::from_values(&pairs(&[("token", "t"), ("addr", "not a url")])).unwrap();
    assert_eq!(c.addr, DEFAULT_VAULT_ADDR);
    assert_eq!(c.token, "t");
}

#[test]
fn defaults_when_only_token_given() {
    let c = Config::from_values(&pairs(&[("TOKEN", "abc")])).unwrap();
    assert_eq!(c.token, "abc");
    assert_eq!(c.addr, "http://127.0.0.1:8200");
    assert_eq!(c.mount, "secret");
    assert!(c.certs.is_empty());
}

#[test]
fn lower_case_key_wins_over_alias() {
    let c = Config::from_values(&pairs(&[
        ("TOKEN", "upper"),
        ("token", "lower"),
        ("MOUNT", "m1"),
        ("mount", "m2"),
        ("ADDR", "https://vault.example.com:8200"),
    ]))
    .unwrap();
    assert_eq!(c.token, "lower");
    assert_eq!(c.mount, "m2");
    assert_eq!(c.addr, "https://vault.example.com:8200");
}

#[test]
fn later_duplicate_wins() {
    let c = Config::from_values(&pairs(&[("token", "first"), ("token", "second")])).unwrap();
    assert_eq!(c.token, "second");
}

#[test]
fn certs_are_split_and_trimmed() {
    let c = Config::from_values(&pairs(&[("token", "t"), ("certs", " a.pem , b.pem,c.pem ")]))
        .unwrap();
    assert_eq!(c.certs, vec!["a.pem".to_string(), "b.pem".to_string(), "c.pem".to_string()]);
}

#[test]
fn certs_alias_and_empty_pieces() {
    let c = Config::from_values(&pairs(&[("token", "t"), ("CERTS", "x,,")])).unwrap();
    assert_eq!(c.certs, vec!["x".to_string(), String::new(), String::new()]);
    let d = Config::from_values(&pairs(&[("token", "t"), ("certs", "")])).unwrap();
    assert_eq!(d.certs, vec![String::new()]);
}

#[test]
fn config_error_message() {
    assert_eq!(
        ConfigError::MissingToken.message(),
        "missing setting for 'token' or VAULT_TOKEN"
    );
}
