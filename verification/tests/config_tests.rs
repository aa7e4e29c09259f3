use wlt_task::config::{Config, Data};
use wlt_task::vault::{str_encrypt, Vault};

#[test]
fn config_defaults() {
    let c = Config::default();
    assert_eq!(c.name, "");
    assert_eq!(c.password, "");
    assert_eq!(c.type_, 8);
    assert_eq!(c.exp, 0);
    assert_eq!(c.email_server, "smtp.qq.com");
    assert_eq!(c.email_username, "10000@qq.com");
    assert_eq!(c.email_password, "f0123456789abcdef");
    assert!(c.email_to_list.is_empty());
    assert_eq!(c.email_subject, "网络通IP变化通知");
    assert_eq!(c.email_body, "旧IP: {old_ip}\n新IP: {new_ip}\n");
}

#[test]
fn data_defaults() {
    let d = Data::default();
    assert_eq!(d.ipv4, "");
    assert_eq!(d.ipv6, "");
    assert_eq!(d.rn, "");
    assert_eq!(d.timeout_count, 0);
}

#[test]
fn load_with_plaintext_secrets_wants_a_save() {
    let v = Vault::from_host_id("host");
    let mut c = Config::default();
    c.password = "hunter2".to_string();
    c.email_password = "authcode".to_string();
    let need_save = c.decrypt_credentials(&v);
    assert!(need_save);
    // the values stay plaintext in memory; the save re-encrypts them
    assert_eq!(c.password, "hunter2");
    assert_eq!(c.email_password, "authcode");
}

#[test]
fn load_with_ciphertext_secrets_decrypts_quietly() {
    let v = Vault::from_host_id("host");
    let mut c = Config::default();
    c.password = str_encrypt(&v, "hunter2").unwrap();
    c.email_password = str_encrypt(&v, "authcode").unwrap();
    let need_save = c.decrypt_credentials(&v);
    assert!(!need_save);
    assert_eq!(c.password, "hunter2");
    assert_eq!(c.email_password, "authcode");
}

#[test]
fn load_with_empty_secrets_needs_nothing() {
    let v = Vault::from_host_id("host");
    let mut c = Config::default();
    // the default record carries an example mail password; clear it
    c.email_password = String::new();
    let need_save = c.decrypt_credentials(&v);
    assert!(!need_save);
    assert_eq!(c.password, "");
}

#[test]
fn migration_is_stable_across_loads() {
    // save-time encryption followed by the next load's decryption is a no-op
    let v = Vault::from_host_id("host");
    let mut c = Config::default();
    c.password = "hunter2".to_string();
    assert!(c.decrypt_credentials(&v));
    let stored = str_encrypt(&v, &c.password).unwrap();
    let mut c2 = Config::default();
    c2.password = stored;
    c2.email_password = String::new();
    assert!(!c2.decrypt_credentials(&v));
    assert_eq!(c2.password, "hunter2");
}
