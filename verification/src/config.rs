//! The two persisted records: the configuration (credentials, exit
//! parameters, mail settings) and the run-to-run data (last known IPs, the
//! session token, the consecutive-timeout counter).  Reading and writing the
//! files, and the structured-text (de)serialization, belong to the caller;
//! this module owns the record shapes, their defaults, and the decryption /
//! plaintext-migration step applied after every load.

use vstd::prelude::*;
use vstd::string::*;

use crate::vault::{decrypt_spec, str_decrypt, Vault};

verus! {

/// The configuration record, as the caller persists it.
pub struct Config {
    /// Portal account name.
    pub name: String,
    /// Portal account password (plaintext in memory; ciphertext at rest).
    pub password: String,
    /// Requested exit type, 0 to 8.
    pub type_: u8,
    /// Requested expiry in seconds (0, 3600, 14400, 39600 or 50400).
    pub exp: u32,
    /// SMTP server for notifications.
    pub email_server: String,
    /// SMTP account.
    pub email_username: String,
    /// SMTP password (plaintext in memory; ciphertext at rest).
    pub email_password: String,
    /// Recipients; when empty, mail is disabled.
    pub email_to_list: Vec<String>,
    /// Subject of IP-change notifications.
    pub email_subject: String,
    /// Body template; `{old_ip}` and `{new_ip}` are substituted literally.
    pub email_body: String,
}

impl Default for Config {
    /// A fresh configuration: no credentials, the all-traffic exit, no
    /// expiry, and example mail settings.
    fn default() -> (c: Self)
        ensures
            c.name@.len() == 0,
            c.password@.len() == 0,
            c.type_ == 8,
            c.exp == 0,
            c.email_server@ == "smtp.qq.com"@,
            c.email_username@ == "10000@qq.com"@,
            c.email_password@ == "f0123456789abcdef"@,
            c.email_to_list@.len() == 0,
            c.email_subject@ == "网络通IP变化通知"@,
            c.email_body@ == "旧IP: {old_ip}\n新IP: {new_ip}\n"@,
    {
        Config {
            name: String::new(),
            password: String::new(),
            type_: 8,
            exp: 0,
            email_server: String::from_str("smtp.qq.com"),
            email_username: String::from_str("10000@qq.com"),
            email_password: String::from_str("f0123456789abcdef"),
            email_to_list: Vec::new(),
            email_subject: String::from_str("网络通IP变化通知"),
            email_body: String::from_str("旧IP: {old_ip}\n新IP: {new_ip}\n"),
        }
    }
}

/// A stored secret as it is used after a load: its plaintext when it
/// decrypts, itself otherwise (it is then either empty or legacy plaintext).
pub open spec fn loaded_secret(key: Seq<u8>, stored: Seq<char>) -> Seq<char> {
    match decrypt_spec(key, stored) {
        Some(p) => p,
        None => stored,
    }
}

/// Whether a stored secret still needs the plaintext-to-ciphertext upgrade:
/// it is non-empty and does not decrypt.
pub open spec fn needs_upgrade(key: Seq<u8>, stored: Seq<char>) -> bool {
    decrypt_spec(key, stored) is None && stored.len() > 0
}

impl Config {
    /// After a load: replace each stored secret that decrypts by its
    /// plaintext; report whether a save is needed to upgrade a non-empty
    /// legacy plaintext value.  Re-checked on every load, so on-disk secrets
    /// migrate without a manual step.
    pub fn decrypt_credentials(&mut self, vault: &Vault) -> (need_save: bool)
        requires
            vault.wf(),
        ensures
            final(self).password@ == loaded_secret(vault.key_bytes(), old(self).password@),
            final(self).email_password@ == loaded_secret(
                vault.key_bytes(),
                old(self).email_password@,
            ),
            final(self).name == old(self).name,
            final(self).type_ == old(self).type_,
            final(self).exp == old(self).exp,
            final(self).email_server == old(self).email_server,
            final(self).email_username == old(self).email_username,
            final(self).email_to_list == old(self).email_to_list,
            final(self).email_subject == old(self).email_subject,
            final(self).email_body == old(self).email_body,
            need_save == (needs_upgrade(vault.key_bytes(), old(self).password@) || needs_upgrade(
                vault.key_bytes(),
                old(self).email_password@,
            )),
    {
        let mut need_save = false;
        match str_decrypt(vault, self.password.as_str()) {
            Ok(p) => {
                self.password = p;
            },
            Err(_) => {
                if !self.password.as_str().is_empty() {
                    need_save = true;
                }
            },
        }
        match str_decrypt(vault, self.email_password.as_str()) {
            Ok(p) => {
                self.email_password = p;
            },
            Err(_) => {
                if !self.email_password.as_str().is_empty() {
                    need_save = true;
                }
            },
        }
        need_save
    }
}

/// The run-to-run data record, as the caller persists it.
pub struct Data {
    /// Last known external IPv4 address.
    pub ipv4: String,
    /// Last known external IPv6 address.
    pub ipv6: String,
    /// The session token the portal issued, to avoid a re-login.
    pub rn: String,
    /// How many consecutive runs ended in a timeout.
    pub timeout_count: u32,
}

impl Default for Data {
    /// A fresh data record: nothing known yet.
    fn default() -> (d: Self)
        ensures
            d.ipv4@.len() == 0,
            d.ipv6@.len() == 0,
            d.rn@.len() == 0,
            d.timeout_count == 0,
    {
        Data {
            ipv4: String::new(),
            ipv6: String::new(),
            rn: String::new(),
            timeout_count: 0,
        }
    }
}

} // verus!
