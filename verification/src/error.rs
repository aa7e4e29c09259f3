//! Failure taxonomy of the protocol engine.
//!
//! - `Timeout` and `Network` are transport-class failures: transient, the
//!   caller retries on the next scheduled run (see the consecutive-timeout
//!   counter in `session`).
//! - `Auth` failures (bad or empty credentials) are fatal and never retried.
//! - `UnknownPage`, `Missing` and `SetFailed` are protocol-class failures:
//!   the remote site no longer has the expected shape; fatal.
//! - `Crypto` is a decryption failure; the vault uses it as the signal that a
//!   stored value is still legacy plaintext.

use vstd::prelude::*;
use vstd::string::*;

use crate::text::{dec_seq, u32_dec};

verus! {

/// One failure of a run, with the diagnostics the portal exchange produced.
#[derive(Debug)]
pub enum WltError {
    /// The request timed out (transient).
    Timeout,
    /// The request failed before a response arrived (transient).
    Network { detail: String },
    /// A response arrived with a non-OK status.
    Transport { url: String, status: u16, body: String },
    /// The portal rejected the credentials, or they were empty.
    Auth { reason: String },
    /// The body matched neither known page layout.
    UnknownPage { url: String, body: String },
    /// A required delimiter was absent from a page of known layout.
    Missing { needle: String },
    /// The configure request did not report success.
    SetFailed { url: String, cookie: String, status: u16, body: String },
    /// Hex decoding failed or the authentication tag did not verify.
    Crypto,
}

impl WltError {
    /// Whether this failure is timeout-class, i.e. subject to the
    /// consecutive-timeout suppression rule.
    pub fn is_timeout(&self) -> (b: bool)
        ensures
            b == (*self is Timeout),
    {
        match self {
            WltError::Timeout => true,
            _ => false,
        }
    }

    /// The human-readable diagnostic line for this failure.  Before this
    /// text is logged or mailed, the caller must scrub the account password
    /// from it (`session::replace_password`): transport and configure
    /// diagnostics embed form contents and cookie strings.
    pub open spec fn message_spec(&self) -> Seq<char> {
        match self {
            WltError::Timeout => "operation timed out"@,
            WltError::Network { detail } => "网络请求失败: "@ + detail@,
            WltError::Transport { url, status, body } => "访问网络通页面失败\nurl: "@ + url@
                + "\nstatus: "@ + dec_seq(*status as nat) + "\ntext: "@ + body@,
            WltError::Auth { reason } => reason@,
            WltError::UnknownPage { url, body } => "未知类型页面\nurl: "@ + url@ + "\ntext: "@
                + body@,
            WltError::Missing { needle } => "页面中找不到: "@ + needle@,
            WltError::SetFailed { url, cookie, status, body } => "开通网络失败\nurl: "@ + url@
                + "\ncookies: "@ + cookie@ + "\nstatus: "@ + dec_seq(*status as nat)
                + "\ntext: "@ + body@,
            WltError::Crypto => "解密失败"@,
        }
    }

    /// Build the diagnostic line (see `message_spec`).
    pub fn message(&self) -> (r: String)
        ensures
            r@ == self.message_spec(),
    {
        match self {
            WltError::Timeout => String::from_str("operation timed out"),
            WltError::Network { detail } => {
                let mut s = String::from_str("网络请求失败: ");
                s.append(detail.as_str());
                s
            },
            WltError::Transport { url, status, body } => {
                let mut s = String::from_str("访问网络通页面失败\nurl: ");
                s.append(url.as_str());
                s.append("\nstatus: ");
                let st = u32_dec(*status as u32);
                s.append(st.as_str());
                s.append("\ntext: ");
                s.append(body.as_str());
                s
            },
            WltError::Auth { reason } => String::from_str(reason.as_str()),
            WltError::UnknownPage { url, body } => {
                let mut s = String::from_str("未知类型页面\nurl: ");
                s.append(url.as_str());
                s.append("\ntext: ");
                s.append(body.as_str());
                s
            },
            WltError::Missing { needle } => {
                let mut s = String::from_str("页面中找不到: ");
                s.append(needle.as_str());
                s
            },
            WltError::SetFailed { url, cookie, status, body } => {
                let mut s = String::from_str("开通网络失败\nurl: ");
                s.append(url.as_str());
                s.append("\ncookies: ");
                s.append(cookie.as_str());
                s.append("\nstatus: ");
                let st = u32_dec(*status as u32);
                s.append(st.as_str());
                s.append("\ntext: ");
                s.append(body.as_str());
                s
            },
            WltError::Crypto => String::from_str("解密失败"),
        }
    }
}

} // verus!
