//! Portal pages: the value object one HTTP exchange produces, the
//! classification of its body into the two known layouts, and the extraction
//! of the reported IP address from either layout.

use vstd::prelude::*;
use vstd::string::*;

use crate::codec::{gbk_decode, gbk_text_of};
use crate::error::WltError;
use crate::text::{between_seq, contains_seq, contains_str, get_str_between};

verus! {

/// One page fetched from the portal: the request URL, the HTTP status, and
/// the body decoded from the portal's legacy charset to Unicode text.
pub struct WltPage {
    pub url: String,
    pub status: u16,
    pub text: String,
}

/// The two known page layouts the portal serves.
#[derive(Clone, Copy, Debug, PartialEq, Eq, Structural)]
pub enum WltPageType {
    /// The account login form.
    LoginPage,
    /// The network control panel shown to an authenticated session.
    ControlPage,
}

/// The phrase only the login form contains.
pub open spec fn login_marker() -> Seq<char> {
    "网络通账号登录"@
}

/// The phrase only the control panel contains.
pub open spec fn control_marker() -> Seq<char> {
    "访问文献资源建议使用1出口"@
}

/// Classification of a body: the login form first, then the control panel,
/// otherwise no known layout.
pub open spec fn classify_spec(text: Seq<char>) -> Option<WltPageType> {
    if contains_seq(text, login_marker()) {
        Some(WltPageType::LoginPage)
    } else if contains_seq(text, control_marker()) {
        Some(WltPageType::ControlPage)
    } else {
        None
    }
}

/// Where the reported IP sits in a login page: between the form fragment
/// `name=ip value=` and the closing `>`.
pub open spec fn login_ip_spec(text: Seq<char>) -> Option<Seq<char>> {
    between_seq(text, "name=ip value="@, ">"@)
}

/// Where the reported IP sits in a control page: between the labels
/// `当前IP地址` (current IP address) and `状态` (status).
pub open spec fn control_ip_spec(text: Seq<char>) -> Option<Seq<char>> {
    between_seq(text, "当前IP地址"@, "状态"@)
}

/// The IP a body reports, according to its layout.
pub open spec fn search_ip_spec(text: Seq<char>) -> Option<Seq<char>> {
    match classify_spec(text) {
        Some(WltPageType::LoginPage) => login_ip_spec(text),
        Some(WltPageType::ControlPage) => control_ip_spec(text),
        None => None,
    }
}

impl WltPage {
    /// Build a page from a raw response, decoding the body from the
    /// portal's legacy charset.
    pub fn new(url: String, status: u16, body: &Vec<u8>) -> (p: WltPage)
        ensures
            p.url@ == url@,
            p.status == status,
            p.text@ == gbk_text_of(body@),
    {
        let text = gbk_decode(body);
        WltPage { url, status, text }
    }

    /// Whether the exchange itself succeeded at the HTTP level.
    pub fn check_ok(&self) -> (b: bool)
        ensures
            b == (self.status == 200),
    {
        self.status == 200
    }

    /// Classify this page's body; a body matching neither layout is a fatal
    /// classification error carrying the page for diagnostics.
    pub fn page_type(&self) -> (r: Result<WltPageType, WltError>)
        ensures
            match r {
                Ok(k) => classify_spec(self.text@) == Some(k),
                Err(e) => classify_spec(self.text@) is None && (e matches WltError::UnknownPage {
                    url,
                    body,
                } && url@ == self.url@ && body@ == self.text@),
            },
    {
        if contains_str(self.text.as_str(), "网络通账号登录") {
            Ok(WltPageType::LoginPage)
        } else if contains_str(self.text.as_str(), "访问文献资源建议使用1出口") {
            Ok(WltPageType::ControlPage)
        } else {
            Err(
                WltError::UnknownPage {
                    url: String::from_str(self.url.as_str()),
                    body: String::from_str(self.text.as_str()),
                },
            )
        }
    }

    /// The IP this page reports, located by the delimiters of its layout.
    /// Fails when the page matches no layout or a delimiter is absent — the
    /// server changed its HTML, never retried.
    pub fn search_ip(&self) -> (r: Result<String, WltError>)
        ensures
            match r {
                Ok(ip) => search_ip_spec(self.text@) == Some(ip@),
                Err(e) => search_ip_spec(self.text@) is None && (match classify_spec(self.text@) {
                    None => e matches WltError::UnknownPage { url, body } && url@ == self.url@
                        && body@ == self.text@,
                    Some(_) => e is Missing,
                }),
            },
    {
        let kind = match self.page_type() {
            Ok(k) => k,
            Err(e) => {
                return Err(e);
            },
        };
        let found = match kind {
            WltPageType::LoginPage => get_str_between(self.text.as_str(), "name=ip value=", ">"),
            WltPageType::ControlPage => get_str_between(self.text.as_str(), "当前IP地址", "状态"),
        };
        match found {
            Ok(ip) => Ok(String::from_str(ip)),
            Err(e) => Err(e),
        }
    }
}

} // verus!
