//! The portal client record: account name and password, the requested exit
//! type and expiry, and the session token (`rn`).  It builds the three
//! requests of the protocol — fetch the current page, log in, configure the
//! exit — as plain values for the application to send, and it adopts a new
//! token from a response's session-setting header.
//!
//! The authentication state of a session is entirely the hand-built `Cookie`
//! header `name=<n>; password=<url-encoded p>[; rn=<token>]`; the portal has
//! no cookie jar.

use vstd::prelude::*;
use vstd::string::*;
use vstd::utf8::encode_utf8;

use crate::codec::{
    gbk_encode, gbk_of, lemma_urlenc_no_separator, url_encode, url_encode_bytes, urlenc_seq,
};
use crate::error::WltError;
use crate::text::{contains_seq, dec_seq, match_at, starts_with_str, u32_dec};

verus! {

/// The fixed portal endpoint.
pub open spec fn wlt_url_seq() -> Seq<char> {
    "http://202.38.64.59/cgi-bin/ip"@
}

/// The fixed portal endpoint, as a value the application can send to.
pub fn wlt_url() -> (r: &'static str)
    ensures
        r@ == wlt_url_seq(),
{
    "http://202.38.64.59/cgi-bin/ip"
}

/// The action label sent with a login request (GBK-encoded, then
/// percent-encoded, before it enters the form).
pub open spec fn login_label() -> Seq<char> {
    "登录账户"@
}

/// The action label sent with a configure request.
pub open spec fn set_label() -> Seq<char> {
    "开通网络"@
}

/// The `Cookie` header for a session: `name=<n>; password=<pwenc>` and, only
/// when a token is present, `; rn=<token>`.
pub open spec fn cookie_spec(name: Seq<char>, pwenc: Seq<char>, rn: Seq<char>) -> Seq<char> {
    "name="@ + name + "; password="@ + pwenc + (if rn.len() > 0 {
        "; rn="@ + rn
    } else {
        Seq::empty()
    })
}

/// The `Cookie` header of a client's current session state.
pub open spec fn spec_cookie_of(c: WltClient) -> Seq<char> {
    cookie_spec(c.name_view(), urlenc_seq(encode_utf8(c.password_view())), c.rn_view())
}

/// How a request is sent: a plain GET, or a POST carrying a form.
pub enum HttpMethod {
    Get,
    Post,
}

/// One request to the portal, as plain values: everything the transport
/// needs, nothing it decides.
pub struct HttpRequest {
    pub method: HttpMethod,
    pub url: String,
    pub cookie: String,
    pub form: Vec<(String, String)>,
}

/// `req` fetches the current portal page for session `c`.
pub open spec fn is_access_request(req: HttpRequest, c: WltClient) -> bool {
    &&& req.method is Get
    &&& req.url@ == wlt_url_seq()
    &&& req.cookie@ == spec_cookie_of(c)
    &&& req.form@.len() == 0
}

/// `req` posts the login form for session `c` with observed IP `ip`.
pub open spec fn is_login_request(req: HttpRequest, c: WltClient, ip: Seq<char>) -> bool {
    &&& req.method is Post
    &&& req.url@ == wlt_url_seq()
    &&& req.cookie@ == spec_cookie_of(c)
    &&& req.form@.len() == 7
    &&& req.form@[0].0@ == "cmd"@ && req.form@[0].1@ == "login"@
    &&& req.form@[1].0@ == "url"@ && req.form@[1].1@ == "URL"@
    &&& req.form@[2].0@ == "ip"@ && req.form@[2].1@ == ip
    &&& req.form@[3].0@ == "name"@ && req.form@[3].1@ == c.name_view()
    &&& req.form@[4].0@ == "password"@ && req.form@[4].1@ == c.password_view()
    &&& req.form@[5].0@ == "savepass"@ && req.form@[5].1@ == "on"@
    &&& req.form@[6].0@ == "go"@ && req.form@[6].1@ == urlenc_seq(gbk_of(login_label()))
}

/// `req` applies session `c`'s exit type and expiry.
pub open spec fn is_set_request(req: HttpRequest, c: WltClient) -> bool {
    &&& req.method is Get
    &&& req.url@ == WltClient::set_url_spec(c.type_view(), c.exp_view())
    &&& req.cookie@ == spec_cookie_of(c)
    &&& req.form@.len() == 0
}

/// The session record: credentials, exit parameters, and the token the
/// portal issued (empty when none is known).
pub struct WltClient {
    name: String,
    password: String,
    type_: u8,
    exp: u32,
    rn: String,
}

impl WltClient {
    /// The account name.
    pub closed spec fn name_view(&self) -> Seq<char> {
        self.name@
    }

    /// The account password (plaintext, in memory only).
    pub closed spec fn password_view(&self) -> Seq<char> {
        self.password@
    }

    /// The requested exit type.
    pub closed spec fn type_view(&self) -> u8 {
        self.type_
    }

    /// The requested expiry in seconds.
    pub closed spec fn exp_view(&self) -> u32 {
        self.exp
    }

    /// The session token; empty when none is known.
    pub closed spec fn rn_view(&self) -> Seq<char> {
        self.rn@
    }

    pub fn new(name: &str, password: &str, type_: u8, exp: u32, rn: &str) -> (c: WltClient)
        ensures
            c.name_view() == name@,
            c.password_view() == password@,
            c.type_view() == type_,
            c.exp_view() == exp,
            c.rn_view() == rn@,
    {
        WltClient {
            name: String::from_str(name),
            password: String::from_str(password),
            type_,
            exp,
            rn: String::from_str(rn),
        }
    }

    /// The hand-built `Cookie` header for the current session state.
    pub fn get_cookie(&self) -> (r: String)
        ensures
            r@ == cookie_spec(
                self.name_view(),
                urlenc_seq(encode_utf8(self.password_view())),
                self.rn_view(),
            ),
    {
        let enc = url_encode(self.password.as_str());
        let mut s = String::from_str("name=");
        s.append(self.name.as_str());
        s.append("; password=");
        s.append(enc.as_str());
        if !self.rn.as_str().is_empty() {
            s.append("; rn=");
            s.append(self.rn.as_str());
        } else {
            proof {
                assert(s@ + Seq::<char>::empty() =~= s@);
            }
        }
        s
    }

    /// The configured exit type.
    pub fn get_type(&self) -> (t: u8)
        ensures
            t == self.type_view(),
    {
        self.type_
    }

    /// The current session token.
    pub fn get_rn(&self) -> (r: &str)
        ensures
            r@ == self.rn_view(),
    {
        self.rn.as_str()
    }

    /// Adopt a new token from a response's session-setting header: when the
    /// header value starts with `rn=`, the suffix becomes the token; any
    /// other header, or none, leaves the session unchanged.  This is the only
    /// way a token is ever learned.
    pub fn update_rn(&mut self, set_cookie: Option<&str>)
        ensures
            final(self).name_view() == old(self).name_view(),
            final(self).password_view() == old(self).password_view(),
            final(self).type_view() == old(self).type_view(),
            final(self).exp_view() == old(self).exp_view(),
            match set_cookie {
                Some(h) => {
                    if h@.len() >= 3 && h@.subrange(0, 3) == "rn="@ {
                        final(self).rn_view() == h@.subrange(3, h@.len() as int)
                    } else {
                        final(self).rn_view() == old(self).rn_view()
                    }
                },
                None => final(self).rn_view() == old(self).rn_view(),
            },
    {
        proof {
            reveal_strlit("rn=");
        }
        if let Some(h) = set_cookie {
            if starts_with_str(h, "rn=") {
                let hlen = h.unicode_len();
                self.rn = String::from_str(h.substring_char(3, hlen));
            }
        }
    }

    /// The request that fetches the current portal page: a GET of the fixed
    /// URL under this session's cookie.
    pub fn access_request(&self) -> (r: HttpRequest)
        ensures
            is_access_request(r, *self),
    {
        HttpRequest {
            method: HttpMethod::Get,
            url: String::from_str(wlt_url()),
            cookie: self.get_cookie(),
            form: Vec::new(),
        }
    }

    /// The login request: fails immediately (no request is built) when the
    /// account name or password is empty; otherwise a POST of the login form
    /// carrying the observed IP, under this session's cookie.
    pub fn login_request(&self, ip: &str) -> (r: Result<HttpRequest, WltError>)
        ensures
            match r {
                Ok(req) => self.name_view().len() > 0 && self.password_view().len() > 0
                    && is_login_request(req, *self, ip@),
                Err(e) => e is Auth && (self.name_view().len() == 0 || self.password_view().len()
                    == 0),
            },
    {
        if self.name.as_str().is_empty() {
            return Err(WltError::Auth { reason: String::from_str("empty account name") });
        }
        if self.password.as_str().is_empty() {
            return Err(WltError::Auth { reason: String::from_str("empty account password") });
        }
        let go_bytes = gbk_encode("登录账户");
        let go = url_encode_bytes(&go_bytes);
        let mut form: Vec<(String, String)> = Vec::new();
        form.push((String::from_str("cmd"), String::from_str("login")));
        form.push((String::from_str("url"), String::from_str("URL")));
        form.push((String::from_str("ip"), String::from_str(ip)));
        form.push((String::from_str("name"), String::from_str(self.name.as_str())));
        form.push((String::from_str("password"), String::from_str(self.password.as_str())));
        form.push((String::from_str("savepass"), String::from_str("on")));
        form.push((String::from_str("go"), go));
        Ok(
            HttpRequest {
                method: HttpMethod::Post,
                url: String::from_str(wlt_url()),
                cookie: self.get_cookie(),
                form,
            },
        )
    }

    /// The configure request's URL: the portal endpoint with the `set`
    /// command, the exit type, the expiry, and the percent-encoded action
    /// label framed by `+`.
    pub open spec fn set_url_spec(type_: u8, exp: u32) -> Seq<char> {
        wlt_url_seq() + "?cmd=set&url=URL&type="@ + dec_seq(type_ as nat) + "&exp="@ + dec_seq(
            exp as nat,
        ) + "&go=+"@ + urlenc_seq(gbk_of(set_label())) + "+"@
    }

    /// The request that applies this session's exit type and expiry: a GET
    /// of the `set` URL under this session's cookie.
    pub fn set_wlt_request(&self) -> (r: HttpRequest)
        ensures
            is_set_request(r, *self),
    {
        let go_bytes = gbk_encode("开通网络");
        let go = url_encode_bytes(&go_bytes);
        let mut url = String::from_str(wlt_url());
        url.append("?cmd=set&url=URL&type=");
        let t = u32_dec(self.type_ as u32);
        url.append(t.as_str());
        url.append("&exp=");
        let e = u32_dec(self.exp);
        url.append(e.as_str());
        url.append("&go=+");
        url.append(go.as_str());
        url.append("+");
        HttpRequest {
            method: HttpMethod::Get,
            url,
            cookie: self.get_cookie(),
            form: Vec::new(),
        }
    }
}

/// Law: a session with a token sends a cookie containing `; rn=` followed
/// by the token; one without a token sends a cookie with no `rn=` at all
/// (as long as the account name itself does not contain that text — the
/// encoded password never can).
pub proof fn lemma_cookie_token_law(c: WltClient)
    ensures
        c.rn_view().len() > 0 ==> contains_seq(spec_cookie_of(c), "; rn="@ + c.rn_view())
            && contains_seq(spec_cookie_of(c), "rn="@),
        c.rn_view().len() == 0 && !contains_seq(c.name_view(), "rn="@) ==> !contains_seq(
            spec_cookie_of(c),
            "rn="@,
        ),
{
    if c.rn_view().len() > 0 {
        lemma_cookie_has_token(
            c.name_view(),
            urlenc_seq(encode_utf8(c.password_view())),
            c.rn_view(),
        );
    } else if !contains_seq(c.name_view(), "rn="@) {
        lemma_cookie_no_token(c.name_view(), encode_utf8(c.password_view()), c.rn_view());
    }
}

/// With a token present, the cookie contains `; rn=` followed by the token
/// (and in particular contains `rn=`).
pub proof fn lemma_cookie_has_token(name: Seq<char>, pwenc: Seq<char>, rn: Seq<char>)
    requires
        rn.len() > 0,
    ensures
        contains_seq(cookie_spec(name, pwenc, rn), "; rn="@ + rn),
        contains_seq(cookie_spec(name, pwenc, rn), "rn="@),
{
    reveal_strlit("name=");
    reveal_strlit("; password=");
    reveal_strlit("; rn=");
    reveal_strlit("rn=");
    let c = cookie_spec(name, pwenc, rn);
    let i: int = 5 + name.len() as int + 11 + pwenc.len() as int;
    assert(c.subrange(i, i + 5 + rn.len() as int) =~= "; rn="@ + rn);
    assert(match_at(c, "; rn="@ + rn, i));
    assert(c.subrange(i + 2, i + 2 + 3) =~= "rn="@);
    assert(match_at(c, "rn="@, i + 2));
}

/// With no token, the cookie does not contain `rn=` at all — provided the
/// account name itself does not contain it (the percent-encoded password
/// never can, since `=` is always escaped).
pub proof fn lemma_cookie_no_token(name: Seq<char>, pw_bytes: Seq<u8>, rn: Seq<char>)
    requires
        rn.len() == 0,
        !contains_seq(name, "rn="@),
    ensures
        !contains_seq(cookie_spec(name, urlenc_seq(pw_bytes), rn), "rn="@),
{
    reveal_strlit("name=");
    reveal_strlit("; password=");
    reveal_strlit("rn=");
    let pwenc = urlenc_seq(pw_bytes);
    lemma_urlenc_no_separator(pw_bytes);
    let c = cookie_spec(name, pwenc, rn);
    let n = name.len() as int;
    let e = pwenc.len() as int;
    assert(c =~= "name="@ + name + "; password="@ + pwenc);
    assert(c.len() == 16 + n + e);
    assert forall|j: int| 0 <= j < c.len() implies c[j] == (if j < 5 {
        "name="@[j]
    } else if j < 5 + n {
        name[j - 5]
    } else if j < 16 + n {
        "; password="@[j - 5 - n]
    } else {
        pwenc[j - 16 - n]
    }) by {}
    assert forall|i: int| !match_at(c, "rn="@, i) by {
        if 0 <= i && i + 3 <= c.len() {
            if c.subrange(i, i + 3) == "rn="@ {
                assert(c[i] == 'r' && c[i + 1] == 'n' && c[i + 2] == '=') by {
                    assert(c.subrange(i, i + 3)[0] == c[i]);
                    assert(c.subrange(i, i + 3)[1] == c[i + 1]);
                    assert(c.subrange(i, i + 3)[2] == c[i + 2]);
                }
                if i + 3 <= 5 + n && i >= 5 {
                    // entirely inside the name
                    assert(name.subrange(i - 5, i - 2) =~= "rn="@);
                    assert(match_at(name, "rn="@, i - 5));
                    assert(contains_seq(name, "rn="@));
                    assert(false);
                } else if i < 5 {
                    // starts in the literal `name=`, which has no 'r'
                    assert(false);
                } else if i < 5 + n {
                    // starts in the name but runs into `; password=`:
                    // position 1 or 2 of the match would be ';' or ' '
                    assert(false);
                } else if i < 16 + n {
                    // starts in `; password=`: its only 'r' is followed by 'd',
                    // and its last two characters are not 'r'
                    assert(false);
                } else {
                    // entirely inside the encoded password, which has no '='
                    assert(pwenc[i + 2 - 16 - n] == '=');
                    assert(false);
                }
            }
        }
    }
    if contains_seq(c, "rn="@) {
        let i = choose|i: int| match_at(c, "rn="@, i);
        assert(!match_at(c, "rn="@, i));
    }
}

} // verus!
