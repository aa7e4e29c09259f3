//! The login/configure state machine, and the caller-side rules around a
//! run: the consecutive-timeout counter, IP-change detection, notification
//! rendering, and password redaction.
//!
//! The machine owns every protocol decision; the application only performs
//! the requests it hands out and feeds the results back in.  One run walks
//! `AwaitAccess → (AwaitLogin →) (AwaitSet →) Done`: an authenticated
//! session (control page) finishes immediately — the exit type is not
//! re-applied unless that policy is switched on — while a login page drives
//! the login and then, unconditionally, the configure request.

use vstd::prelude::*;
use vstd::string::*;
use vstd::utf8::encode_utf8;

use crate::client::{
    is_access_request, is_login_request, is_set_request, spec_cookie_of, wlt_url, wlt_url_seq,
    HttpRequest, WltClient,
};
use crate::codec::{gbk_decode, gbk_text_of, url_encode, urlenc_seq};
use crate::error::WltError;
use crate::page::{classify_spec, control_ip_spec, login_ip_spec, WltPage, WltPageType};
use crate::text::{
    between_seq, contains_seq, contains_str, digit_char, digit_str, get_str_between, replace_all,
    replace_seq, str_eq,
};

verus! {

/// What the transport reports back for one request.
pub enum HttpEvent {
    /// A response arrived: its status, its session-setting header if any,
    /// and its raw body (still in the portal's charset).
    Response { status: u16, set_cookie: Option<String>, body: Vec<u8> },
    /// The request timed out (transient).
    TimedOut,
    /// The request failed before any response arrived (transient).
    Failed { detail: String },
}

/// Where a run stands between requests.
pub enum Phase {
    /// The current-page request is in flight.
    AwaitAccess,
    /// The login request is in flight.
    AwaitLogin,
    /// The configure request is in flight; its URL is kept for diagnostics.
    AwaitSet { url: String },
    /// The run has finished or failed.
    Done,
}

/// One run of the session state machine.
pub struct SessionRun {
    pub client: WltClient,
    pub phase: Phase,
    /// Whether an already-authenticated session whose reported exit type
    /// differs from the configured one should re-issue the configure
    /// request.  Off by default: a no-op session stays a no-op.
    pub reapply_exit: bool,
    /// The token the run started with, to detect a change.
    pub rn_at_start: String,
}

/// What a finished run reports to the caller.
pub struct CheckOutcome {
    /// The IP the portal reports at the end of the run.
    pub final_ip: String,
    /// Whether the portal issued a token differing from `rn_at_start`.
    pub token_changed: bool,
    /// The new token, exactly when it changed (the caller must persist it).
    pub new_token: Option<String>,
}

/// What the machine asks for next.
pub enum CheckStep {
    /// Send this request and feed the result back in.
    Fetch(HttpRequest),
    /// The run is complete.
    Finished(CheckOutcome),
    /// The run failed.
    Failed(WltError),
}

/// The token after a login response: a session-setting header `rn=<t>`
/// replaces it, anything else leaves it.
pub open spec fn token_after(rn: Seq<char>, set_cookie: Option<String>) -> Seq<char> {
    match set_cookie {
        Some(h) => {
            if h@.len() >= 3 && h@.subrange(0, 3) == "rn="@ {
                h@.subrange(3, h@.len() as int)
            } else {
                rn
            }
        },
        None => rn,
    }
}

/// The exit-type fragment of a control page: between `出口: ` and `网出口`.
pub open spec fn reported_exit(text: Seq<char>) -> Option<Seq<char>> {
    between_seq(text, "出口: "@, "网出口"@)
}

/// Whether a control page's exit fragment already shows exit type `type_`
/// (the page counts from 1, the configuration from 0).
pub open spec fn exit_matches(s: Seq<char>, type_: u8) -> bool {
    s.len() > 0 && type_ <= 8 && s[0] == digit_char((type_ + 1) as nat)
}

/// `step` finishes the run reporting IP `ip`, with the token marked changed
/// (and carried along) exactly when `changed` holds.
pub open spec fn finished_spec(step: CheckStep, ip: Seq<char>, changed: bool, rn: Seq<char>) -> bool {
    &&& step matches CheckStep::Finished(o) && o.final_ip@ == ip && o.token_changed == changed && (
    if changed {
        o.new_token matches Some(t) && t@ == rn
    } else {
        o.new_token is None
    })
}

/// Transition out of `AwaitAccess` on a response from session `c`: non-OK
/// statuses fail; a control page finishes (or, under the re-apply policy,
/// may configure); a login page starts the login; anything else is an
/// unknown page.
pub open spec fn access_response_spec(
    c: WltClient,
    reapply_exit: bool,
    phase1: Phase,
    step: CheckStep,
    status: u16,
    text: Seq<char>,
) -> bool {
    if status != 200 {
        &&& phase1 is Done
        &&& step matches CheckStep::Failed(WltError::Transport { url, status: st, body })
            && url@ == wlt_url_seq() && st == status && body@ == text
    } else {
        match classify_spec(text) {
            None => phase1 is Done && (step matches CheckStep::Failed(WltError::UnknownPage {
                url,
                body,
            }) && url@ == wlt_url_seq() && body@ == text),
            Some(WltPageType::ControlPage) => match control_ip_spec(text) {
                None => phase1 is Done && (step matches CheckStep::Failed(e) && e is Missing),
                Some(ip) => {
                    if !reapply_exit {
                        phase1 is Done && finished_spec(step, ip, false, c.rn_view())
                    } else {
                        match reported_exit(text) {
                            None => phase1 is Done && (step matches CheckStep::Failed(e)
                                && e is Missing),
                            Some(s) => {
                                if exit_matches(s, c.type_view()) {
                                    phase1 is Done && finished_spec(step, ip, false, c.rn_view())
                                } else {
                                    &&& phase1 matches Phase::AwaitSet { url } && url@
                                        == WltClient::set_url_spec(c.type_view(), c.exp_view())
                                    &&& step matches CheckStep::Fetch(req) && is_set_request(
                                        req,
                                        c,
                                    )
                                }
                            },
                        }
                    }
                },
            },
            Some(WltPageType::LoginPage) => match login_ip_spec(text) {
                None => phase1 is Done && (step matches CheckStep::Failed(e) && e is Missing),
                Some(ip) => {
                    if c.name_view().len() == 0 || c.password_view().len() == 0 {
                        phase1 is Done && (step matches CheckStep::Failed(e) && e is Auth)
                    } else {
                        &&& phase1 is AwaitLogin
                        &&& step matches CheckStep::Fetch(req) && is_login_request(req, c, ip)
                    }
                },
            },
        }
    }
}

/// Transition out of `AwaitLogin` on a response, after the token has been
/// adopted into `c`: a known failure phrase is a fatal authentication error;
/// a non-OK status fails; otherwise the configure request goes out
/// unconditionally.
pub open spec fn login_response_spec(
    c: WltClient,
    phase1: Phase,
    step: CheckStep,
    status: u16,
    text: Seq<char>,
) -> bool {
    if contains_seq(text, "用户名不存在"@) {
        phase1 is Done && (step matches CheckStep::Failed(WltError::Auth { reason }) && reason@
            == "用户名不存在"@)
    } else if contains_seq(text, "用户名或密码错误"@) {
        phase1 is Done && (step matches CheckStep::Failed(WltError::Auth { reason }) && reason@
            == "用户名或密码错误"@)
    } else if status != 200 {
        phase1 is Done && (step matches CheckStep::Failed(WltError::Transport {
            url,
            status: st,
            body,
        }) && url@ == wlt_url_seq() && st == status && body@ == text)
    } else {
        &&& phase1 matches Phase::AwaitSet { url } && url@ == WltClient::set_url_spec(
            c.type_view(),
            c.exp_view(),
        )
        &&& step matches CheckStep::Fetch(req) && is_set_request(req, c)
    }
}

/// Transition out of `AwaitSet` on a response from session `c`: the body
/// must carry the literal success marker; the result must classify as a
/// control page (a login page here means activation failed); then the final
/// IP is read and a token differing from `rn_start` is reported.
pub open spec fn set_response_spec(
    c: WltClient,
    rn_start: Seq<char>,
    phase1: Phase,
    step: CheckStep,
    status: u16,
    text: Seq<char>,
    set_url: Seq<char>,
) -> bool {
    if !contains_seq(text, "信息：网络设置成功"@) {
        phase1 is Done && (step matches CheckStep::Failed(WltError::SetFailed {
            url,
            cookie,
            status: st,
            body,
        }) && url@ == set_url && cookie@ == spec_cookie_of(c) && st == status && body@ == text)
    } else {
        match classify_spec(text) {
            None => phase1 is Done && (step matches CheckStep::Failed(WltError::UnknownPage {
                url,
                body,
            }) && url@ == set_url && body@ == text),
            Some(WltPageType::LoginPage) => phase1 is Done && (step matches CheckStep::Failed(
                WltError::SetFailed { url, cookie, status: st, body },
            ) && url@ == set_url && cookie@ == spec_cookie_of(c) && st == status && body@ == text),
            Some(WltPageType::ControlPage) => match control_ip_spec(text) {
                None => phase1 is Done && (step matches CheckStep::Failed(e) && e is Missing),
                Some(ip) => phase1 is Done && finished_spec(
                    step,
                    ip,
                    c.rn_view() != rn_start,
                    c.rn_view(),
                ),
            },
        }
    }
}

/// Begin a run: the machine first fetches the current portal page.
pub fn check_wlt_start(client: WltClient, reapply_exit: bool) -> (r: (SessionRun, HttpRequest))
    ensures
        r.0.client == client,
        r.0.phase is AwaitAccess,
        r.0.reapply_exit == reapply_exit,
        r.0.rn_at_start@ == client.rn_view(),
        is_access_request(r.1, client),
{
    let req = client.access_request();
    let rn_at_start = String::from_str(client.get_rn());
    (SessionRun { client, phase: Phase::AwaitAccess, reapply_exit, rn_at_start }, req)
}

/// One step of the login/configure state machine: feed in what the
/// transport reported for the last request, get back the next request, the
/// outcome, or the failure.  Timeouts and transport failures end the run in
/// every phase; the phase transitions are stated by `access_response_spec`,
/// `login_response_spec` and `set_response_spec`.
pub fn check_wlt(run: SessionRun, event: HttpEvent) -> (r: (SessionRun, CheckStep))
    ensures
        r.0.reapply_exit == run.reapply_exit,
        r.0.rn_at_start == run.rn_at_start,
        r.0.client.name_view() == run.client.name_view(),
        r.0.client.password_view() == run.client.password_view(),
        r.0.client.type_view() == run.client.type_view(),
        r.0.client.exp_view() == run.client.exp_view(),
        r.1 is Fetch <==> !(r.0.phase is Done),
        match event {
            HttpEvent::TimedOut => r.0.phase is Done && r.0.client == run.client && r.1 matches
                CheckStep::Failed(WltError::Timeout),
            HttpEvent::Failed { detail } => r.0.phase is Done && r.0.client == run.client && (
            r.1 matches CheckStep::Failed(WltError::Network { detail: d }) && d@ == detail@),
            HttpEvent::Response { status, set_cookie, body } => {
                let text = gbk_text_of(body@);
                match run.phase {
                    Phase::AwaitAccess => r.0.client == run.client && access_response_spec(
                        run.client,
                        run.reapply_exit,
                        r.0.phase,
                        r.1,
                        status,
                        text,
                    ),
                    Phase::AwaitLogin => r.0.client.rn_view() == token_after(
                        run.client.rn_view(),
                        set_cookie,
                    ) && login_response_spec(r.0.client, r.0.phase, r.1, status, text),
                    Phase::AwaitSet { url } => r.0.client == run.client && set_response_spec(
                        run.client,
                        run.rn_at_start@,
                        r.0.phase,
                        r.1,
                        status,
                        text,
                        url@,
                    ),
                    Phase::Done => r.0.phase is Done && r.0.client == run.client && (r.1 matches
                        CheckStep::Failed(WltError::Network { detail: d }) && d@
                        == "run already finished"@),
                }
            },
        },
{
    let SessionRun { client, phase, reapply_exit, rn_at_start } = run;
    let mut client = client;
    match event {
        HttpEvent::TimedOut => {
            (
                SessionRun { client, phase: Phase::Done, reapply_exit, rn_at_start },
                CheckStep::Failed(WltError::Timeout),
            )
        },
        HttpEvent::Failed { detail } => {
            (
                SessionRun { client, phase: Phase::Done, reapply_exit, rn_at_start },
                CheckStep::Failed(WltError::Network { detail }),
            )
        },
        HttpEvent::Response { status, set_cookie, body } => {
            let text = gbk_decode(&body);
            match phase {
                Phase::AwaitAccess => {
                    let (phase1, step) = access_response(&client, reapply_exit, status, text);
                    (SessionRun { client, phase: phase1, reapply_exit, rn_at_start }, step)
                },
                Phase::AwaitLogin => {
                    let sc = match &set_cookie {
                        Some(h) => Some(h.as_str()),
                        None => None,
                    };
                    client.update_rn(sc);
                    let (phase1, step) = login_response(&client, status, text);
                    (SessionRun { client, phase: phase1, reapply_exit, rn_at_start }, step)
                },
                Phase::AwaitSet { url } => {
                    let (phase1, step) = set_response(
                        &client,
                        rn_at_start.as_str(),
                        status,
                        text,
                        url,
                    );
                    (SessionRun { client, phase: phase1, reapply_exit, rn_at_start }, step)
                },
                Phase::Done => {
                    (
                        SessionRun { client, phase: Phase::Done, reapply_exit, rn_at_start },
                        CheckStep::Failed(
                            WltError::Network { detail: String::from_str("run already finished") },
                        ),
                    )
                },
            }
        },
    }
}

/// Handle the current-page response (see `access_response_spec`).
fn access_response(client: &WltClient, reapply_exit: bool, status: u16, text: String) -> (r: (
    Phase,
    CheckStep,
))
    ensures
        access_response_spec(*client, reapply_exit, r.0, r.1, status, text@),
        r.1 is Fetch <==> !(r.0 is Done),
{
    let page = WltPage { url: String::from_str(wlt_url()), status, text };
    if !page.check_ok() {
        return (
            Phase::Done,
            CheckStep::Failed(
                WltError::Transport { url: page.url, status: page.status, body: page.text },
            ),
        );
    }
    let kind = match page.page_type() {
        Ok(k) => k,
        Err(e) => {
            return (Phase::Done, CheckStep::Failed(e));
        },
    };
    let ip = match page.search_ip() {
        Ok(ip) => ip,
        Err(e) => {
            return (Phase::Done, CheckStep::Failed(e));
        },
    };
    match kind {
        WltPageType::ControlPage => {
            if !reapply_exit {
                return (
                    Phase::Done,
                    CheckStep::Finished(
                        CheckOutcome { final_ip: ip, token_changed: false, new_token: None },
                    ),
                );
            }
            let frag = match get_str_between(page.text.as_str(), "出口: ", "网出口") {
                Ok(s) => s,
                Err(e) => {
                    return (Phase::Done, CheckStep::Failed(e));
                },
            };
            let ty = client.get_type();
            let matches_cfg = if frag.unicode_len() > 0 && ty <= 8 {
                let expected = digit_str((ty + 1) as u32);
                frag.get_char(0) == expected.get_char(0)
            } else {
                false
            };
            if matches_cfg {
                (
                    Phase::Done,
                    CheckStep::Finished(
                        CheckOutcome { final_ip: ip, token_changed: false, new_token: None },
                    ),
                )
            } else {
                let req = client.set_wlt_request();
                let url = String::from_str(req.url.as_str());
                (Phase::AwaitSet { url }, CheckStep::Fetch(req))
            }
        },
        WltPageType::LoginPage => {
            match client.login_request(ip.as_str()) {
                Ok(req) => (Phase::AwaitLogin, CheckStep::Fetch(req)),
                Err(e) => (Phase::Done, CheckStep::Failed(e)),
            }
        },
    }
}

/// Handle the login response, after the token has been adopted (see
/// `login_response_spec`).
fn login_response(client: &WltClient, status: u16, text: String) -> (r: (Phase, CheckStep))
    ensures
        login_response_spec(*client, r.0, r.1, status, text@),
        r.1 is Fetch <==> !(r.0 is Done),
{
    if contains_str(text.as_str(), "用户名不存在") {
        return (
            Phase::Done,
            CheckStep::Failed(WltError::Auth { reason: String::from_str("用户名不存在") }),
        );
    }
    if contains_str(text.as_str(), "用户名或密码错误") {
        return (
            Phase::Done,
            CheckStep::Failed(WltError::Auth { reason: String::from_str("用户名或密码错误") }),
        );
    }
    if status != 200 {
        return (
            Phase::Done,
            CheckStep::Failed(
                WltError::Transport { url: String::from_str(wlt_url()), status, body: text },
            ),
        );
    }
    let req = client.set_wlt_request();
    let url = String::from_str(req.url.as_str());
    (Phase::AwaitSet { url }, CheckStep::Fetch(req))
}

/// Handle the configure response (see `set_response_spec`).
fn set_response(client: &WltClient, rn_at_start: &str, status: u16, text: String, url: String) -> (r:
    (Phase, CheckStep))
    ensures
        set_response_spec(*client, rn_at_start@, r.0, r.1, status, text@, url@),
        r.1 is Fetch <==> !(r.0 is Done),
{
    if !contains_str(text.as_str(), "信息：网络设置成功") {
        return (
            Phase::Done,
            CheckStep::Failed(
                WltError::SetFailed { url, cookie: client.get_cookie(), status, body: text },
            ),
        );
    }
    let page = WltPage { url, status, text };
    let kind = match page.page_type() {
        Ok(k) => k,
        Err(e) => {
            return (Phase::Done, CheckStep::Failed(e));
        },
    };
    match kind {
        WltPageType::LoginPage => {
            (
                Phase::Done,
                CheckStep::Failed(
                    WltError::SetFailed {
                        url: page.url,
                        cookie: client.get_cookie(),
                        status: page.status,
                        body: page.text,
                    },
                ),
            )
        },
        WltPageType::ControlPage => {
            let ip = match get_str_between(page.text.as_str(), "当前IP地址", "状态") {
                Ok(s) => String::from_str(s),
                Err(e) => {
                    return (Phase::Done, CheckStep::Failed(e));
                },
            };
            let changed = !str_eq(client.get_rn(), rn_at_start);
            let new_token = if changed {
                Some(String::from_str(client.get_rn()))
            } else {
                None
            };
            (
                Phase::Done,
                CheckStep::Finished(
                    CheckOutcome { final_ip: ip, token_changed: changed, new_token },
                ),
            )
        },
    }
}

/// What the caller does after a run, besides persisting the counter.
pub enum RunAction {
    /// Quiet success: append a bare `.` to the log.
    LogDot,
    /// Quiet timeout below the threshold: append a bare `?`.
    LogQuestion,
    /// Surface the failure: log it and notify.
    Notify,
}

/// The consecutive-timeout counter after an outcome: a timeout increments it
/// (saturating), anything else clears it.
pub open spec fn count_after(count: u32, timed_out: bool) -> u32 {
    if !timed_out {
        0
    } else if count == u32::MAX {
        u32::MAX
    } else {
        (count + 1) as u32
    }
}

/// Bookkeeping after a run: success appends a quiet `.`; a timeout
/// increments the persisted counter and stays quiet (`?`) until the third
/// consecutive one, which notifies; any other failure clears the counter and
/// notifies at once.
pub fn note_outcome(count: u32, outcome: Option<&WltError>) -> (r: (u32, RunAction))
    ensures
        r.0 == count_after(count, outcome matches Some(e) && e is Timeout),
        match outcome {
            None => r.1 is LogDot,
            Some(e) => {
                if e is Timeout {
                    if r.0 < 3 {
                        r.1 is LogQuestion
                    } else {
                        r.1 is Notify
                    }
                } else {
                    r.1 is Notify
                }
            },
        },
{
    match outcome {
        None => (0, RunAction::LogDot),
        Some(e) => {
            if e.is_timeout() {
                let c = if count == u32::MAX {
                    count
                } else {
                    count + 1
                };
                if c < 3 {
                    (c, RunAction::LogQuestion)
                } else {
                    (c, RunAction::Notify)
                }
            } else {
                (0, RunAction::Notify)
            }
        },
    }
}

/// Law: from a cleared counter, three consecutive timeouts stay quiet for
/// the first two runs and escalate on the third; any non-timeout outcome
/// clears the counter again.
pub proof fn lemma_timeout_escalation()
    ensures
        count_after(0, true) < 3,
        count_after(count_after(0, true), true) < 3,
        count_after(count_after(count_after(0, true), true), true) >= 3,
        forall|c: u32| count_after(c, false) == 0,
{
}

/// Whether the portal-reported IP differs from the persisted one; the
/// comparison is exact, with no normalization.
pub fn ip_changed(old_ip: &str, new_ip: &str) -> (b: bool)
    ensures
        b == (old_ip@ != new_ip@),
{
    !str_eq(old_ip, new_ip)
}

/// The notification body: the caller-supplied template with every
/// `{old_ip}` replaced by the previous IP, then every `{new_ip}` by the
/// current one.
pub fn render_notification(template: &str, old_ip: &str, new_ip: &str) -> (r: String)
    ensures
        r@ == replace_seq(replace_seq(template@, "{old_ip}"@, old_ip@), "{new_ip}"@, new_ip@),
{
    let s1 = replace_all(template, "{old_ip}", old_ip);
    replace_all(s1.as_str(), "{new_ip}", new_ip)
}

/// Outward-facing text with the account password scrubbed: every occurrence
/// of the password, and of its URL-encoded form, becomes `to`; nothing else
/// changes, and empty passwords redact nothing.
pub fn replace_password(text: &str, password: &str, to: &str) -> (r: String)
    ensures
        password@.len() == 0 ==> r@ == text@,
        password@.len() > 0 ==> r@ == replace_seq(
            replace_seq(text@, password@, to@),
            urlenc_seq(encode_utf8(password@)),
            to@,
        ),
{
    if !password.is_empty() {
        let enc = url_encode(password);
        let s1 = replace_all(text, password, to);
        replace_all(s1.as_str(), enc.as_str(), to)
    } else {
        String::from_str(text)
    }
}

} // verus!
