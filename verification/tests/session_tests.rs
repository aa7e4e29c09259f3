use wlt_task::client::{HttpMethod, HttpRequest, WltClient};
use wlt_task::error::WltError;
use wlt_task::session::{
    check_wlt, check_wlt_start, ip_changed, note_outcome, render_notification, CheckStep,
    HttpEvent, Phase, RunAction, SessionRun,
};

fn gbk(text: &str) -> Vec<u8> {
    encoding_rs::GBK.encode(text).0.into_owned()
}

fn response(status: u16, set_cookie: Option<&str>, text: &str) -> HttpEvent {
    HttpEvent::Response {
        status,
        set_cookie: set_cookie.map(|s| s.to_string()),
        body: gbk(text),
    }
}

fn login_page_with_ip(ip: &str) -> String {
    format!("<html>网络通账号登录 <input name=ip value={}> </html>", ip)
}

fn control_page_with_ip(ip: &str) -> String {
    format!("<html>访问文献资源建议使用1出口 当前IP地址{}状态 正常</html>", ip)
}

fn set_success_page_with_ip(ip: &str) -> String {
    format!(
        "<html>信息：网络设置成功 访问文献资源建议使用1出口 当前IP地址{}状态</html>",
        ip
    )
}

fn fresh_client() -> WltClient {
    WltClient::new("u", "p", 8, 0, "")
}

fn expect_fetch(step: CheckStep) -> HttpRequest {
    match step {
        CheckStep::Fetch(req) => req,
        _ => panic!("expected the machine to ask for a request"),
    }
}

const SET_URL: &str =
    "http://202.38.64.59/cgi-bin/ip?cmd=set&url=URL&type=8&exp=0&go=+%BF%AA%CD%A8%CD%F8%C2%E7+";

#[test]
fn scenario_login_then_configure() {
    // a login page reporting 1.2.3.4 drives login, then configure,
    // and the run ends with that IP and the newly issued token
    let (run, req) = check_wlt_start(fresh_client(), false);
    assert!(matches!(req.method, HttpMethod::Get));
    assert_eq!(req.url, "http://202.38.64.59/cgi-bin/ip");
    assert_eq!(req.cookie, "name=u; password=p");
    assert!(!req.cookie.contains("rn="));
    assert!(matches!(run.phase, Phase::AwaitAccess));

    let (run, step) = check_wlt(run, response(200, None, &login_page_with_ip("1.2.3.4")));
    let req = expect_fetch(step);
    assert!(matches!(run.phase, Phase::AwaitLogin));
    assert!(matches!(req.method, HttpMethod::Post));
    assert_eq!(req.url, "http://202.38.64.59/cgi-bin/ip");
    let form: Vec<(&str, &str)> =
        req.form.iter().map(|(k, v)| (k.as_str(), v.as_str())).collect();
    assert_eq!(
        form,
        vec![
            ("cmd", "login"),
            ("url", "URL"),
            ("ip", "1.2.3.4"),
            ("name", "u"),
            ("password", "p"),
            ("savepass", "on"),
            ("go", "%B5%C7%C2%BC%D5%CB%BB%A7"),
        ]
    );

    let (run, step) = check_wlt(run, response(200, Some("rn=abc123"), "<html>ok</html>"));
    let req = expect_fetch(step);
    assert!(matches!(run.phase, Phase::AwaitSet { .. }));
    assert!(matches!(req.method, HttpMethod::Get));
    assert_eq!(req.url, SET_URL);
    assert_eq!(req.cookie, "name=u; password=p; rn=abc123");

    let (run, step) = check_wlt(run, response(200, None, &set_success_page_with_ip("1.2.3.4")));
    assert!(matches!(run.phase, Phase::Done));
    match step {
        CheckStep::Finished(o) => {
            assert_eq!(o.final_ip, "1.2.3.4");
            assert!(o.token_changed);
            assert_eq!(o.new_token.as_deref(), Some("abc123"));
        },
        _ => panic!("expected the run to finish"),
    }
}

#[test]
fn scenario_already_authenticated_ip_changed() {
    // a control page finishes at once; the caller sees the IP change and
    // renders the notification with each placeholder substituted once
    let client = WltClient::new("u", "p", 8, 0, "oldtoken");
    let (run, req) = check_wlt_start(client, false);
    assert_eq!(req.cookie, "name=u; password=p; rn=oldtoken");

    let (run, step) = check_wlt(run, response(200, None, &control_page_with_ip("5.6.7.8")));
    assert!(matches!(run.phase, Phase::Done));
    let outcome = match step {
        CheckStep::Finished(o) => o,
        _ => panic!("expected the run to finish without configuring"),
    };
    assert_eq!(outcome.final_ip, "5.6.7.8");
    assert!(!outcome.token_changed);
    assert!(outcome.new_token.is_none());

    let persisted_ip = "1.2.3.4";
    assert!(ip_changed(persisted_ip, &outcome.final_ip));
    let body = render_notification(
        "旧IP: {old_ip}\n新IP: {new_ip}\n",
        persisted_ip,
        &outcome.final_ip,
    );
    assert_eq!(body, "旧IP: 1.2.3.4\n新IP: 5.6.7.8\n");
    assert_eq!(body.matches("1.2.3.4").count(), 1);
    assert_eq!(body.matches("5.6.7.8").count(), 1);
    assert!(!body.contains("{old_ip}") && !body.contains("{new_ip}"));
}

#[test]
fn ip_unchanged_is_exact_comparison() {
    assert!(!ip_changed("1.2.3.4", "1.2.3.4"));
    // no normalization of representations
    assert!(ip_changed("1.2.3.4", "01.2.3.4"));
}

#[test]
fn timeout_event_fails_transiently() {
    let (run, _) = check_wlt_start(fresh_client(), false);
    let (run, step) = check_wlt(run, HttpEvent::TimedOut);
    assert!(matches!(run.phase, Phase::Done));
    match step {
        CheckStep::Failed(e) => assert!(e.is_timeout()),
        _ => panic!("a timeout must fail the run"),
    }
}

#[test]
fn transport_failure_event() {
    let (run, _) = check_wlt_start(fresh_client(), false);
    let (_, step) = check_wlt(run, HttpEvent::Failed { detail: "connection refused".to_string() });
    match step {
        CheckStep::Failed(WltError::Network { detail }) => {
            assert_eq!(detail, "connection refused")
        },
        _ => panic!("a failed request must fail the run"),
    }
}

#[test]
fn non_ok_access_status_fails() {
    let (run, _) = check_wlt_start(fresh_client(), false);
    let (_, step) = check_wlt(run, response(500, None, &control_page_with_ip("1.2.3.4")));
    match step {
        CheckStep::Failed(WltError::Transport { url, status, .. }) => {
            assert_eq!(url, "http://202.38.64.59/cgi-bin/ip");
            assert_eq!(status, 500);
        },
        _ => panic!("a non-200 current-page response must fail"),
    }
}

#[test]
fn unknown_page_fails() {
    let (run, _) = check_wlt_start(fresh_client(), false);
    let (_, step) = check_wlt(run, response(200, None, "<html>nothing known</html>"));
    assert!(matches!(step, CheckStep::Failed(WltError::UnknownPage { .. })));
}

#[test]
fn empty_credentials_fail_before_login() {
    let (run, _) = check_wlt_start(WltClient::new("", "", 8, 0, ""), false);
    let (run, step) = check_wlt(run, response(200, None, &login_page_with_ip("1.2.3.4")));
    assert!(matches!(run.phase, Phase::Done));
    assert!(matches!(step, CheckStep::Failed(WltError::Auth { .. })));
}

#[test]
fn bad_credentials_phrase_fails_login() {
    let (run, _) = check_wlt_start(fresh_client(), false);
    let (run, _) = check_wlt(run, response(200, None, &login_page_with_ip("1.2.3.4")));
    let (_, step) = check_wlt(run, response(200, None, "<html>用户名或密码错误</html>"));
    match step {
        CheckStep::Failed(WltError::Auth { reason }) => {
            assert_eq!(reason, "用户名或密码错误")
        },
        _ => panic!("a failure phrase must be an authentication error"),
    }
}

#[test]
fn login_keeps_token_without_rn_header() {
    let (run, _) = check_wlt_start(WltClient::new("u", "p", 8, 0, "keepme"), false);
    let (run, _) = check_wlt(run, response(200, None, &login_page_with_ip("1.2.3.4")));
    // a session-setting header without the rn= prefix is ignored
    let (run, step) = check_wlt(run, response(200, Some("other=1"), "<html>ok</html>"));
    let req = expect_fetch(step);
    assert_eq!(req.cookie, "name=u; password=p; rn=keepme");
    let (_, step) = check_wlt(run, response(200, None, &set_success_page_with_ip("9.9.9.9")));
    match step {
        CheckStep::Finished(o) => {
            assert_eq!(o.final_ip, "9.9.9.9");
            assert!(!o.token_changed);
            assert!(o.new_token.is_none());
        },
        _ => panic!("expected the run to finish"),
    }
}

#[test]
fn set_without_success_marker_fails() {
    let (run, _) = check_wlt_start(fresh_client(), false);
    let (run, _) = check_wlt(run, response(200, None, &login_page_with_ip("1.2.3.4")));
    let (run, _) = check_wlt(run, response(200, Some("rn=t"), "<html>ok</html>"));
    let (_, step) = check_wlt(run, response(200, None, &control_page_with_ip("1.2.3.4")));
    match step {
        CheckStep::Failed(WltError::SetFailed { url, cookie, status, .. }) => {
            assert_eq!(url, SET_URL);
            assert_eq!(cookie, "name=u; password=p; rn=t");
            assert_eq!(status, 200);
        },
        _ => panic!("a configure response without the marker must fail"),
    }
}

#[test]
fn set_answered_by_login_page_fails() {
    let (run, _) = check_wlt_start(fresh_client(), false);
    let (run, _) = check_wlt(run, response(200, None, &login_page_with_ip("1.2.3.4")));
    let (run, _) = check_wlt(run, response(200, Some("rn=t"), "<html>ok</html>"));
    let body = format!("<html>信息：网络设置成功 {}</html>", login_page_with_ip("1.2.3.4"));
    let (_, step) = check_wlt(run, response(200, None, &body));
    assert!(matches!(step, CheckStep::Failed(WltError::SetFailed { .. })));
}

#[test]
fn reapply_policy_off_never_reconfigures() {
    let text = "<html>访问文献资源建议使用1出口 出口: 1网出口 当前IP地址2.2.2.2状态</html>";
    let (run, _) = check_wlt_start(fresh_client(), false); // configured type is 8, page shows 1
    let (_, step) = check_wlt(run, response(200, None, text));
    assert!(matches!(step, CheckStep::Finished(_)));
}

#[test]
fn reapply_policy_matching_type_stays_quiet() {
    let text = "<html>访问文献资源建议使用1出口 出口: 9网出口 当前IP地址2.2.2.2状态</html>";
    let (run, _) = check_wlt_start(fresh_client(), true); // type 8 is shown as 9 on the page
    let (_, step) = check_wlt(run, response(200, None, text));
    match step {
        CheckStep::Finished(o) => assert_eq!(o.final_ip, "2.2.2.2"),
        _ => panic!("a matching exit type must not reconfigure"),
    }
}

#[test]
fn reapply_policy_mismatched_type_reconfigures() {
    let text = "<html>访问文献资源建议使用1出口 出口: 1网出口 当前IP地址2.2.2.2状态</html>";
    let (run, step) = {
        let (run, _) = check_wlt_start(fresh_client(), true);
        check_wlt(run, response(200, None, text))
    };
    assert!(matches!(run.phase, Phase::AwaitSet { .. }));
    let req = expect_fetch(step);
    assert_eq!(req.url, SET_URL);
}

#[test]
fn finished_run_accepts_no_further_events() {
    let (run, _) = check_wlt_start(fresh_client(), false);
    let (run, _) = check_wlt(run, HttpEvent::TimedOut);
    let (run, step) = check_wlt(run, response(200, None, "<html></html>"));
    assert!(matches!(run.phase, Phase::Done));
    assert!(matches!(step, CheckStep::Failed(WltError::Network { .. })));
}

#[test]
fn three_timeouts_escalate_on_the_third() {
    let timeout = WltError::Timeout;
    let (c1, a1) = note_outcome(0, Some(&timeout));
    assert_eq!(c1, 1);
    assert!(matches!(a1, RunAction::LogQuestion));
    let (c2, a2) = note_outcome(c1, Some(&timeout));
    assert_eq!(c2, 2);
    assert!(matches!(a2, RunAction::LogQuestion));
    let (c3, a3) = note_outcome(c2, Some(&timeout));
    assert_eq!(c3, 3);
    assert!(matches!(a3, RunAction::Notify));
}

#[test]
fn non_timeout_outcomes_reset_the_counter() {
    let (c, a) = note_outcome(2, None);
    assert_eq!(c, 0);
    assert!(matches!(a, RunAction::LogDot));
    let hard = WltError::Crypto;
    let (c, a) = note_outcome(2, Some(&hard));
    assert_eq!(c, 0);
    assert!(matches!(a, RunAction::Notify));
}

#[test]
fn run_preserves_session_fields() {
    let (run, _) = check_wlt_start(WltClient::new("u", "p", 3, 3600, "tok"), true);
    let SessionRun { client, reapply_exit, rn_at_start, .. } =
        check_wlt(run, HttpEvent::TimedOut).0;
    assert!(reapply_exit);
    assert_eq!(rn_at_start, "tok");
    assert_eq!(client.get_rn(), "tok");
    assert_eq!(client.get_type(), 3);
}
