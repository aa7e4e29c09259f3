use wlt_task::error::WltError;
use wlt_task::page::{WltPage, WltPageType};

fn login_fixture() -> &'static str {
    "<html>网络通账号登录 <input name=ip value=1.2.3.4> </html>"
}

fn control_fixture() -> &'static str {
    "<html>访问文献资源建议使用1出口 当前IP地址1.2.3.4状态 正常</html>"
}

fn page(text: &str) -> WltPage {
    WltPage { url: String::from("http://202.38.64.59/cgi-bin/ip"), status: 200, text: text.to_string() }
}

#[test]
fn classify_login_fixture() {
    match page(login_fixture()).page_type() {
        Ok(WltPageType::LoginPage) => (),
        _ => panic!("login fixture must classify as the login page"),
    }
}

#[test]
fn classify_control_fixture() {
    match page(control_fixture()).page_type() {
        Ok(WltPageType::ControlPage) => (),
        _ => panic!("control fixture must classify as the control page"),
    }
}

#[test]
fn classify_unknown_fixture() {
    let p = page("<html>something else entirely</html>");
    match p.page_type() {
        Err(WltError::UnknownPage { url, body }) => {
            assert_eq!(url, "http://202.38.64.59/cgi-bin/ip");
            assert_eq!(body, "<html>something else entirely</html>");
        },
        _ => panic!("a fixture matching neither layout must be a classification error"),
    }
}

#[test]
fn markers_never_both_match() {
    // well-formed fixtures carry exactly one marker
    assert!(!login_fixture().contains("访问文献资源建议使用1出口"));
    assert!(!control_fixture().contains("网络通账号登录"));
}

#[test]
fn search_ip_login_layout() {
    assert_eq!(page(login_fixture()).search_ip().unwrap(), "1.2.3.4");
}

#[test]
fn search_ip_control_layout() {
    assert_eq!(page(control_fixture()).search_ip().unwrap(), "1.2.3.4");
}

#[test]
fn search_ip_missing_delimiter() {
    let p = page("<html>网络通账号登录 no field here</html>");
    match p.search_ip() {
        Err(WltError::Missing { .. }) => (),
        _ => panic!("a login page without the IP slot must be a parse error"),
    }
}

#[test]
fn check_ok_statuses() {
    let mut p = page(control_fixture());
    assert!(p.check_ok());
    p.status = 404;
    assert!(!p.check_ok());
}

#[test]
fn new_decodes_gbk() {
    let (bytes, _, _) = encoding_rs::GBK.encode("当前IP地址");
    let p = WltPage::new("u".to_string(), 200, &bytes.into_owned());
    assert_eq!(p.text, "当前IP地址");
    assert_eq!(p.url, "u");
    assert_eq!(p.status, 200);
}
