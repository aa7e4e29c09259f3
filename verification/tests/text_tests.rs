use wlt_task::error::WltError;
use wlt_task::text::{
    contains_str, find_str, get_str_between, replace_all, starts_with_str, str_eq, u32_dec,
};

#[test]
fn find_str_finds_leftmost() {
    assert_eq!(find_str("abcabc", "bc"), Some(1));
    assert_eq!(find_str("abcabc", "abc"), Some(0));
    assert_eq!(find_str("abcabc", "cab"), Some(2));
    assert_eq!(find_str("abcabc", "x"), None);
    assert_eq!(find_str("", "x"), None);
    assert_eq!(find_str("abc", ""), Some(0));
}

#[test]
fn find_str_multibyte() {
    // positions count characters, not bytes
    assert_eq!(find_str("当前IP地址1.2.3.4状态", "状态"), Some(13));
    assert_eq!(find_str("当前IP地址", "IP"), Some(2));
}

#[test]
fn contains_str_basics() {
    assert!(contains_str("网络通账号登录页面", "网络通账号登录"));
    assert!(!contains_str("别的页面", "网络通账号登录"));
}

#[test]
fn starts_with_and_eq() {
    assert!(starts_with_str("rn=token", "rn="));
    assert!(!starts_with_str("xrn=token", "rn="));
    assert!(!starts_with_str("rn", "rn="));
    assert!(str_eq("同じ", "同じ"));
    assert!(!str_eq("a", "b"));
    assert!(!str_eq("a", "ab"));
}

#[test]
fn get_str_between_extracts() {
    let text = "junk name=ip value=1.2.3.4> more";
    assert_eq!(get_str_between(text, "name=ip value=", ">").unwrap(), "1.2.3.4");
    let text2 = "头当前IP地址10.0.0.1状态尾";
    assert_eq!(get_str_between(text2, "当前IP地址", "状态").unwrap(), "10.0.0.1");
}

#[test]
fn get_str_between_takes_leftmost() {
    let text = "a<1>b<2>";
    assert_eq!(get_str_between(text, "<", ">").unwrap(), "1");
}

#[test]
fn get_str_between_missing_left() {
    let r = get_str_between("no delimiters here", "<<", ">>");
    match r {
        Err(WltError::Missing { needle }) => assert_eq!(needle, "<<"),
        _ => panic!("expected a missing-delimiter error"),
    }
}

#[test]
fn get_str_between_missing_right() {
    let r = get_str_between("left<< but nothing after", "<<", ">>");
    match r {
        Err(WltError::Missing { needle }) => assert_eq!(needle, ">>"),
        _ => panic!("expected a missing-delimiter error"),
    }
}

#[test]
fn replace_all_basics() {
    assert_eq!(replace_all("aaa", "a", "bb"), "bbbbbb");
    assert_eq!(replace_all("xayaz", "a", ""), "xyz");
    assert_eq!(replace_all("none", "q", "r"), "none");
    assert_eq!(replace_all("whatever", "", "r"), "whatever");
}

#[test]
fn replace_all_non_overlapping_leftmost() {
    // matches are consumed left to right, without overlap
    assert_eq!(replace_all("aaaa", "aa", "b"), "bb");
    assert_eq!(replace_all("aaa", "aa", "b"), "ba");
    assert_eq!(replace_all("ababab", "aba", "X"), "Xbab");
}

#[test]
fn replace_all_multibyte() {
    assert_eq!(replace_all("旧IP: {old_ip}", "{old_ip}", "1.2.3.4"), "旧IP: 1.2.3.4");
}

#[test]
fn u32_dec_values() {
    assert_eq!(u32_dec(0), "0");
    assert_eq!(u32_dec(7), "7");
    assert_eq!(u32_dec(10), "10");
    assert_eq!(u32_dec(200), "200");
    assert_eq!(u32_dec(50400), "50400");
    assert_eq!(u32_dec(u32::MAX), "4294967295");
}
