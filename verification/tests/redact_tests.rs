use wlt_task::session::replace_password;

#[test]
fn redacts_raw_and_encoded_password() {
    // a diagnostic embedding the password both raw (form contents) and
    // URL-encoded (cookie string) has both occurrences masked
    let text = "form: password=p@ss word\ncookie: name=u; password=p%40ss%20word";
    let out = replace_password(text, "p@ss word", "***");
    assert_eq!(out, "form: password=***\ncookie: name=u; password=***");
}

#[test]
fn redaction_alters_nothing_else() {
    let text = "no secrets in this line";
    assert_eq!(replace_password(text, "p@ss word", "***"), text);
}

#[test]
fn empty_password_redacts_nothing() {
    let text = "password= cookie=";
    assert_eq!(replace_password(text, "", "***"), text);
}

#[test]
fn redacts_every_occurrence() {
    let out = replace_password("s3cret and s3cret again, s3cret", "s3cret", "***");
    assert_eq!(out, "*** and *** again, ***");
}

#[test]
fn ascii_password_encoded_form_equal_to_raw() {
    // when the encoded form equals the password itself the one pass suffices
    let out = replace_password("key=abc123&x=abc123", "abc123", "***");
    assert_eq!(out, "key=***&x=***");
}
