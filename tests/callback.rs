use birch_core::callback::{
    error_page, get_auth_token, judge_callback, success_page, CallbackParams, CallbackVerdict,
    ERROR_PAGE_HEAD, ERROR_PAGE_TAIL,
};

fn params(token: Option<&str>, state: Option<&str>, error: Option<&str>, description: Option<&str>) -> CallbackParams {
    CallbackParams {
        token: token.map(|s| s.to_string()),
        state: state.map(|s| s.to_string()),
        error: error.map(|s| s.to_string()),
        error_description: description.map(|s| s.to_string()),
    }
}

#[test]
fn callback_requires_matching_state() {
    assert!(matches!(
        judge_callback(&params(Some("t"), None, None, None), "s1"),
        CallbackVerdict::Rejected(ref m) if m == "Missing state token"
    ));
    assert!(matches!(
        judge_callback(&params(Some("t"), Some("s2"), None, None), "s1"),
        CallbackVerdict::Rejected(ref m) if m == "Invalid state token"
    ));
}

#[test]
fn callback_reports_provider_error() {
    assert!(matches!(
        judge_callback(&params(None, Some("s1"), Some("denied"), Some("User cancelled")), "s1"),
        CallbackVerdict::Failed(ref m) if m == "User cancelled"
    ));
    assert!(matches!(
        judge_callback(&params(Some("t"), Some("s1"), Some("denied"), None), "s1"),
        CallbackVerdict::Failed(ref m) if m == "denied"
    ));
}

#[test]
fn callback_accepts_token() {
    assert!(matches!(
        judge_callback(&params(Some("jwt"), Some("s1"), None, None), "s1"),
        CallbackVerdict::Accepted(ref t) if t == "jwt"
    ));
    assert!(matches!(
        judge_callback(&params(None, Some("s1"), None, None), "s1"),
        CallbackVerdict::Rejected(ref m) if m == "Missing token"
    ));
}

#[test]
fn pages() {
    assert!(success_page().contains("Authentication Successful"));
    let page = error_page("Invalid state token");
    assert!(page.starts_with(ERROR_PAGE_HEAD));
    assert!(page.ends_with(ERROR_PAGE_TAIL));
    assert!(page.contains("<div class=\"error-detail\">Invalid state token</div>"));
}

#[test]
fn auth_token_prefers_jwt() {
    assert_eq!(get_auth_token(&Some("jwt".to_string()), &Some("key".to_string())), Ok("jwt".to_string()));
    assert_eq!(get_auth_token(&None, &Some("key".to_string())), Ok("key".to_string()));
    assert_eq!(
        get_auth_token(&None, &None),
        Err("Not authenticated. Run 'birch login' first.".to_string())
    );
}
