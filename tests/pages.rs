use auth_ui::escape::html_escape;
use auth_ui::form_state::{hidden_input, redirect_to};
use auth_ui::pages::{
    alert_text, change_email_page, change_password_page, login_form_state, login_page,
    logout_location, register_page, reset_password_request_page, reset_password_update_page,
    AuthIdentity, Page, PageAction,
};
use auth_ui::query::{
    ChangeEmailQuery, ChangePasswordQuery, LoginQuery, LogoutQuery, RegisterQuery,
    ResetPasswordRequestQuery, ResetPasswordUpdateQuery,
};
use auth_ui::routes::{resolve_asset_path, route, str_eq, strip_prefix, Route};

fn some(s: &str) -> Option<String> {
    Some(s.to_string())
}

#[test]
fn escape_replaces_each_special_character() {
    assert_eq!(html_escape("a&b<c>d\"e'f"), "a&amp;b&lt;c&gt;d&quot;e&#39;f");
    assert_eq!(html_escape(""), "");
    assert_eq!(html_escape("plain/text?x=1"), "plain/text?x=1");
    assert_eq!(html_escape("ünï©ødé"), "ünï©ødé");
}

#[test]
fn hidden_input_absent_is_empty() {
    assert_eq!(hidden_input("redirect_to", None), "");
    assert_eq!(redirect_to(None), "");
}

#[test]
fn hidden_input_present_holds_escaped_value() {
    let v = "/x?a=1&b=\"2\"<script>".to_string();
    assert_eq!(
        hidden_input("redirect_to", Some(&v)),
        "<input name=\"redirect_to\" type=\"hidden\" value=\"/x?a=1&amp;b=&quot;2&quot;&lt;script&gt;\" />"
    );
    assert_eq!(redirect_to(Some(&v)), hidden_input("redirect_to", Some(&v)));
}

#[test]
fn hidden_input_value_cannot_break_out() {
    let v = "\" onfocus=\"alert(1)\" x=\"<&".to_string();
    let out = hidden_input("pkce_code_challenge", Some(&v));
    let prefix = "<input name=\"pkce_code_challenge\" type=\"hidden\" value=\"";
    assert!(out.starts_with(prefix));
    assert!(out.ends_with("\" />"));
    let value = &out[prefix.len()..out.len() - 4];
    assert!(!value.contains('"'));
    assert!(!value.contains('<'));
    for (i, _) in value.match_indices('&') {
        let rest = &value[i..];
        assert!(
            rest.starts_with("&amp;") || rest.starts_with("&lt;") || rest.starts_with("&gt;")
                || rest.starts_with("&quot;") || rest.starts_with("&#39;")
        );
    }
}

#[test]
fn login_state_with_no_fields_holds_no_inputs() {
    assert_eq!(login_form_state(&LoginQuery::default()), "\n\n\n");
}

#[test]
fn login_state_holds_each_present_field_once() {
    let q = LoginQuery {
        redirect_to: some("/r"),
        response_type: None,
        pkce_code_challenge: some("abc"),
        alert: None,
    };
    let state = login_form_state(&q);
    assert_eq!(
        state,
        "<input name=\"redirect_to\" type=\"hidden\" value=\"/r\" />\n\n<input name=\"pkce_code_challenge\" type=\"hidden\" value=\"abc\" />\n"
    );
    assert_eq!(state.matches("name=\"redirect_to\"").count(), 1);
    assert_eq!(state.matches("name=\"response_type\"").count(), 0);
    assert_eq!(state.matches("name=\"pkce_code_challenge\"").count(), 1);
}

#[test]
fn login_without_identity_renders_form() {
    let q = LoginQuery {
        redirect_to: some("/dashboard"),
        response_type: None,
        pkce_code_challenge: None,
        alert: some("bad password"),
    };
    match login_page(&q, None) {
        PageAction::Render { page, context } => {
            assert_eq!(page, Page::Login);
            assert!(context
                .state
                .contains("<input name=\"redirect_to\" type=\"hidden\" value=\"/dashboard\" />"));
            assert_eq!(context.alert, "bad password");
        }
        other => panic!("unexpected {:?}", other),
    }
}

#[test]
fn login_with_identity_redirects_to_profile() {
    let user = AuthIdentity { csrf_token: "tok".to_string() };
    match login_page(&LoginQuery::default(), Some(&user)) {
        PageAction::Redirect { location } => assert_eq!(location, "/_/auth/profile"),
        other => panic!("unexpected {:?}", other),
    }
}

#[test]
fn logout_forwards_redirect_target() {
    let q = LogoutQuery { redirect_to: some("/home") };
    assert_eq!(logout_location(&q), "/api/auth/v1/logout?redirect_to=/home");
}

#[test]
fn logout_without_query_goes_to_bare_endpoint() {
    assert_eq!(logout_location(&LogoutQuery::default()), "/api/auth/v1/logout");
}

#[test]
fn change_email_without_identity_is_refused() {
    let q = ChangeEmailQuery { redirect_to: some("/x"), alert: None };
    assert!(matches!(change_email_page(&q, None), PageAction::Unauthorized));
}

#[test]
fn change_email_with_identity_carries_token() {
    let q = ChangeEmailQuery { redirect_to: None, alert: some("oops") };
    let user = AuthIdentity { csrf_token: "t<k".to_string() };
    match change_email_page(&q, Some(&user)) {
        PageAction::Render { page, context } => {
            assert_eq!(page, Page::ChangeEmail);
            assert_eq!(
                context.state,
                "\n<input name=\"csrf_token\" type=\"hidden\" value=\"t&lt;k\" />\n"
            );
            assert_eq!(context.alert, "oops");
        }
        other => panic!("unexpected {:?}", other),
    }
}

#[test]
fn redirect_only_pages_carry_redirect_and_alert() {
    let expected = "<input name=\"redirect_to\" type=\"hidden\" value=\"/next\" />";
    let c = register_page(&RegisterQuery { redirect_to: some("/next"), alert: some("a") });
    assert_eq!((c.state.as_str(), c.alert.as_str()), (expected, "a"));
    let c = reset_password_request_page(&ResetPasswordRequestQuery {
        redirect_to: some("/next"),
        alert: None,
    });
    assert_eq!((c.state.as_str(), c.alert.as_str()), (expected, ""));
    let c = reset_password_update_page(&ResetPasswordUpdateQuery {
        redirect_to: None,
        alert: some("b"),
    });
    assert_eq!((c.state.as_str(), c.alert.as_str()), ("", "b"));
    let c = change_password_page(&ChangePasswordQuery { redirect_to: some("/next"), alert: None });
    assert_eq!((c.state.as_str(), c.alert.as_str()), (expected, ""));
}

#[test]
fn alert_defaults_to_empty() {
    assert_eq!(alert_text(&None), "");
    assert_eq!(alert_text(&some("x y")), "x y");
}

#[test]
fn profile_asset_resolves_to_index() {
    assert_eq!(resolve_asset_path("profile"), "profile/index.html");
    match route("/_/auth/profile") {
        Route::Asset { path } => assert_eq!(path, "profile/index.html"),
        other => panic!("unexpected {:?}", other),
    }
}

#[test]
fn other_assets_resolve_unchanged() {
    assert_eq!(resolve_asset_path("profile/"), "profile/");
    match route("/_/auth/profile/settings.js") {
        Route::Asset { path } => assert_eq!(path, "profile/settings.js"),
        other => panic!("unexpected {:?}", other),
    }
}

#[test]
fn exact_paths_route_to_pages() {
    assert!(matches!(route("/_/auth/login"), Route::Login));
    assert!(matches!(route("/_/auth/logout"), Route::Logout));
    assert!(matches!(route("/_/auth/register"), Route::Register));
    assert!(matches!(route("/_/auth/reset_password/request"), Route::ResetPasswordRequest));
    assert!(matches!(route("/_/auth/reset_password/update"), Route::ResetPasswordUpdate));
    assert!(matches!(route("/_/auth/change_password"), Route::ChangePassword));
    assert!(matches!(route("/_/auth/change_email"), Route::ChangeEmail));
    assert!(matches!(route("/api/other"), Route::NotFound));
    match route("/_/auth/login/") {
        Route::Asset { path } => assert_eq!(path, "login/"),
        other => panic!("unexpected {:?}", other),
    }
}

#[test]
fn string_helpers() {
    assert!(str_eq("abc", "abc"));
    assert!(!str_eq("abc", "abd"));
    assert!(!str_eq("ab", "abc"));
    assert_eq!(strip_prefix("/_/auth/x", "/_/auth/"), Some("x"));
    assert_eq!(strip_prefix("/_/aut", "/_/auth/"), None);
}
