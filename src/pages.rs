//! What each authentication page does with its query and the caller's identity.

use vstd::prelude::*;
use vstd::string::*;

use crate::form_state::{
    field_view, hidden_input_spec, input_markup, lemma_form_field, push_state_line, redirect_to,
    state_line,
};
use crate::query::{
    ChangeEmailQuery, ChangePasswordQuery, LoginQuery, LogoutQuery, RegisterQuery,
    ResetPasswordRequestQuery, ResetPasswordUpdateQuery,
};

verus! {

/// The pages that are rendered from a template.
#[derive(Clone, Copy, Debug, PartialEq, Eq, Structural)]
pub enum Page {
    Login,
    Register,
    ResetPasswordRequest,
    ResetPasswordUpdate,
    ChangePassword,
    ChangeEmail,
}

/// The authenticated user of a request, as far as the pages need it.
#[derive(Debug, Clone)]
pub struct AuthIdentity {
    pub csrf_token: String,
}

/// What a page template is rendered with: the hidden form state and the alert
/// banner's text (empty for no alert).
#[derive(Debug, Clone)]
pub struct PageContext {
    pub state: String,
    pub alert: String,
}

/// The outcome of a page request.
#[derive(Debug, Clone)]
pub enum PageAction {
    /// Render `page` with `context`.
    Render { page: Page, context: PageContext },
    /// Send the client to `location`.
    Redirect { location: String },
    /// Refuse the request: it needs an authenticated user and has none.
    Unauthorized,
}

/// Where an already authenticated user is sent instead of the login form.
pub open spec fn profile_location() -> Seq<char> {
    "/_/auth/profile"@
}

/// The logout endpoint of the authentication API.
pub open spec fn logout_endpoint() -> Seq<char> {
    "/api/auth/v1/logout"@
}

/// The alert text of a query: its value, or empty when absent.
pub open spec fn alert_spec(alert: Option<String>) -> Seq<char> {
    match alert {
        Some(a) => a@,
        None => Seq::empty(),
    }
}

/// A context holds exactly the given state and alert.
pub open spec fn context_is(c: PageContext, state: Seq<char>, alert: Seq<char>) -> bool {
    c.state@ == state && c.alert@ == alert
}

/// The action renders `page` with the given state and alert.
pub open spec fn renders(r: PageAction, page: Page, state: Seq<char>, alert: Seq<char>) -> bool {
    r matches PageAction::Render { page: p, context } && p == page && context_is(
        context,
        state,
        alert,
    )
}

/// The action redirects to `location`.
pub open spec fn redirects(r: PageAction, location: Seq<char>) -> bool {
    r matches PageAction::Redirect { location: l } && l@ == location
}

/// The form state of the login page.
pub open spec fn login_state_spec(q: LoginQuery) -> Seq<char> {
    state_line("redirect_to"@, field_view(q.redirect_to)) + state_line(
        "response_type"@,
        field_view(q.response_type),
    ) + state_line("pkce_code_challenge"@, field_view(q.pkce_code_challenge))
}

/// The login form state holds one line per field, in the order `redirect_to`,
/// `response_type`, `pkce_code_challenge`; each line is the field's hidden
/// input when the field is present and empty otherwise.
pub proof fn lemma_login_state_fields(q: LoginQuery)
    ensures
        login_state_spec(q) == state_line("redirect_to"@, field_view(q.redirect_to))
            + state_line("response_type"@, field_view(q.response_type)) + state_line(
            "pkce_code_challenge"@,
            field_view(q.pkce_code_challenge),
        ),
        q.redirect_to is None ==> state_line("redirect_to"@, field_view(q.redirect_to)) == "\n"@,
        q.response_type is None ==> state_line("response_type"@, field_view(q.response_type))
            == "\n"@,
        q.pkce_code_challenge is None ==> state_line(
            "pkce_code_challenge"@,
            field_view(q.pkce_code_challenge),
        ) == "\n"@,
        q.redirect_to matches Some(v) ==> state_line("redirect_to"@, field_view(q.redirect_to))
            == input_markup("redirect_to"@, v@) + "\n"@,
        q.response_type matches Some(v) ==> state_line(
            "response_type"@,
            field_view(q.response_type),
        ) == input_markup("response_type"@, v@) + "\n"@,
        q.pkce_code_challenge matches Some(v) ==> state_line(
            "pkce_code_challenge"@,
            field_view(q.pkce_code_challenge),
        ) == input_markup("pkce_code_challenge"@, v@) + "\n"@,
{
    lemma_form_field("redirect_to"@, field_view(q.redirect_to));
    lemma_form_field("response_type"@, field_view(q.response_type));
    lemma_form_field("pkce_code_challenge"@, field_view(q.pkce_code_challenge));
}

/// The form state of the change-email page for a user with the given token.
pub open spec fn change_email_state_spec(q: ChangeEmailQuery, csrf_token: Seq<char>) -> Seq<
    char,
> {
    state_line("redirect_to"@, field_view(q.redirect_to)) + state_line(
        "csrf_token"@,
        Some(csrf_token),
    )
}

/// The location that the logout redirector sends the client to.
pub open spec fn logout_location_spec(q: LogoutQuery) -> Seq<char> {
    match q.redirect_to {
        Some(r) => logout_endpoint() + "?redirect_to="@ + r@,
        None => logout_endpoint(),
    }
}

/// The alert text of a query, empty when the query has none.
pub fn alert_text(alert: &Option<String>) -> (r: String)
    ensures
        r@ == alert_spec(*alert),
{
    match alert {
        Some(a) => a.clone(),
        None => String::new(),
    }
}

/// The hidden fields of the login form: `redirect_to`, `response_type` and
/// `pkce_code_challenge`, one line each.
pub fn login_form_state(query: &LoginQuery) -> (r: String)
    ensures
        r@ == login_state_spec(*query),
{
    let mut out = String::new();
    push_state_line(&mut out, "redirect_to", query.redirect_to.as_ref());
    push_state_line(&mut out, "response_type", query.response_type.as_ref());
    push_state_line(&mut out, "pkce_code_challenge", query.pkce_code_challenge.as_ref());
    proof {
        assert(out@ =~= login_state_spec(*query));
    }
    out
}

/// The hidden fields of the change-email form: `redirect_to` and the user's
/// CSRF token, one line each.
pub fn change_email_form_state(query: &ChangeEmailQuery, csrf_token: &String) -> (r: String)
    ensures
        r@ == change_email_state_spec(*query, csrf_token@),
{
    let mut out = String::new();
    push_state_line(&mut out, "redirect_to", query.redirect_to.as_ref());
    push_state_line(&mut out, "csrf_token", Some(csrf_token));
    proof {
        assert(out@ =~= change_email_state_spec(*query, csrf_token@));
    }
    out
}

/// The login page: an authenticated user is sent to the profile page, anyone
/// else gets the login form with the query's state and alert.
pub fn login_page(query: &LoginQuery, user: Option<&AuthIdentity>) -> (r: PageAction)
    ensures
        user is Some ==> redirects(r, profile_location()),
        user is None ==> renders(r, Page::Login, login_state_spec(*query), alert_spec(query.alert)),
{
    if user.is_some() {
        return PageAction::Redirect { location: String::from_str("/_/auth/profile") };
    }
    let context = PageContext { state: login_form_state(query), alert: alert_text(&query.alert) };
    PageAction::Render { page: Page::Login, context }
}

/// The context of a page whose only form state is `redirect_to`.
fn redirect_page_context(target: &Option<String>, alert: &Option<String>) -> (r: PageContext)
    ensures
        context_is(r, hidden_input_spec("redirect_to"@, field_view(*target)), alert_spec(*alert)),
{
    PageContext { state: redirect_to(target.as_ref()), alert: alert_text(alert) }
}

/// The registration page.
pub fn register_page(query: &RegisterQuery) -> (r: PageContext)
    ensures
        context_is(
            r,
            hidden_input_spec("redirect_to"@, field_view(query.redirect_to)),
            alert_spec(query.alert),
        ),
{
    redirect_page_context(&query.redirect_to, &query.alert)
}

/// The page that requests a password reset.
pub fn reset_password_request_page(query: &ResetPasswordRequestQuery) -> (r: PageContext)
    ensures
        context_is(
            r,
            hidden_input_spec("redirect_to"@, field_view(query.redirect_to)),
            alert_spec(query.alert),
        ),
{
    redirect_page_context(&query.redirect_to, &query.alert)
}

/// The page that sets a new password after a reset.
pub fn reset_password_update_page(query: &ResetPasswordUpdateQuery) -> (r: PageContext)
    ensures
        context_is(
            r,
            hidden_input_spec("redirect_to"@, field_view(query.redirect_to)),
            alert_spec(query.alert),
        ),
{
    redirect_page_context(&query.redirect_to, &query.alert)
}

/// The change-password page.
pub fn change_password_page(query: &ChangePasswordQuery) -> (r: PageContext)
    ensures
        context_is(
            r,
            hidden_input_spec("redirect_to"@, field_view(query.redirect_to)),
            alert_spec(query.alert),
        ),
{
    redirect_page_context(&query.redirect_to, &query.alert)
}

/// The change-email page: it needs an authenticated user, whose CSRF token it
/// puts into the form; without one the request is refused.
pub fn change_email_page(query: &ChangeEmailQuery, user: Option<&AuthIdentity>) -> (r: PageAction)
    ensures
        user is None ==> r is Unauthorized,
        user matches Some(u) ==> renders(
            r,
            Page::ChangeEmail,
            change_email_state_spec(*query, u.csrf_token@),
            alert_spec(query.alert),
        ),
{
    match user {
        Some(u) => {
            let context = PageContext {
                state: change_email_form_state(query, &u.csrf_token),
                alert: alert_text(&query.alert),
            };
            PageAction::Render { page: Page::ChangeEmail, context }
        },
        None => PageAction::Unauthorized,
    }
}

/// The logout redirector: the API's logout endpoint, with `redirect_to`
/// passed on when the query has one.
pub fn logout_location(query: &LogoutQuery) -> (r: String)
    ensures
        r@ == logout_location_spec(*query),
{
    let mut out = String::from_str("/api/auth/v1/logout");
    if let Some(target) = &query.redirect_to {
        out.append("?redirect_to=");
        out.append(target.as_str());
    }
    out
}

} // verus!
