//! Query parameters of the authentication pages. Every field is optional.

use vstd::prelude::*;

verus! {

/// Query of the login page.
#[derive(Debug, Default, Clone)]
pub struct LoginQuery {
    pub redirect_to: Option<String>,
    pub response_type: Option<String>,
    pub pkce_code_challenge: Option<String>,
    pub alert: Option<String>,
}

/// Query of the registration page.
#[derive(Debug, Default, Clone)]
pub struct RegisterQuery {
    pub redirect_to: Option<String>,
    pub alert: Option<String>,
}

/// Query of the page that requests a password reset.
#[derive(Debug, Default, Clone)]
pub struct ResetPasswordRequestQuery {
    pub redirect_to: Option<String>,
    pub alert: Option<String>,
}

/// Query of the page that sets a new password after a reset.
#[derive(Debug, Default, Clone)]
pub struct ResetPasswordUpdateQuery {
    pub redirect_to: Option<String>,
    pub alert: Option<String>,
}

/// Query of the change-password page.
#[derive(Debug, Default, Clone)]
pub struct ChangePasswordQuery {
    pub redirect_to: Option<String>,
    pub alert: Option<String>,
}

/// Query of the change-email page.
#[derive(Debug, Default, Clone)]
pub struct ChangeEmailQuery {
    pub redirect_to: Option<String>,
    pub alert: Option<String>,
}

/// Query of the logout redirector.
#[derive(Debug, Default, Clone)]
pub struct LogoutQuery {
    pub redirect_to: Option<String>,
}

} // verus!
