//! Secrets and the request and result shapes of the authentication and
//! local-profile calls.

use vstd::prelude::*;
use crate::json::{JsonValue, get, as_str, spec_get, spec_as_str};
use crate::text::opt_string_view;

verus! {

/// A secret (an API key) that is only read when it is sent.
#[derive(Clone, PartialEq, Eq)]
pub struct SecretString(String);

impl SecretString {
    pub closed spec fn spec_value(&self) -> Seq<char> {
        self.0@
    }

    pub fn new(value: String) -> (r: Self)
        ensures
            r.spec_value() == value@,
    {
        SecretString(value)
    }

    /// A copy of the secret.
    pub fn duplicate(&self) -> (r: Self)
        ensures
            r.spec_value() == self.spec_value(),
    {
        SecretString(self.0.clone())
    }

    /// The secret itself, for the request that carries it.
    pub fn expose_for_transport(&self) -> (r: &str)
        ensures
            r@ == self.spec_value(),
    {
        self.0.as_str()
    }

    pub fn is_empty(&self) -> (r: bool)
        ensures
            r == (self.spec_value().len() == 0),
    {
        self.0.as_str().is_empty()
    }

    /// What the user sees instead of the secret: nothing for an empty
    /// secret, eight asterisks otherwise.
    pub fn masked(&self) -> (r: &'static str)
        ensures
            r@ == (if self.spec_value().len() == 0 { ""@ } else { "********"@ }),
    {
        if self.0.as_str().is_empty() {
            ""
        } else {
            "********"
        }
    }
}

/// A session token handed out by the server after a login.
#[derive(Clone, PartialEq, Eq)]
pub struct AppUiAuthToken(String);

impl AppUiAuthToken {
    pub closed spec fn spec_value(&self) -> Seq<char> {
        self.0@
    }

    pub fn new(value: String) -> (r: Self)
        ensures
            r.spec_value() == value@,
    {
        AppUiAuthToken(value)
    }

    /// A copy of the token.
    pub fn duplicate(&self) -> (r: Self)
        ensures
            r.spec_value() == self.spec_value(),
    {
        AppUiAuthToken(self.0.clone())
    }

    pub fn expose_for_transport(&self) -> (r: &str)
        ensures
            r@ == self.spec_value(),
    {
        self.0.as_str()
    }
}

#[derive(Debug, Clone, Default, PartialEq, Eq)]
pub struct AuthStatusParams {}

#[derive(Debug, Clone, PartialEq, Eq)]
pub struct AuthSendCodeParams {
    pub email: String,
}

#[derive(Debug, Clone, PartialEq, Eq)]
pub struct AuthVerifyParams {
    pub email: String,
    pub code: String,
}

#[derive(Clone, PartialEq, Eq)]
pub struct AuthMeParams {
    pub token: Option<AppUiAuthToken>,
}

#[derive(Clone, PartialEq, Eq)]
pub struct AuthLogoutParams {
    pub token: Option<AppUiAuthToken>,
}

/// The profile a scoped login is bound to.
#[derive(Debug, Clone, PartialEq, Eq)]
pub struct AuthScopedProfile {
    pub id: String,
    pub name: String,
    pub email_login_enabled: bool,
}

/// Which login methods the server offers and whether the caller is
/// already authenticated.
#[derive(Debug, Clone, PartialEq, Eq)]
pub struct AuthStatusResult {
    pub bootstrap_mode: bool,
    pub email_login_enabled: bool,
    pub admin_token_login_enabled: bool,
    pub allow_self_registration: bool,
    pub scoped_profile: Option<AuthScopedProfile>,
    pub authenticated: bool,
    pub email_otp: bool,
    pub token_login: bool,
    pub profile_id: Option<String>,
}

#[derive(Debug, Clone, PartialEq, Eq)]
pub struct AuthSendCodeResult {
    pub ok: bool,
    pub message: Option<String>,
}

#[derive(Debug, Clone, PartialEq, Eq)]
pub struct AuthLogoutResult {
    pub ok: bool,
    pub message: Option<String>,
}

#[derive(Debug, Clone, PartialEq, Eq)]
pub struct ProfileLocalCreateParams {
    pub name: String,
    pub username: String,
    pub email: String,
}

/// The profile created by `profile/local/create`.
#[derive(Debug, Clone, PartialEq, Eq)]
pub struct ProfileLocalCreateResult {
    pub profile_id: String,
    pub user_id: String,
    pub name: String,
    pub username: String,
    pub email: String,
    pub created: bool,
    pub runtime_mode: String,
}

/// Result of `auth/verify`: whether the code was accepted, and the token
/// and user it yields.
pub struct AuthVerifyResult {
    pub ok: bool,
    pub token: Option<AppUiAuthToken>,
    pub user: Option<JsonValue>,
    pub message: Option<String>,
}

/// Result of `auth/me`, in the dashboard shape or the older flat one.
#[derive(Debug)]
pub enum AuthMeResult {
    Dashboard { user: JsonValue, profile: Option<JsonValue>, portal: JsonValue },
    Legacy { email: Option<String>, profile_id: Option<String> },
}

/// A string member of a value.
pub open spec fn str_member(v: JsonValue, key: Seq<char>) -> Option<Seq<char>> {
    spec_as_str(spec_get(v, key))
}

/// The signed-in user's email: `user.email`, or the flat `email`.
pub open spec fn spec_auth_me_email(result: AuthMeResult) -> Option<Seq<char>> {
    match result {
        AuthMeResult::Dashboard { user, .. } => str_member(user, "email"@),
        AuthMeResult::Legacy { email, .. } => opt_string_view(email),
    }
}

/// The profile of the signed-in user: `profile.profile.id`, else
/// `profile.id`, else `user.profile_id`; or the flat `profile_id`.
pub open spec fn spec_auth_me_profile_id(result: AuthMeResult) -> Option<Seq<char>> {
    match result {
        AuthMeResult::Dashboard { user, profile, .. } => {
            let from_profile = match profile {
                Some(p) => {
                    let nested = match spec_get(p, "profile"@) {
                        Some(q) => str_member(q, "id"@),
                        None => None,
                    };
                    if nested is Some { nested } else { str_member(p, "id"@) }
                },
                None => None,
            };
            if from_profile is Some { from_profile } else { str_member(user, "profile_id"@) }
        },
        AuthMeResult::Legacy { profile_id, .. } => opt_string_view(profile_id),
    }
}

pub open spec fn opt_str_view(o: Option<&str>) -> Option<Seq<char>> {
    match o {
        Some(s) => Some(s@),
        None => None,
    }
}

/// The signed-in user's email (see [`spec_auth_me_email`]).
pub fn auth_me_email(result: &AuthMeResult) -> (r: Option<&str>)
    ensures
        opt_str_view(r) == spec_auth_me_email(*result),
{
    match result {
        AuthMeResult::Dashboard { user, .. } => as_str(get(user, "email")),
        AuthMeResult::Legacy { email, .. } => match email {
            Some(e) => Some(e.as_str()),
            None => None,
        },
    }
}

/// The signed-in user's profile (see [`spec_auth_me_profile_id`]).
pub fn auth_me_profile_id(result: &AuthMeResult) -> (r: Option<&str>)
    ensures
        opt_str_view(r) == spec_auth_me_profile_id(*result),
{
    match result {
        AuthMeResult::Dashboard { user, profile, .. } => {
            let from_profile = match profile {
                Some(p) => {
                    let nested = match get(p, "profile") {
                        Some(q) => as_str(get(q, "id")),
                        None => None,
                    };
                    match nested {
                        Some(id) => Some(id),
                        None => as_str(get(p, "id")),
                    }
                },
                None => None,
            };
            match from_profile {
                Some(id) => Some(id),
                None => as_str(get(user, "profile_id")),
            }
        },
        AuthMeResult::Legacy { profile_id, .. } => match profile_id {
            Some(id) => Some(id.as_str()),
            None => None,
        },
    }
}

} // verus!
