//! The command line's login callback: the browser is sent back to a local
//! address with the token (or an error) and the state the login began with.

use vstd::prelude::*;

use crate::text::same_text;

verus! {

/// The query of the callback request.
#[derive(Debug)]
pub struct CallbackParams {
    pub token: Option<String>,
    pub state: Option<String>,
    pub error: Option<String>,
    pub error_description: Option<String>,
}

/// What the callback answers, and what the waiting login learns.
#[derive(Debug)]
pub enum CallbackVerdict {
    /// A bad request, answered with an error page showing the message; the
    /// login keeps waiting.
    Rejected(String),
    /// The provider reported an error: the page shows it and the login fails
    /// with it.
    Failed(String),
    /// The login succeeds with the token.
    Accepted(String),
}

/// The page shown after a successful login.
pub const SUCCESS_PAGE: &'static str = r#"<!DOCTYPE html>
<html>
<head>
    <meta charset="utf-8">
    <title>Birch CLI - Authentication Successful</title>
    <style>
        body {
            font-family: -apple-system, BlinkMacSystemFont, 'Segoe UI', Roboto, 'Helvetica Neue', Arial, sans-serif;
            display: flex;
            justify-content: center;
            align-items: center;
            min-height: 100vh;
            margin: 0;
            background: #faf9f6;
            color: #1a1a1a;
        }
        .container {
            text-align: center;
            padding: 3rem;
            max-width: 500px;
        }
        .success {
            font-size: 4rem;
            margin-bottom: 1rem;
        }
        h1 {
            font-size: 1.75rem;
            margin-bottom: 0.5rem;
            font-weight: 600;
        }
        p {
            color: #666;
            line-height: 1.6;
        }
        .close-message {
            margin-top: 2rem;
            padding: 1rem;
            background: #f5f5f5;
            border-radius: 8px;
            font-size: 0.875rem;
        }
    </style>
</head>
<body>
    <div class="container">
        <div class="success">✓</div>
        <h1>Authentication Successful</h1>
        <p>You have successfully authenticated with Birch.</p>
        <div class="close-message">
            You can close this window and return to your terminal.
        </div>
    </div>
</body>
</html>"#;

/// The page shown after a failed login, up to the message.
pub const ERROR_PAGE_HEAD: &'static str = r#"<!DOCTYPE html>
<html>
<head>
    <meta charset="utf-8">
    <title>Birch CLI - Authentication Failed</title>
    <style>
        body {
            font-family: -apple-system, BlinkMacSystemFont, 'Segoe UI', Roboto, 'Helvetica Neue', Arial, sans-serif;
            display: flex;
            justify-content: center;
            align-items: center;
            min-height: 100vh;
            margin: 0;
            background: #faf9f6;
            color: #1a1a1a;
        }
        .container {
            text-align: center;
            padding: 3rem;
            max-width: 500px;
        }
        .error {
            font-size: 4rem;
            margin-bottom: 1rem;
            color: #dc2626;
        }
        h1 {
            font-size: 1.75rem;
            margin-bottom: 0.5rem;
            font-weight: 600;
        }
        p {
            color: #666;
            line-height: 1.6;
        }
        .error-detail {
            margin-top: 2rem;
            padding: 1rem;
            background: #fee;
            border-radius: 8px;
            font-size: 0.875rem;
            color: #dc2626;
        }
    </style>
</head>
<body>
    <div class="container">
        <div class="error">✗</div>
        <h1>Authentication Failed</h1>
        <p>There was a problem authenticating with Birch.</p>
        <div class="error-detail">"#;

/// The page shown after a failed login, after the message.
pub const ERROR_PAGE_TAIL: &'static str = r#"</div>
        <p style="margin-top: 2rem;">You can close this window and try again.</p>
    </div>
</body>
</html>"#;

/// Whether `r` is the verdict on a callback when the login began with
/// `expected_state`: the state must be present and match; then a reported
/// error (shown by its description when there is one) fails the login; then
/// the token is required.
pub open spec fn judged(r: CallbackVerdict, p: CallbackParams, expected_state: Seq<char>) -> bool {
    match p.state {
        None => r matches CallbackVerdict::Rejected(m) && m@ == "Missing state token"@,
        Some(s) => if s@ != expected_state {
            r matches CallbackVerdict::Rejected(m) && m@ == "Invalid state token"@
        } else {
            match p.error {
                Some(e) => r matches CallbackVerdict::Failed(m) && m@ == match p.error_description {
                    Some(d) => d@,
                    None => e@,
                },
                None => match p.token {
                    Some(t) => r matches CallbackVerdict::Accepted(v) && v@ == t@,
                    None => r matches CallbackVerdict::Rejected(m) && m@ == "Missing token"@,
                },
            }
        },
    }
}

/// The verdict on a callback when the login began with `expected_state`.
pub fn judge_callback(params: &CallbackParams, expected_state: &str) -> (r: CallbackVerdict)
    ensures
        judged(r, *params, expected_state@),
{
    match &params.state {
        None => CallbackVerdict::Rejected("Missing state token".to_owned()),
        Some(received) => {
            if !same_text(received.as_str(), expected_state) {
                return CallbackVerdict::Rejected("Invalid state token".to_owned());
            }
            match &params.error {
                Some(error) => match &params.error_description {
                    Some(description) => CallbackVerdict::Failed(description.clone()),
                    None => CallbackVerdict::Failed(error.clone()),
                },
                None => match &params.token {
                    Some(token) => CallbackVerdict::Accepted(token.clone()),
                    None => CallbackVerdict::Rejected("Missing token".to_owned()),
                },
            }
        },
    }
}

/// The page shown after a successful login.
pub fn success_page() -> (r: String)
    ensures
        r@ == SUCCESS_PAGE@,
{
    SUCCESS_PAGE.to_owned()
}

/// The page shown after a failed login, with `error` in it.
pub fn error_page(error: &str) -> (r: String)
    ensures
        r@ == ERROR_PAGE_HEAD@ + error@ + ERROR_PAGE_TAIL@,
{
    let mut page = ERROR_PAGE_HEAD.to_owned();
    page.append(error);
    page.append(ERROR_PAGE_TAIL);
    page
}

/// The token a signed-in command line sends: its JWT when it has one, else
/// its API key.
pub fn get_auth_token(saas_jwt_token: &Option<String>, saas_api_key: &Option<String>) -> (r: Result<String, String>)
    ensures
        match (saas_jwt_token, saas_api_key) {
            (Some(t), _) => r matches Ok(v) && v@ == t@,
            (None, Some(k)) => r matches Ok(v) && v@ == k@,
            (None, None) => r matches Err(m) && m@ == "Not authenticated. Run 'birch login' first."@,
        },
{
    match saas_jwt_token {
        Some(token) => Ok(token.clone()),
        None => match saas_api_key {
            Some(key) => Ok(key.clone()),
            None => Err("Not authenticated. Run 'birch login' first.".to_owned()),
        },
    }
}

} // verus!
