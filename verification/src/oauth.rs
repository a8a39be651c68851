use oauth2::{AuthUrl, RedirectUrl, TokenUrl};
use vstd::prelude::*;
use vstd::string::StringExecFns;

verus! {

/// The provider's authorization endpoint.
pub const AUTH_URL: &'static str = "https://provider.com/oauth/authorize";

/// The provider's token endpoint.
pub const TOKEN_URL: &'static str = "https://provider.com/oauth/token";

/// Where the provider sends the user back after authorization.
pub const REDIRECT_URL: &'static str = "http://localhost:3000/auth/callback";

/// Whether `oauth2::AuthUrl::new` accepts `url` (it does when the `url`
/// crate parses it as an absolute URL).
pub uninterp spec fn auth_url_accepts(url: Seq<char>) -> bool;

/// Whether `oauth2::TokenUrl::new` accepts `url`.
pub uninterp spec fn token_url_accepts(url: Seq<char>) -> bool;

/// Whether `oauth2::RedirectUrl::new` accepts `url`.
pub uninterp spec fn redirect_url_accepts(url: Seq<char>) -> bool;

/// What the standard library's `Debug` formatting of a string gives: the
/// string quoted, with the characters that need it escaped.
pub uninterp spec fn debug_text(s: Seq<char>) -> Seq<char>;

/// Calls `oauth2::AuthUrl::new` on a copy of `url` and tells whether it
/// returned `Ok`. The contract claims only that this answer is a function of
/// `url` alone.
#[verifier::external_body]
fn auth_url_is_valid(url: &str) -> (ok: bool)
    ensures
        ok == auth_url_accepts(url@),
{
    AuthUrl::new(url.to_string()).is_ok()
}

/// Calls `oauth2::TokenUrl::new` on a copy of `url` and tells whether it
/// returned `Ok`. The contract claims only that this answer is a function of
/// `url` alone.
#[verifier::external_body]
fn token_url_is_valid(url: &str) -> (ok: bool)
    ensures
        ok == token_url_accepts(url@),
{
    TokenUrl::new(url.to_string()).is_ok()
}

/// Calls `oauth2::RedirectUrl::new` on a copy of `url` and tells whether it
/// returned `Ok`. The contract claims only that this answer is a function of
/// `url` alone.
#[verifier::external_body]
fn redirect_url_is_valid(url: &str) -> (ok: bool)
    ensures
        ok == redirect_url_accepts(url@),
{
    RedirectUrl::new(url.to_string()).is_ok()
}

/// Whether every character of `s` is printable ASCII (space to `~`) other
/// than the double quote and the backslash: the characters that `Debug`
/// writes unescaped.
pub open spec fn needs_no_escape(s: Seq<char>) -> bool {
    forall|i: int|
        0 <= i < s.len() ==> {
            let c = #[trigger] s[i];
            &&& ' ' <= c <= '~'
            &&& c != '"'
            &&& c != '\\'
        }
}

/// Formats `s` with the standard library's `Debug` (`format!("{:?}", s)`).
/// The contract claims that the text is a function of `s` alone; that it
/// starts and ends with a double quote and is at least two characters longer
/// than `s` (each character is written as itself or as an escape of one or
/// more characters); and that when no character of `s` needs escaping it is
/// `s` between double quotes. It does not state the escapes themselves.
#[verifier::external_body]
fn debug_string(s: &str) -> (text: String)
    ensures
        text@ == debug_text(s@),
        text@.len() >= s@.len() + 2,
        text@[0] == '"',
        text@.last() == '"',
        needs_no_escape(s@) ==> text@ == seq!['"'] + s@ + seq!['"'],
{
    format!("{:?}", s)
}

/// The settings of the OAuth2 client: its credentials and the three
/// endpoints, each of which the `oauth2` crate accepted.
pub struct OAuthClientConfig {
    pub client_id: String,
    pub client_secret: String,
    pub auth_url: String,
    pub token_url: String,
    pub redirect_url: String,
}

/// An endpoint that the `oauth2` crate refused.
#[derive(Debug, PartialEq, Eq, Structural)]
pub enum OAuthClientError {
    InvalidAuthUrl,
    InvalidTokenUrl,
    InvalidRedirectUrl,
}

/// What building the client settings gives, once each endpoint has been
/// checked: the first refused endpoint (authorization, then token, then
/// redirect) is reported, else the settings hold the credentials and the
/// three endpoints.
pub open spec fn config_outcome(
    client_id: Seq<char>,
    client_secret: Seq<char>,
    auth_ok: bool,
    token_ok: bool,
    redirect_ok: bool,
) -> Result<(Seq<char>, Seq<char>), OAuthClientError> {
    if !auth_ok {
        Err(OAuthClientError::InvalidAuthUrl)
    } else if !token_ok {
        Err(OAuthClientError::InvalidTokenUrl)
    } else if !redirect_ok {
        Err(OAuthClientError::InvalidRedirectUrl)
    } else {
        Ok((client_id, client_secret))
    }
}

/// Whether `r` is the outcome that `config_outcome` describes, the
/// endpoints of a successful outcome being the three fixed ones.
pub open spec fn is_config_outcome(
    r: Result<OAuthClientConfig, OAuthClientError>,
    client_id: Seq<char>,
    client_secret: Seq<char>,
    auth_ok: bool,
    token_ok: bool,
    redirect_ok: bool,
) -> bool {
    match config_outcome(client_id, client_secret, auth_ok, token_ok, redirect_ok) {
        Err(e) => r == Err::<OAuthClientConfig, OAuthClientError>(e),
        Ok((id, secret)) => match r {
            Ok(c) => {
                &&& c.client_id@ == id
                &&& c.client_secret@ == secret
                &&& c.auth_url@ == AUTH_URL@
                &&& c.token_url@ == TOKEN_URL@
                &&& c.redirect_url@ == REDIRECT_URL@
            },
            Err(_) => false,
        },
    }
}

/// Building the client settings succeeds exactly when all three endpoints
/// were accepted, and then the settings hold exactly the given credentials
/// and the provider's endpoints; otherwise the first refused endpoint, in the
/// order authorization, token, redirect, is reported.
pub proof fn lemma_config_outcome_laws(
    r: Result<OAuthClientConfig, OAuthClientError>,
    client_id: Seq<char>,
    client_secret: Seq<char>,
    auth_ok: bool,
    token_ok: bool,
    redirect_ok: bool,
)
    requires
        is_config_outcome(r, client_id, client_secret, auth_ok, token_ok, redirect_ok),
    ensures
        r is Ok <==> (auth_ok && token_ok && redirect_ok),
        !auth_ok ==> r == Err::<OAuthClientConfig, OAuthClientError>(
            OAuthClientError::InvalidAuthUrl,
        ),
        auth_ok && !token_ok ==> r == Err::<OAuthClientConfig, OAuthClientError>(
            OAuthClientError::InvalidTokenUrl,
        ),
        auth_ok && token_ok && !redirect_ok ==> r == Err::<OAuthClientConfig, OAuthClientError>(
            OAuthClientError::InvalidRedirectUrl,
        ),
        r matches Ok(c) ==> {
            &&& c.client_id@ == client_id
            &&& c.client_secret@ == client_secret
            &&& c.auth_url@ == AUTH_URL@
            &&& c.token_url@ == TOKEN_URL@
            &&& c.redirect_url@ == REDIRECT_URL@
        },
{
}

/// Builds the client settings from the credentials and the verdicts on the
/// three endpoints.
pub fn client_config(
    client_id: String,
    client_secret: String,
    auth_ok: bool,
    token_ok: bool,
    redirect_ok: bool,
) -> (r: Result<OAuthClientConfig, OAuthClientError>)
    ensures
        is_config_outcome(r, client_id@, client_secret@, auth_ok, token_ok, redirect_ok),
        r is Ok <==> (auth_ok && token_ok && redirect_ok),
        !auth_ok ==> r == Err::<OAuthClientConfig, OAuthClientError>(
            OAuthClientError::InvalidAuthUrl,
        ),
        auth_ok && !token_ok ==> r == Err::<OAuthClientConfig, OAuthClientError>(
            OAuthClientError::InvalidTokenUrl,
        ),
        auth_ok && token_ok && !redirect_ok ==> r == Err::<OAuthClientConfig, OAuthClientError>(
            OAuthClientError::InvalidRedirectUrl,
        ),
        r matches Ok(c) ==> {
            &&& c.client_id@ == client_id@
            &&& c.client_secret@ == client_secret@
            &&& c.auth_url@ == AUTH_URL@
            &&& c.token_url@ == TOKEN_URL@
            &&& c.redirect_url@ == REDIRECT_URL@
        },
{
    if !auth_ok {
        Err(OAuthClientError::InvalidAuthUrl)
    } else if !token_ok {
        Err(OAuthClientError::InvalidTokenUrl)
    } else if !redirect_ok {
        Err(OAuthClientError::InvalidRedirectUrl)
    } else {
        Ok(OAuthClientConfig {
            client_id,
            client_secret,
            auth_url: String::from_str(AUTH_URL),
            token_url: String::from_str(TOKEN_URL),
            redirect_url: String::from_str(REDIRECT_URL),
        })
    }
}

/// Creates and configures the OAuth2 client settings for the given
/// credentials, with the provider's endpoints checked by the `oauth2` crate.
pub fn oauth_client(client_id: String, client_secret: String) -> (r: Result<
    OAuthClientConfig,
    OAuthClientError,
>)
    ensures
        is_config_outcome(
            r,
            client_id@,
            client_secret@,
            auth_url_accepts(AUTH_URL@),
            token_url_accepts(TOKEN_URL@),
            redirect_url_accepts(REDIRECT_URL@),
        ),
        r is Ok <==> (auth_url_accepts(AUTH_URL@) && token_url_accepts(TOKEN_URL@) && redirect_url_accepts(REDIRECT_URL@)),
        !auth_url_accepts(AUTH_URL@) ==> r == Err::<OAuthClientConfig, OAuthClientError>(
            OAuthClientError::InvalidAuthUrl,
        ),
        auth_url_accepts(AUTH_URL@) && !token_url_accepts(TOKEN_URL@) ==> r == Err::<OAuthClientConfig, OAuthClientError>(
            OAuthClientError::InvalidTokenUrl,
        ),
        auth_url_accepts(AUTH_URL@) && token_url_accepts(TOKEN_URL@) && !redirect_url_accepts(REDIRECT_URL@) ==> r == Err::<OAuthClientConfig, OAuthClientError>(
            OAuthClientError::InvalidRedirectUrl,
        ),
        r matches Ok(c) ==> {
            &&& c.client_id@ == client_id@
            &&& c.client_secret@ == client_secret@
            &&& c.auth_url@ == AUTH_URL@
            &&& c.token_url@ == TOKEN_URL@
            &&& c.redirect_url@ == REDIRECT_URL@
        },
{
    let auth_ok = auth_url_is_valid(AUTH_URL);
    let token_ok = token_url_is_valid(TOKEN_URL);
    let redirect_ok = redirect_url_is_valid(REDIRECT_URL);
    client_config(client_id, client_secret, auth_ok, token_ok, redirect_ok)
}

/// The answer to a successful authorization callback: the access token's
/// secret, `Debug`-formatted, behind "Access Token: ".
pub fn access_token_message(secret: &str) -> (msg: String)
    ensures
        msg@ == "Access Token: "@ + debug_text(secret@),
        needs_no_escape(secret@) ==> msg@ == "Access Token: "@ + seq!['"'] + secret@ + seq!['"'],
        msg@.len() >= "Access Token: "@.len() + secret@.len() + 2,
{
    let quoted = debug_string(secret);
    let msg = String::from_str("Access Token: ");
    msg.concat(quoted.as_str())
}

} // verus!
