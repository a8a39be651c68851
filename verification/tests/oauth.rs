use leptos_template::oauth::{
    access_token_message, client_config, oauth_client, OAuthClientError, AUTH_URL, REDIRECT_URL,
    TOKEN_URL,
};

#[test]
fn client_uses_given_credentials_and_provider_endpoints() {
    let cfg = oauth_client("my-id".to_string(), "my-secret".to_string()).unwrap();
    assert_eq!(cfg.client_id, "my-id");
    assert_eq!(cfg.client_secret, "my-secret");
    assert_eq!(cfg.auth_url, "https://provider.com/oauth/authorize");
    assert_eq!(cfg.token_url, "https://provider.com/oauth/token");
    assert_eq!(cfg.redirect_url, "http://localhost:3000/auth/callback");
    assert_eq!(cfg.auth_url, AUTH_URL);
    assert_eq!(cfg.token_url, TOKEN_URL);
    assert_eq!(cfg.redirect_url, REDIRECT_URL);
}

#[test]
fn first_refused_endpoint_is_reported() {
    let id = || "id".to_string();
    let secret = || "secret".to_string();
    assert_eq!(
        client_config(id(), secret(), false, false, false).err(),
        Some(OAuthClientError::InvalidAuthUrl)
    );
    assert_eq!(
        client_config(id(), secret(), true, false, false).err(),
        Some(OAuthClientError::InvalidTokenUrl)
    );
    assert_eq!(
        client_config(id(), secret(), true, true, false).err(),
        Some(OAuthClientError::InvalidRedirectUrl)
    );
    assert!(client_config(id(), secret(), true, true, true).is_ok());
}

#[test]
fn access_token_is_debug_quoted() {
    assert_eq!(access_token_message("abc123"), "Access Token: \"abc123\"");
    assert_eq!(access_token_message("a\"b\n"), "Access Token: \"a\\\"b\\n\"");
    assert_eq!(access_token_message(""), "Access Token: \"\"");
}
