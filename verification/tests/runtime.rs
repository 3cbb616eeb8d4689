use mcp_session::lease_session::McpGetAuthTokenResponse;
use mcp_session::oauth_refresh_mode::McpOAuthRefreshMode;
use mcp_session::oauth_runtime::{
    OAuthRefresh, OAuthRuntime, RefreshAction, RefreshEvent, StoredOAuthTokens, TokenResponse,
};

fn initial_tokens() -> StoredOAuthTokens {
    StoredOAuthTokens {
        server_name: "fabric".to_string(),
        url: "https://fabric.test/mcp".to_string(),
        client_id: "client".to_string(),
        token_response: TokenResponse {
            access_token: "old".to_string(),
            token_type: "bearer".to_string(),
            expires_in: Some(3600),
            refresh_token: Some("secret".to_string()),
            scopes: Some(vec!["read".to_string(), "write".to_string()]),
            extra_fields: "{}".to_string(),
        },
        expires_at: Some(10),
    }
}

fn daemon() -> OAuthRuntime {
    OAuthRuntime::DaemonLease {
        server_name: "fabric".to_string(),
        expires_at: Some(10),
        initial_tokens: initial_tokens(),
    }
}

fn lease() -> McpGetAuthTokenResponse {
    McpGetAuthTokenResponse {
        access_token: "new".to_string(),
        expires_at: Some(500),
    }
}

fn message(refresh: OAuthRefresh) -> String {
    match refresh.outcome() {
        Some(Err(error)) => error.message(),
        _ => panic!("the refresh did not fail"),
    }
}

fn rejected(cause: &str) -> RefreshEvent {
    RefreshEvent::Rejected {
        cause: cause.to_string(),
    }
}

#[test]
fn the_default_mode_leases_from_the_daemon() {
    assert_eq!(
        McpOAuthRefreshMode::default(),
        McpOAuthRefreshMode::DaemonLease
    );
}

#[test]
fn legacy_refreshes_through_its_persistor() {
    let mut runtime = OAuthRuntime::Legacy;
    let refresh = runtime.refresh_if_needed();
    assert!(matches!(
        refresh.pending(&runtime),
        RefreshAction::RefreshPersistor { force: false }
    ));
    let refresh = refresh.advance(&mut runtime, RefreshEvent::Completed);
    assert!(matches!(refresh.outcome(), Some(Ok(()))));

    let refresh = runtime.force_refresh();
    assert!(matches!(
        refresh.pending(&runtime),
        RefreshAction::RefreshPersistor { force: true }
    ));
    let refresh = refresh.advance(&mut runtime, rejected("no network"));
    assert_eq!(message(refresh), "no network");
}

#[test]
fn coordinated_refreshes_only_when_needed() {
    let mut runtime = OAuthRuntime::Coordinated;
    let refresh = runtime.refresh_if_needed();
    assert!(matches!(refresh.pending(&runtime), RefreshAction::ReadStore));
    let refresh = refresh.advance(&mut runtime, RefreshEvent::StoredCredentials(Some(Some(7))));
    assert!(matches!(
        refresh.pending(&runtime),
        RefreshAction::CheckExpiry {
            expires_at: Some(7)
        }
    ));
    let refresh = refresh.advance(&mut runtime, RefreshEvent::NeedsRefresh(false));
    assert!(matches!(refresh.pending(&runtime), RefreshAction::Finish));
    assert!(matches!(refresh.outcome(), Some(Ok(()))));

    let refresh = runtime
        .refresh_if_needed()
        .advance(&mut runtime, RefreshEvent::StoredCredentials(None));
    assert!(matches!(
        refresh.pending(&runtime),
        RefreshAction::CheckExpiry { expires_at: None }
    ));
    let refresh = refresh.advance(&mut runtime, RefreshEvent::NeedsRefresh(true));
    assert!(matches!(
        refresh.pending(&runtime),
        RefreshAction::RefreshStore
    ));
    let refresh = refresh.advance(&mut runtime, RefreshEvent::TaskFailed);
    assert_eq!(message(refresh), "OAuth refresh task failed");
}

#[test]
fn a_forced_refresh_does_not_ask() {
    let mut runtime = OAuthRuntime::Coordinated;
    let refresh = runtime.force_refresh();
    assert!(matches!(
        refresh.pending(&runtime),
        RefreshAction::RefreshStore
    ));
    let refresh = refresh.advance(&mut runtime, rejected("store"));
    assert_eq!(message(refresh), "store");

    let runtime = daemon();
    let refresh = runtime.force_refresh();
    assert!(matches!(
        refresh.pending(&runtime),
        RefreshAction::Lease {
            server_name: "fabric",
            force_refresh: true
        }
    ));
}

#[test]
fn a_fresh_lease_is_left_alone() {
    let mut runtime = daemon();
    let refresh = runtime.refresh_if_needed();
    assert!(matches!(
        refresh.pending(&runtime),
        RefreshAction::CheckExpiry {
            expires_at: Some(10)
        }
    ));
    let refresh = refresh.advance(&mut runtime, RefreshEvent::NeedsRefresh(false));
    assert!(matches!(refresh.outcome(), Some(Ok(()))));
}

#[test]
fn a_lease_installs_the_token_without_the_refresh_token() {
    let mut runtime = daemon();
    let refresh = runtime
        .refresh_if_needed()
        .advance(&mut runtime, RefreshEvent::NeedsRefresh(true));
    assert!(matches!(
        refresh.pending(&runtime),
        RefreshAction::Lease {
            server_name: "fabric",
            force_refresh: false
        }
    ));
    let refresh = refresh.advance(&mut runtime, RefreshEvent::Leased(lease()));
    match refresh.pending(&runtime) {
        RefreshAction::Install { tokens } => {
            assert_eq!(tokens.token_response.access_token, "new");
            assert_eq!(tokens.token_response.refresh_token, None);
            assert_eq!(tokens.token_response.token_type, "bearer");
            assert_eq!(tokens.token_response.expires_in, Some(3600));
            assert_eq!(
                tokens.token_response.scopes,
                Some(vec!["read".to_string(), "write".to_string()])
            );
            assert_eq!(tokens.token_response.extra_fields, "{}");
            assert_eq!(tokens.server_name, "fabric");
            assert_eq!(tokens.url, "https://fabric.test/mcp");
            assert_eq!(tokens.client_id, "client");
            assert_eq!(tokens.expires_at, Some(500));
        }
        _ => panic!("nothing to install"),
    }
    let refresh = refresh.advance(&mut runtime, RefreshEvent::Completed);
    assert!(matches!(refresh.outcome(), Some(Ok(()))));
    // The next refresh checks the expiry of the lease.
    assert!(matches!(
        runtime.refresh_if_needed().pending(&runtime),
        RefreshAction::CheckExpiry {
            expires_at: Some(500)
        }
    ));
    match runtime {
        OAuthRuntime::DaemonLease { initial_tokens, .. } => {
            assert_eq!(initial_tokens.token_response.access_token, "old");
            assert_eq!(
                initial_tokens.token_response.refresh_token.as_deref(),
                Some("secret")
            );
        }
        _ => panic!("the mode changed"),
    }
}

#[test]
fn a_failed_lease_keeps_the_expiry() {
    let mut runtime = daemon();
    let refresh = runtime
        .force_refresh()
        .advance(&mut runtime, rejected("denied"));
    assert_eq!(message(refresh), "denied");
    let refresh = runtime
        .force_refresh()
        .advance(&mut runtime, RefreshEvent::TaskFailed);
    assert_eq!(message(refresh), "Daemon token lease task failed");
    assert!(matches!(
        runtime.refresh_if_needed().pending(&runtime),
        RefreshAction::CheckExpiry {
            expires_at: Some(10)
        }
    ));
}

#[test]
fn a_failed_install_keeps_the_new_expiry() {
    let mut runtime = daemon();
    let refresh = runtime
        .force_refresh()
        .advance(&mut runtime, RefreshEvent::Leased(lease()))
        .advance(&mut runtime, rejected("manager"));
    assert_eq!(message(refresh), "manager");
    assert!(matches!(
        runtime.refresh_if_needed().pending(&runtime),
        RefreshAction::CheckExpiry {
            expires_at: Some(500)
        }
    ));
}

#[test]
fn a_refresh_takes_at_most_three_answers() {
    let mut runtime = OAuthRuntime::Coordinated;
    let refresh = runtime.refresh_if_needed();
    let refresh = refresh.advance(&mut runtime, RefreshEvent::StoredCredentials(Some(Some(5))));
    // An answer to other work changes nothing.
    let refresh = refresh.advance(&mut runtime, RefreshEvent::Completed);
    let refresh = refresh.advance(&mut runtime, RefreshEvent::NeedsRefresh(true));
    assert!(matches!(refresh.pending(&runtime), RefreshAction::RefreshStore));
    let refresh = refresh.advance(&mut runtime, RefreshEvent::Completed);
    assert!(matches!(refresh.pending(&runtime), RefreshAction::Finish));
    assert!(matches!(refresh.outcome(), Some(Ok(()))));
}
