use mcp_session::refresh_worker::{
    refresh_expiring_tokens, spawn, spawn_with_interval, EffectiveServer, ExpiringTokens,
    StreamableHttpRedirectMode, TokenAction, TokenEvent, WorkerAction, WorkerEvent,
};

type Tokens = ExpiringTokens<String, &'static str, u32, Vec<u8>>;
type Event = TokenEvent<&'static str, u32, Vec<u8>>;

fn server(name: &str, agent_plugin: bool, url: Option<&str>) -> EffectiveServer<String> {
    EffectiveServer {
        name: name.to_string(),
        agent_plugin,
        credential_name: format!("{name}-credential"),
        url: url.map(|url| url.to_string()),
        config: format!("{name}-config"),
    }
}

fn found(has_refresh_token: bool) -> Event {
    TokenEvent::SnapshotFound {
        snapshot: "stored",
        has_refresh_token,
        expires_at: Some(5),
    }
}

fn loads(tokens: &Tokens, name: &str) -> bool {
    matches!(tokens.pending(), TokenAction::LoadSnapshot { credential_name, .. } if credential_name == name)
}

#[test]
fn the_worker_refreshes_once_a_minute() {
    let mut worker = spawn();
    assert_eq!(worker.pending(), WorkerAction::Poll);
    worker.advance(WorkerEvent::Polled { cancelled: false });
    assert_eq!(worker.pending(), WorkerAction::Refresh);
    worker.advance(WorkerEvent::Refreshed { ok: false });
    assert_eq!(
        worker.pending(),
        WorkerAction::Sleep {
            nanos: 60_000_000_000
        }
    );
    worker.advance(WorkerEvent::Slept);
    assert_eq!(worker.pending(), WorkerAction::Poll);
}

#[test]
fn shutdown_stops_the_worker() {
    let mut worker = spawn_with_interval(5);
    worker.advance(WorkerEvent::Polled { cancelled: true });
    assert_eq!(worker.pending(), WorkerAction::Stop);
    worker.advance(WorkerEvent::Polled { cancelled: false });
    assert_eq!(worker.pending(), WorkerAction::Stop);

    let mut worker = spawn_with_interval(5);
    worker.advance(WorkerEvent::Polled { cancelled: false });
    worker.advance(WorkerEvent::Refreshed { ok: true });
    assert_eq!(worker.pending(), WorkerAction::Sleep { nanos: 5 });
    worker.advance(WorkerEvent::Cancelled);
    assert_eq!(worker.pending(), WorkerAction::Stop);
}

#[test]
fn servers_without_http_are_skipped() {
    let tokens: Tokens = refresh_expiring_tokens(vec![
        server("stdio", false, None),
        server("http", false, Some("https://http.test")),
        server("stdio2", false, None),
    ]);
    assert_eq!(tokens.position(), 1);
    match tokens.pending() {
        TokenAction::LoadSnapshot {
            credential_name,
            url,
        } => {
            assert_eq!(credential_name, "http-credential");
            assert_eq!(url, "https://http.test");
        }
        _ => panic!("nothing to load"),
    }
    let tokens = tokens.advance(TokenEvent::SnapshotMissing);
    assert_eq!(tokens.position(), 3);
    assert!(matches!(tokens.pending(), TokenAction::Finish));
    let none: Tokens = refresh_expiring_tokens(vec![]);
    assert!(matches!(none.pending(), TokenAction::Finish));
}

#[test]
fn an_expiring_token_is_refreshed() {
    for (agent_plugin, mode) in [
        (true, StreamableHttpRedirectMode::AgentPluginV1),
        (false, StreamableHttpRedirectMode::Legacy),
    ] {
        let tokens: Tokens =
            refresh_expiring_tokens(vec![server("a", agent_plugin, Some("https://a.test"))]);
        let tokens = tokens.advance(found(true));
        assert!(matches!(
            tokens.pending(),
            TokenAction::CheckExpiry {
                expires_at: Some(5)
            }
        ));
        let tokens = tokens.advance(TokenEvent::NeedsRefresh(true));
        match tokens.pending() {
            TokenAction::ResolveClient { name, config } => {
                assert_eq!((name, config.as_str()), ("a", "a-config"));
            }
            _ => panic!("no client to resolve"),
        }
        let tokens = tokens.advance(TokenEvent::ClientResolved(7));
        match tokens.pending() {
            TokenAction::BuildHeaders { config } => assert_eq!(config, "a-config"),
            _ => panic!("no headers to build"),
        }
        let tokens = tokens.advance(TokenEvent::HeadersBuilt(vec![1, 2]));
        match tokens.pending() {
            TokenAction::Refresh {
                credential_name,
                url,
                snapshot,
                headers,
                client,
                redirect_mode,
                force_refresh,
            } => {
                assert_eq!(credential_name, "a-credential");
                assert_eq!(*snapshot, "stored");
                assert_eq!(*headers, vec![1, 2]);
                assert_eq!(*client, 7);
                assert_eq!(url, "https://a.test");
                assert_eq!(redirect_mode, mode);
                assert!(!force_refresh);
            }
            _ => panic!("nothing to refresh"),
        }
        let tokens = tokens.advance(TokenEvent::Refreshed { ok: true });
        assert!(matches!(tokens.pending(), TokenAction::Finish));
    }
}

#[test]
fn no_obstacle_keeps_the_next_server_waiting() {
    let two = || -> Tokens {
        refresh_expiring_tokens(vec![
            server("a", false, Some("https://a.test")),
            server("b", false, Some("https://b.test")),
        ])
    };
    let obstacles: Vec<Vec<Event>> = vec![
        vec![TokenEvent::SnapshotFailed],
        vec![TokenEvent::SnapshotMissing],
        vec![found(false)],
        vec![found(true), TokenEvent::NeedsRefresh(false)],
        vec![
            found(true),
            TokenEvent::NeedsRefresh(true),
            TokenEvent::ClientFailed,
        ],
        vec![
            found(true),
            TokenEvent::NeedsRefresh(true),
            TokenEvent::ClientResolved(7),
            TokenEvent::HeadersFailed,
        ],
        vec![
            found(true),
            TokenEvent::NeedsRefresh(true),
            TokenEvent::ClientResolved(7),
            TokenEvent::HeadersBuilt(vec![1, 2]),
            TokenEvent::Refreshed { ok: false },
        ],
    ];
    for events in obstacles {
        let mut tokens = two();
        assert!(loads(&tokens, "a-credential"));
        for event in events {
            tokens = tokens.advance(event);
        }
        assert!(loads(&tokens, "b-credential"));
    }
}

#[test]
fn a_refresh_takes_at_most_five_answers_per_server() {
    let tokens: Tokens = refresh_expiring_tokens(vec![
        server("local", false, None),
        server("remote", false, Some("https://remote")),
    ]);
    let tokens = tokens.advance(found(true));
    // An answer to other work changes nothing.
    let tokens = tokens.advance(TokenEvent::HeadersBuilt(vec![1, 2]));
    let tokens = tokens.advance(TokenEvent::NeedsRefresh(true));
    let tokens = tokens.advance(TokenEvent::ClientResolved(7));
    let tokens = tokens.advance(TokenEvent::HeadersBuilt(vec![1, 2]));
    assert!(matches!(tokens.pending(), TokenAction::Refresh { .. }));
    let tokens = tokens.advance(TokenEvent::Refreshed { ok: false });
    assert!(matches!(tokens.pending(), TokenAction::Finish));
}

#[test]
fn what_was_found_of_one_server_is_not_used_for_the_next() {
    let tokens: Tokens = refresh_expiring_tokens(vec![
        server("a", false, Some("https://a.test")),
        server("b", true, Some("https://b.test")),
    ]);
    let tokens = tokens.advance(found(true));
    let tokens = tokens.advance(TokenEvent::NeedsRefresh(true));
    let tokens = tokens.advance(TokenEvent::ClientResolved(1));
    let tokens = tokens.advance(TokenEvent::HeadersFailed);
    let tokens = tokens.advance(TokenEvent::SnapshotFound {
        snapshot: "of b",
        has_refresh_token: true,
        expires_at: None,
    });
    // A second snapshot answers nothing.
    let tokens = tokens.advance(found(true));
    assert!(matches!(
        tokens.pending(),
        TokenAction::CheckExpiry { expires_at: None }
    ));
    let tokens = tokens.advance(TokenEvent::NeedsRefresh(true));
    let tokens = tokens.advance(TokenEvent::ClientResolved(2));
    let tokens = tokens.advance(TokenEvent::HeadersBuilt(vec![9]));
    match tokens.pending() {
        TokenAction::Refresh {
            credential_name,
            snapshot,
            headers,
            client,
            ..
        } => {
            assert_eq!(credential_name, "b-credential");
            assert_eq!(*snapshot, "of b");
            assert_eq!(*headers, vec![9]);
            assert_eq!(*client, 2);
        }
        _ => panic!("nothing to refresh"),
    }
}
