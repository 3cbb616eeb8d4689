use mcp_session::daemon_lease::{
    get_auth_token_request, has_extension, home_control_socket, judge_reply, read_reply,
    resolve_daemon_control_socket_path, DaemonReply, DirectoryEntry, LeaseError, ReplyError,
    ReplyVerdict, SocketProbe, CONTROL_SOCKET_DIRECTORY, CONTROL_SOCKET_FILE,
    UDS_WEBSOCKET_HANDSHAKE_URL,
};
use mcp_session::lease_session::{
    lease_access_token_from_daemon, lease_access_token_from_socket, DaemonMessage, LeaseAction,
    LeaseEvent, LeaseSession, McpGetAuthTokenResponse,
};

fn entry(path: &'static str, exists: bool) -> DirectoryEntry<&'static str> {
    DirectoryEntry::Readable {
        path,
        file_name: path.to_string(),
        exists,
    }
}

fn caused(cause: &str) -> String {
    cause.to_string()
}

fn receiving(server_name: &str) -> LeaseSession {
    lease_access_token_from_socket("/run/daemon.sock".to_string(), server_name.to_string(), false)
        .advance(LeaseEvent::RequestBuilt)
        .advance(LeaseEvent::Connected)
        .advance(LeaseEvent::Upgraded)
        .advance(LeaseEvent::Sent)
}

fn text(session: LeaseSession, text: &str) -> LeaseSession {
    session.advance(LeaseEvent::Received(DaemonMessage::Text(text.to_string())))
}

fn failure(session: LeaseSession) -> String {
    match session.outcome() {
        Some(Err(error)) => error.message(),
        _ => panic!("the session did not fail"),
    }
}

#[test]
fn constants_name_the_control_socket() {
    assert_eq!(CONTROL_SOCKET_DIRECTORY, "app-server-control");
    assert_eq!(CONTROL_SOCKET_FILE, "app-server-control.sock");
    assert_eq!(UDS_WEBSOCKET_HANDSHAKE_URL, "ws://localhost/mcp");
}

#[test]
fn home_socket_comes_first() {
    let home = Some(SocketProbe {
        path: "home.sock",
        exists: true,
    });
    let found = resolve_daemon_control_socket_path(home, vec![entry("shared", true)]);
    assert_eq!(found, Some("home.sock"));
}

#[test]
fn shared_directory_is_searched_when_home_has_no_socket() {
    let home = Some(SocketProbe {
        path: "home.sock",
        exists: false,
    });
    let shared = vec![
        DirectoryEntry::Unreadable,
        entry("daemon.lock", true),
        entry("gone", false),
        entry(".first", true),
        entry("second", true),
    ];
    assert_eq!(resolve_daemon_control_socket_path(home, shared), Some(".first"));
    assert_eq!(
        resolve_daemon_control_socket_path(None, vec![entry("daemon.lock", true)]),
        None
    );
    assert_eq!(resolve_daemon_control_socket_path::<&str>(None, vec![]), None);
}

#[test]
fn request_carries_server_and_flag() {
    let request = get_auth_token_request("my \"server\"", true);
    let value: serde_json::Value = serde_json::from_str(&request).unwrap();
    assert_eq!(value["jsonrpc"].as_str(), Some("2.0"));
    assert_eq!(value["id"].as_u64(), Some(1));
    assert_eq!(value["method"].as_str(), Some("mcp/getAuthToken"));
    assert_eq!(value["params"]["server_name"].as_str(), Some("my \"server\""));
    assert_eq!(value["params"]["force_refresh"].as_bool(), Some(true));
    assert_eq!(value.as_object().unwrap().len(), 4);
    assert_eq!(value["params"].as_object().unwrap().len(), 2);
    assert_eq!(
        get_auth_token_request("fabric", false),
        "{\"id\":1,\"jsonrpc\":\"2.0\",\"method\":\"mcp/getAuthToken\",\"params\":{\"force_refresh\":false,\"server_name\":\"fabric\"}}"
    );
}

#[test]
fn replies_are_read_from_json() {
    let reply = read_reply(" { \"id\" : 1, \"result\" : { \"b\" : 2, \"a\" : [ 1 ] } } ").unwrap();
    assert_eq!(reply.id, Some(1));
    assert!(reply.error.is_none());
    assert_eq!(reply.result.as_deref(), Some("{\"a\":[1],\"b\":2}"));

    let reply = read_reply("{\"id\":1,\"error\":{\"message\":\"no \\\"grant\\\"\"}}").unwrap();
    assert_eq!(reply.error.unwrap().message.as_deref(), Some("no \"grant\""));

    let reply = read_reply("{\"id\":\"1\",\"error\":null}").unwrap();
    assert_eq!(reply.id, None);
    assert_eq!(reply.error.unwrap().message, None);

    let reply = read_reply("{\"id\":1.0}").unwrap();
    assert_eq!(reply.id, None);

    let reply = read_reply("[1]").unwrap();
    assert!(reply.id.is_none() && reply.error.is_none() && reply.result.is_none());

    let message = |text: &str| match read_reply(text) {
        Ok(_) => panic!("the text was read"),
        Err(message) => message,
    };
    assert_eq!(message("{"), "EOF while parsing an object at line 1 column 1");
    assert_eq!(message(""), "EOF while parsing a value at line 1 column 0");
    assert_eq!(
        message("not json"),
        serde_json::from_str::<serde_json::Value>("not json")
            .unwrap_err()
            .to_string()
    );
}

#[test]
fn verdicts_follow_id_error_and_result() {
    let other = judge_reply(DaemonReply {
        id: Some(2),
        error: Some(ReplyError { message: None }),
        result: Some("{}".to_string()),
    });
    assert!(matches!(other, ReplyVerdict::KeepWaiting));
    let both = judge_reply(DaemonReply {
        id: Some(1),
        error: Some(ReplyError {
            message: Some("denied".to_string()),
        }),
        result: Some("{}".to_string()),
    });
    assert!(matches!(both, ReplyVerdict::Refused { message } if message == "denied"));
    let unnamed = judge_reply(DaemonReply {
        id: Some(1),
        error: Some(ReplyError { message: None }),
        result: None,
    });
    assert!(matches!(unnamed, ReplyVerdict::Refused { message } if message == "unknown error"));
    let granted = judge_reply(DaemonReply {
        id: Some(1),
        error: None,
        result: Some("{}".to_string()),
    });
    assert!(matches!(granted, ReplyVerdict::Granted { result } if result == "{}"));
    let empty = judge_reply(DaemonReply {
        id: Some(1),
        error: None,
        result: None,
    });
    assert!(matches!(empty, ReplyVerdict::KeepWaiting));
}

#[test]
fn a_lease_runs_to_its_token() {
    let session =
        lease_access_token_from_socket("/run/daemon.sock".to_string(), "fabric".to_string(), true);
    assert!(matches!(session.pending(), LeaseAction::BuildRequest));
    let session = session.advance(LeaseEvent::RequestBuilt);
    assert!(matches!(session.pending(), LeaseAction::Connect));
    let session = session.advance(LeaseEvent::Connected);
    assert!(matches!(session.pending(), LeaseAction::Upgrade));
    let session = session.advance(LeaseEvent::Upgraded);
    match session.pending() {
        LeaseAction::Send { text } => assert_eq!(text, get_auth_token_request("fabric", true)),
        _ => panic!("nothing to send"),
    }
    let session = session.advance(LeaseEvent::Sent);
    assert!(matches!(session.pending(), LeaseAction::Receive));
    let session = session.advance(LeaseEvent::Received(DaemonMessage::Other));
    let session = text(session, "{\"method\":\"notice\"}");
    let session = text(session, "{\"id\":7,\"result\":{}}");
    assert!(matches!(session.pending(), LeaseAction::Receive));
    let session = text(session, "{\"id\":1,\"result\":{\"accessToken\":\"t\"}}");
    match session.pending() {
        LeaseAction::Decode { result } => assert_eq!(result, "{\"accessToken\":\"t\"}"),
        _ => panic!("nothing to decode"),
    }
    let session = session.advance(LeaseEvent::Decoded(McpGetAuthTokenResponse {
        access_token: "t".to_string(),
        expires_at: Some(99),
    }));
    assert!(matches!(session.pending(), LeaseAction::Close));
    let session = session.advance(LeaseEvent::Closed);
    assert!(matches!(session.pending(), LeaseAction::Finish));
    // An outcome is final.
    let session = session.advance(LeaseEvent::StreamEnded);
    match session.outcome() {
        Some(Ok(token)) => {
            assert_eq!(token.access_token, "t");
            assert_eq!(token.expires_at, Some(99));
        }
        _ => panic!("no token"),
    }
}

#[test]
fn every_failure_has_its_message() {
    match lease_access_token_from_daemon(None, "fabric".to_string(), false) {
        Err(error) => {
            assert!(matches!(error, LeaseError::SocketNotFound));
            assert_eq!(
                error.message(),
                "Codex app-server daemon control socket not found"
            );
        }
        Ok(_) => panic!("a session without a socket"),
    }
    let start = || match lease_access_token_from_daemon(
        Some("/run/daemon.sock".to_string()),
        "fabric".to_string(),
        false,
    ) {
        Ok(session) => session,
        Err(_) => panic!("no session"),
    };
    assert_eq!(
        failure(start().advance(LeaseEvent::RequestRejected {
            cause: "bad".to_string()
        })),
        "invalid UDS websocket handshake URL: bad"
    );
    assert_eq!(
        failure(
            start()
                .advance(LeaseEvent::RequestBuilt)
                .advance(LeaseEvent::ConnectFailed { cause: caused("lost") })
        ),
        "failed to connect to daemon socket at /run/daemon.sock"
    );
    assert_eq!(
        failure(
            start()
                .advance(LeaseEvent::RequestBuilt)
                .advance(LeaseEvent::Connected)
                .advance(LeaseEvent::UpgradeFailed { cause: caused("lost") })
        ),
        "failed to upgrade websocket on daemon socket at /run/daemon.sock"
    );
    assert_eq!(
        failure(
            start()
                .advance(LeaseEvent::RequestBuilt)
                .advance(LeaseEvent::Connected)
                .advance(LeaseEvent::Upgraded)
                .advance(LeaseEvent::SendFailed { cause: caused("lost") })
        ),
        "failed to send mcp/getAuthToken request to daemon"
    );
    assert_eq!(
        failure(receiving("fabric").advance(LeaseEvent::ReadFailed { cause: caused("lost") })),
        "error reading from daemon websocket"
    );
    assert_eq!(
        failure(text(receiving("fabric"), "{")),
        "invalid JSON received from daemon: {"
    );
    assert_eq!(
        failure(text(
            receiving("fabric"),
            "{\"id\":1,\"error\":{\"message\":\"denied\"},\"result\":{}}"
        )),
        "Daemon error retrieving auth token for 'fabric': denied"
    );
    assert_eq!(
        failure(text(receiving("fabric"), "{\"id\":1,\"error\":{\"code\":3}}")),
        "Daemon error retrieving auth token for 'fabric': unknown error"
    );
    assert_eq!(
        failure(
            text(receiving("fabric"), "{\"id\":1,\"result\":3}").advance(LeaseEvent::DecodeFailed { cause: caused("lost") })
        ),
        "failed to deserialize McpGetAuthTokenResponse"
    );
    assert_eq!(
        failure(receiving("fabric").advance(LeaseEvent::Received(DaemonMessage::Close(Some(
            "bye".to_string()
        ))))),
        "daemon closed websocket connection before responding: bye"
    );
    assert_eq!(
        failure(receiving("fabric").advance(LeaseEvent::Received(DaemonMessage::Close(None)))),
        "daemon closed websocket connection before responding: "
    );
    assert_eq!(
        failure(receiving("fabric").advance(LeaseEvent::StreamEnded)),
        "daemon closed connection without sending a response for mcp/getAuthToken"
    );
}

#[test]
fn the_request_is_sent_only_once() {
    let session = receiving("fabric").advance(LeaseEvent::Upgraded);
    assert!(matches!(session.pending(), LeaseAction::Receive));
    assert_eq!(session.server_name, "fabric");
    assert!(session.outcome().is_none());
}

#[test]
fn an_invalid_text_keeps_the_reason() {
    let session = text(receiving("fabric"), "{");
    match session.outcome() {
        Some(Err(error)) => {
            assert_eq!(error.message(), "invalid JSON received from daemon: {");
            assert_eq!(
                error.source(),
                Some("EOF while parsing an object at line 1 column 1")
            );
        }
        _ => panic!("the session did not fail"),
    }
    assert_eq!(LeaseError::NoResponse.source(), None);
}

#[test]
fn names_are_escaped_in_the_request() {
    let request = get_auth_token_request("a\"b\\c/\n\t\r\u{8}\u{c}\u{1f}\u{0}\u{7f}é", false);
    assert_eq!(
        request,
        "{\"id\":1,\"jsonrpc\":\"2.0\",\"method\":\"mcp/getAuthToken\",\"params\":{\"force_refresh\":false,\"server_name\":\"a\\\"b\\\\c/\\n\\t\\r\\b\\f\\u001f\\u0000\u{7f}é\"}}"
    );
}

#[test]
fn messages_that_are_passed_over_change_nothing() {
    let session = receiving("fabric");
    let session = text(session, "{\"id\":7,\"result\":{}}");
    let session = session.advance(LeaseEvent::Received(DaemonMessage::Other));
    assert!(matches!(session.pending(), LeaseAction::Receive));
    let session = text(session, "{\"id\":1,\"result\":{}}");
    assert!(matches!(session.pending(), LeaseAction::Decode { .. }));
}

#[test]
fn a_point_behind_the_first_character_makes_an_extension() {
    for name in [
        "", ".", "..", "...", "a", ".a", "a.", "a.b", ".a.b", "..a", "é.", "daemon.lock", ".é.",
    ] {
        let expected = std::path::Path::new("/run").join(name);
        let expected = !name.is_empty() && name != "." && expected.extension().is_some();
        assert_eq!(has_extension(name), expected, "{name}");
    }
    assert!(has_extension("daemon.lock"));
    assert!(!has_extension(".hidden"));
}

#[test]
fn the_control_socket_lies_below_the_home_directory() {
    let socket = home_control_socket("home".to_string(), |path: String, part: &str| {
        format!("{path}/{part}")
    });
    assert_eq!(socket, "home/app-server-control/app-server-control.sock");
}

#[test]
fn failures_keep_what_caused_them() {
    let source = |session: LeaseSession| match session.outcome() {
        Some(Err(error)) => error.source().map(|source| source.to_string()),
        _ => panic!("the session did not fail"),
    };
    let start = || {
        lease_access_token_from_socket("/run/daemon.sock".to_string(), "fabric".to_string(), false)
            .advance(LeaseEvent::RequestBuilt)
    };
    let upgrading = || start().advance(LeaseEvent::Connected);
    let sending = || upgrading().advance(LeaseEvent::Upgraded);
    let decoding = || text(receiving("fabric"), "{\"id\":1,\"result\":3}");
    let failures = vec![
        start().advance(LeaseEvent::ConnectFailed { cause: caused("c") }),
        upgrading().advance(LeaseEvent::UpgradeFailed { cause: caused("u") }),
        sending().advance(LeaseEvent::SendFailed { cause: caused("s") }),
        receiving("fabric").advance(LeaseEvent::ReadFailed { cause: caused("r") }),
        decoding().advance(LeaseEvent::DecodeFailed { cause: caused("d") }),
    ];
    let sources: Vec<Option<String>> = failures.into_iter().map(source).collect();
    let expected: Vec<Option<String>> =
        ["c", "u", "s", "r", "d"].iter().map(|cause| Some(caused(cause))).collect();
    assert_eq!(sources, expected);
    assert_eq!(source(receiving("fabric").advance(LeaseEvent::StreamEnded)), None);
    assert_eq!(
        LeaseError::InvalidHandshakeUrl { cause: caused("bad") }.source(),
        None
    );
}
