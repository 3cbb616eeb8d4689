//! What leasing an access token comes to, from finding the socket to the
//! outcome, in terms of what goes in and what comes out.

use crate::daemon_lease;
use crate::daemon_lease::{
    DaemonReplyView, DirectoryEntry, LeaseErrorView, ReplyVerdictView, SocketProbe,
};
use crate::json;
use crate::lease_session::{
    DaemonMessageView, LeaseActionView, LeaseEventView, LeasePhaseView, LeaseSessionView,
    LeasedTokenView,
};
use vstd::prelude::*;

verus! {

/// A file name has an extension if a point stands behind its first character,
/// whatever stands around it; the one exception is the name of the parent
/// directory. A name without a point, and one whose only point comes first, has
/// none.
pub proof fn law_an_extension_is_a_point_behind_the_first_character(
    stem: Seq<char>,
    extension: Seq<char>,
    name: Seq<char>,
)
    ensures
        stem.len() > 0 && (stem.len() > 1 || stem[0] != '.' || extension.len() > 0)
            ==> daemon_lease::name_has_extension(stem + seq!['.'] + extension),
        !name.contains('.') ==> !daemon_lease::name_has_extension(name),
        !name.contains('.') ==> !daemon_lease::name_has_extension(seq!['.'] + name),
        !daemon_lease::name_has_extension(seq!['.', '.']),
{
    let whole = stem + seq!['.'] + extension;
    if stem.len() > 0 {
        assert(whole[stem.len() as int] == '.');
    }
    if whole == seq!['.', '.'] {
        assert(whole.len() == 2);
        assert(whole[0] == '.');
    }
    if !name.contains('.') {
        assert forall|i: int| 0 <= i < name.len() implies #[trigger] name[i] != '.' by {
            assert(name.contains(name[i]));
        }
        let hidden = seq!['.'] + name;
        assert forall|i: int| 1 <= i < hidden.len() implies #[trigger] hidden[i] != '.' by {
            assert(hidden[i] == name[i - 1]);
        }
    }
}

/// A socket that exists under the home directory is the control socket, whatever
/// the shared directory holds.
pub proof fn law_the_home_socket_comes_first<P>(
    home: SocketProbe<P>,
    shared: Seq<DirectoryEntry<P>>,
)
    requires
        home.exists,
    ensures
        daemon_lease::control_socket(Some(home), shared) == Some(home.path),
{
}

/// Without one, the control socket is the first entry of the shared directory
/// that exists and whose file name has no point behind its first character;
/// entries before it that cannot be read, do not exist or have such a point do
/// not matter, and neither does anything behind it.
pub proof fn law_the_first_plain_entry_is_the_socket<P>(
    home: Option<SocketProbe<P>>,
    before: Seq<DirectoryEntry<P>>,
    path: P,
    file_name: String,
    behind: Seq<DirectoryEntry<P>>,
)
    requires
        home is Some ==> !home->0.exists,
        file_name@ == seq!['.', '.'] || forall|i: int|
            1 <= i < file_name@.len() ==> #[trigger] file_name@[i] != '.',
        forall|k: int|
            0 <= k < before.len() ==> (#[trigger] before[k] is Unreadable || !before[k]->exists || (
            before[k]->file_name@ != seq!['.', '.'] && exists|i: int|
                1 <= i < before[k]->file_name@.len() && #[trigger] before[k]->file_name@[i] == '.')),
    ensures
        daemon_lease::control_socket(
            home,
            before + seq![DirectoryEntry::Readable { path, file_name, exists: true }] + behind,
        ) == Some(path),
    decreases before.len(),
{
    let entry = DirectoryEntry::Readable { path, file_name, exists: true };
    let all = before + seq![entry] + behind;
    if before.len() == 0 {
        assert(all[0] == entry);
        assert(!daemon_lease::name_has_extension(file_name@));
    } else {
        let rest = before.drop_first();
        assert(all[0] == before[0]);
        assert(!daemon_lease::is_socket_entry(before[0]));
        assert(all.drop_first() =~= rest + seq![entry] + behind);
        assert forall|k: int| 0 <= k < rest.len() implies (#[trigger] rest[k] is Unreadable
            || !rest[k]->exists || (rest[k]->file_name@ != seq!['.', '.'] && exists|i: int|
            1 <= i < rest[k]->file_name@.len() && #[trigger] rest[k]->file_name@[i] == '.')) by {
            assert(rest[k] == before[k + 1]);
        }
        law_the_first_plain_entry_is_the_socket(home, rest, path, file_name, behind);
    }
}

/// No control socket is found if and only if the home directory holds none and
/// every entry of the shared directory cannot be read, does not exist or has an
/// extension.
pub proof fn law_no_socket_is_found_where_none_is<P>(
    home: Option<SocketProbe<P>>,
    shared: Seq<DirectoryEntry<P>>,
)
    ensures
        daemon_lease::control_socket(home, shared) is None <==> !(home is Some && home->0.exists)
            && forall|k: int|
            0 <= k < shared.len() ==> (#[trigger] shared[k] is Unreadable || !shared[k]->exists || (
            shared[k]->file_name@ != seq!['.', '.'] && exists|i: int|
                1 <= i < shared[k]->file_name@.len() && #[trigger] shared[k]->file_name@[i] == '.')),
{
    daemon_lease::law_a_resolved_socket_exists(home, shared);
    assert forall|k: int| 0 <= k < shared.len() implies daemon_lease::is_socket_entry(
        #[trigger] shared[k],
    ) == !(shared[k] is Unreadable || !shared[k]->exists || (shared[k]->file_name@ != seq![
        '.',
        '.',
    ] && exists|i: int|
        1 <= i < shared[k]->file_name@.len() && #[trigger] shared[k]->file_name@[i] == '.')) by {
    }
}

/// The socket below the home directory lies in the directory
/// `app-server-control` and is named `app-server-control.sock`.
pub proof fn law_the_home_socket_has_its_place<P, J: Fn(P, &str) -> P>(
    join: J,
    home: P,
    socket: P,
)
    requires
        daemon_lease::joins_to_socket(join, home, socket),
    ensures
        exists|directory: P, part: &str, file: &str|
            part@ == "app-server-control"@ && file@ == "app-server-control.sock"@
                && #[trigger] call_ensures(join, (home, part), directory)
                && #[trigger] call_ensures(join, (directory, file), socket),
{
    let directory = choose|directory: P| #[trigger]
        call_ensures(join, (home, daemon_lease::CONTROL_SOCKET_DIRECTORY), directory)
            && call_ensures(join, (directory, daemon_lease::CONTROL_SOCKET_FILE), socket);
    assert(call_ensures(join, (home, daemon_lease::CONTROL_SOCKET_DIRECTORY), directory));
    assert(call_ensures(join, (directory, daemon_lease::CONTROL_SOCKET_FILE), socket));
    assert(daemon_lease::CONTROL_SOCKET_DIRECTORY@ == "app-server-control"@);
    assert(daemon_lease::CONTROL_SOCKET_FILE@ == "app-server-control.sock"@);
}

/// The request is a JSON-RPC request with the id 1 for `mcp/getAuthToken`, whose
/// parameters are the server's name and the flag, as they were given.
pub proof fn law_the_request_asks_for_what_was_given(server_name: Seq<char>, force_refresh: bool)
    ensures
        daemon_lease::request_text(server_name, force_refresh) == json::object_text(
            seq![
                ("jsonrpc"@, json::string_text("2.0"@)),
                ("id"@, seq!['1']),
                ("method"@, json::string_text("mcp/getAuthToken"@)),
                (
                    "params"@,
                    json::object_text(
                        seq![
                            ("server_name"@, json::string_text(server_name)),
                            (
                                "force_refresh"@,
                                if force_refresh {
                                    "true"@
                                } else {
                                    "false"@
                                },
                            ),
                        ],
                    ),
                ),
            ],
        ),
        daemon_lease::REQUEST_ID == 1,
{
    assert(json::decimal_digits(1) =~= seq!['1']);
}

/// A text from the daemon is read member by member: the `id` as an unsigned
/// number, the `message` of the `error` as a string, and the `result` whole. A
/// text that is not JSON gives the parser's message.
pub proof fn law_a_reply_is_read_member_by_member(text: Seq<char>)
    ensures
        json::parsed_text(text) matches Err(message) ==> daemon_lease::reply_of_text(text) == Err::<
            DaemonReplyView,
            Seq<char>,
        >(message),
        json::parsed_text(text) matches Ok(value) ==> {
            &&& daemon_lease::reply_of_text(text) matches Ok(reply)
            &&& match json::member_text(value, "id"@) {
                Some(id) => reply.id == json::unsigned_content(id),
                None => reply.id is None,
            }
            &&& match json::member_text(value, "error"@) {
                Some(error) => reply.error is Some && match json::member_text(error, "message"@) {
                    Some(message) => reply.error->0 == json::string_content(message),
                    None => reply.error->0 is None,
                },
                None => reply.error is None,
            }
            &&& reply.result == json::member_text(value, "result"@)
        },
{
}

/// A reply grants the request if and only if it has the id 1, no error and a
/// result, and then with that result. It refuses the request if and only if it
/// has the id 1 and an error, with the error's message where it has one. Every
/// other reply is waited past.
pub proof fn law_a_verdict_follows_id_error_and_result(
    reply: DaemonReplyView,
    result: Seq<char>,
    message: Seq<char>,
)
    ensures
        daemon_lease::verdict_of(reply) == (ReplyVerdictView::Granted { result }) <==> reply.id
            == Some(1u64) && reply.error is None && reply.result == Some(result),
        daemon_lease::verdict_of(reply) == (ReplyVerdictView::Refused { message }) <==> reply.id
            == Some(1u64) && (reply.error == Some(Some(message)) || (reply.error == Some(
            None::<Seq<char>>,
        ) && message == "unknown error"@)),
        daemon_lease::verdict_of(reply) is KeepWaiting <==> reply.id != Some(1u64) || (reply.error
            is None && reply.result is None),
{
}

/// What is shown of each error, and what it keeps of the error underneath.
pub proof fn law_every_error_says_what_went_wrong(
    socket_path: Seq<char>,
    server_name: Seq<char>,
    text: Seq<char>,
    cause: Seq<char>,
)
    ensures
        LeaseErrorView::SocketNotFound.message()
            == "Codex app-server daemon control socket not found"@,
        LeaseErrorView::SocketNotFound.source() is None,
        (LeaseErrorView::InvalidHandshakeUrl { cause }).message()
            == "invalid UDS websocket handshake URL: "@ + cause,
        (LeaseErrorView::InvalidHandshakeUrl { cause }).source() is None,
        (LeaseErrorView::Connect { socket_path, cause }).message()
            == "failed to connect to daemon socket at "@ + socket_path,
        (LeaseErrorView::Connect { socket_path, cause }).source() == Some(cause),
        (LeaseErrorView::Upgrade { socket_path, cause }).message()
            == "failed to upgrade websocket on daemon socket at "@ + socket_path,
        (LeaseErrorView::Upgrade { socket_path, cause }).source() == Some(cause),
        (LeaseErrorView::Send { cause }).message()
            == "failed to send mcp/getAuthToken request to daemon"@,
        (LeaseErrorView::Send { cause }).source() == Some(cause),
        (LeaseErrorView::Read { cause }).message() == "error reading from daemon websocket"@,
        (LeaseErrorView::Read { cause }).source() == Some(cause),
        (LeaseErrorView::InvalidJson { text, cause }).message()
            == "invalid JSON received from daemon: "@ + text,
        (LeaseErrorView::InvalidJson { text, cause }).source() == Some(cause),
        (LeaseErrorView::Daemon { server_name, message: text }).message()
            == "Daemon error retrieving auth token for '"@ + server_name + "': "@ + text,
        (LeaseErrorView::Daemon { server_name, message: text }).source() is None,
        (LeaseErrorView::Decode { cause }).message()
            == "failed to deserialize McpGetAuthTokenResponse"@,
        (LeaseErrorView::Decode { cause }).source() == Some(cause),
        (LeaseErrorView::ClosedBeforeResponse { reason: text }).message()
            == "daemon closed websocket connection before responding: "@ + text,
        (LeaseErrorView::ClosedBeforeResponse { reason: text }).source() is None,
        LeaseErrorView::NoResponse.message()
            == "daemon closed connection without sending a response for mcp/getAuthToken"@,
        LeaseErrorView::NoResponse.source() is None,
{
}

/// A session first builds the handshake request, then connects, then upgrades
/// the connection, then sends its request, and then waits for messages, whatever
/// the socket, the server and the flag.
pub proof fn law_a_session_gets_to_waiting(
    socket_path: Seq<char>,
    server_name: Seq<char>,
    force_refresh: bool,
)
    ensures
        ({
            let building = LeaseSessionView::start(socket_path, server_name, force_refresh);
            let connecting = building.next(LeaseEventView::RequestBuilt);
            let upgrading = connecting.next(LeaseEventView::Connected);
            let sending = upgrading.next(LeaseEventView::Upgraded);
            let receiving = sending.next(LeaseEventView::Sent);
            &&& building.socket_path == socket_path
            &&& building.server_name == server_name
            &&& building.force_refresh == force_refresh
            &&& building.pending() is BuildRequest
            &&& connecting.pending() is Connect
            &&& upgrading.pending() is Upgrade
            &&& sending.pending() == (LeaseActionView::Send {
                text: daemon_lease::request_text(server_name, force_refresh),
            })
            &&& receiving.pending() is Receive
            &&& receiving.socket_path == socket_path
            &&& receiving.server_name == server_name
            &&& receiving.force_refresh == force_refresh
        }),
{
}

/// Once a waiting session has received a reply with its request's id, no error
/// and a result, it asks for exactly that result to be decoded; once that gave a
/// token, it closes the websocket; and closing it, well or not, ends the session
/// with exactly that token. So it is for every socket, server and flag.
pub proof fn law_a_granted_token_is_leased(
    session: LeaseSessionView,
    text: Seq<char>,
    value: Seq<char>,
    id: Seq<char>,
    result: Seq<char>,
    token: LeasedTokenView,
)
    requires
        session.pending() is Receive,
        json::parsed_text(text) == Ok::<Seq<char>, Seq<char>>(value),
        json::member_text(value, "id"@) == Some(id),
        json::unsigned_content(id) == Some(1u64),
        json::member_text(value, "error"@) is None,
        json::member_text(value, "result"@) == Some(result),
    ensures
        ({
            let granted = session.next(LeaseEventView::Received(DaemonMessageView::Text(text)));
            let decoded = granted.next(LeaseEventView::Decoded(token));
            let closed = decoded.next(LeaseEventView::Closed);
            &&& granted.pending() == (LeaseActionView::Decode { result })
            &&& decoded.pending() is Close
            &&& closed.pending() is Finish
            &&& closed.phase == (LeasePhaseView::Leased { token })
        }),
{
}

/// A reply with the request's id and an error ends a waiting session with an
/// error that names the session's server and the error's message, or says
/// "unknown error" where it has none, whatever else the reply holds.
pub proof fn law_a_refused_request_fails(
    session: LeaseSessionView,
    text: Seq<char>,
    value: Seq<char>,
    id: Seq<char>,
    error: Seq<char>,
)
    requires
        session.pending() is Receive,
        json::parsed_text(text) == Ok::<Seq<char>, Seq<char>>(value),
        json::member_text(value, "id"@) == Some(id),
        json::unsigned_content(id) == Some(1u64),
        json::member_text(value, "error"@) == Some(error),
    ensures
        ({
            let refused = session.next(LeaseEventView::Received(DaemonMessageView::Text(text)));
            let message = match json::member_text(error, "message"@) {
                Some(message) => json::string_content(message),
                None => None,
            };
            refused.pending() is Finish && refused.phase == (LeasePhaseView::Failed {
                error: LeaseErrorView::Daemon {
                    server_name: session.server_name,
                    message: match message {
                        Some(message) => message,
                        None => "unknown error"@,
                    },
                },
            })
        }),
{
}

/// A waiting session goes on waiting, unchanged, after a message that is neither
/// text nor close, and after a JSON text whose `id` is missing or not the
/// number 1, or that holds neither an error nor a result.
pub proof fn law_other_messages_are_waited_past(
    session: LeaseSessionView,
    text: Seq<char>,
    value: Seq<char>,
)
    requires
        session.pending() is Receive,
        json::parsed_text(text) == Ok::<Seq<char>, Seq<char>>(value),
        (json::member_text(value, "id"@) is None || json::unsigned_content(
            json::member_text(value, "id"@)->0,
        ) != Some(1u64)) || (json::member_text(value, "error"@) is None && json::member_text(
            value,
            "result"@,
        ) is None),
    ensures
        session.next(LeaseEventView::Received(DaemonMessageView::Text(text))) == session,
        session.next(LeaseEventView::Received(DaemonMessageView::Other)) == session,
{
}

/// A waiting session fails at a text that is not JSON, with the text and the
/// parser's message; at a close message, with its reason; and at the end of the
/// stream.
pub proof fn law_waiting_can_fail(
    session: LeaseSessionView,
    text: Seq<char>,
    cause: Seq<char>,
    reason: Seq<char>,
)
    requires
        session.pending() is Receive,
        json::parsed_text(text) == Err::<Seq<char>, Seq<char>>(cause),
    ensures
        session.next(LeaseEventView::Received(DaemonMessageView::Text(text))).phase == (
        LeasePhaseView::Failed { error: LeaseErrorView::InvalidJson { text, cause } }),
        session.next(LeaseEventView::Received(DaemonMessageView::Close(Some(reason)))).phase == (
        LeasePhaseView::Failed { error: LeaseErrorView::ClosedBeforeResponse { reason } }),
        session.next(LeaseEventView::Received(DaemonMessageView::Close(None))).phase == (
        LeasePhaseView::Failed {
            error: LeaseErrorView::ClosedBeforeResponse { reason: Seq::empty() },
        }),
        session.next(LeaseEventView::StreamEnded).phase == (LeasePhaseView::Failed {
            error: LeaseErrorView::NoResponse,
        }),
{
}

/// Each piece of work that fails ends the session with the error of that work,
/// which names the session's socket where it is about the socket.
pub proof fn law_failing_work_ends_the_session(session: LeaseSessionView, cause: Seq<char>)
    ensures
        session.pending() is BuildRequest ==> session.next(
            LeaseEventView::RequestRejected { cause },
        ).phase == (LeasePhaseView::Failed { error: LeaseErrorView::InvalidHandshakeUrl { cause } }),
        session.pending() is Connect ==> session.next(LeaseEventView::ConnectFailed { cause }).phase
            == (LeasePhaseView::Failed {
            error: LeaseErrorView::Connect { socket_path: session.socket_path, cause },
        }),
        session.pending() is Upgrade ==> session.next(LeaseEventView::UpgradeFailed { cause }).phase
            == (LeasePhaseView::Failed {
            error: LeaseErrorView::Upgrade { socket_path: session.socket_path, cause },
        }),
        session.pending() is Send ==> session.next(LeaseEventView::SendFailed { cause }).phase == (
        LeasePhaseView::Failed { error: LeaseErrorView::Send { cause } }),
        session.pending() is Receive ==> session.next(LeaseEventView::ReadFailed { cause }).phase
            == (LeasePhaseView::Failed { error: LeaseErrorView::Read { cause } }),
        session.pending() is Decode ==> session.next(LeaseEventView::DecodeFailed { cause }).phase
            == (LeasePhaseView::Failed { error: LeaseErrorView::Decode { cause } }),
        session.pending() is Finish <==> session.phase is Leased || session.phase is Failed,
{
}

/// An event changes a session only as an answer to the work that the session
/// waits for; whatever the event, the session's socket, server and flag stay.
pub proof fn law_only_answers_change_a_session(session: LeaseSessionView, event: LeaseEventView)
    ensures
        session.next(event).socket_path == session.socket_path,
        session.next(event).server_name == session.server_name,
        session.next(event).force_refresh == session.force_refresh,
        session.next(event) == session || match session.pending() {
            LeaseActionView::BuildRequest => event is RequestBuilt || event is RequestRejected,
            LeaseActionView::Connect => event is Connected || event is ConnectFailed,
            LeaseActionView::Upgrade => event is Upgraded || event is UpgradeFailed,
            LeaseActionView::Send { .. } => event is Sent || event is SendFailed,
            LeaseActionView::Receive => event is Received || event is ReadFailed || event
                is StreamEnded,
            LeaseActionView::Decode { .. } => event is Decoded || event is DecodeFailed,
            LeaseActionView::Close => event is Closed,
            LeaseActionView::Finish => false,
        },
{
}

/// A session waits on after a reply that it keeps waiting past, fails with its
/// server's name after one that refuses, and decodes the result of one that
/// grants.
pub proof fn law_a_verdict_decides_what_follows(session: LeaseSessionView, text: Seq<char>)
    ensures
        session.after_verdict(ReplyVerdictView::KeepWaiting) is Receiving,
        session.after_verdict(ReplyVerdictView::Refused { message: text }) == (
        LeasePhaseView::Failed {
            error: LeaseErrorView::Daemon { server_name: session.server_name, message: text },
        }),
        session.after_verdict(ReplyVerdictView::Granted { result: text }) == (
        LeasePhaseView::Decoding { result: text }),
{
}

/// Every decoding answer is taken, whatever the session: the decoded token is
/// kept until the websocket is closed and is the outcome then.
pub proof fn law_a_decoded_token_is_the_outcome(session: LeaseSessionView, token: LeasedTokenView)
    requires
        session.pending() is Decode,
    ensures
        session.next(LeaseEventView::Decoded(token)).pending() is Close,
        session.next(LeaseEventView::Decoded(token)).next(LeaseEventView::Closed).phase == (
        LeasePhaseView::Leased { token }),
{
}

} // verus!
