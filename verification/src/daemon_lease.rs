//! Leasing MCP OAuth access tokens from the app-server daemon.
//!
//! The daemon owns the refresh tokens. A client finds the daemon's control
//! socket, sends one `mcp/getAuthToken` request over a websocket on it, and
//! waits for the reply with the request's id. This module finds the socket,
//! writes the request, and reads and judges replies.

use crate::json;
use crate::texts;
use vstd::prelude::*;

verus! {

/// The URL named in the websocket handshake on the control socket.
pub const UDS_WEBSOCKET_HANDSHAKE_URL: &'static str = "ws://localhost/mcp";

/// The directory under the home directory that holds the control socket.
pub const CONTROL_SOCKET_DIRECTORY: &'static str = "app-server-control";

/// The file name of the control socket.
pub const CONTROL_SOCKET_FILE: &'static str = "app-server-control.sock";

/// The id of the one request that a session sends.
pub const REQUEST_ID: u64 = 1;

/// A path that was looked up on disk.
pub struct SocketProbe<P> {
    pub path: P,
    pub exists: bool,
}

/// One entry of the shared socket directory.
pub enum DirectoryEntry<P> {
    /// The entry could not be read.
    Unreadable,
    /// The entry's path, its file name, and whether it exists.
    Readable { path: P, file_name: String, exists: bool },
}

/// Whether a file name has an extension: a point behind its first character.
/// The name of the parent directory has none.
pub open spec fn name_has_extension(file_name: Seq<char>) -> bool {
    file_name != seq!['.', '.'] && exists|i: int|
        1 <= i < file_name.len() && #[trigger] file_name[i] == '.'
}

/// Whether a file name has an extension.
pub fn has_extension(file_name: &str) -> (yes: bool)
    ensures
        yes == name_has_extension(file_name@),
{
    let length: usize = file_name.unicode_len();
    if length == 2 && file_name.get_char(0) == '.' && file_name.get_char(1) == '.' {
        assert(file_name@ =~= seq!['.', '.']);
        return false;
    }
    let mut at: usize = 1;
    while at < length
        invariant
            1 <= at,
            length == file_name@.len(),
            file_name@ != seq!['.', '.'],
            forall|i: int| 1 <= i < at && i < length ==> #[trigger] file_name@[i] != '.',
        decreases length - at,
    {
        if file_name.get_char(at) == '.' {
            return true;
        }
        at = at + 1;
    }
    false
}

/// Whether `join` may lead from a home directory to this path, by way of the
/// control socket's directory and its file name.
pub open spec fn joins_to_socket<P, J: Fn(P, &str) -> P>(join: J, home: P, socket: P) -> bool {
    exists|directory: P| #[trigger]
        call_ensures(join, (home, CONTROL_SOCKET_DIRECTORY), directory) && call_ensures(
            join,
            (directory, CONTROL_SOCKET_FILE),
            socket,
        )
}

/// The control socket's place below the home directory. `join` appends a part
/// to a path.
pub fn home_control_socket<P, J: Fn(P, &str) -> P>(home: P, join: J) -> (socket: P)
    requires
        forall|path: P, part: &str| #[trigger] call_requires(join, (path, part)),
    ensures
        joins_to_socket(join, home, socket),
{
    let directory = join(home, CONTROL_SOCKET_DIRECTORY);
    join(directory, CONTROL_SOCKET_FILE)
}

/// Whether an entry of the shared directory can be the control socket.
pub open spec fn is_socket_entry<P>(entry: DirectoryEntry<P>) -> bool {
    entry matches DirectoryEntry::Readable { file_name, exists, .. } && !name_has_extension(
        file_name@,
    ) && exists
}

/// The path of the first entry that can be the control socket.
pub open spec fn first_socket_entry<P>(entries: Seq<DirectoryEntry<P>>) -> Option<P>
    decreases entries.len(),
{
    if entries.len() == 0 {
        None
    } else if is_socket_entry(entries[0]) {
        Some(entries[0]->path)
    } else {
        first_socket_entry(entries.drop_first())
    }
}

/// The control socket: the one under the home directory where it exists, else
/// the first usable entry of the shared directory.
pub open spec fn control_socket<P>(
    home: Option<SocketProbe<P>>,
    shared: Seq<DirectoryEntry<P>>,
) -> Option<P> {
    if home is Some && home->0.exists {
        Some(home->0.path)
    } else {
        first_socket_entry(shared)
    }
}

/// Resolves the daemon's control socket from what was found on disk: the
/// socket under the home directory (`None` where there is no home directory)
/// and the entries of the shared socket directory (none where it is missing
/// or cannot be read).
#[verifier::loop_isolation(false)]
pub fn resolve_daemon_control_socket_path<P>(
    home: Option<SocketProbe<P>>,
    shared: Vec<DirectoryEntry<P>>,
) -> (socket: Option<P>)
    ensures
        socket == control_socket(home, shared@),
{
    if let Some(probe) = home {
        if probe.exists {
            return Some(probe.path);
        }
    }
    let ghost all = shared@;
    let mut rest: Vec<DirectoryEntry<P>> = shared;
    while rest.len() > 0
        invariant
            first_socket_entry(rest@) == first_socket_entry(all),
        decreases rest@.len(),
    {
        let ghost before = rest@;
        let entry = rest.remove(0);
        assert(rest@ =~= before.drop_first());
        match entry {
            DirectoryEntry::Readable { path, file_name, exists } => {
                if !has_extension(file_name.as_str()) && exists {
                    return Some(path);
                }
            },
            DirectoryEntry::Unreadable => {},
        }
    }
    None
}

/// A resolved socket exists: it is the one under the home directory, or an
/// entry of the shared directory that can be the socket, with no such entry
/// before it. Without one, neither the home socket nor any entry can be it.
pub proof fn law_a_resolved_socket_exists<P>(
    home: Option<SocketProbe<P>>,
    shared: Seq<DirectoryEntry<P>>,
)
    ensures
        match control_socket(home, shared) {
            Some(path) => {
                ||| home is Some && home->0.exists && home->0.path == path
                ||| !(home is Some && home->0.exists) && exists|i: int|
                    0 <= i < shared.len() && is_socket_entry(#[trigger] shared[i])
                        && shared[i]->path == path && forall|j: int|
                        0 <= j < i ==> !is_socket_entry(#[trigger] shared[j])
            },
            None => !(home is Some && home->0.exists) && forall|i: int|
                0 <= i < shared.len() ==> !is_socket_entry(#[trigger] shared[i]),
        },
    decreases shared.len(),
{
    if !(home is Some && home->0.exists) && shared.len() > 0 {
        let rest = shared.drop_first();
        law_a_resolved_socket_exists(home, rest);
        if is_socket_entry(shared[0]) {
            assert(shared[0]->path == control_socket(home, shared)->0);
        } else {
            assert forall|i: int| 0 < i < shared.len() implies #[trigger] shared[i] == rest[i - 1] by {
            }
            if control_socket(home, shared) is Some {
                let i = choose|i: int|
                    0 <= i < rest.len() && is_socket_entry(#[trigger] rest[i]) && rest[i]->path
                        == control_socket(home, rest)->0 && forall|j: int|
                        0 <= j < i ==> !is_socket_entry(#[trigger] rest[j]);
                assert(shared[i + 1] == rest[i]);
                assert forall|j: int| 0 <= j < i + 1 implies !is_socket_entry(
                    #[trigger] shared[j],
                ) by {
                    if j > 0 {
                        assert(shared[j] == rest[j - 1]);
                    }
                }
            }
        }
    }
}

/// Why no access token could be leased. A `cause` is the message of the error
/// underneath.
pub enum LeaseError {
    /// No control socket was found.
    SocketNotFound,
    /// The handshake URL was refused.
    InvalidHandshakeUrl { cause: String },
    /// The control socket refused the connection.
    Connect { socket_path: String, cause: String },
    /// The websocket handshake failed.
    Upgrade { socket_path: String, cause: String },
    /// The request could not be sent.
    Send { cause: String },
    /// Reading from the websocket failed.
    Read { cause: String },
    /// The daemon sent a text that is not JSON.
    InvalidJson { text: String, cause: String },
    /// The daemon answered with an error.
    Daemon { server_name: String, message: String },
    /// The daemon's result has the wrong shape.
    Decode { cause: String },
    /// The daemon closed the websocket before it answered.
    ClosedBeforeResponse { reason: String },
    /// The stream ended without an answer.
    NoResponse,
}

/// The mathematical counterpart of [`LeaseError`].
pub enum LeaseErrorView {
    SocketNotFound,
    InvalidHandshakeUrl { cause: Seq<char> },
    Connect { socket_path: Seq<char>, cause: Seq<char> },
    Upgrade { socket_path: Seq<char>, cause: Seq<char> },
    Send { cause: Seq<char> },
    Read { cause: Seq<char> },
    InvalidJson { text: Seq<char>, cause: Seq<char> },
    Daemon { server_name: Seq<char>, message: Seq<char> },
    Decode { cause: Seq<char> },
    ClosedBeforeResponse { reason: Seq<char> },
    NoResponse,
}

impl View for LeaseError {
    type V = LeaseErrorView;

    open spec fn view(&self) -> LeaseErrorView {
        match *self {
            LeaseError::SocketNotFound => LeaseErrorView::SocketNotFound,
            LeaseError::InvalidHandshakeUrl { cause } => LeaseErrorView::InvalidHandshakeUrl {
                cause: cause@,
            },
            LeaseError::Connect { socket_path, cause } => LeaseErrorView::Connect {
                socket_path: socket_path@,
                cause: cause@,
            },
            LeaseError::Upgrade { socket_path, cause } => LeaseErrorView::Upgrade {
                socket_path: socket_path@,
                cause: cause@,
            },
            LeaseError::Send { cause } => LeaseErrorView::Send { cause: cause@ },
            LeaseError::Read { cause } => LeaseErrorView::Read { cause: cause@ },
            LeaseError::InvalidJson { text, cause } => LeaseErrorView::InvalidJson {
                text: text@,
                cause: cause@,
            },
            LeaseError::Daemon { server_name, message } => LeaseErrorView::Daemon {
                server_name: server_name@,
                message: message@,
            },
            LeaseError::Decode { cause } => LeaseErrorView::Decode { cause: cause@ },
            LeaseError::ClosedBeforeResponse { reason } => LeaseErrorView::ClosedBeforeResponse {
                reason: reason@,
            },
            LeaseError::NoResponse => LeaseErrorView::NoResponse,
        }
    }
}

impl LeaseErrorView {
    /// The message of the error underneath, where there is one that the shown
    /// message does not hold already.
    pub open spec fn source(self) -> Option<Seq<char>> {
        match self {
            LeaseErrorView::SocketNotFound => None,
            LeaseErrorView::InvalidHandshakeUrl { .. } => None,
            LeaseErrorView::Connect { cause, .. } => Some(cause),
            LeaseErrorView::Upgrade { cause, .. } => Some(cause),
            LeaseErrorView::Send { cause } => Some(cause),
            LeaseErrorView::Read { cause } => Some(cause),
            LeaseErrorView::InvalidJson { cause, .. } => Some(cause),
            LeaseErrorView::Daemon { .. } => None,
            LeaseErrorView::Decode { cause } => Some(cause),
            LeaseErrorView::ClosedBeforeResponse { .. } => None,
            LeaseErrorView::NoResponse => None,
        }
    }

    /// The error as shown to a user.
    pub open spec fn message(self) -> Seq<char> {
        match self {
            LeaseErrorView::SocketNotFound => "Codex app-server daemon control socket not found"@,
            LeaseErrorView::InvalidHandshakeUrl { cause } =>
                "invalid UDS websocket handshake URL: "@ + cause,
            LeaseErrorView::Connect { socket_path, .. } => "failed to connect to daemon socket at "@
                + socket_path,
            LeaseErrorView::Upgrade { socket_path, .. } =>
                "failed to upgrade websocket on daemon socket at "@ + socket_path,
            LeaseErrorView::Send { .. } => "failed to send mcp/getAuthToken request to daemon"@,
            LeaseErrorView::Read { .. } => "error reading from daemon websocket"@,
            LeaseErrorView::InvalidJson { text, .. } => "invalid JSON received from daemon: "@ + text,
            LeaseErrorView::Daemon { server_name, message } =>
                "Daemon error retrieving auth token for '"@ + server_name + "': "@ + message,
            LeaseErrorView::Decode { .. } => "failed to deserialize McpGetAuthTokenResponse"@,
            LeaseErrorView::ClosedBeforeResponse { reason } =>
                "daemon closed websocket connection before responding: "@ + reason,
            LeaseErrorView::NoResponse =>
                "daemon closed connection without sending a response for mcp/getAuthToken"@,
        }
    }
}

/// `prefix` followed by `rest`.
fn prefixed(prefix: &str, rest: &str) -> (text: String)
    ensures
        text@ == prefix@ + rest@,
{
    let mut text = prefix.to_owned();
    text.append(rest);
    text
}

impl LeaseError {
    /// The message of the error underneath, where there is one that the shown
    /// message does not hold already.
    pub fn source(&self) -> (source: Option<&str>)
        ensures
            texts::optional_str(source) == self@.source(),
    {
        match self {
            LeaseError::Connect { cause, .. } => Some(cause.as_str()),
            LeaseError::Upgrade { cause, .. } => Some(cause.as_str()),
            LeaseError::Send { cause } => Some(cause.as_str()),
            LeaseError::Read { cause } => Some(cause.as_str()),
            LeaseError::InvalidJson { cause, .. } => Some(cause.as_str()),
            LeaseError::Decode { cause } => Some(cause.as_str()),
            _ => None,
        }
    }

    /// The error as shown to a user.
    pub fn message(&self) -> (text: String)
        ensures
            text@ == self@.message(),
    {
        match self {
            LeaseError::SocketNotFound =>
                "Codex app-server daemon control socket not found".to_owned(),
            LeaseError::InvalidHandshakeUrl { cause } => prefixed(
                "invalid UDS websocket handshake URL: ",
                cause.as_str(),
            ),
            LeaseError::Connect { socket_path, .. } => prefixed(
                "failed to connect to daemon socket at ",
                socket_path.as_str(),
            ),
            LeaseError::Upgrade { socket_path, .. } => prefixed(
                "failed to upgrade websocket on daemon socket at ",
                socket_path.as_str(),
            ),
            LeaseError::Send { .. } => "failed to send mcp/getAuthToken request to daemon".to_owned(),
            LeaseError::Read { .. } => "error reading from daemon websocket".to_owned(),
            LeaseError::InvalidJson { text, .. } => prefixed(
                "invalid JSON received from daemon: ",
                text.as_str(),
            ),
            LeaseError::Daemon { server_name, message } => {
                let mut text = prefixed(
                    "Daemon error retrieving auth token for '",
                    server_name.as_str(),
                );
                text.append("': ");
                text.append(message.as_str());
                text
            },
            LeaseError::Decode { .. } => "failed to deserialize McpGetAuthTokenResponse".to_owned(),
            LeaseError::ClosedBeforeResponse { reason } => prefixed(
                "daemon closed websocket connection before responding: ",
                reason.as_str(),
            ),
            LeaseError::NoResponse =>
                "daemon closed connection without sending a response for mcp/getAuthToken".to_owned(),
        }
    }
}

/// The compact text of a JSON boolean.
pub open spec fn boolean_text(b: bool) -> Seq<char> {
    if b {
        "true"@
    } else {
        "false"@
    }
}

/// The compact text of the request's parameters.
pub open spec fn params_text(server_name: Seq<char>, force_refresh: bool) -> Seq<char> {
    json::object_text(
        seq![
            ("server_name"@, json::string_text(server_name)),
            ("force_refresh"@, boolean_text(force_refresh)),
        ],
    )
}

/// The compact text of the `mcp/getAuthToken` request.
pub open spec fn request_text(server_name: Seq<char>, force_refresh: bool) -> Seq<char> {
    json::object_text(
        seq![
            ("jsonrpc"@, json::string_text("2.0"@)),
            ("id"@, json::decimal_digits(REQUEST_ID as nat)),
            ("method"@, json::string_text("mcp/getAuthToken"@)),
            ("params"@, params_text(server_name, force_refresh)),
        ],
    )
}

/// The string under `key` in the JSON value with this text, where it is there.
pub open spec fn string_member(value: Seq<char>, key: Seq<char>) -> Option<Seq<char>> {
    match json::member_text(value, key) {
        Some(inner) => json::string_content(inner),
        None => None,
    }
}

/// The unsigned number under `key` in the JSON value with this text, where it
/// is there.
pub open spec fn unsigned_member(value: Seq<char>, key: Seq<char>) -> Option<u64> {
    match json::member_text(value, key) {
        Some(inner) => json::unsigned_content(inner),
        None => None,
    }
}

/// The `mcp/getAuthToken` request as it goes over the wire.
pub fn get_auth_token_request(server_name: &str, force_refresh: bool) -> (text: String)
    ensures
        text@ == request_text(server_name@, force_refresh),
        string_member(text@, "jsonrpc"@) == Some("2.0"@),
        unsigned_member(text@, "id"@) == Some(REQUEST_ID),
        string_member(text@, "method"@) == Some("mcp/getAuthToken"@),
        json::member_text(text@, "params"@) == Some(params_text(server_name@, force_refresh)),
        string_member(params_text(server_name@, force_refresh), "server_name"@) == Some(
            server_name@,
        ),
        json::member_text(params_text(server_name@, force_refresh), "force_refresh"@) == Some(
            boolean_text(force_refresh),
        ),
{
    proof {
        reveal_strlit("server_name");
        reveal_strlit("force_refresh");
        reveal_strlit("jsonrpc");
        reveal_strlit("id");
        reveal_strlit("method");
        reveal_strlit("params");
    }
    let mut params: Vec<(String, serde_json::Value)> = Vec::new();
    params.push(("server_name".to_owned(), json::string(server_name)));
    params.push(("force_refresh".to_owned(), json::boolean(force_refresh)));
    assert("server_name"@.len() != "force_refresh"@.len());
    let ghost param_members = params@;
    let params_value = json::object(params);
    assert(json::member_texts(param_members) =~= seq![
        ("server_name"@, json::string_text(server_name@)),
        ("force_refresh"@, boolean_text(force_refresh)),
    ]);
    assert(param_members[0].0@ == "server_name"@ && param_members[1].0@ == "force_refresh"@);

    let mut members: Vec<(String, serde_json::Value)> = Vec::new();
    members.push(("jsonrpc".to_owned(), json::string("2.0")));
    members.push(("id".to_owned(), json::unsigned(REQUEST_ID)));
    members.push(("method".to_owned(), json::string("mcp/getAuthToken")));
    members.push(("params".to_owned(), params_value));
    let ghost all_members = members@;
    assert(all_members[0].0@ == "jsonrpc"@ && all_members[1].0@ == "id"@);
    assert(all_members[2].0@ == "method"@ && all_members[3].0@ == "params"@);
    assert("jsonrpc"@.len() == 7 && "id"@.len() == 2 && "method"@.len() == 6);
    assert("params"@.len() == 6 && "method"@[0] != "params"@[0]);
    let request = json::object(members);
    assert(json::member_texts(all_members) =~= seq![
        ("jsonrpc"@, json::string_text("2.0"@)),
        ("id"@, json::decimal_digits(REQUEST_ID as nat)),
        ("method"@, json::string_text("mcp/getAuthToken"@)),
        ("params"@, params_text(server_name@, force_refresh)),
    ]);
    json::display(&request)
}

/// The parts of a JSON message from the daemon that decide what it means.
pub struct DaemonReply {
    /// The `id`, where it is an unsigned number.
    pub id: Option<u64>,
    /// The `error`, where there is one.
    pub error: Option<ReplyError>,
    /// The compact text of the `result`, where there is one.
    pub result: Option<String>,
}

/// The `error` member of a reply.
pub struct ReplyError {
    /// Its `message`, where that is a string.
    pub message: Option<String>,
}

/// The mathematical counterpart of [`DaemonReply`].
pub struct DaemonReplyView {
    pub id: Option<u64>,
    pub error: Option<Option<Seq<char>>>,
    pub result: Option<Seq<char>>,
}

impl View for DaemonReply {
    type V = DaemonReplyView;

    open spec fn view(&self) -> DaemonReplyView {
        DaemonReplyView {
            id: self.id,
            error: match self.error {
                Some(error) => Some(texts::optional_text(error.message)),
                None => None,
            },
            result: texts::optional_text(self.result),
        }
    }
}

/// The reply that a JSON value with this text stands for.
pub open spec fn reply_of_value(value: Seq<char>) -> DaemonReplyView {
    DaemonReplyView {
        id: unsigned_member(value, "id"@),
        error: match json::member_text(value, "error"@) {
            Some(error) => Some(string_member(error, "message"@)),
            None => None,
        },
        result: json::member_text(value, "result"@),
    }
}

/// The reply that a text stands for, or the parser's message where the text is
/// not JSON.
pub open spec fn reply_of_text(text: Seq<char>) -> Result<DaemonReplyView, Seq<char>> {
    match json::parsed_text(text) {
        Ok(value) => Ok(reply_of_value(value)),
        Err(message) => Err(message),
    }
}

/// Reads a text from the daemon; the error is the parser's message where the
/// text is not JSON.
pub fn read_reply(text: &str) -> (reply: Result<DaemonReply, String>)
    ensures
        match reply {
            Ok(reply) => reply_of_text(text@) == Ok::<DaemonReplyView, Seq<char>>(reply@),
            Err(message) => reply_of_text(text@) == Err::<DaemonReplyView, Seq<char>>(message@),
        },
{
    let value = match json::parse(text) {
        Ok(value) => value,
        Err(message) => {
            return Err(message);
        },
    };
    let id = match json::member(&value, "id") {
        Some(id) => json::as_u64(id),
        None => None,
    };
    let error = match json::member(&value, "error") {
        Some(error) => {
            let message = match json::member(error, "message") {
                Some(message) => match json::as_str(message) {
                    Some(message) => Some(message.to_owned()),
                    None => None,
                },
                None => None,
            };
            Some(ReplyError { message })
        },
        None => None,
    };
    let result = match json::member(&value, "result") {
        Some(result) => Some(json::display(result)),
        None => None,
    };
    Ok(DaemonReply { id, error, result })
}

/// What a reply asks of the session that waits for it.
pub enum ReplyVerdict {
    /// It answers something else, or says nothing: keep waiting.
    KeepWaiting,
    /// It refuses the request.
    Refused { message: String },
    /// It grants the request; this is the compact text of the result.
    Granted { result: String },
}

/// The mathematical counterpart of [`ReplyVerdict`].
pub enum ReplyVerdictView {
    KeepWaiting,
    Refused { message: Seq<char> },
    Granted { result: Seq<char> },
}

impl View for ReplyVerdict {
    type V = ReplyVerdictView;

    open spec fn view(&self) -> ReplyVerdictView {
        match *self {
            ReplyVerdict::KeepWaiting => ReplyVerdictView::KeepWaiting,
            ReplyVerdict::Refused { message } => ReplyVerdictView::Refused { message: message@ },
            ReplyVerdict::Granted { result } => ReplyVerdictView::Granted { result: result@ },
        }
    }
}

/// Only a reply with the request's id counts; of those, an error counts before
/// a result, and one with neither is passed over.
pub open spec fn verdict_of(reply: DaemonReplyView) -> ReplyVerdictView {
    if reply.id != Some(REQUEST_ID) {
        ReplyVerdictView::KeepWaiting
    } else if reply.error is Some {
        ReplyVerdictView::Refused {
            message: match reply.error->0 {
                Some(message) => message,
                None => "unknown error"@,
            },
        }
    } else {
        match reply.result {
            Some(result) => ReplyVerdictView::Granted { result },
            None => ReplyVerdictView::KeepWaiting,
        }
    }
}

/// Decides what a reply means.
pub fn judge_reply(reply: DaemonReply) -> (verdict: ReplyVerdict)
    ensures
        verdict@ == verdict_of(reply@),
{
    let answers = match reply.id {
        Some(id) => id == REQUEST_ID,
        None => false,
    };
    if !answers {
        return ReplyVerdict::KeepWaiting;
    }
    match reply.error {
        Some(error) => ReplyVerdict::Refused {
            message: match error.message {
                Some(message) => message,
                None => "unknown error".to_owned(),
            },
        },
        None => match reply.result {
            Some(result) => ReplyVerdict::Granted { result },
            None => ReplyVerdict::KeepWaiting,
        },
    }
}

} // verus!
