//! What goes in and comes out is seen whole: contracts speak of the mathematical
//! counterparts of these types, and nothing is lost, added or mixed up between
//! the two.

use crate::daemon_lease::{
    DaemonReply, LeaseError, LeaseErrorView, ReplyVerdict, ReplyVerdictView,
};
use crate::dynamic_tool;
use crate::dynamic_tool::{ContentItemView, DynamicToolCallOutputContentItem};
use crate::lease_session::{
    DaemonMessage, DaemonMessageView, LeaseAction, LeaseActionView, LeaseEvent, LeaseEventView,
    LeasePhase, LeasePhaseView, LeaseSession, McpGetAuthTokenResponse,
};
use crate::oauth_runtime::{
    OAuthRefresh, OAuthRuntime, OAuthRuntimeView, RefreshAction, RefreshActionView, RefreshError,
    RefreshErrorView, RefreshEvent, RefreshEventView, RefreshPhase, RefreshPhaseView,
    StoredOAuthTokens, TokenResponse,
};
use crate::refresh_worker::{TokenAction, TokenActionView};
use crate::rich_text::Span;
use crate::texts;
use crate::tool_catalog;
use crate::tool_catalog::CatalogServer;
use crate::tool_display;
use vstd::prelude::*;

verus! {

/// An optional or listed text, span, item or report is seen element by element.
pub proof fn law_collections_are_seen_element_by_element(
    text: String,
    part: &str,
    span: Span,
    list: Seq<String>,
    items: Seq<DynamicToolCallOutputContentItem>,
    reports: Seq<(String, Option<u64>)>,
    i: int,
)
    ensures
        texts::optional_text(None) is None,
        texts::optional_text(Some(text)) == Some(text@),
        texts::optional_str(None) is None,
        texts::optional_str(Some(part)) == Some(part@),
        tool_display::optional_span(None) is None,
        tool_display::optional_span(Some(span)) == Some(span@),
        texts::text_views(list).len() == list.len(),
        0 <= i < list.len() ==> texts::text_views(list)[i] == list[i]@,
        dynamic_tool::item_views(items).len() == items.len(),
        0 <= i < items.len() ==> dynamic_tool::item_views(items)[i] == items[i]@,
        tool_catalog::report_views(reports).len() == reports.len(),
        0 <= i < reports.len() ==> tool_catalog::report_views(reports)[i] == (
            reports[i].0@,
            reports[i].1,
        ),
{
}

/// A leased token, a token response and stored credentials are seen field by
/// field.
pub proof fn law_credentials_are_seen_field_by_field(
    token: McpGetAuthTokenResponse,
    response: TokenResponse,
    tokens: StoredOAuthTokens,
)
    ensures
        token@.access_token == token.access_token@,
        token@.expires_at == token.expires_at,
        response@.access_token == response.access_token@,
        response@.token_type == response.token_type@,
        response@.expires_in == response.expires_in,
        response@.extra_fields == response.extra_fields@,
        response.refresh_token is None ==> response@.refresh_token is None,
        response.refresh_token matches Some(refresh) ==> response@.refresh_token == Some(refresh@),
        response.scopes is None ==> response@.scopes is None,
        response.scopes matches Some(scopes) ==> response@.scopes == Some(
            texts::text_views(scopes@),
        ),
        tokens@.server_name == tokens.server_name@,
        tokens@.url == tokens.url@,
        tokens@.client_id == tokens.client_id@,
        tokens@.token_response == tokens.token_response@,
        tokens@.expires_at == tokens.expires_at,
{
}

/// An error of a lease is seen as it is.
pub proof fn law_a_lease_error_is_seen_as_it_is(error: LeaseError)
    ensures
        match error {
            LeaseError::SocketNotFound => error@ == LeaseErrorView::SocketNotFound,
            LeaseError::InvalidHandshakeUrl { cause } => error@ == (
            LeaseErrorView::InvalidHandshakeUrl { cause: cause@ }),
            LeaseError::Connect { socket_path, cause } => error@ == (LeaseErrorView::Connect {
                socket_path: socket_path@,
                cause: cause@,
            }),
            LeaseError::Upgrade { socket_path, cause } => error@ == (LeaseErrorView::Upgrade {
                socket_path: socket_path@,
                cause: cause@,
            }),
            LeaseError::Send { cause } => error@ == (LeaseErrorView::Send { cause: cause@ }),
            LeaseError::Read { cause } => error@ == (LeaseErrorView::Read { cause: cause@ }),
            LeaseError::InvalidJson { text, cause } => error@ == (LeaseErrorView::InvalidJson {
                text: text@,
                cause: cause@,
            }),
            LeaseError::Daemon { server_name, message } => error@ == (LeaseErrorView::Daemon {
                server_name: server_name@,
                message: message@,
            }),
            LeaseError::Decode { cause } => error@ == (LeaseErrorView::Decode { cause: cause@ }),
            LeaseError::ClosedBeforeResponse { reason } => error@ == (
            LeaseErrorView::ClosedBeforeResponse { reason: reason@ }),
            LeaseError::NoResponse => error@ == LeaseErrorView::NoResponse,
        },
{
}

/// A reply and a verdict are seen as they are.
pub proof fn law_a_reply_is_seen_as_it_is(reply: DaemonReply, verdict: ReplyVerdict)
    ensures
        reply@.id == reply.id,
        reply.error is None ==> reply@.error is None,
        reply.error matches Some(error) ==> reply@.error == Some(
            match error.message {
                Some(message) => Some(message@),
                None => None,
            },
        ),
        reply.result is None ==> reply@.result is None,
        reply.result matches Some(result) ==> reply@.result == Some(result@),
        match verdict {
            ReplyVerdict::KeepWaiting => verdict@ == ReplyVerdictView::KeepWaiting,
            ReplyVerdict::Refused { message } => verdict@ == (ReplyVerdictView::Refused {
                message: message@,
            }),
            ReplyVerdict::Granted { result } => verdict@ == (ReplyVerdictView::Granted {
                result: result@,
            }),
        },
{
}

/// A message from the daemon and an event of a session are seen as they are.
pub proof fn law_a_lease_event_is_seen_as_it_is(message: DaemonMessage, event: LeaseEvent)
    ensures
        match message {
            DaemonMessage::Text(text) => message@ == DaemonMessageView::Text(text@),
            DaemonMessage::Close(None) => message@ == DaemonMessageView::Close(None),
            DaemonMessage::Close(Some(reason)) => message@ == DaemonMessageView::Close(
                Some(reason@),
            ),
            DaemonMessage::Other => message@ == DaemonMessageView::Other,
        },
        match event {
            LeaseEvent::RequestBuilt => event@ == LeaseEventView::RequestBuilt,
            LeaseEvent::RequestRejected { cause } => event@ == (LeaseEventView::RequestRejected {
                cause: cause@,
            }),
            LeaseEvent::Connected => event@ == LeaseEventView::Connected,
            LeaseEvent::ConnectFailed { cause } => event@ == (LeaseEventView::ConnectFailed {
                cause: cause@,
            }),
            LeaseEvent::Upgraded => event@ == LeaseEventView::Upgraded,
            LeaseEvent::UpgradeFailed { cause } => event@ == (LeaseEventView::UpgradeFailed {
                cause: cause@,
            }),
            LeaseEvent::Sent => event@ == LeaseEventView::Sent,
            LeaseEvent::SendFailed { cause } => event@ == (LeaseEventView::SendFailed {
                cause: cause@,
            }),
            LeaseEvent::Received(received) => event@ == LeaseEventView::Received(received@),
            LeaseEvent::ReadFailed { cause } => event@ == (LeaseEventView::ReadFailed {
                cause: cause@,
            }),
            LeaseEvent::StreamEnded => event@ == LeaseEventView::StreamEnded,
            LeaseEvent::Decoded(token) => event@ == LeaseEventView::Decoded(token@),
            LeaseEvent::DecodeFailed { cause } => event@ == (LeaseEventView::DecodeFailed {
                cause: cause@,
            }),
            LeaseEvent::Closed => event@ == LeaseEventView::Closed,
        },
{
}

/// The work, the phase and the session of a lease are seen as they are.
pub proof fn law_a_lease_session_is_seen_as_it_is(
    action: LeaseAction,
    phase: LeasePhase,
    session: LeaseSession,
)
    ensures
        match action {
            LeaseAction::BuildRequest => action@ == LeaseActionView::BuildRequest,
            LeaseAction::Connect => action@ == LeaseActionView::Connect,
            LeaseAction::Upgrade => action@ == LeaseActionView::Upgrade,
            LeaseAction::Send { text } => action@ == (LeaseActionView::Send { text: text@ }),
            LeaseAction::Receive => action@ == LeaseActionView::Receive,
            LeaseAction::Decode { result } => action@ == (LeaseActionView::Decode {
                result: result@,
            }),
            LeaseAction::Close => action@ == LeaseActionView::Close,
            LeaseAction::Finish => action@ == LeaseActionView::Finish,
        },
        match phase {
            LeasePhase::Building => phase@ == LeasePhaseView::Building,
            LeasePhase::Connecting => phase@ == LeasePhaseView::Connecting,
            LeasePhase::Upgrading => phase@ == LeasePhaseView::Upgrading,
            LeasePhase::Sending => phase@ == LeasePhaseView::Sending,
            LeasePhase::Receiving => phase@ == LeasePhaseView::Receiving,
            LeasePhase::Decoding { result } => phase@ == (LeasePhaseView::Decoding {
                result: result@,
            }),
            LeasePhase::Closing { token } => phase@ == (LeasePhaseView::Closing { token: token@ }),
            LeasePhase::Leased { token } => phase@ == (LeasePhaseView::Leased { token: token@ }),
            LeasePhase::Failed { error } => phase@ == (LeasePhaseView::Failed { error: error@ }),
        },
        session@.socket_path == session.socket_path@,
        session@.server_name == session.server_name@,
        session@.force_refresh == session.force_refresh,
        session@.phase == session.phase@,
{
}

/// A runtime, the events and the work of a refresh, and its errors are seen as
/// they are.
pub proof fn law_a_refresh_is_seen_as_it_is<'a>(
    runtime: OAuthRuntime,
    event: RefreshEvent,
    action: RefreshAction<'a>,
    error: RefreshError,
    phase: RefreshPhase,
    refresh: OAuthRefresh,
)
    ensures
        match runtime {
            OAuthRuntime::Legacy => runtime@ == OAuthRuntimeView::Legacy,
            OAuthRuntime::Coordinated => runtime@ == OAuthRuntimeView::Coordinated,
            OAuthRuntime::DaemonLease { server_name, expires_at, initial_tokens } => runtime@ == (
            OAuthRuntimeView::DaemonLease {
                server_name: server_name@,
                expires_at,
                initial_tokens: initial_tokens@,
            }),
        },
        match event {
            RefreshEvent::StoredCredentials(stored) => event@
                == RefreshEventView::StoredCredentials(stored),
            RefreshEvent::NeedsRefresh(needed) => event@ == RefreshEventView::NeedsRefresh(needed),
            RefreshEvent::Leased(lease) => event@ == RefreshEventView::Leased(lease@),
            RefreshEvent::Completed => event@ == RefreshEventView::Completed,
            RefreshEvent::Rejected { cause } => event@ == (RefreshEventView::Rejected {
                cause: cause@,
            }),
            RefreshEvent::TaskFailed => event@ == RefreshEventView::TaskFailed,
        },
        match action {
            RefreshAction::RefreshPersistor { force } => action@ == (
            RefreshActionView::RefreshPersistor { force }),
            RefreshAction::ReadStore => action@ == RefreshActionView::ReadStore,
            RefreshAction::CheckExpiry { expires_at } => action@ == (
            RefreshActionView::CheckExpiry { expires_at }),
            RefreshAction::RefreshStore => action@ == RefreshActionView::RefreshStore,
            RefreshAction::Lease { server_name, force_refresh } => action@ == (
            RefreshActionView::Lease { server_name: server_name@, force_refresh }),
            RefreshAction::Install { tokens } => action@ == (RefreshActionView::Install {
                tokens: tokens@,
            }),
            RefreshAction::Finish => action@ == RefreshActionView::Finish,
        },
        match error {
            RefreshError::Rejected { cause } => error@ == (RefreshErrorView::Rejected {
                cause: cause@,
            }),
            RefreshError::RefreshTask => error@ == RefreshErrorView::RefreshTask,
            RefreshError::LeaseTask => error@ == RefreshErrorView::LeaseTask,
        },
        match phase {
            RefreshPhase::Persisting => phase@ == RefreshPhaseView::Persisting,
            RefreshPhase::ReadingStore => phase@ == RefreshPhaseView::ReadingStore,
            RefreshPhase::CheckingExpiry { expires_at } => phase@ == (
            RefreshPhaseView::CheckingExpiry { expires_at }),
            RefreshPhase::Coordinating => phase@ == RefreshPhaseView::Coordinating,
            RefreshPhase::Leasing => phase@ == RefreshPhaseView::Leasing,
            RefreshPhase::Installing { tokens } => phase@ == (RefreshPhaseView::Installing {
                tokens: tokens@,
            }),
            RefreshPhase::Ready => phase@ == RefreshPhaseView::Ready,
            RefreshPhase::Failed { error } => phase@ == (RefreshPhaseView::Failed {
                error: error@,
            }),
        },
        refresh.model(runtime).runtime == runtime@,
        refresh.model(runtime).forced == refresh.forced,
        refresh.model(runtime).phase == refresh.phase@,
{
}

/// The work of a token refresh is seen as it is.
pub proof fn law_a_token_action_is_seen_as_it_is<'a, G, S, C, H>(
    action: TokenAction<'a, G, S, C, H>,
)
    ensures
        match action {
            TokenAction::LoadSnapshot { credential_name, url } => action@ == (
            TokenActionView::<G, S, C, H>::LoadSnapshot {
                credential_name: credential_name@,
                url: url@,
            }),
            TokenAction::CheckExpiry { expires_at } => action@ == (
            TokenActionView::<G, S, C, H>::CheckExpiry { expires_at }),
            TokenAction::ResolveClient { name, config } => action@ == (
            TokenActionView::<G, S, C, H>::ResolveClient { name: name@, config: *config }),
            TokenAction::BuildHeaders { config } => action@ == (
            TokenActionView::<G, S, C, H>::BuildHeaders { config: *config }),
            TokenAction::Refresh {
                credential_name,
                url,
                snapshot,
                headers,
                client,
                redirect_mode,
                force_refresh,
            } => action@ == (TokenActionView::<G, S, C, H>::Refresh {
                credential_name: credential_name@,
                url: url@,
                snapshot: *snapshot,
                headers: *headers,
                client: *client,
                redirect_mode,
                force_refresh,
            }),
            TokenAction::Finish => action@ == TokenActionView::<G, S, C, H>::Finish,
        },
{
}

/// A server of a pass and an item of an output are seen as they are.
pub proof fn law_a_server_and_an_item_are_seen_as_they_are(
    server: CatalogServer,
    item: DynamicToolCallOutputContentItem,
)
    ensures
        server@.name == server.name@,
        server@.tool_timeout == server.tool_timeout,
        match item {
            DynamicToolCallOutputContentItem::InputText { text } => item@ == (
            ContentItemView::InputText { text: text@ }),
            DynamicToolCallOutputContentItem::InputImage { image_url } => item@ == (
            ContentItemView::InputImage { image_url: image_url@ }),
        },
{
}

} // verus!
