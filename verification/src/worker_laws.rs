//! What the background refresh comes to: when the worker refreshes, and what
//! becomes of each server, in terms of the work that is waited for and what came
//! of it.

use crate::refresh_worker;
use crate::refresh_worker::{
    EffectiveServer, ExpiringTokensView, StreamableHttpRedirectMode, TokenActionView, TokenEvent,
    WorkerEvent, WorkerPhase,
};
use vstd::prelude::*;

verus! {

/// The worker looks for shutdown before every refresh, sleeps after every
/// refresh, well or not, and stops as soon as shutdown is seen, before a refresh
/// or during the sleep. The interval is a minute.
pub proof fn law_the_worker_refreshes_until_shutdown(ok: bool)
    ensures
        refresh_worker::worker_next(WorkerPhase::Polling, WorkerEvent::Polled { cancelled: false })
            == WorkerPhase::Refreshing,
        refresh_worker::worker_next(WorkerPhase::Polling, WorkerEvent::Polled { cancelled: true })
            == WorkerPhase::Stopped,
        refresh_worker::worker_next(WorkerPhase::Refreshing, WorkerEvent::Refreshed { ok })
            == WorkerPhase::Sleeping,
        refresh_worker::worker_next(WorkerPhase::Sleeping, WorkerEvent::Slept)
            == WorkerPhase::Polling,
        refresh_worker::worker_next(WorkerPhase::Sleeping, WorkerEvent::Cancelled)
            == WorkerPhase::Stopped,
        refresh_worker::MCP_OAUTH_REFRESH_INTERVAL_NANOS == 60_000_000_000,
{
}

/// An event changes the worker only as an answer to the work that it waits for.
pub proof fn law_only_answers_change_the_worker(phase: WorkerPhase, event: WorkerEvent)
    ensures
        refresh_worker::worker_next(phase, event) == phase || match phase {
            WorkerPhase::Polling => event is Polled,
            WorkerPhase::Refreshing => event is Refreshed,
            WorkerPhase::Sleeping => event is Slept || event is Cancelled,
            WorkerPhase::Stopped => false,
        },
{
}

/// Whether a refresh stands, at its beginning, at the first server from this
/// position on that is reached over HTTP, or at the end where there is none.
pub open spec fn stands_at_first_http<G, S, C, H>(
    tokens: ExpiringTokensView<G, S, C, H>,
    servers: Seq<EffectiveServer<G>>,
    from: nat,
) -> bool {
    &&& tokens.servers == servers
    &&& from <= tokens.position <= servers.len()
    &&& forall|i: int| from <= i < tokens.position ==> #[trigger] servers[i].url is None
    &&& tokens.position < servers.len() ==> servers[tokens.position as int].url is Some
        && tokens.pending() == (TokenActionView::<G, S, C, H>::LoadSnapshot {
        credential_name: servers[tokens.position as int].credential_name@,
        url: servers[tokens.position as int].url->0@,
    })
    &&& tokens.position == servers.len() ==> tokens.pending() is Finish
}

/// A refresh starts by loading the credentials of the first server that is
/// reached over HTTP, and is at its end at once where there is none.
pub proof fn law_a_token_refresh_starts_at_the_first_http_server<G, S, C, H>(
    servers: Seq<EffectiveServer<G>>,
)
    ensures
        stands_at_first_http(ExpiringTokensView::<G, S, C, H>::start(servers), servers, 0),
{
    refresh_worker::lemma_next_http(servers, 0);
}

/// Every obstacle, and the end of a refresh, well or not, leads on to the next
/// server that is reached over HTTP: credentials that cannot be loaded, are not
/// there, or have no refresh token; an expiry that needs no refresh; a client or
/// headers that cannot be had.
pub proof fn law_an_obstacle_leads_to_the_next_server<G, S, C, H>(
    tokens: ExpiringTokensView<G, S, C, H>,
    snapshot: S,
    expires_at: Option<u64>,
    ok: bool,
)
    requires
        tokens.position < tokens.servers.len(),
    ensures
        tokens.pending() is LoadSnapshot ==> stands_at_first_http(
            tokens.next(TokenEvent::SnapshotFailed),
            tokens.servers,
            tokens.position + 1,
        ),
        tokens.pending() is LoadSnapshot ==> stands_at_first_http(
            tokens.next(TokenEvent::SnapshotMissing),
            tokens.servers,
            tokens.position + 1,
        ),
        tokens.pending() is LoadSnapshot ==> stands_at_first_http(
            tokens.next(
                TokenEvent::SnapshotFound { snapshot, has_refresh_token: false, expires_at },
            ),
            tokens.servers,
            tokens.position + 1,
        ),
        tokens.pending() is CheckExpiry ==> stands_at_first_http(
            tokens.next(TokenEvent::NeedsRefresh(false)),
            tokens.servers,
            tokens.position + 1,
        ),
        tokens.pending() is ResolveClient ==> stands_at_first_http(
            tokens.next(TokenEvent::ClientFailed),
            tokens.servers,
            tokens.position + 1,
        ),
        tokens.pending() is BuildHeaders ==> stands_at_first_http(
            tokens.next(TokenEvent::HeadersFailed),
            tokens.servers,
            tokens.position + 1,
        ),
        tokens.pending() is Refresh ==> stands_at_first_http(
            tokens.next(TokenEvent::Refreshed { ok }),
            tokens.servers,
            tokens.position + 1,
        ),
{
    refresh_worker::lemma_next_http(tokens.servers, tokens.position + 1);
}

/// A server whose credentials are found with a refresh token, whose expiry is
/// found to need a refresh, and whose client and headers are had, has exactly
/// these refreshed, unforced, under its credential name and URL, with redirects
/// followed as for an agent plugin if and only if one brought it.
pub proof fn law_an_expiring_server_is_refreshed<G, S, C, H>(
    tokens: ExpiringTokensView<G, S, C, H>,
    snapshot: S,
    expires_at: Option<u64>,
    client: C,
    headers: H,
)
    requires
        tokens.pending() is LoadSnapshot,
    ensures
        ({
            let server = tokens.servers[tokens.position as int];
            let found = tokens.next(
                TokenEvent::SnapshotFound { snapshot, has_refresh_token: true, expires_at },
            );
            let expiring = found.next(TokenEvent::NeedsRefresh(true));
            let resolved = expiring.next(TokenEvent::ClientResolved(client));
            let ready = resolved.next(TokenEvent::HeadersBuilt(headers));
            &&& tokens.pending() == (TokenActionView::<G, S, C, H>::LoadSnapshot {
                credential_name: server.credential_name@,
                url: server.url->0@,
            })
            &&& found.pending() == (TokenActionView::<G, S, C, H>::CheckExpiry { expires_at })
            &&& expiring.pending() == (TokenActionView::<G, S, C, H>::ResolveClient {
                name: server.name@,
                config: server.config,
            })
            &&& resolved.pending() == (TokenActionView::<G, S, C, H>::BuildHeaders {
                config: server.config,
            })
            &&& ready.pending() == (TokenActionView::<G, S, C, H>::Refresh {
                credential_name: server.credential_name@,
                url: server.url->0@,
                snapshot,
                headers,
                client,
                redirect_mode: if server.agent_plugin {
                    StreamableHttpRedirectMode::AgentPluginV1
                } else {
                    StreamableHttpRedirectMode::Legacy
                },
                force_refresh: false,
            })
            &&& ready.servers == tokens.servers
            &&& ready.position == tokens.position
        }),
{
}

/// An event changes a refresh only as an answer to the work that the refresh
/// waits for, and never the servers.
pub proof fn law_only_answers_change_a_token_refresh<G, S, C, H>(
    tokens: ExpiringTokensView<G, S, C, H>,
    event: TokenEvent<S, C, H>,
)
    ensures
        tokens.next(event).servers == tokens.servers,
        tokens.next(event) == tokens || match tokens.pending() {
            TokenActionView::LoadSnapshot { .. } => event is SnapshotFailed || event
                is SnapshotMissing || event is SnapshotFound,
            TokenActionView::CheckExpiry { .. } => event is NeedsRefresh,
            TokenActionView::ResolveClient { .. } => event is ClientResolved || event
                is ClientFailed,
            TokenActionView::BuildHeaders { .. } => event is HeadersBuilt || event is HeadersFailed,
            TokenActionView::Refresh { .. } => event is Refreshed,
            TokenActionView::Finish => false,
        },
{
}

} // verus!
