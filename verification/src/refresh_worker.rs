//! Refreshing MCP OAuth tokens in the background, before they expire.
//!
//! [`RefreshWorker`] is the worker's loop: check for shutdown, refresh, sleep.
//! [`ExpiringTokens`] is one refresh over all servers. Both are state machines:
//! `pending` names the work to do next, and `advance` takes what came of it.

use vstd::prelude::*;

verus! {

/// The pause between two refreshes, in nanoseconds.
pub const MCP_OAUTH_REFRESH_INTERVAL_NANOS: u128 = 60_000_000_000;

/// How far the worker's loop is.
#[derive(Clone, Copy, Debug, PartialEq, Eq, Structural)]
pub enum WorkerPhase {
    /// It has to be seen whether shutdown was asked for.
    Polling,
    /// The expiring tokens have to be refreshed.
    Refreshing,
    /// The interval has to pass.
    Sleeping,
    /// The loop has ended.
    Stopped,
}

/// What came of the worker's pending work.
#[derive(Clone, Copy, Debug, PartialEq, Eq, Structural)]
pub enum WorkerEvent {
    /// Whether shutdown was asked for.
    Polled { cancelled: bool },
    /// The refresh came to an end, well or not.
    Refreshed { ok: bool },
    /// The interval passed.
    Slept,
    /// Shutdown was asked for during the interval.
    Cancelled,
}

/// The work that the worker waits for.
#[derive(Clone, Copy, Debug, PartialEq, Eq, Structural)]
pub enum WorkerAction {
    /// See whether shutdown was asked for.
    Poll,
    /// Refresh the expiring tokens.
    Refresh,
    /// Wait for this many nanoseconds, or for shutdown.
    Sleep { nanos: u128 },
    /// Nothing is left to do.
    Stop,
}

/// The worker's loop.
#[derive(Clone, Copy, Debug, PartialEq, Eq, Structural)]
pub struct RefreshWorker {
    pub interval_nanos: u128,
    pub phase: WorkerPhase,
}

/// A worker that refreshes once a minute.
pub fn spawn() -> (worker: RefreshWorker)
    ensures
        worker.interval_nanos == MCP_OAUTH_REFRESH_INTERVAL_NANOS,
        worker.phase == WorkerPhase::Polling,
{
    spawn_with_interval(MCP_OAUTH_REFRESH_INTERVAL_NANOS)
}

/// A worker that refreshes at this interval.
pub fn spawn_with_interval(interval_nanos: u128) -> (worker: RefreshWorker)
    ensures
        worker.interval_nanos == interval_nanos,
        worker.phase == WorkerPhase::Polling,
{
    RefreshWorker { interval_nanos, phase: WorkerPhase::Polling }
}

/// The phase after an event. A refresh that failed is followed like one that
/// succeeded. An event that answers other work than the pending one changes
/// nothing.
pub open spec fn worker_next(phase: WorkerPhase, event: WorkerEvent) -> WorkerPhase {
    match (phase, event) {
        (WorkerPhase::Polling, WorkerEvent::Polled { cancelled }) => if cancelled {
            WorkerPhase::Stopped
        } else {
            WorkerPhase::Refreshing
        },
        (WorkerPhase::Refreshing, WorkerEvent::Refreshed { .. }) => WorkerPhase::Sleeping,
        (WorkerPhase::Sleeping, WorkerEvent::Slept) => WorkerPhase::Polling,
        (WorkerPhase::Sleeping, WorkerEvent::Cancelled) => WorkerPhase::Stopped,
        _ => phase,
    }
}

/// The phase after a sequence of events.
pub open spec fn worker_run(phase: WorkerPhase, events: Seq<WorkerEvent>) -> WorkerPhase
    decreases events.len(),
{
    if events.len() == 0 {
        phase
    } else {
        worker_next(worker_run(phase, events.drop_last()), events.last())
    }
}

impl RefreshWorker {
    /// The work that the worker waits for.
    pub fn pending(&self) -> (action: WorkerAction)
        ensures
            action == match self.phase {
                WorkerPhase::Polling => WorkerAction::Poll,
                WorkerPhase::Refreshing => WorkerAction::Refresh,
                WorkerPhase::Sleeping => WorkerAction::Sleep { nanos: self.interval_nanos },
                WorkerPhase::Stopped => WorkerAction::Stop,
            },
    {
        match self.phase {
            WorkerPhase::Polling => WorkerAction::Poll,
            WorkerPhase::Refreshing => WorkerAction::Refresh,
            WorkerPhase::Sleeping => WorkerAction::Sleep { nanos: self.interval_nanos },
            WorkerPhase::Stopped => WorkerAction::Stop,
        }
    }

    /// Takes what came of the pending work.
    pub fn advance(&mut self, event: WorkerEvent)
        ensures
            final(self).interval_nanos == old(self).interval_nanos,
            final(self).phase == worker_next(old(self).phase, event),
    {
        self.phase = match (self.phase, event) {
            (WorkerPhase::Polling, WorkerEvent::Polled { cancelled }) => if cancelled {
                WorkerPhase::Stopped
            } else {
                WorkerPhase::Refreshing
            },
            (WorkerPhase::Refreshing, WorkerEvent::Refreshed { .. }) => WorkerPhase::Sleeping,
            (WorkerPhase::Sleeping, WorkerEvent::Slept) => WorkerPhase::Polling,
            (WorkerPhase::Sleeping, WorkerEvent::Cancelled) => WorkerPhase::Stopped,
            (phase, _) => phase,
        };
    }
}

/// Once shutdown was asked for, no refresh starts any more: a worker that is
/// not in the middle of one never gets into one, and one that stopped stays so.
pub proof fn law_shutdown_ends_the_worker(phase: WorkerPhase, events: Seq<WorkerEvent>)
    requires
        phase != WorkerPhase::Refreshing,
        forall|i: int|
            0 <= i < events.len() ==> #[trigger] events[i] != (WorkerEvent::Polled {
                cancelled: false,
            }),
    ensures
        worker_run(phase, events) != WorkerPhase::Refreshing,
        phase == WorkerPhase::Stopped ==> worker_run(phase, events) == WorkerPhase::Stopped,
    decreases events.len(),
{
    if events.len() > 0 {
        let earlier = events.drop_last();
        assert forall|i: int| 0 <= i < earlier.len() implies #[trigger] earlier[i] != (
        WorkerEvent::Polled { cancelled: false }) by {
            assert(earlier[i] == events[i]);
        }
        law_shutdown_ends_the_worker(phase, earlier);
        assert(events[events.len() - 1] == events.last());
    }
}

/// A failed refresh does not end the worker: after the interval, and unless
/// shutdown was asked for, it refreshes again.
pub proof fn law_a_failed_refresh_is_repeated(ok: bool)
    ensures
        worker_run(
            WorkerPhase::Refreshing,
            seq![
                WorkerEvent::Refreshed { ok },
                WorkerEvent::Slept,
                WorkerEvent::Polled { cancelled: false },
            ],
        ) == WorkerPhase::Refreshing,
{
    let first = WorkerEvent::Refreshed { ok };
    let second = WorkerEvent::Slept;
    let third = WorkerEvent::Polled { cancelled: false };
    assert(seq![first, second, third].drop_last() =~= seq![first, second]);
    assert(seq![first, second].drop_last() =~= seq![first]);
    assert(seq![first].drop_last() =~= Seq::<WorkerEvent>::empty());
    reveal_with_fuel(worker_run, 4);
}

/// How redirects of an HTTP server are followed.
#[derive(Clone, Copy, Debug, PartialEq, Eq, Structural)]
pub enum StreamableHttpRedirectMode {
    /// As for servers of agent plugins.
    AgentPluginV1,
    /// As for all other servers.
    Legacy,
}

/// A configured server. `G` is the rest of its configuration, of which its HTTP
/// client and its headers are made.
pub struct EffectiveServer<G> {
    pub name: String,
    /// Whether an agent plugin brought it.
    pub agent_plugin: bool,
    /// The name under which its credentials are stored.
    pub credential_name: String,
    /// Its URL, where it is reached over HTTP.
    pub url: Option<String>,
    pub config: G,
}

/// The redirect mode of a server.
pub open spec fn redirect_mode_of(agent_plugin: bool) -> StreamableHttpRedirectMode {
    if agent_plugin {
        StreamableHttpRedirectMode::AgentPluginV1
    } else {
        StreamableHttpRedirectMode::Legacy
    }
}

/// How far the refresh is with the current server, and what it has found of it:
/// the stored credentials, the HTTP client and the default headers.
pub enum TokenPhase<S, C, H> {
    /// The stored credentials have to be loaded.
    Loading,
    /// It has to be decided whether a token with this expiry needs a refresh.
    CheckingExpiry { snapshot: S, expires_at: Option<u64> },
    /// The HTTP client has to be resolved.
    ResolvingClient { snapshot: S },
    /// The default headers have to be built.
    BuildingHeaders { snapshot: S, client: C },
    /// The tokens have to be refreshed.
    Refreshing { snapshot: S, client: C, headers: H },
}

/// What came of the pending work.
pub enum TokenEvent<S, C, H> {
    /// The stored credentials could not be loaded.
    SnapshotFailed,
    /// No credentials are stored.
    SnapshotMissing,
    /// Credentials are stored: the tokens and the store that they come from,
    /// whether the tokens hold a refresh token, and when they expire.
    SnapshotFound { snapshot: S, has_refresh_token: bool, expires_at: Option<u64> },
    /// Whether the token needs a refresh.
    NeedsRefresh(bool),
    ClientResolved(C),
    ClientFailed,
    HeadersBuilt(H),
    HeadersFailed,
    /// The refresh came to an end, well or not.
    Refreshed { ok: bool },
}

/// The work that the refresh waits for, always with the current server.
pub enum TokenAction<'a, G, S, C, H> {
    /// Load the credentials stored under this name and URL.
    LoadSnapshot { credential_name: &'a str, url: &'a str },
    /// Decide whether a token with this expiry needs a refresh.
    CheckExpiry { expires_at: Option<u64> },
    /// Resolve the HTTP client of this server.
    ResolveClient { name: &'a str, config: &'a G },
    /// Build the default headers of this configuration.
    BuildHeaders { config: &'a G },
    /// Refresh the tokens of this snapshot in its store, with these headers and
    /// over this client.
    Refresh {
        credential_name: &'a str,
        url: &'a str,
        snapshot: &'a S,
        headers: &'a H,
        client: &'a C,
        redirect_mode: StreamableHttpRedirectMode,
        force_refresh: bool,
    },
    /// No server is left.
    Finish,
}

/// The mathematical counterpart of [`TokenAction`].
pub enum TokenActionView<G, S, C, H> {
    LoadSnapshot { credential_name: Seq<char>, url: Seq<char> },
    CheckExpiry { expires_at: Option<u64> },
    ResolveClient { name: Seq<char>, config: G },
    BuildHeaders { config: G },
    Refresh {
        credential_name: Seq<char>,
        url: Seq<char>,
        snapshot: S,
        headers: H,
        client: C,
        redirect_mode: StreamableHttpRedirectMode,
        force_refresh: bool,
    },
    Finish,
}

impl<'a, G, S, C, H> View for TokenAction<'a, G, S, C, H> {
    type V = TokenActionView<G, S, C, H>;

    open spec fn view(&self) -> TokenActionView<G, S, C, H> {
        match *self {
            TokenAction::LoadSnapshot { credential_name, url } => TokenActionView::LoadSnapshot {
                credential_name: credential_name@,
                url: url@,
            },
            TokenAction::CheckExpiry { expires_at } => TokenActionView::CheckExpiry { expires_at },
            TokenAction::ResolveClient { name, config } => TokenActionView::ResolveClient {
                name: name@,
                config: *config,
            },
            TokenAction::BuildHeaders { config } => TokenActionView::BuildHeaders {
                config: *config,
            },
            TokenAction::Refresh {
                credential_name,
                url,
                snapshot,
                headers,
                client,
                redirect_mode,
                force_refresh,
            } => TokenActionView::Refresh {
                credential_name: credential_name@,
                url: url@,
                snapshot: *snapshot,
                headers: *headers,
                client: *client,
                redirect_mode,
                force_refresh,
            },
            TokenAction::Finish => TokenActionView::Finish,
        }
    }
}

/// One refresh over all servers.
pub struct ExpiringTokens<G, S, C, H> {
    servers: Vec<EffectiveServer<G>>,
    position: usize,
    phase: TokenPhase<S, C, H>,
}

/// The mathematical counterpart of [`ExpiringTokens`].
pub struct ExpiringTokensView<G, S, C, H> {
    /// The servers, in the order in which they are visited.
    pub servers: Seq<EffectiveServer<G>>,
    /// The position of the current one.
    pub position: nat,
    /// How far the current one is.
    pub phase: TokenPhase<S, C, H>,
}

/// The first position from `from` on whose server is reached over HTTP.
pub open spec fn next_http<G>(servers: Seq<EffectiveServer<G>>, from: nat) -> nat
    decreases servers.len() - from,
{
    if from >= servers.len() {
        servers.len()
    } else if servers[from as int].url is Some {
        from
    } else {
        next_http(servers, from + 1)
    }
}

impl<G, S, C, H> View for ExpiringTokens<G, S, C, H> {
    type V = ExpiringTokensView<G, S, C, H>;

    closed spec fn view(&self) -> ExpiringTokensView<G, S, C, H> {
        ExpiringTokensView {
            servers: self.servers@,
            position: self.position as nat,
            phase: self.phase,
        }
    }
}

impl<G, S, C, H> ExpiringTokensView<G, S, C, H> {
    /// The start of a refresh over these servers.
    pub open spec fn start(servers: Seq<EffectiveServer<G>>) -> ExpiringTokensView<G, S, C, H> {
        ExpiringTokensView {
            servers,
            position: next_http(servers, 0),
            phase: TokenPhase::Loading,
        }
    }

    /// Whether no server is left.
    pub open spec fn is_finished(self) -> bool {
        self.position >= self.servers.len()
    }

    /// What holds at every point: the current server is reached over HTTP.
    pub open spec fn wf(self) -> bool {
        &&& self.position <= self.servers.len()
        &&& !self.is_finished() ==> self.server().url is Some
    }

    /// The current server.
    pub open spec fn server(self) -> EffectiveServer<G> {
        self.servers[self.position as int]
    }

    /// The refresh with the current server done.
    pub open spec fn move_on(self) -> ExpiringTokensView<G, S, C, H> {
        ExpiringTokensView {
            servers: self.servers,
            position: next_http(self.servers, self.position + 1),
            phase: TokenPhase::Loading,
        }
    }

    /// The refresh in another phase.
    pub open spec fn enter(self, phase: TokenPhase<S, C, H>) -> ExpiringTokensView<G, S, C, H> {
        ExpiringTokensView { phase, ..self }
    }

    /// The refresh after an event: the next piece of work with the current
    /// server, or the next server where this one cannot or need not be
    /// refreshed, or has been.
    pub open spec fn next(self, event: TokenEvent<S, C, H>) -> ExpiringTokensView<G, S, C, H> {
        if self.is_finished() {
            self
        } else {
            match (self.phase, event) {
                (TokenPhase::Loading, TokenEvent::SnapshotFailed) => self.move_on(),
                (TokenPhase::Loading, TokenEvent::SnapshotMissing) => self.move_on(),
                (
                    TokenPhase::Loading,
                    TokenEvent::SnapshotFound { snapshot, has_refresh_token, expires_at },
                ) => if has_refresh_token {
                    self.enter(TokenPhase::CheckingExpiry { snapshot, expires_at })
                } else {
                    self.move_on()
                },
                (
                    TokenPhase::CheckingExpiry { snapshot, .. },
                    TokenEvent::NeedsRefresh(needed),
                ) => if needed {
                    self.enter(TokenPhase::ResolvingClient { snapshot })
                } else {
                    self.move_on()
                },
                (TokenPhase::ResolvingClient { snapshot }, TokenEvent::ClientResolved(client)) =>
                    self.enter(TokenPhase::BuildingHeaders { snapshot, client }),
                (TokenPhase::ResolvingClient { .. }, TokenEvent::ClientFailed) => self.move_on(),
                (
                    TokenPhase::BuildingHeaders { snapshot, client },
                    TokenEvent::HeadersBuilt(headers),
                ) => self.enter(TokenPhase::Refreshing { snapshot, client, headers }),
                (TokenPhase::BuildingHeaders { .. }, TokenEvent::HeadersFailed) => self.move_on(),
                (TokenPhase::Refreshing { .. }, TokenEvent::Refreshed { .. }) => self.move_on(),
                _ => self,
            }
        }
    }

    /// The refresh after a sequence of events.
    pub open spec fn run(self, events: Seq<TokenEvent<S, C, H>>) -> ExpiringTokensView<G, S, C, H>
        decreases events.len(),
    {
        if events.len() == 0 {
            self
        } else {
            self.run(events.drop_last()).next(events.last())
        }
    }

    /// The work that the refresh waits for.
    pub open spec fn pending(self) -> TokenActionView<G, S, C, H> {
        if self.is_finished() {
            TokenActionView::Finish
        } else {
            match self.phase {
                TokenPhase::Loading => TokenActionView::LoadSnapshot {
                    credential_name: self.server().credential_name@,
                    url: self.server().url->0@,
                },
                TokenPhase::CheckingExpiry { expires_at, .. } => TokenActionView::CheckExpiry {
                    expires_at,
                },
                TokenPhase::ResolvingClient { .. } => TokenActionView::ResolveClient {
                    name: self.server().name@,
                    config: self.server().config,
                },
                TokenPhase::BuildingHeaders { .. } => TokenActionView::BuildHeaders {
                    config: self.server().config,
                },
                TokenPhase::Refreshing { snapshot, client, headers } => TokenActionView::Refresh {
                    credential_name: self.server().credential_name@,
                    url: self.server().url->0@,
                    snapshot,
                    headers,
                    client,
                    redirect_mode: redirect_mode_of(self.server().agent_plugin),
                    force_refresh: false,
                },
            }
        }
    }
}

/// What [`next_http`] finds: the first such server and none before it.
pub proof fn lemma_next_http<G>(servers: Seq<EffectiveServer<G>>, from: nat)
    requires
        from <= servers.len(),
    ensures
        from <= next_http(servers, from) <= servers.len(),
        next_http(servers, from) < servers.len() ==> servers[next_http(
            servers,
            from,
        ) as int].url is Some,
        forall|i: int| from <= i < next_http(servers, from) ==> #[trigger] servers[i].url is None,
    decreases servers.len() - from,
{
    if from < servers.len() && servers[from as int].url is None {
        lemma_next_http(servers, from + 1);
    }
}

impl<G, S, C, H> ExpiringTokens<G, S, C, H> {
    /// The invariant: the current server is reached over HTTP.
    #[verifier::type_invariant]
    spec fn visits_http(self) -> bool {
        self@.wf()
    }

    /// The first position from `from` on whose server is reached over HTTP.
    fn find_http(servers: &Vec<EffectiveServer<G>>, from: usize) -> (position: usize)
        requires
            from <= servers@.len(),
        ensures
            position == next_http(servers@, from as nat),
            position <= servers@.len(),
            position < servers@.len() ==> servers@[position as int].url is Some,
    {
        proof {
            lemma_next_http(servers@, from as nat);
        }
        let mut position: usize = from;
        while position < servers.len() && servers[position].url.is_none()
            invariant
                from <= position <= servers@.len(),
                next_http(servers@, position as nat) == next_http(servers@, from as nat),
            decreases servers@.len() - position,
        {
            position = position + 1;
        }
        position
    }

    /// The position of the current server.
    pub fn position(&self) -> (position: usize)
        ensures
            position == self@.position,
    {
        self.position
    }

    /// The work that the refresh waits for.
    pub fn pending(&self) -> (action: TokenAction<'_, G, S, C, H>)
        ensures
            action@ == self@.pending(),
    {
        proof {
            use_type_invariant(self);
        }
        if self.position >= self.servers.len() {
            return TokenAction::Finish;
        }
        let server = &self.servers[self.position];
        match &self.phase {
            TokenPhase::Loading => match &server.url {
                Some(url) => TokenAction::LoadSnapshot {
                    credential_name: server.credential_name.as_str(),
                    url: url.as_str(),
                },
                None => TokenAction::Finish,
            },
            TokenPhase::CheckingExpiry { expires_at, .. } => TokenAction::CheckExpiry {
                expires_at: *expires_at,
            },
            TokenPhase::ResolvingClient { .. } => TokenAction::ResolveClient {
                name: server.name.as_str(),
                config: &server.config,
            },
            TokenPhase::BuildingHeaders { .. } => TokenAction::BuildHeaders {
                config: &server.config,
            },
            TokenPhase::Refreshing { snapshot, client, headers } => match &server.url {
                Some(url) => TokenAction::Refresh {
                    credential_name: server.credential_name.as_str(),
                    url: url.as_str(),
                    snapshot,
                    headers,
                    client,
                    redirect_mode: if server.agent_plugin {
                        StreamableHttpRedirectMode::AgentPluginV1
                    } else {
                        StreamableHttpRedirectMode::Legacy
                    },
                    force_refresh: false,
                },
                None => TokenAction::Finish,
            },
        }
    }

    /// Takes what came of the pending work.
    pub fn advance(self, event: TokenEvent<S, C, H>) -> (next: Self)
        ensures
            next@ == self@.next(event),
    {
        proof {
            use_type_invariant(&self);
        }
        if self.position >= self.servers.len() {
            return self;
        }
        let phase = match (self.phase, event) {
            (TokenPhase::Loading, TokenEvent::SnapshotFailed) => None,
            (TokenPhase::Loading, TokenEvent::SnapshotMissing) => None,
            (
                TokenPhase::Loading,
                TokenEvent::SnapshotFound { snapshot, has_refresh_token, expires_at },
            ) => if has_refresh_token {
                Some(TokenPhase::CheckingExpiry { snapshot, expires_at })
            } else {
                None
            },
            (TokenPhase::CheckingExpiry { snapshot, .. }, TokenEvent::NeedsRefresh(needed)) =>
                if needed {
                    Some(TokenPhase::ResolvingClient { snapshot })
                } else {
                    None
                },
            (TokenPhase::ResolvingClient { snapshot }, TokenEvent::ClientResolved(client)) => Some(
                TokenPhase::BuildingHeaders { snapshot, client },
            ),
            (TokenPhase::ResolvingClient { .. }, TokenEvent::ClientFailed) => None,
            (
                TokenPhase::BuildingHeaders { snapshot, client },
                TokenEvent::HeadersBuilt(headers),
            ) => Some(TokenPhase::Refreshing { snapshot, client, headers }),
            (TokenPhase::BuildingHeaders { .. }, TokenEvent::HeadersFailed) => None,
            (TokenPhase::Refreshing { .. }, TokenEvent::Refreshed { .. }) => None,
            (phase, _) => Some(phase),
        };
        match phase {
            Some(phase) => ExpiringTokens {
                servers: self.servers,
                position: self.position,
                phase,
            },
            None => {
                let position = Self::find_http(&self.servers, self.position + 1);
                ExpiringTokens { servers: self.servers, position, phase: TokenPhase::Loading }
            },
        }
    }
}

/// Starts a refresh of the expiring tokens of these servers, in this order.
pub fn refresh_expiring_tokens<G, S, C, H>(
    servers: Vec<EffectiveServer<G>>,
) -> (tokens: ExpiringTokens<G, S, C, H>)
    ensures
        tokens@ == ExpiringTokensView::<G, S, C, H>::start(servers@),
{
    let position = ExpiringTokens::<G, S, C, H>::find_http(&servers, 0);
    ExpiringTokens { servers, position, phase: TokenPhase::Loading }
}

/// Whether this event answered this work while the server at this position was
/// current.
pub open spec fn answered<G, S, C, H>(
    start: ExpiringTokensView<G, S, C, H>,
    events: Seq<TokenEvent<S, C, H>>,
    position: nat,
    action: TokenActionView<G, S, C, H>,
    event: TokenEvent<S, C, H>,
) -> bool {
    exists|i: int|
        0 <= i < events.len() && #[trigger] events[i] == event && start.run(
            events.take(i),
        ).position == position && start.run(events.take(i)).pending() == action
}

/// Whether this snapshot, with a refresh token, was found under the server's
/// credential name and URL.
pub open spec fn was_found<G, S, C, H>(
    start: ExpiringTokensView<G, S, C, H>,
    events: Seq<TokenEvent<S, C, H>>,
    position: nat,
    snapshot: S,
    expires_at: Option<u64>,
) -> bool {
    answered(
        start,
        events,
        position,
        TokenActionView::LoadSnapshot {
            credential_name: start.servers[position as int].credential_name@,
            url: start.servers[position as int].url->0@,
        },
        TokenEvent::SnapshotFound { snapshot, has_refresh_token: true, expires_at },
    )
}

/// Whether this snapshot was found, and a token with its expiry was found to
/// need a refresh.
pub open spec fn was_expiring<G, S, C, H>(
    start: ExpiringTokensView<G, S, C, H>,
    events: Seq<TokenEvent<S, C, H>>,
    position: nat,
    snapshot: S,
) -> bool {
    exists|expires_at: Option<u64>| #[trigger]
        was_found(start, events, position, snapshot, expires_at) && answered(
            start,
            events,
            position,
            TokenActionView::CheckExpiry { expires_at },
            TokenEvent::NeedsRefresh(true),
        )
}

/// Whether this client was resolved for the server.
pub open spec fn was_resolved<G, S, C, H>(
    start: ExpiringTokensView<G, S, C, H>,
    events: Seq<TokenEvent<S, C, H>>,
    position: nat,
    client: C,
) -> bool {
    answered(
        start,
        events,
        position,
        TokenActionView::ResolveClient {
            name: start.servers[position as int].name@,
            config: start.servers[position as int].config,
        },
        TokenEvent::ClientResolved(client),
    )
}

/// Whether these headers were built for the server.
pub open spec fn were_built<G, S, C, H>(
    start: ExpiringTokensView<G, S, C, H>,
    events: Seq<TokenEvent<S, C, H>>,
    position: nat,
    headers: H,
) -> bool {
    answered(
        start,
        events,
        position,
        TokenActionView::BuildHeaders { config: start.servers[position as int].config },
        TokenEvent::HeadersBuilt(headers),
    )
}

proof fn lemma_answered_last<G, S, C, H>(
    start: ExpiringTokensView<G, S, C, H>,
    events: Seq<TokenEvent<S, C, H>>,
)
    requires
        events.len() > 0,
    ensures
        answered(
            start,
            events,
            start.run(events.drop_last()).position,
            start.run(events.drop_last()).pending(),
            events.last(),
        ),
{
    assert(events.take(events.len() - 1) =~= events.drop_last());
    assert(events[events.len() - 1] == events.last());
}

proof fn lemma_answered_before<G, S, C, H>(
    start: ExpiringTokensView<G, S, C, H>,
    events: Seq<TokenEvent<S, C, H>>,
    position: nat,
    action: TokenActionView<G, S, C, H>,
    event: TokenEvent<S, C, H>,
)
    requires
        events.len() > 0,
        answered(start, events.drop_last(), position, action, event),
    ensures
        answered(start, events, position, action, event),
{
    let earlier = events.drop_last();
    let i = choose|i: int|
        0 <= i < earlier.len() && #[trigger] earlier[i] == event && start.run(
            earlier.take(i),
        ).position == position && start.run(earlier.take(i)).pending() == action;
    assert(events.take(i) =~= earlier.take(i));
    assert(events[i] == event);
}

/// What the phase of a refresh says of what came before it.
spec fn phase_was_earned<G, S, C, H>(
    start: ExpiringTokensView<G, S, C, H>,
    events: Seq<TokenEvent<S, C, H>>,
) -> bool {
    let now = start.run(events);
    let at = now.position;
    match now.phase {
        TokenPhase::Loading => true,
        TokenPhase::CheckingExpiry { snapshot, expires_at } => was_found(
            start,
            events,
            at,
            snapshot,
            expires_at,
        ),
        TokenPhase::ResolvingClient { snapshot } => was_expiring(start, events, at, snapshot),
        TokenPhase::BuildingHeaders { snapshot, client } => was_expiring(
            start,
            events,
            at,
            snapshot,
        ) && was_resolved(start, events, at, client),
        TokenPhase::Refreshing { snapshot, client, headers } => was_expiring(
            start,
            events,
            at,
            snapshot,
        ) && was_resolved(start, events, at, client) && were_built(start, events, at, headers),
    }
}

proof fn lemma_phase_was_earned<G, S, C, H>(
    servers: Seq<EffectiveServer<G>>,
    events: Seq<TokenEvent<S, C, H>>,
)
    ensures
        phase_was_earned(ExpiringTokensView::<G, S, C, H>::start(servers), events),
    decreases events.len(),
{
    if events.len() > 0 {
        let start = ExpiringTokensView::<G, S, C, H>::start(servers);
        let earlier = events.drop_last();
        let before = start.run(earlier);
        lemma_phase_was_earned::<G, S, C, H>(servers, earlier);
        lemma_run_keeps_wf::<G, S, C, H>(servers, earlier);
        lemma_answered_last(start, events);
        let position = before.position;
        assert forall|action: TokenActionView<G, S, C, H>, event: TokenEvent<S, C, H>| #[trigger]
            answered(start, earlier, position, action, event) implies answered(
            start,
            events,
            position,
            action,
            event,
        ) by {
            lemma_answered_before(start, events, position, action, event);
        }
        match before.phase {
            TokenPhase::CheckingExpiry { snapshot, expires_at } => {
                assert(was_found(start, events, position, snapshot, expires_at));
            },
            TokenPhase::ResolvingClient { snapshot } => {
                lemma_was_expiring_before(start, events, position, snapshot);
            },
            TokenPhase::BuildingHeaders { snapshot, .. } => {
                lemma_was_expiring_before(start, events, position, snapshot);
            },
            TokenPhase::Refreshing { snapshot, .. } => {
                lemma_was_expiring_before(start, events, position, snapshot);
            },
            _ => {},
        }
    }
}

proof fn lemma_was_expiring_before<G, S, C, H>(
    start: ExpiringTokensView<G, S, C, H>,
    events: Seq<TokenEvent<S, C, H>>,
    position: nat,
    snapshot: S,
)
    requires
        events.len() > 0,
        was_expiring(start, events.drop_last(), position, snapshot),
    ensures
        was_expiring(start, events, position, snapshot),
{
    let earlier = events.drop_last();
    let expires_at = choose|expires_at: Option<u64>| #[trigger]
        was_found(start, earlier, position, snapshot, expires_at) && answered(
            start,
            earlier,
            position,
            TokenActionView::CheckExpiry { expires_at },
            TokenEvent::NeedsRefresh(true),
        );
    lemma_answered_before(
        start,
        events,
        position,
        TokenActionView::LoadSnapshot {
            credential_name: start.servers[position as int].credential_name@,
            url: start.servers[position as int].url->0@,
        },
        TokenEvent::SnapshotFound { snapshot, has_refresh_token: true, expires_at },
    );
    lemma_answered_before(
        start,
        events,
        position,
        TokenActionView::CheckExpiry { expires_at },
        TokenEvent::NeedsRefresh(true),
    );
    assert(was_found(start, events, position, snapshot, expires_at));
}

/// Tokens are refreshed only for a server whose stored credentials have a
/// refresh token, were found to need a refresh, and whose HTTP client and
/// headers could be had. What is refreshed is exactly that: the snapshot found
/// under the server's credential name and URL, with the headers built of its
/// configuration and over the client resolved for it. The refresh is not forced
/// and follows the server's redirect mode.
pub proof fn law_a_refresh_is_earned<G, S, C, H>(
    servers: Seq<EffectiveServer<G>>,
    events: Seq<TokenEvent<S, C, H>>,
)
    requires
        ExpiringTokensView::<G, S, C, H>::start(servers).run(events).pending() is Refresh,
    ensures
        ({
            let start = ExpiringTokensView::<G, S, C, H>::start(servers);
            let at = start.run(events).position;
            start.run(events).pending() matches TokenActionView::Refresh {
                credential_name,
                url,
                snapshot,
                headers,
                client,
                redirect_mode,
                force_refresh,
            } && {
                &&& at < servers.len()
                &&& servers[at as int].url is Some
                &&& credential_name == servers[at as int].credential_name@
                &&& url == servers[at as int].url->0@
                &&& was_expiring(start, events, at, snapshot)
                &&& was_resolved(start, events, at, client)
                &&& were_built(start, events, at, headers)
                &&& redirect_mode == redirect_mode_of(servers[at as int].agent_plugin)
                &&& !force_refresh
            }
        }),
{
    lemma_phase_was_earned::<G, S, C, H>(servers, events);
    lemma_run_keeps_wf::<G, S, C, H>(servers, events);
}

/// A server qualifies once its credentials were found with a refresh token and
/// found to need a refresh, and its client and headers were had: then exactly
/// these are refreshed.
pub proof fn law_a_qualifying_server_is_refreshed<G, S, C, H>(
    tokens: ExpiringTokensView<G, S, C, H>,
    snapshot: S,
    expires_at: Option<u64>,
    client: C,
    headers: H,
)
    requires
        !tokens.is_finished(),
        tokens.phase is Loading,
    ensures
        ({
            let found = tokens.next(
                TokenEvent::SnapshotFound { snapshot, has_refresh_token: true, expires_at },
            );
            let expiring = found.next(TokenEvent::NeedsRefresh(true));
            let resolved = expiring.next(TokenEvent::ClientResolved(client));
            let ready = resolved.next(TokenEvent::HeadersBuilt(headers));
            let server = tokens.server();
            &&& tokens.pending() == (TokenActionView::<G, S, C, H>::LoadSnapshot {
                credential_name: server.credential_name@,
                url: server.url->0@,
            })
            &&& found.pending() == (TokenActionView::<G, S, C, H>::CheckExpiry { expires_at })
            &&& expiring.pending() == (TokenActionView::<G, S, C, H>::ResolveClient {
                name: server.name@,
                config: server.config,
            })
            &&& resolved.pending() == (TokenActionView::<G, S, C, H>::BuildHeaders {
                config: server.config,
            })
            &&& ready.pending() == (TokenActionView::<G, S, C, H>::Refresh {
                credential_name: server.credential_name@,
                url: server.url->0@,
                snapshot,
                headers,
                client,
                redirect_mode: redirect_mode_of(server.agent_plugin),
                force_refresh: false,
            })
        }),
{
}

proof fn lemma_run_keeps_wf<G, S, C, H>(
    servers: Seq<EffectiveServer<G>>,
    events: Seq<TokenEvent<S, C, H>>,
)
    ensures
        ExpiringTokensView::<G, S, C, H>::start(servers).run(events).wf(),
        ExpiringTokensView::<G, S, C, H>::start(servers).run(events).servers == servers,
    decreases events.len(),
{
    lemma_next_http(servers, 0);
    if events.len() > 0 {
        lemma_run_keeps_wf::<G, S, C, H>(servers, events.drop_last());
        let before = ExpiringTokensView::<G, S, C, H>::start(servers).run(events.drop_last());
        if !before.is_finished() {
            lemma_next_http(servers, before.position + 1);
        }
    }
}

/// Whether the server at this position was current at some point.
pub open spec fn was_visited<G, S, C, H>(
    start: ExpiringTokensView<G, S, C, H>,
    events: Seq<TokenEvent<S, C, H>>,
    position: nat,
) -> bool {
    exists|n: int|
        0 <= n <= events.len() && (#[trigger] start.run(events.take(n))).position == position
}

proof fn lemma_visited_before<G, S, C, H>(
    start: ExpiringTokensView<G, S, C, H>,
    events: Seq<TokenEvent<S, C, H>>,
    position: nat,
)
    requires
        events.len() > 0,
        was_visited(start, events.drop_last(), position),
    ensures
        was_visited(start, events, position),
{
    let earlier = events.drop_last();
    let n = choose|n: int|
        0 <= n <= earlier.len() && (#[trigger] start.run(earlier.take(n))).position == position;
    assert(events.take(n) =~= earlier.take(n));
    assert(start.run(events.take(n)).position == position);
}

/// No server keeps another one from its turn: whatever came of the servers
/// before, each server that is reached over HTTP was current before the
/// refresh got past it.
pub proof fn law_no_server_is_passed_over<G, S, C, H>(
    servers: Seq<EffectiveServer<G>>,
    events: Seq<TokenEvent<S, C, H>>,
    position: nat,
)
    requires
        position < servers.len(),
        servers[position as int].url is Some,
        position < ExpiringTokensView::<G, S, C, H>::start(servers).run(events).position,
    ensures
        was_visited(ExpiringTokensView::<G, S, C, H>::start(servers), events, position),
    decreases events.len(),
{
    let start = ExpiringTokensView::<G, S, C, H>::start(servers);
    lemma_next_http(servers, 0);
    if events.len() > 0 {
        let earlier = events.drop_last();
        let before = start.run(earlier);
        lemma_run_keeps_wf::<G, S, C, H>(servers, earlier);
        if position < before.position {
            law_no_server_is_passed_over::<G, S, C, H>(servers, earlier, position);
            lemma_visited_before(start, events, position);
        } else if position == before.position {
            assert(earlier.take(earlier.len() as int) =~= earlier);
            assert(start.run(earlier.take(earlier.len() as int)).position == position);
            lemma_visited_before(start, events, position);
        } else {
            lemma_next_http(servers, before.position + 1);
        }
    }
}

/// The tokens of a server are refreshed at most once: after the refresh, well
/// or not, the server is not current again.
pub proof fn law_one_refresh_per_server<G, S, C, H>(
    servers: Seq<EffectiveServer<G>>,
    events: Seq<TokenEvent<S, C, H>>,
    ok: bool,
    later: Seq<TokenEvent<S, C, H>>,
)
    requires
        ExpiringTokensView::<G, S, C, H>::start(servers).run(events).pending() is Refresh,
    ensures
        ExpiringTokensView::<G, S, C, H>::start(servers).run(events).next(TokenEvent::Refreshed { ok }).run(
            later,
        ).position > ExpiringTokensView::<G, S, C, H>::start(servers).run(events).position,
{
    lemma_run_keeps_wf::<G, S, C, H>(servers, events);
    let now = ExpiringTokensView::<G, S, C, H>::start(servers).run(events);
    lemma_next_http(servers, now.position + 1);
    lemma_positions_only_grow(now.next(TokenEvent::Refreshed { ok }), later);
}

proof fn lemma_positions_only_grow<G, S, C, H>(
    tokens: ExpiringTokensView<G, S, C, H>,
    events: Seq<TokenEvent<S, C, H>>,
)
    requires
        tokens.position <= tokens.servers.len(),
    ensures
        tokens.position <= tokens.run(events).position <= tokens.servers.len(),
        tokens.run(events).servers == tokens.servers,
    decreases events.len(),
{
    if events.len() > 0 {
        lemma_positions_only_grow(tokens, events.drop_last());
        let before = tokens.run(events.drop_last());
        if !before.is_finished() {
            lemma_next_http(before.servers, before.position + 1);
        }
    }
}

/// Whether an event answers the work that the refresh waits for.
pub open spec fn answers<G, S, C, H>(
    tokens: ExpiringTokensView<G, S, C, H>,
    event: TokenEvent<S, C, H>,
) -> bool {
    match (tokens.pending(), event) {
        (TokenActionView::LoadSnapshot { .. }, TokenEvent::SnapshotFailed) => true,
        (TokenActionView::LoadSnapshot { .. }, TokenEvent::SnapshotMissing) => true,
        (TokenActionView::LoadSnapshot { .. }, TokenEvent::SnapshotFound { .. }) => true,
        (TokenActionView::CheckExpiry { .. }, TokenEvent::NeedsRefresh(_)) => true,
        (TokenActionView::ResolveClient { .. }, TokenEvent::ClientResolved(_)) => true,
        (TokenActionView::ResolveClient { .. }, TokenEvent::ClientFailed) => true,
        (TokenActionView::BuildHeaders { .. }, TokenEvent::HeadersBuilt(_)) => true,
        (TokenActionView::BuildHeaders { .. }, TokenEvent::HeadersFailed) => true,
        (TokenActionView::Refresh { .. }, TokenEvent::Refreshed { .. }) => true,
        _ => false,
    }
}

/// Whether each event answers the work that the refresh waits for when it
/// comes.
pub open spec fn all_answer<G, S, C, H>(
    start: ExpiringTokensView<G, S, C, H>,
    events: Seq<TokenEvent<S, C, H>>,
) -> bool
    decreases events.len(),
{
    events.len() == 0 || (all_answer(start, events.drop_last()) && answers(
        start.run(events.drop_last()),
        events.last(),
    ))
}

/// How many answers the refresh still takes, at most: five for each server to
/// come, and for the current one as many as its phase leaves.
pub open spec fn answers_left<G, S, C, H>(tokens: ExpiringTokensView<G, S, C, H>) -> nat {
    if tokens.is_finished() {
        0
    } else {
        let current: nat = match tokens.phase {
            TokenPhase::Loading => 5,
            TokenPhase::CheckingExpiry { .. } => 4,
            TokenPhase::ResolvingClient { .. } => 3,
            TokenPhase::BuildingHeaders { .. } => 2,
            TokenPhase::Refreshing { .. } => 1,
        };
        ((tokens.servers.len() - tokens.position - 1) * 5 + current) as nat
    }
}

/// An event that answers the pending work brings the refresh nearer to its end,
/// and any other event changes nothing. As long as the refresh is not at its
/// end, there is an event that answers.
pub proof fn law_an_answer_brings_the_end_nearer<G, S, C, H>(
    tokens: ExpiringTokensView<G, S, C, H>,
    event: TokenEvent<S, C, H>,
)
    ensures
        answers(tokens, event) ==> answers_left(tokens.next(event)) < answers_left(tokens),
        !answers(tokens, event) ==> tokens.next(event) == tokens,
        answers_left(tokens) == 0 <==> tokens.is_finished(),
        tokens.is_finished() <==> tokens.pending() is Finish,
        !tokens.is_finished() <==> exists|other: TokenEvent<S, C, H>|
            answers(tokens, other),
{
    if !tokens.is_finished() {
        lemma_next_http(tokens.servers, tokens.position + 1);
        assert(answers(tokens, TokenEvent::SnapshotMissing) || answers(
            tokens,
            TokenEvent::NeedsRefresh(false),
        ) || answers(tokens, TokenEvent::ClientFailed) || answers(tokens, TokenEvent::HeadersFailed)
            || answers(tokens, TokenEvent::Refreshed { ok: true }));
    }
}

/// A refresh of expiring tokens comes to an end: over `n` servers it takes at
/// most `5 * n` answers.
pub proof fn law_a_token_refresh_comes_to_an_end<G, S, C, H>(
    servers: Seq<EffectiveServer<G>>,
    events: Seq<TokenEvent<S, C, H>>,
)
    requires
        all_answer(ExpiringTokensView::<G, S, C, H>::start(servers), events),
    ensures
        events.len() + answers_left(ExpiringTokensView::<G, S, C, H>::start(servers).run(events)) <= 5
            * servers.len(),
        events.len() == 5 * servers.len() ==> ExpiringTokensView::<G, S, C, H>::start(servers).run(
            events,
        ).is_finished(),
    decreases events.len(),
{
    let start = ExpiringTokensView::<G, S, C, H>::start(servers);
    lemma_next_http(servers, 0);
    if events.len() > 0 {
        let earlier = events.drop_last();
        law_a_token_refresh_comes_to_an_end::<G, S, C, H>(servers, earlier);
        law_an_answer_brings_the_end_nearer(start.run(earlier), events.last());
    }
    law_an_answer_brings_the_end_nearer(start.run(events), TokenEvent::SnapshotMissing);
}

} // verus!
