//! Keeps one OAuth refresh and persistence owner for the lifetime of a
//! connection.
//!
//! An [`OAuthRuntime`] says who refreshes the credentials of a connection.
//! [`OAuthRefresh`] is one refresh as a state machine:
//! [`OAuthRefresh::pending`] names the work to do next, and
//! [`OAuthRefresh::advance`] takes what came of it.

use crate::lease_session::{LeasedTokenView, McpGetAuthTokenResponse};
use crate::oauth_refresh_mode::McpOAuthRefreshMode;
use crate::texts;
use vstd::prelude::*;

verus! {

/// A token endpoint's answer.
pub struct TokenResponse {
    pub access_token: String,
    pub token_type: String,
    /// The lifetime in seconds, as the endpoint gave it.
    pub expires_in: Option<u64>,
    pub refresh_token: Option<String>,
    pub scopes: Option<Vec<String>>,
    /// Further fields of the answer, as JSON text.
    pub extra_fields: String,
}

/// The mathematical counterpart of [`TokenResponse`].
#[verifier::ext_equal]
pub struct TokenResponseView {
    pub access_token: Seq<char>,
    pub token_type: Seq<char>,
    pub expires_in: Option<u64>,
    pub refresh_token: Option<Seq<char>>,
    pub scopes: Option<Seq<Seq<char>>>,
    pub extra_fields: Seq<char>,
}

impl View for TokenResponse {
    type V = TokenResponseView;

    open spec fn view(&self) -> TokenResponseView {
        TokenResponseView {
            access_token: self.access_token@,
            token_type: self.token_type@,
            expires_in: self.expires_in,
            refresh_token: texts::optional_text(self.refresh_token),
            scopes: match self.scopes {
                Some(scopes) => Some(texts::text_views(scopes@)),
                None => None,
            },
            extra_fields: self.extra_fields@,
        }
    }
}

/// Credentials of a connection.
pub struct StoredOAuthTokens {
    pub server_name: String,
    pub url: String,
    pub client_id: String,
    pub token_response: TokenResponse,
    /// When the access token expires, where that is known.
    pub expires_at: Option<u64>,
}

/// The mathematical counterpart of [`StoredOAuthTokens`].
#[verifier::ext_equal]
pub struct StoredTokensView {
    pub server_name: Seq<char>,
    pub url: Seq<char>,
    pub client_id: Seq<char>,
    pub token_response: TokenResponseView,
    pub expires_at: Option<u64>,
}

impl View for StoredOAuthTokens {
    type V = StoredTokensView;

    open spec fn view(&self) -> StoredTokensView {
        StoredTokensView {
            server_name: self.server_name@,
            url: self.url@,
            client_id: self.client_id@,
            token_response: self.token_response@,
            expires_at: self.expires_at,
        }
    }
}

/// A copy of some texts.
fn copy_texts(list: &Vec<String>) -> (copy: Vec<String>)
    ensures
        texts::text_views(copy@) == texts::text_views(list@),
{
    let mut copy: Vec<String> = Vec::new();
    for i in 0..list.len()
        invariant
            copy@.len() == i,
            forall|j: int| 0 <= j < i ==> #[trigger] copy@[j]@ == list@[j]@,
    {
        copy.push(list[i].clone());
    }
    assert(texts::text_views(copy@) =~= texts::text_views(list@));
    copy
}

impl StoredTokensView {
    /// The credentials to use with a leased access token: the lease's token
    /// and expiry, no refresh token, and everything else as it was.
    pub open spec fn with_lease(self, lease: LeasedTokenView) -> StoredTokensView {
        StoredTokensView {
            token_response: TokenResponseView {
                access_token: lease.access_token,
                refresh_token: None,
                ..self.token_response
            },
            expires_at: lease.expires_at,
            ..self
        }
    }
}

impl StoredOAuthTokens {
    /// The credentials to use with a leased access token.
    pub fn with_lease(&self, lease: McpGetAuthTokenResponse) -> (tokens: StoredOAuthTokens)
        ensures
            tokens@ == self@.with_lease(lease@),
    {
        StoredOAuthTokens {
            server_name: self.server_name.clone(),
            url: self.url.clone(),
            client_id: self.client_id.clone(),
            token_response: TokenResponse {
                access_token: lease.access_token,
                token_type: self.token_response.token_type.clone(),
                expires_in: self.token_response.expires_in,
                refresh_token: None,
                scopes: match &self.token_response.scopes {
                    Some(scopes) => Some(copy_texts(scopes)),
                    None => None,
                },
                extra_fields: self.token_response.extra_fields.clone(),
            },
            expires_at: lease.expires_at,
        }
    }
}

/// Who refreshes and keeps the credentials of a connection.
pub enum OAuthRuntime {
    /// The client's own persistor.
    Legacy,
    /// The MCP library, through the credential store.
    Coordinated,
    /// The app-server daemon, which leases access tokens.
    DaemonLease {
        server_name: String,
        /// When the token in use expires, where that is known.
        expires_at: Option<u64>,
        /// The credentials that the connection started with.
        initial_tokens: StoredOAuthTokens,
    },
}

/// The mathematical counterpart of [`OAuthRuntime`].
pub enum OAuthRuntimeView {
    Legacy,
    Coordinated,
    DaemonLease {
        server_name: Seq<char>,
        expires_at: Option<u64>,
        initial_tokens: StoredTokensView,
    },
}

impl View for OAuthRuntime {
    type V = OAuthRuntimeView;

    open spec fn view(&self) -> OAuthRuntimeView {
        match *self {
            OAuthRuntime::Legacy => OAuthRuntimeView::Legacy,
            OAuthRuntime::Coordinated => OAuthRuntimeView::Coordinated,
            OAuthRuntime::DaemonLease { server_name, expires_at, initial_tokens } =>
                OAuthRuntimeView::DaemonLease {
                    server_name: server_name@,
                    expires_at,
                    initial_tokens: initial_tokens@,
                },
        }
    }
}

impl OAuthRuntimeView {
    /// The policy that the runtime follows.
    pub open spec fn mode(self) -> McpOAuthRefreshMode {
        match self {
            OAuthRuntimeView::Legacy => McpOAuthRefreshMode::Legacy,
            OAuthRuntimeView::Coordinated => McpOAuthRefreshMode::Coordinated,
            OAuthRuntimeView::DaemonLease { .. } => McpOAuthRefreshMode::DaemonLease,
        }
    }
}

/// Why a refresh failed.
pub enum RefreshError {
    /// Whoever was asked refused, with this message.
    Rejected { cause: String },
    /// The task that refreshes through the store did not complete.
    RefreshTask,
    /// The task that leases a token did not complete.
    LeaseTask,
}

/// The mathematical counterpart of [`RefreshError`].
pub enum RefreshErrorView {
    Rejected { cause: Seq<char> },
    RefreshTask,
    LeaseTask,
}

impl View for RefreshError {
    type V = RefreshErrorView;

    open spec fn view(&self) -> RefreshErrorView {
        match *self {
            RefreshError::Rejected { cause } => RefreshErrorView::Rejected { cause: cause@ },
            RefreshError::RefreshTask => RefreshErrorView::RefreshTask,
            RefreshError::LeaseTask => RefreshErrorView::LeaseTask,
        }
    }
}

impl RefreshErrorView {
    /// The error as shown to a user.
    pub open spec fn message(self) -> Seq<char> {
        match self {
            RefreshErrorView::Rejected { cause } => cause,
            RefreshErrorView::RefreshTask => "OAuth refresh task failed"@,
            RefreshErrorView::LeaseTask => "Daemon token lease task failed"@,
        }
    }
}

impl RefreshError {
    /// The error as shown to a user.
    pub fn message(&self) -> (text: String)
        ensures
            text@ == self@.message(),
    {
        match self {
            RefreshError::Rejected { cause } => cause.clone(),
            RefreshError::RefreshTask => "OAuth refresh task failed".to_owned(),
            RefreshError::LeaseTask => "Daemon token lease task failed".to_owned(),
        }
    }
}

/// How far a refresh has come.
pub enum RefreshPhase {
    /// The persistor has to refresh.
    Persisting,
    /// The stored credentials have to be read.
    ReadingStore,
    /// It has to be decided whether a token with this expiry needs a refresh.
    CheckingExpiry { expires_at: Option<u64> },
    /// The store has to refresh.
    Coordinating,
    /// A token has to be leased.
    Leasing,
    /// These credentials have to be put to use.
    Installing { tokens: StoredOAuthTokens },
    /// The credentials are ready.
    Ready,
    /// The refresh failed.
    Failed { error: RefreshError },
}

/// The mathematical counterpart of [`RefreshPhase`].
pub enum RefreshPhaseView {
    Persisting,
    ReadingStore,
    CheckingExpiry { expires_at: Option<u64> },
    Coordinating,
    Leasing,
    Installing { tokens: StoredTokensView },
    Ready,
    Failed { error: RefreshErrorView },
}

impl View for RefreshPhase {
    type V = RefreshPhaseView;

    open spec fn view(&self) -> RefreshPhaseView {
        match *self {
            RefreshPhase::Persisting => RefreshPhaseView::Persisting,
            RefreshPhase::ReadingStore => RefreshPhaseView::ReadingStore,
            RefreshPhase::CheckingExpiry { expires_at } => RefreshPhaseView::CheckingExpiry {
                expires_at,
            },
            RefreshPhase::Coordinating => RefreshPhaseView::Coordinating,
            RefreshPhase::Leasing => RefreshPhaseView::Leasing,
            RefreshPhase::Installing { tokens } => RefreshPhaseView::Installing { tokens: tokens@ },
            RefreshPhase::Ready => RefreshPhaseView::Ready,
            RefreshPhase::Failed { error } => RefreshPhaseView::Failed { error: error@ },
        }
    }
}

/// What came of the pending work.
pub enum RefreshEvent {
    /// The stored credentials: `None` where there are none, else their expiry.
    StoredCredentials(Option<Option<u64>>),
    /// Whether the token needs a refresh.
    NeedsRefresh(bool),
    /// The daemon leased a token.
    Leased(McpGetAuthTokenResponse),
    /// The work is done.
    Completed,
    /// The work was refused.
    Rejected { cause: String },
    /// The task that did the work did not complete.
    TaskFailed,
}

/// The mathematical counterpart of [`RefreshEvent`].
pub enum RefreshEventView {
    StoredCredentials(Option<Option<u64>>),
    NeedsRefresh(bool),
    Leased(LeasedTokenView),
    Completed,
    Rejected { cause: Seq<char> },
    TaskFailed,
}

impl View for RefreshEvent {
    type V = RefreshEventView;

    open spec fn view(&self) -> RefreshEventView {
        match *self {
            RefreshEvent::StoredCredentials(stored) => RefreshEventView::StoredCredentials(stored),
            RefreshEvent::NeedsRefresh(needed) => RefreshEventView::NeedsRefresh(needed),
            RefreshEvent::Leased(lease) => RefreshEventView::Leased(lease@),
            RefreshEvent::Completed => RefreshEventView::Completed,
            RefreshEvent::Rejected { cause } => RefreshEventView::Rejected { cause: cause@ },
            RefreshEvent::TaskFailed => RefreshEventView::TaskFailed,
        }
    }
}

/// The work that a refresh waits for.
pub enum RefreshAction<'a> {
    /// Let the persistor refresh: where `force` is set in any case, else where
    /// the persistor finds it needed.
    RefreshPersistor { force: bool },
    /// Read the stored credentials.
    ReadStore,
    /// Decide whether a token with this expiry needs a refresh.
    CheckExpiry { expires_at: Option<u64> },
    /// Let the store refresh, holding the manager before the store.
    RefreshStore,
    /// Lease a token for this server.
    Lease { server_name: &'a str, force_refresh: bool },
    /// Put these credentials to use.
    Install { tokens: &'a StoredOAuthTokens },
    /// Nothing is left to do: take the outcome.
    Finish,
}

/// The mathematical counterpart of [`RefreshAction`].
pub enum RefreshActionView {
    RefreshPersistor { force: bool },
    ReadStore,
    CheckExpiry { expires_at: Option<u64> },
    RefreshStore,
    Lease { server_name: Seq<char>, force_refresh: bool },
    Install { tokens: StoredTokensView },
    Finish,
}

impl<'a> View for RefreshAction<'a> {
    type V = RefreshActionView;

    open spec fn view(&self) -> RefreshActionView {
        match *self {
            RefreshAction::RefreshPersistor { force } => RefreshActionView::RefreshPersistor {
                force,
            },
            RefreshAction::ReadStore => RefreshActionView::ReadStore,
            RefreshAction::CheckExpiry { expires_at } => RefreshActionView::CheckExpiry {
                expires_at,
            },
            RefreshAction::RefreshStore => RefreshActionView::RefreshStore,
            RefreshAction::Lease { server_name, force_refresh } => RefreshActionView::Lease {
                server_name: server_name@,
                force_refresh,
            },
            RefreshAction::Install { tokens } => RefreshActionView::Install { tokens: tokens@ },
            RefreshAction::Finish => RefreshActionView::Finish,
        }
    }
}

/// One refresh of a runtime's credentials.
pub struct OAuthRefresh {
    /// Whether it happens in any case, or only where the expiry asks for it.
    pub forced: bool,
    pub phase: RefreshPhase,
}

/// A runtime and a refresh of it.
pub struct OAuthModel {
    pub runtime: OAuthRuntimeView,
    pub forced: bool,
    pub phase: RefreshPhaseView,
}

/// The phase in which a refresh starts.
pub open spec fn first_phase(runtime: OAuthRuntimeView, forced: bool) -> RefreshPhaseView {
    match runtime {
        OAuthRuntimeView::Legacy => RefreshPhaseView::Persisting,
        OAuthRuntimeView::Coordinated => if forced {
            RefreshPhaseView::Coordinating
        } else {
            RefreshPhaseView::ReadingStore
        },
        OAuthRuntimeView::DaemonLease { expires_at, .. } => if forced {
            RefreshPhaseView::Leasing
        } else {
            RefreshPhaseView::CheckingExpiry { expires_at }
        },
    }
}

/// The phase after a refusal.
pub open spec fn rejected(cause: Seq<char>) -> RefreshPhaseView {
    RefreshPhaseView::Failed { error: RefreshErrorView::Rejected { cause } }
}

impl OAuthModel {
    /// The start of a refresh.
    pub open spec fn start(runtime: OAuthRuntimeView, forced: bool) -> OAuthModel {
        OAuthModel { runtime, forced, phase: first_phase(runtime, forced) }
    }

    /// The refresh in another phase.
    pub open spec fn enter(self, phase: RefreshPhaseView) -> OAuthModel {
        OAuthModel { phase, ..self }
    }

    /// The refresh after an event. The lease's expiry is remembered before the
    /// leased token is put to use. An event that answers other work than the
    /// pending one changes nothing.
    pub open spec fn next(self, event: RefreshEventView) -> OAuthModel {
        match (self.phase, event) {
            (RefreshPhaseView::Persisting, RefreshEventView::Completed) => self.enter(
                RefreshPhaseView::Ready,
            ),
            (RefreshPhaseView::Persisting, RefreshEventView::Rejected { cause }) => self.enter(
                rejected(cause),
            ),
            (RefreshPhaseView::ReadingStore, RefreshEventView::StoredCredentials(stored)) =>
                self.enter(
                    RefreshPhaseView::CheckingExpiry {
                        expires_at: match stored {
                            Some(expires_at) => expires_at,
                            None => None,
                        },
                    },
                ),
            (RefreshPhaseView::CheckingExpiry { .. }, RefreshEventView::NeedsRefresh(needed)) =>
                if !needed {
                    self.enter(RefreshPhaseView::Ready)
                } else {
                    match self.runtime {
                        OAuthRuntimeView::Legacy => self,
                        OAuthRuntimeView::Coordinated => self.enter(RefreshPhaseView::Coordinating),
                        OAuthRuntimeView::DaemonLease { .. } => self.enter(
                            RefreshPhaseView::Leasing,
                        ),
                    }
                },
            (RefreshPhaseView::Coordinating, RefreshEventView::Completed) => self.enter(
                RefreshPhaseView::Ready,
            ),
            (RefreshPhaseView::Coordinating, RefreshEventView::Rejected { cause }) => self.enter(
                rejected(cause),
            ),
            (RefreshPhaseView::Coordinating, RefreshEventView::TaskFailed) => self.enter(
                RefreshPhaseView::Failed { error: RefreshErrorView::RefreshTask },
            ),
            (RefreshPhaseView::Leasing, RefreshEventView::Leased(lease)) => match self.runtime {
                OAuthRuntimeView::DaemonLease { server_name, initial_tokens, .. } => OAuthModel {
                    runtime: OAuthRuntimeView::DaemonLease {
                        server_name,
                        expires_at: lease.expires_at,
                        initial_tokens,
                    },
                    forced: self.forced,
                    phase: RefreshPhaseView::Installing { tokens: initial_tokens.with_lease(lease) },
                },
                _ => self,
            },
            (RefreshPhaseView::Leasing, RefreshEventView::Rejected { cause }) => self.enter(
                rejected(cause),
            ),
            (RefreshPhaseView::Leasing, RefreshEventView::TaskFailed) => self.enter(
                RefreshPhaseView::Failed { error: RefreshErrorView::LeaseTask },
            ),
            (RefreshPhaseView::Installing { .. }, RefreshEventView::Completed) => self.enter(
                RefreshPhaseView::Ready,
            ),
            (RefreshPhaseView::Installing { .. }, RefreshEventView::Rejected { cause }) =>
                self.enter(rejected(cause)),
            (RefreshPhaseView::Installing { .. }, RefreshEventView::TaskFailed) => self.enter(
                RefreshPhaseView::Failed { error: RefreshErrorView::LeaseTask },
            ),
            _ => self,
        }
    }

    /// The refresh after a sequence of events.
    pub open spec fn run(self, events: Seq<RefreshEventView>) -> OAuthModel
        decreases events.len(),
    {
        if events.len() == 0 {
            self
        } else {
            self.run(events.drop_last()).next(events.last())
        }
    }

    /// The work that the refresh waits for.
    pub open spec fn pending(self) -> RefreshActionView {
        match self.phase {
            RefreshPhaseView::Persisting => RefreshActionView::RefreshPersistor {
                force: self.forced,
            },
            RefreshPhaseView::ReadingStore => RefreshActionView::ReadStore,
            RefreshPhaseView::CheckingExpiry { expires_at } => RefreshActionView::CheckExpiry {
                expires_at,
            },
            RefreshPhaseView::Coordinating => RefreshActionView::RefreshStore,
            RefreshPhaseView::Leasing => match self.runtime {
                OAuthRuntimeView::DaemonLease { server_name, .. } => RefreshActionView::Lease {
                    server_name,
                    force_refresh: self.forced,
                },
                _ => RefreshActionView::Finish,
            },
            RefreshPhaseView::Installing { tokens } => RefreshActionView::Install { tokens },
            RefreshPhaseView::Ready => RefreshActionView::Finish,
            RefreshPhaseView::Failed { .. } => RefreshActionView::Finish,
        }
    }
}

impl OAuthRefresh {
    /// The refresh and the runtime that it belongs to.
    pub open spec fn model(self, runtime: OAuthRuntime) -> OAuthModel {
        OAuthModel { runtime: runtime@, forced: self.forced, phase: self.phase@ }
    }

    /// Takes what came of the pending work.
    pub fn advance(self, runtime: &mut OAuthRuntime, event: RefreshEvent) -> (next: OAuthRefresh)
        ensures
            next.model(*final(runtime)) == self.model(*old(runtime)).next(event@),
    {
        let forced = self.forced;
        let phase = match (self.phase, event) {
            (RefreshPhase::Persisting, RefreshEvent::Completed) => RefreshPhase::Ready,
            (RefreshPhase::Persisting, RefreshEvent::Rejected { cause }) => RefreshPhase::Failed {
                error: RefreshError::Rejected { cause },
            },
            (RefreshPhase::ReadingStore, RefreshEvent::StoredCredentials(stored)) =>
                RefreshPhase::CheckingExpiry {
                    expires_at: match stored {
                        Some(expires_at) => expires_at,
                        None => None,
                    },
                },
            (RefreshPhase::CheckingExpiry { expires_at }, RefreshEvent::NeedsRefresh(needed)) => {
                if !needed {
                    RefreshPhase::Ready
                } else {
                    match runtime {
                        OAuthRuntime::Legacy => RefreshPhase::CheckingExpiry { expires_at },
                        OAuthRuntime::Coordinated => RefreshPhase::Coordinating,
                        OAuthRuntime::DaemonLease { .. } => RefreshPhase::Leasing,
                    }
                }
            },
            (RefreshPhase::Coordinating, RefreshEvent::Completed) => RefreshPhase::Ready,
            (RefreshPhase::Coordinating, RefreshEvent::Rejected { cause }) => RefreshPhase::Failed {
                error: RefreshError::Rejected { cause },
            },
            (RefreshPhase::Coordinating, RefreshEvent::TaskFailed) => RefreshPhase::Failed {
                error: RefreshError::RefreshTask,
            },
            (RefreshPhase::Leasing, RefreshEvent::Leased(lease)) => match runtime {
                OAuthRuntime::DaemonLease { expires_at, initial_tokens, .. } => {
                    *expires_at = lease.expires_at;
                    RefreshPhase::Installing { tokens: initial_tokens.with_lease(lease) }
                },
                _ => RefreshPhase::Leasing,
            },
            (RefreshPhase::Leasing, RefreshEvent::Rejected { cause }) => RefreshPhase::Failed {
                error: RefreshError::Rejected { cause },
            },
            (RefreshPhase::Leasing, RefreshEvent::TaskFailed) => RefreshPhase::Failed {
                error: RefreshError::LeaseTask,
            },
            (RefreshPhase::Installing { .. }, RefreshEvent::Completed) => RefreshPhase::Ready,
            (RefreshPhase::Installing { .. }, RefreshEvent::Rejected { cause }) =>
                RefreshPhase::Failed { error: RefreshError::Rejected { cause } },
            (RefreshPhase::Installing { .. }, RefreshEvent::TaskFailed) => RefreshPhase::Failed {
                error: RefreshError::LeaseTask,
            },
            (phase, _) => phase,
        };
        OAuthRefresh { forced, phase }
    }

    /// The work that the refresh waits for.
    pub fn pending<'a>(&'a self, runtime: &'a OAuthRuntime) -> (action: RefreshAction<'a>)
        ensures
            action@ == self.model(*runtime).pending(),
    {
        match &self.phase {
            RefreshPhase::Persisting => RefreshAction::RefreshPersistor { force: self.forced },
            RefreshPhase::ReadingStore => RefreshAction::ReadStore,
            RefreshPhase::CheckingExpiry { expires_at } => RefreshAction::CheckExpiry {
                expires_at: *expires_at,
            },
            RefreshPhase::Coordinating => RefreshAction::RefreshStore,
            RefreshPhase::Leasing => match runtime {
                OAuthRuntime::DaemonLease { server_name, .. } => RefreshAction::Lease {
                    server_name: server_name.as_str(),
                    force_refresh: self.forced,
                },
                _ => RefreshAction::Finish,
            },
            RefreshPhase::Installing { tokens } => RefreshAction::Install { tokens },
            RefreshPhase::Ready => RefreshAction::Finish,
            RefreshPhase::Failed { .. } => RefreshAction::Finish,
        }
    }

    /// The outcome of a refresh that has one.
    pub fn outcome(self) -> (outcome: Option<Result<(), RefreshError>>)
        ensures
            match outcome {
                Some(Ok(())) => self.phase@ is Ready,
                Some(Err(error)) => self.phase@ == (RefreshPhaseView::Failed { error: error@ }),
                None => !(self.phase@ is Ready) && !(self.phase@ is Failed),
            },
    {
        match self.phase {
            RefreshPhase::Ready => Some(Ok(())),
            RefreshPhase::Failed { error } => Some(Err(error)),
            _ => None,
        }
    }
}

impl OAuthRuntime {
    /// Starts a refresh.
    fn start(&self, forced: bool) -> (refresh: OAuthRefresh)
        ensures
            refresh.model(*self) == OAuthModel::start(self@, forced),
    {
        let phase = match self {
            OAuthRuntime::Legacy => RefreshPhase::Persisting,
            OAuthRuntime::Coordinated => if forced {
                RefreshPhase::Coordinating
            } else {
                RefreshPhase::ReadingStore
            },
            OAuthRuntime::DaemonLease { expires_at, .. } => if forced {
                RefreshPhase::Leasing
            } else {
                RefreshPhase::CheckingExpiry { expires_at: *expires_at }
            },
        };
        OAuthRefresh { forced, phase }
    }

    /// Starts a refresh that happens where the token is about to expire.
    pub fn refresh_if_needed(&self) -> (refresh: OAuthRefresh)
        ensures
            refresh.model(*self) == OAuthModel::start(self@, false),
    {
        self.start(false)
    }

    /// Starts a refresh that happens in any case.
    pub fn force_refresh(&self) -> (refresh: OAuthRefresh)
        ensures
            refresh.model(*self) == OAuthModel::start(self@, true),
    {
        self.start(true)
    }
}

/// Whether a refresh is still deciding if it is needed.
pub open spec fn is_deciding(phase: RefreshPhaseView) -> bool {
    phase is ReadingStore || phase is CheckingExpiry
}

/// The policy of a connection is pinned: no refresh changes who owns the
/// credentials, the server that tokens are leased for, or the credentials that
/// the connection started with.
pub proof fn law_the_mode_is_pinned(model: OAuthModel, events: Seq<RefreshEventView>)
    ensures
        model.run(events).runtime.mode() == model.runtime.mode(),
        model.run(events).forced == model.forced,
        model.runtime matches OAuthRuntimeView::DaemonLease { server_name, initial_tokens, .. }
            ==> (model.run(events).runtime matches OAuthRuntimeView::DaemonLease {
            server_name: later_name,
            initial_tokens: later_tokens,
            ..
        } && later_name == server_name && later_tokens == initial_tokens),
    decreases events.len(),
{
    if events.len() > 0 {
        law_the_mode_is_pinned(model, events.drop_last());
    }
}

/// A token that needs no refresh is left alone: whatever the daemon or the
/// store would have said, an unforced refresh ends at once, successfully and
/// with nothing changed.
pub proof fn law_a_fresh_token_is_left_alone(model: OAuthModel)
    requires
        model.phase is CheckingExpiry,
    ensures
        model.next(RefreshEventView::NeedsRefresh(false)).phase is Ready,
        model.next(RefreshEventView::NeedsRefresh(false)).runtime == model.runtime,
        model.next(RefreshEventView::NeedsRefresh(false)).pending() is Finish,
{
}

/// An unforced refresh asks the store or the daemon for nothing before the
/// expiry was found to need it.
pub proof fn law_an_unforced_refresh_checks_first(
    runtime: OAuthRuntimeView,
    events: Seq<RefreshEventView>,
)
    requires
        !(runtime is Legacy),
        forall|i: int|
            0 <= i < events.len() ==> #[trigger] events[i] != RefreshEventView::NeedsRefresh(true),
    ensures
        is_deciding(OAuthModel::start(runtime, false).run(events).phase) || OAuthModel::start(
            runtime,
            false,
        ).run(events).phase is Ready,
        OAuthModel::start(runtime, false).run(events).runtime == runtime,
    decreases events.len(),
{
    if events.len() > 0 {
        let earlier = events.drop_last();
        assert forall|i: int| 0 <= i < earlier.len() implies #[trigger] earlier[i]
            != RefreshEventView::NeedsRefresh(true) by {
            assert(earlier[i] == events[i]);
        }
        law_an_unforced_refresh_checks_first(runtime, earlier);
        assert(events[events.len() - 1] == events.last());
    }
}

/// A forced refresh never asks whether it is needed, and a lease that it asks
/// for is forced too.
pub proof fn law_a_forced_refresh_is_unconditional(
    runtime: OAuthRuntimeView,
    events: Seq<RefreshEventView>,
)
    ensures
        !is_deciding(OAuthModel::start(runtime, true).run(events).phase),
        OAuthModel::start(runtime, true).run(events).pending() matches RefreshActionView::Lease {
            force_refresh,
            ..
        } ==> force_refresh,
    decreases events.len(),
{
    if events.len() > 0 {
        law_a_forced_refresh_is_unconditional(runtime, events.drop_last());
        law_the_mode_is_pinned(OAuthModel::start(runtime, true), events);
    }
}

/// Credentials put to use after a lease carry the leased token and no refresh
/// token, keep everything else that the connection started with, and expire
/// when the runtime thinks they do, so that the next unforced refresh checks
/// exactly that expiry.
pub proof fn law_a_lease_replaces_only_the_access_token(
    model: OAuthModel,
    lease: LeasedTokenView,
    initial: StoredTokensView,
)
    requires
        model.phase is Leasing,
        model.runtime matches OAuthRuntimeView::DaemonLease { initial_tokens, .. }
            && initial_tokens == initial,
    ensures
        ({
            let after = model.next(RefreshEventView::Leased(lease));
            &&& after.pending() matches RefreshActionView::Install { tokens }
            &&& tokens.token_response.access_token == lease.access_token
            &&& tokens.token_response.refresh_token is None
            &&& tokens.token_response.token_type == initial.token_response.token_type
            &&& tokens.token_response.expires_in == initial.token_response.expires_in
            &&& tokens.token_response.scopes == initial.token_response.scopes
            &&& tokens.token_response.extra_fields == initial.token_response.extra_fields
            &&& tokens.server_name == initial.server_name
            &&& tokens.url == initial.url
            &&& tokens.client_id == initial.client_id
            &&& tokens.expires_at == lease.expires_at
            &&& OAuthModel::start(after.runtime, false).pending() == (
            RefreshActionView::CheckExpiry { expires_at: lease.expires_at })
        }),
{
}

/// A lease that fails leaves the runtime as it was, and the refresh fails with
/// the daemon's message or that of the lost task.
pub proof fn law_a_failed_lease_changes_nothing(model: OAuthModel, cause: Seq<char>)
    requires
        model.phase is Leasing,
    ensures
        model.next(RefreshEventView::Rejected { cause }).runtime == model.runtime,
        model.next(RefreshEventView::Rejected { cause }).phase matches RefreshPhaseView::Failed {
            error,
        } && error.message() == cause,
        model.next(RefreshEventView::TaskFailed).runtime == model.runtime,
        model.next(RefreshEventView::TaskFailed).phase matches RefreshPhaseView::Failed { error }
            && error.message() == "Daemon token lease task failed"@,
{
}

/// Whether a refresh is past asking the store or the daemon.
pub open spec fn has_asked(phase: RefreshPhaseView) -> bool {
    phase is Installing || phase is Ready || phase is Failed
}

/// One refresh asks the store or the daemon at most once: whatever came of it,
/// neither is asked again.
pub proof fn law_a_refresh_asks_at_most_once(model: OAuthModel, events: Seq<RefreshEventView>)
    requires
        has_asked(model.phase),
    ensures
        has_asked(model.run(events).phase),
        !(model.run(events).pending() is Lease),
        !(model.run(events).pending() is RefreshStore),
        model.run(events).runtime == model.runtime,
    decreases events.len(),
{
    if events.len() > 0 {
        law_a_refresh_asks_at_most_once(model, events.drop_last());
    }
}

/// A refresh that has an outcome keeps it, and the runtime, whatever happens
/// next.
pub proof fn law_a_refresh_outcome_is_final(model: OAuthModel, events: Seq<RefreshEventView>)
    requires
        model.phase is Ready || model.phase is Failed,
    ensures
        model.run(events) == model,
    decreases events.len(),
{
    if events.len() > 0 {
        law_a_refresh_outcome_is_final(model, events.drop_last());
    }
}

/// Whether an event answers the work that the refresh waits for.
pub open spec fn answers(model: OAuthModel, event: RefreshEventView) -> bool {
    match (model.pending(), event) {
        (RefreshActionView::RefreshPersistor { .. }, RefreshEventView::Completed) => true,
        (RefreshActionView::RefreshPersistor { .. }, RefreshEventView::Rejected { .. }) => true,
        (RefreshActionView::ReadStore, RefreshEventView::StoredCredentials(_)) => true,
        (RefreshActionView::CheckExpiry { .. }, RefreshEventView::NeedsRefresh(_)) => true,
        (RefreshActionView::RefreshStore, RefreshEventView::Completed) => true,
        (RefreshActionView::RefreshStore, RefreshEventView::Rejected { .. }) => true,
        (RefreshActionView::RefreshStore, RefreshEventView::TaskFailed) => true,
        (RefreshActionView::Lease { .. }, RefreshEventView::Leased(_)) => true,
        (RefreshActionView::Lease { .. }, RefreshEventView::Rejected { .. }) => true,
        (RefreshActionView::Lease { .. }, RefreshEventView::TaskFailed) => true,
        (RefreshActionView::Install { .. }, RefreshEventView::Completed) => true,
        (RefreshActionView::Install { .. }, RefreshEventView::Rejected { .. }) => true,
        (RefreshActionView::Install { .. }, RefreshEventView::TaskFailed) => true,
        _ => false,
    }
}

/// Whether each event answers the work that the refresh waits for when it
/// comes.
pub open spec fn all_answer(start: OAuthModel, events: Seq<RefreshEventView>) -> bool
    decreases events.len(),
{
    events.len() == 0 || (all_answer(start, events.drop_last()) && answers(
        start.run(events.drop_last()),
        events.last(),
    ))
}

/// How many answers the refresh still takes, at most.
pub open spec fn answers_left(model: OAuthModel) -> nat {
    match model.phase {
        RefreshPhaseView::ReadingStore => 3,
        RefreshPhaseView::CheckingExpiry { .. } => if model.runtime is DaemonLease {
            3
        } else {
            2
        },
        RefreshPhaseView::Leasing => 2,
        RefreshPhaseView::Persisting => 1,
        RefreshPhaseView::Coordinating => 1,
        RefreshPhaseView::Installing { .. } => 1,
        RefreshPhaseView::Ready => 0,
        RefreshPhaseView::Failed { .. } => 0,
    }
}

/// Whether the phase is one that the runtime gets into.
pub open spec fn phase_fits(model: OAuthModel) -> bool {
    match model.phase {
        RefreshPhaseView::Persisting => model.runtime is Legacy,
        RefreshPhaseView::ReadingStore => model.runtime is Coordinated,
        RefreshPhaseView::CheckingExpiry { .. } => !(model.runtime is Legacy),
        RefreshPhaseView::Coordinating => model.runtime is Coordinated,
        RefreshPhaseView::Leasing => model.runtime is DaemonLease,
        RefreshPhaseView::Installing { .. } => model.runtime is DaemonLease,
        RefreshPhaseView::Ready => true,
        RefreshPhaseView::Failed { .. } => true,
    }
}

/// A refresh stays in the phases that its runtime gets into: the persistor
/// serves the legacy runtime alone, the store the coordinated one, and the
/// daemon the leasing one.
pub proof fn law_the_phase_fits_the_runtime(
    runtime: OAuthRuntimeView,
    forced: bool,
    events: Seq<RefreshEventView>,
)
    ensures
        phase_fits(OAuthModel::start(runtime, forced).run(events)),
    decreases events.len(),
{
    if events.len() > 0 {
        law_the_phase_fits_the_runtime(runtime, forced, events.drop_last());
    }
}

/// An event that answers the pending work brings the refresh nearer to its end,
/// and any other event changes nothing. As long as the refresh has no outcome,
/// there is an event that answers.
pub proof fn law_an_answer_brings_the_outcome_nearer(model: OAuthModel, event: RefreshEventView)
    requires
        phase_fits(model),
    ensures
        answers(model, event) ==> answers_left(model.next(event)) < answers_left(model),
        !answers(model, event) ==> model.next(event) == model,
        answers_left(model) == 0 <==> model.phase is Ready || model.phase is Failed,
        answers_left(model) == 0 <==> model.pending() is Finish,
        answers_left(model) > 0 <==> exists|other: RefreshEventView| answers(model, other),
{
    if answers_left(model) > 0 {
        let rejected = RefreshEventView::Rejected { cause: Seq::empty() };
        assert(answers(model, rejected) || answers(model, RefreshEventView::NeedsRefresh(false))
            || answers(model, RefreshEventView::StoredCredentials(None)));
    }
}

/// A refresh comes to an outcome after at most three answers.
pub proof fn law_a_refresh_comes_to_an_outcome(
    runtime: OAuthRuntimeView,
    forced: bool,
    events: Seq<RefreshEventView>,
)
    requires
        all_answer(OAuthModel::start(runtime, forced), events),
    ensures
        events.len() + answers_left(OAuthModel::start(runtime, forced).run(events)) <= 3,
        events.len() == 3 ==> OAuthModel::start(runtime, forced).run(events).pending() is Finish,
    decreases events.len(),
{
    let start = OAuthModel::start(runtime, forced);
    if events.len() > 0 {
        let earlier = events.drop_last();
        law_a_refresh_comes_to_an_outcome(runtime, forced, earlier);
        law_the_phase_fits_the_runtime(runtime, forced, earlier);
        law_an_answer_brings_the_outcome_nearer(start.run(earlier), events.last());
    }
    law_the_phase_fits_the_runtime(runtime, forced, events);
    law_an_answer_brings_the_outcome_nearer(start.run(events), RefreshEventView::Completed);
}

} // verus!
