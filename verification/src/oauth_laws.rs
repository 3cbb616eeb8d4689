//! What a credential refresh comes to: who is asked, when it succeeds, and what
//! it fails with, in terms of the work that it waits for and what came of it.

use crate::lease_session::LeasedTokenView;
use crate::oauth_refresh_mode::McpOAuthRefreshMode;
use crate::oauth_runtime::{
    OAuthModel, OAuthRuntimeView, RefreshActionView, RefreshErrorView, RefreshEventView,
    RefreshPhaseView, StoredTokensView,
};
use vstd::prelude::*;

verus! {

/// The owner of the credentials is asked first. A persistor always refreshes,
/// told whether it has to. A store refreshes at once where that is forced, and
/// otherwise only after its credentials were read. A daemon leases at once where
/// that is forced, and otherwise only after the expiry of the token in use was
/// checked.
pub proof fn law_a_refresh_starts_with_its_owner(
    forced: bool,
    server_name: Seq<char>,
    expires_at: Option<u64>,
    initial_tokens: StoredTokensView,
)
    ensures
        OAuthModel::start(OAuthRuntimeView::Legacy, forced).pending() == (
        RefreshActionView::RefreshPersistor { force: forced }),
        OAuthModel::start(OAuthRuntimeView::Coordinated, true).pending()
            == RefreshActionView::RefreshStore,
        OAuthModel::start(OAuthRuntimeView::Coordinated, false).pending()
            == RefreshActionView::ReadStore,
        ({
            let runtime = OAuthRuntimeView::DaemonLease { server_name, expires_at, initial_tokens };
            &&& OAuthModel::start(runtime, true).pending() == (RefreshActionView::Lease {
                server_name,
                force_refresh: true,
            })
            &&& OAuthModel::start(runtime, false).pending() == (RefreshActionView::CheckExpiry {
                expires_at,
            })
            &&& OAuthModel::start(runtime, forced).runtime == runtime
            &&& OAuthModel::start(runtime, forced).forced == forced
        }),
        OAuthModel::start(OAuthRuntimeView::Legacy, forced).runtime is Legacy,
        OAuthModel::start(OAuthRuntimeView::Coordinated, forced).runtime is Coordinated,
        OAuthRuntimeView::Legacy.mode() == McpOAuthRefreshMode::Legacy,
        OAuthRuntimeView::Coordinated.mode() == McpOAuthRefreshMode::Coordinated,
        (OAuthRuntimeView::DaemonLease { server_name, expires_at, initial_tokens }).mode()
            == McpOAuthRefreshMode::DaemonLease,
{
}

/// Work that is refused fails the refresh with exactly the refusal's message,
/// whoever refused it, forced or not, and leaves the runtime as it was.
pub proof fn law_a_refusal_is_the_outcome(model: OAuthModel, cause: Seq<char>)
    requires
        model.pending() is RefreshPersistor || model.pending() is RefreshStore || model.pending()
            is Lease || model.pending() is Install,
    ensures
        ({
            let refused = model.next(RefreshEventView::Rejected { cause });
            &&& refused.phase == (RefreshPhaseView::Failed {
                error: RefreshErrorView::Rejected { cause },
            })
            &&& refused.phase->error.message() == cause
            &&& refused.pending() is Finish
            &&& refused.runtime == model.runtime
        }),
{
}

/// Work that a lost task was to do fails the refresh, and the message tells the
/// store's task from the daemon's.
pub proof fn law_a_lost_task_is_the_outcome(model: OAuthModel)
    ensures
        model.pending() is RefreshStore ==> model.next(RefreshEventView::TaskFailed).phase == (
        RefreshPhaseView::Failed { error: RefreshErrorView::RefreshTask }),
        model.pending() is Lease || model.pending() is Install ==> model.next(
            RefreshEventView::TaskFailed,
        ).phase == (RefreshPhaseView::Failed { error: RefreshErrorView::LeaseTask }),
        RefreshErrorView::RefreshTask.message() == "OAuth refresh task failed"@,
        RefreshErrorView::LeaseTask.message() == "Daemon token lease task failed"@,
        model.next(RefreshEventView::TaskFailed).runtime == model.runtime,
{
}

/// A refresh succeeds where the expiry needs no refresh, and where the persistor,
/// the store or the installation completed.
pub proof fn law_completed_work_is_success(model: OAuthModel)
    ensures
        model.pending() is RefreshPersistor || model.pending() is RefreshStore || model.pending()
            is Install ==> model.next(RefreshEventView::Completed).phase is Ready,
        model.pending() is CheckExpiry ==> model.next(RefreshEventView::NeedsRefresh(false)).phase
            is Ready,
        model.next(RefreshEventView::Completed).runtime == model.runtime,
        model.next(RefreshEventView::NeedsRefresh(false)).runtime == model.runtime,
        model.phase is Ready || model.phase is Failed ==> model.pending() is Finish,
{
}

/// A refresh succeeds nowhere else: it becomes successful only when the expiry
/// is found to need no refresh, or when the persistor, the store or the
/// installation completes.
pub proof fn law_success_is_earned(model: OAuthModel, event: RefreshEventView)
    requires
        !(model.phase is Ready),
        model.next(event).phase is Ready,
    ensures
        event == RefreshEventView::NeedsRefresh(false) && model.pending() is CheckExpiry || event
            == RefreshEventView::Completed && (model.pending() is RefreshPersistor
            || model.pending() is RefreshStore || model.pending() is Install),
{
}

/// A refresh that succeeded, from its start on, found that the expiry needs no
/// refresh or completed its work; one that failed was refused with that message
/// or lost a task.
pub proof fn law_an_outcome_has_its_reason(
    runtime: OAuthRuntimeView,
    forced: bool,
    events: Seq<RefreshEventView>,
)
    ensures
        OAuthModel::start(runtime, forced).run(events).phase is Ready ==> exists|i: int|
            0 <= i < events.len() && (#[trigger] events[i] == RefreshEventView::NeedsRefresh(false)
                || events[i] == RefreshEventView::Completed),
        OAuthModel::start(runtime, forced).run(events).phase matches RefreshPhaseView::Failed {
            error,
        } ==> exists|i: int|
            0 <= i < events.len() && match error {
                RefreshErrorView::Rejected { cause } => #[trigger] events[i] == (
                RefreshEventView::Rejected { cause }),
                _ => events[i] is TaskFailed,
            },
    decreases events.len(),
{
    if events.len() > 0 {
        let earlier = events.drop_last();
        law_an_outcome_has_its_reason(runtime, forced, earlier);
        let before = OAuthModel::start(runtime, forced).run(earlier);
        let after = OAuthModel::start(runtime, forced).run(events);
        let last = events.len() - 1;
        assert(events[last] == events.last());
        if after.phase is Ready {
            if before.phase is Ready {
                let i = choose|i: int|
                    0 <= i < earlier.len() && (#[trigger] earlier[i]
                        == RefreshEventView::NeedsRefresh(false) || earlier[i]
                        == RefreshEventView::Completed);
                assert(events[i] == earlier[i]);
            } else {
                law_success_is_earned(before, events.last());
                assert(events[last] == RefreshEventView::NeedsRefresh(false) || events[last]
                    == RefreshEventView::Completed);
            }
        }
        if let RefreshPhaseView::Failed { error } = after.phase {
            if before.phase is Failed {
                let i = choose|i: int|
                    0 <= i < earlier.len() && match error {
                        RefreshErrorView::Rejected { cause } => #[trigger] earlier[i] == (
                        RefreshEventView::Rejected { cause }),
                        _ => earlier[i] is TaskFailed,
                    };
                assert(events[i] == earlier[i]);
            } else {
                match error {
                    RefreshErrorView::Rejected { cause } => {
                        assert(events[last] == (RefreshEventView::Rejected { cause }));
                    },
                    _ => {
                        assert(events[last] is TaskFailed);
                    },
                }
            }
        }
    }
}

/// A stored expiry is the one that is checked; without credentials, or without
/// an expiry, none is. An expiry that needs a refresh has the owner asked, and
/// the daemon with the refresh's own flag.
pub proof fn law_an_expiry_is_checked_before_asking(
    model: OAuthModel,
    stored: Option<Option<u64>>,
    server: Seq<char>,
)
    ensures
        model.pending() is ReadStore ==> model.next(
            RefreshEventView::StoredCredentials(stored),
        ).pending() == (RefreshActionView::CheckExpiry {
            expires_at: if stored is Some {
                stored->0
            } else {
                None
            },
        }),
        model.pending() is ReadStore ==> model.next(
            RefreshEventView::StoredCredentials(stored),
        ).runtime == model.runtime,
        model.pending() is CheckExpiry && model.runtime is Coordinated ==> model.next(
            RefreshEventView::NeedsRefresh(true),
        ).pending() is RefreshStore,
        model.pending() is CheckExpiry && (model.runtime matches OAuthRuntimeView::DaemonLease {
            server_name,
            ..
        } && server_name == server) ==> model.next(RefreshEventView::NeedsRefresh(true)).pending()
            == (RefreshActionView::Lease { server_name: server, force_refresh: model.forced }),
        model.next(RefreshEventView::NeedsRefresh(true)).runtime == model.runtime,
        model.next(RefreshEventView::NeedsRefresh(true)).forced == model.forced,
{
}

/// A leased token is installed, and nothing but it: its access token and expiry
/// replace those that the connection started with, and its expiry is the one
/// that the runtime goes by from then on.
pub proof fn law_a_lease_is_installed_as_leased(
    model: OAuthModel,
    server: Seq<char>,
    expires: Option<u64>,
    initial: StoredTokensView,
    lease: LeasedTokenView,
)
    requires
        model.pending() is Lease,
        model.runtime == (OAuthRuntimeView::DaemonLease {
            server_name: server,
            expires_at: expires,
            initial_tokens: initial,
        }),
    ensures
        ({
            let leased = model.next(RefreshEventView::Leased(lease));
            &&& leased.pending() matches RefreshActionView::Install { tokens }
            &&& tokens.server_name == initial.server_name
            &&& tokens.url == initial.url
            &&& tokens.client_id == initial.client_id
            &&& tokens.expires_at == lease.expires_at
            &&& tokens.token_response.access_token == lease.access_token
            &&& tokens.token_response.refresh_token is None
            &&& tokens.token_response.token_type == initial.token_response.token_type
            &&& tokens.token_response.expires_in == initial.token_response.expires_in
            &&& tokens.token_response.scopes == initial.token_response.scopes
            &&& tokens.token_response.extra_fields == initial.token_response.extra_fields
            &&& leased.runtime == (OAuthRuntimeView::DaemonLease {
                server_name: server,
                expires_at: lease.expires_at,
                initial_tokens: initial,
            })
            &&& leased.forced == model.forced
            &&& leased.next(RefreshEventView::Completed).phase is Ready
        }),
{
}

/// The credentials to use with a lease, for any lease and any credentials.
pub proof fn law_a_lease_changes_token_and_expiry(tokens: StoredTokensView, lease: LeasedTokenView)
    ensures
        tokens.with_lease(lease).token_response.access_token == lease.access_token,
        tokens.with_lease(lease).token_response.refresh_token is None,
        tokens.with_lease(lease).expires_at == lease.expires_at,
        tokens.with_lease(lease).server_name == tokens.server_name,
        tokens.with_lease(lease).url == tokens.url,
        tokens.with_lease(lease).client_id == tokens.client_id,
        tokens.with_lease(lease).token_response.token_type == tokens.token_response.token_type,
        tokens.with_lease(lease).token_response.expires_in == tokens.token_response.expires_in,
        tokens.with_lease(lease).token_response.scopes == tokens.token_response.scopes,
        tokens.with_lease(lease).token_response.extra_fields == tokens.token_response.extra_fields,
{
}

/// An event changes a refresh only as an answer to the work that the refresh
/// waits for, and only a lease changes the runtime.
pub proof fn law_only_answers_change_a_refresh(model: OAuthModel, event: RefreshEventView)
    ensures
        model.next(event).forced == model.forced,
        model.next(event).runtime == model.runtime || (model.pending() is Lease && event is Leased),
        model.next(event) == model || match model.pending() {
            RefreshActionView::RefreshPersistor { .. } => event is Completed || event is Rejected,
            RefreshActionView::ReadStore => event is StoredCredentials,
            RefreshActionView::CheckExpiry { .. } => event is NeedsRefresh,
            RefreshActionView::RefreshStore => event is Completed || event is Rejected || event
                is TaskFailed,
            RefreshActionView::Lease { .. } => event is Leased || event is Rejected || event
                is TaskFailed,
            RefreshActionView::Install { .. } => event is Completed || event is Rejected || event
                is TaskFailed,
            RefreshActionView::Finish => model.phase is Leasing,
        },
{
}

} // verus!
