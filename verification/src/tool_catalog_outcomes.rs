//! What a catalog pass comes to for one server, from the first read of its
//! generation to what is reported, remembered and published of it.

use crate::tool_catalog;
use crate::tool_catalog::{
    CatalogAction, CatalogEvent, CatalogPhase, CatalogRefreshView, CatalogServerView, RefreshState,
    ToolCatalogView,
};
use vstd::prelude::*;

verus! {

/// A pass begins at the first server, with nothing reported and everything
/// remembered, and is at its end at once where there is no server. Of a server
/// that was never fetched, the generation zero and no delay are remembered.
pub proof fn law_a_pass_begins_afresh(
    refresh: CatalogRefreshView,
    servers: Seq<CatalogServerView>,
    name: Seq<char>,
)
    ensures
        refresh.begin(servers).servers == servers,
        refresh.begin(servers).position == 0,
        refresh.begin(servers).apps_server_name == refresh.apps_server_name,
        refresh.begin(servers).states == refresh.states,
        !refresh.begin(servers).generations.contains_key(name),
        servers.len() > 0 ==> refresh.begin(servers).pending() == CatalogAction::ReadGeneration,
        servers.len() == 0 ==> refresh.begin(servers).pending() == CatalogAction::Finish,
        !refresh.states.contains_key(name) ==> refresh.state(name) == (RefreshState {
            generation: 0,
            retry_at: None,
        }),
        refresh.states.contains_key(name) ==> refresh.state(name) == refresh.states[name],
        tool_catalog::initial_state() == (RefreshState { generation: 0, retry_at: None }),
{
}

/// The time for a fetch is the smaller of the server's own limit and ten
/// seconds.
pub proof fn law_the_time_for_a_fetch(limit: u128)
    ensures
        tool_catalog::fetch_timeout(None) == 10_000_000_000,
        limit <= 10_000_000_000 ==> tool_catalog::fetch_timeout(Some(limit)) == limit,
        limit >= 10_000_000_000 ==> tool_catalog::fetch_timeout(Some(limit)) == 10_000_000_000,
{
}

/// Whether one pass is like another but for one server's state and report, and
/// stands at this position.
pub open spec fn differs_at(
    before: CatalogRefreshView,
    after: CatalogRefreshView,
    name: Seq<char>,
    position: nat,
) -> bool {
    &&& after.servers == before.servers
    &&& after.apps_server_name == before.apps_server_name
    &&& after.position == position
    &&& forall|other: Seq<char>|
        other != name ==> #[trigger] after.state(other) == before.state(other)
    &&& forall|other: Seq<char>|
        other != name ==> (#[trigger] after.generations.contains_key(other)
            == before.generations.contains_key(other) && after.generations[other]
            == before.generations[other])
}

/// Whether the pass is done with its servers or about to read the next one's
/// generation.
pub open spec fn is_between_servers(refresh: CatalogRefreshView) -> bool {
    if refresh.position < refresh.servers.len() {
        refresh.pending() == CatalogAction::ReadGeneration
    } else {
        refresh.pending() == CatalogAction::Finish
    }
}

/// A server that is not connected is passed by: nothing is reported, remembered
/// or fetched of it.
pub proof fn law_an_absent_server_is_passed_by(refresh: CatalogRefreshView)
    requires
        refresh.pending() == CatalogAction::ReadGeneration,
    ensures
        ({
            let name = refresh.servers[refresh.position as int].name;
            let after = refresh.next(CatalogEvent::NotReady);
            &&& differs_at(refresh, after, name, refresh.position + 1)
            &&& after.state(name) == refresh.state(name)
            &&& after.generations == refresh.generations
            &&& is_between_servers(after)
        }),
{
}

/// A server at the remembered generation is reported at it, and is not fetched.
pub proof fn law_a_known_generation_is_reported(refresh: CatalogRefreshView)
    requires
        refresh.pending() == CatalogAction::ReadGeneration,
    ensures
        ({
            let name = refresh.servers[refresh.position as int].name;
            let known = refresh.state(name).generation;
            let after = refresh.next(CatalogEvent::Generation(known));
            &&& differs_at(refresh, after, name, refresh.position + 1)
            &&& after.state(name) == refresh.state(name)
            &&& after.generations.contains_key(name)
            &&& after.generations[name] == Some(known)
            &&& is_between_servers(after)
        }),
{
}

/// The pass after a new generation of the current server was read, and after the
/// clock was read too where an earlier failure asks for it.
pub open spec fn after_new_generation(
    refresh: CatalogRefreshView,
    generation: u64,
    now: u64,
) -> CatalogRefreshView {
    let read = refresh.next(CatalogEvent::Generation(generation));
    if read.pending() == CatalogAction::ReadClock {
        read.next(CatalogEvent::Clock(now))
    } else {
        read
    }
}

/// A server at a new generation is reported as not current and is fetched, within
/// the smaller of its own limit and ten seconds; the apps server in its own
/// cache, every other one over its connection. The clock is asked if and only if
/// an earlier fetch failed.
pub proof fn law_a_new_generation_is_fetched(
    refresh: CatalogRefreshView,
    generation: u64,
    now: u64,
)
    requires
        refresh.pending() == CatalogAction::ReadGeneration,
        generation != refresh.state(refresh.servers[refresh.position as int].name).generation,
        refresh.state(refresh.servers[refresh.position as int].name).retry_at matches Some(
            retry_at,
        ) ==> now >= retry_at,
    ensures
        ({
            let server = refresh.servers[refresh.position as int];
            let read = refresh.next(CatalogEvent::Generation(generation));
            let fetching = after_new_generation(refresh, generation, now);
            let timeout = match server.tool_timeout {
                Some(limit) => if limit < 10_000_000_000 {
                    limit
                } else {
                    10_000_000_000
                },
                None => 10_000_000_000,
            };
            &&& read.pending() == CatalogAction::ReadClock <==> refresh.state(
                server.name,
            ).retry_at is Some
            &&& server.name == refresh.apps_server_name ==> fetching.pending() == (
            CatalogAction::HardRefresh { timeout })
            &&& server.name != refresh.apps_server_name ==> fetching.pending() == (
            CatalogAction::Fetch { timeout })
            &&& differs_at(refresh, fetching, server.name, refresh.position)
            &&& fetching.state(server.name) == refresh.state(server.name)
            &&& fetching.generations.contains_key(server.name)
            &&& fetching.generations[server.name] is None
        }),
{
}

/// Before the delay after a failed fetch is over, a server at a new generation is
/// not fetched: it is reported as not current, and the delay goes on.
pub proof fn law_a_delayed_server_is_not_fetched(
    refresh: CatalogRefreshView,
    generation: u64,
    now: u64,
    retry_at: u128,
)
    requires
        refresh.pending() == CatalogAction::ReadGeneration,
        generation != refresh.state(refresh.servers[refresh.position as int].name).generation,
        refresh.state(refresh.servers[refresh.position as int].name).retry_at == Some(retry_at),
        now < retry_at,
    ensures
        ({
            let name = refresh.servers[refresh.position as int].name;
            let after = after_new_generation(refresh, generation, now);
            &&& differs_at(refresh, after, name, refresh.position + 1)
            &&& after.state(name) == refresh.state(name)
            &&& after.generations.contains_key(name)
            &&& after.generations[name] is None
            &&& is_between_servers(after)
        }),
{
}

/// The second read decides. For every server, the apps server with its own cache
/// as every other one: after a complete fetch of generation `g` the pass
/// remembers `g` with no delay and reads the generation again; it reports
/// `Some(g)` if that gives `g`, and `None` if it gives anything else, so that a
/// notice received during the fetch stays pending.
pub proof fn law_the_second_read_decides(
    refresh: CatalogRefreshView,
    generation: u64,
    now: u64,
    current: u64,
)
    requires
        refresh.pending() == CatalogAction::ReadGeneration,
        generation != refresh.state(refresh.servers[refresh.position as int].name).generation,
        refresh.state(refresh.servers[refresh.position as int].name).retry_at matches Some(
            retry_at,
        ) ==> now >= retry_at,
    ensures
        ({
            let name = refresh.servers[refresh.position as int].name;
            let fetching = after_new_generation(refresh, generation, now);
            let fetched = if fetching.pending() is HardRefresh {
                fetching.next(CatalogEvent::HardRefreshed)
            } else {
                fetching.published()
            };
            let done = fetched.next(CatalogEvent::Generation(current));
            let acknowledged = RefreshState { generation, retry_at: None };
            &&& fetched.pending() == CatalogAction::ConfirmGeneration
            &&& fetched.state(name) == acknowledged
            &&& fetched.generations.contains_key(name)
            &&& fetched.generations[name] is None
            &&& differs_at(refresh, done, name, refresh.position + 1)
            &&& done.state(name) == acknowledged
            &&& done.generations.contains_key(name)
            &&& done.generations[name] == Some(generation) <==> current == generation
            &&& done.generations[name] is None <==> current != generation
            &&& is_between_servers(done)
        }),
{
}

/// A second read of any generation ends the visit to a server whose catalog of
/// generation `g` is in place: it reports the server at `g` if and only if it
/// gives `g`, and leaves what was reported otherwise.
pub proof fn law_confirming_compares_generations(
    refresh: CatalogRefreshView,
    generation: u64,
    current: u64,
)
    requires
        refresh.pending() == CatalogAction::ConfirmGeneration,
        refresh.phase == (CatalogPhase::Confirming { generation }),
    ensures
        ({
            let name = refresh.servers[refresh.position as int].name;
            let done = refresh.next(CatalogEvent::Generation(current));
            &&& current == generation ==> done.generations == refresh.generations.insert(
                name,
                Some(generation),
            )
            &&& current != generation ==> done.generations == refresh.generations
            &&& done.states == refresh.states
            &&& done.position == refresh.position + 1
            &&& is_between_servers(done)
        }),
{
}

/// A fetch that fails, of any server, leaves the remembered generation and the
/// report that the server is not current, and delays the next fetch until one
/// second after the failure.
pub proof fn law_a_failed_fetch_is_delayed_by_a_second(
    refresh: CatalogRefreshView,
    generation: u64,
    now: u64,
    failed_at: u64,
)
    requires
        refresh.pending() == CatalogAction::ReadGeneration,
        generation != refresh.state(refresh.servers[refresh.position as int].name).generation,
        refresh.state(refresh.servers[refresh.position as int].name).retry_at matches Some(
            retry_at,
        ) ==> now >= retry_at,
    ensures
        ({
            let name = refresh.servers[refresh.position as int].name;
            let failed = after_new_generation(refresh, generation, now).next(
                CatalogEvent::FetchFailed,
            );
            let done = failed.next(CatalogEvent::Clock(failed_at));
            &&& failed.pending() == CatalogAction::ReadClock
            &&& differs_at(refresh, done, name, refresh.position + 1)
            &&& done.state(name).generation == refresh.state(name).generation
            &&& done.state(name).retry_at is Some
            &&& done.state(name).retry_at->0 == failed_at + 1_000_000_000
            &&& done.generations.contains_key(name)
            &&& done.generations[name] is None
            &&& is_between_servers(done)
        }),
{
}

/// Tools are taken if and only if a fetch over a connection is pending. A
/// publication sets the server's tools, keeps those of every other server, and
/// moves the revision by one.
pub proof fn law_fetched_tools_are_published<T>(
    refresh: CatalogRefreshView,
    catalog: ToolCatalogView<T>,
    name: Seq<char>,
    tools: Seq<T>,
    other: Seq<char>,
)
    ensures
        refresh.expects_tools() <==> refresh.pending() is Fetch,
        !refresh.expects_tools() ==> refresh.published() == refresh,
        refresh.expects_tools() ==> refresh.server() == refresh.servers[refresh.position as int],
        catalog.publish(name, tools).revision == catalog.revision + 1,
        catalog.publish(name, tools).overrides.contains_key(name),
        catalog.publish(name, tools).overrides[name] == tools,
        other != name ==> catalog.publish(name, tools).overrides.contains_key(other)
            == catalog.overrides.contains_key(other),
        other != name ==> catalog.publish(name, tools).overrides[other] == catalog.overrides[other],
{
}

/// An event changes a pass only as an answer to the work that the pass waits
/// for, and never the servers or the name of the apps server.
pub proof fn law_only_answers_change_a_pass(refresh: CatalogRefreshView, event: CatalogEvent)
    ensures
        refresh.next(event).servers == refresh.servers,
        refresh.next(event).apps_server_name == refresh.apps_server_name,
        refresh.next(event) == refresh || match refresh.pending() {
            CatalogAction::ReadGeneration => event is NotReady || event is Generation,
            CatalogAction::ConfirmGeneration => event is Generation,
            CatalogAction::ReadClock => event is Clock,
            CatalogAction::Fetch { .. } => event is FetchFailed,
            CatalogAction::HardRefresh { .. } => event is HardRefreshed || event is FetchFailed,
            CatalogAction::Finish => false,
        },
{
}

} // verus!
