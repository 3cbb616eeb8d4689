//! What holds of every catalog pass: how often it fetches, what it reports,
//! and what it leaves alone.

use crate::tool_catalog::{
    CatalogAction, CatalogEvent, CatalogPhase, CatalogRefreshView, CatalogServerView, RefreshState,
    ToolCatalogView,
};
use crate::tool_catalog;
use vstd::prelude::*;

verus! {

/// A pass together with the catalogs that it publishes to.
#[verifier::ext_equal]
#[verifier::reject_recursive_types(T)]
pub struct CatalogModel<T> {
    pub refresh: CatalogRefreshView,
    pub catalog: ToolCatalogView<T>,
}

/// One step of a pass: an event, or tools fetched from the current server.
#[verifier::reject_recursive_types(T)]
pub enum CatalogStep<T> {
    Event(CatalogEvent),
    Fetched(Seq<T>),
}

impl<T> CatalogModel<T> {
    /// The start of a pass over these servers.
    pub open spec fn begin(self, servers: Seq<CatalogServerView>) -> CatalogModel<T> {
        CatalogModel { refresh: self.refresh.begin(servers), catalog: self.catalog }
    }

    /// The pass after a step.
    pub open spec fn next(self, step: CatalogStep<T>) -> CatalogModel<T> {
        match step {
            CatalogStep::Event(event) => CatalogModel {
                refresh: self.refresh.next(event),
                catalog: self.catalog,
            },
            CatalogStep::Fetched(tools) => CatalogModel {
                refresh: self.refresh.published(),
                catalog: if self.refresh.expects_tools() {
                    self.catalog.publish(self.refresh.server().name, tools)
                } else {
                    self.catalog
                },
            },
        }
    }

    /// The pass after a sequence of steps.
    pub open spec fn run(self, steps: Seq<CatalogStep<T>>) -> CatalogModel<T>
        decreases steps.len(),
    {
        if steps.len() == 0 {
            self
        } else {
            self.run(steps.drop_last()).next(steps.last())
        }
    }
}

/// Whether no name occurs twice.
pub open spec fn distinct_names(servers: Seq<CatalogServerView>) -> bool {
    forall|i: int, j: int|
        0 <= i < j < servers.len() ==> #[trigger] servers[i].name != #[trigger] servers[j].name
}

/// Whether the pass is fetching from the server at this position.
pub open spec fn is_fetching(refresh: CatalogRefreshView, position: nat) -> bool {
    refresh.position == position && !refresh.is_finished() && refresh.phase is Fetching
}

/// Whether the pass is past fetching from the server at this position.
pub open spec fn fetch_is_over(refresh: CatalogRefreshView, position: nat) -> bool {
    refresh.position > position || (refresh.position == position && (refresh.phase is BackingOff
        || refresh.phase is Confirming))
}

/// A pass fetches at most once from each server: a fetch goes on until it is
/// over, and once it is over no other one starts in that pass.
pub proof fn law_one_fetch_per_server_and_pass<T>(
    model: CatalogModel<T>,
    position: nat,
    step: CatalogStep<T>,
    steps: Seq<CatalogStep<T>>,
)
    ensures
        is_fetching(model.refresh, position) ==> (model.next(step) == model || fetch_is_over(
            model.next(step).refresh,
            position,
        )),
        fetch_is_over(model.refresh, position) ==> fetch_is_over(
            model.run(steps).refresh,
            position,
        ) && !is_fetching(model.run(steps).refresh, position),
    decreases steps.len(),
{
    if steps.len() > 0 {
        law_one_fetch_per_server_and_pass(model, position, step, steps.drop_last());
    }
}

/// A fetch may take at most the refresh timeout, and at most the server's own
/// limit on a tool request.
pub proof fn law_a_fetch_is_bounded(refresh: CatalogRefreshView)
    ensures
        refresh.pending() matches CatalogAction::Fetch { timeout } ==> timeout
            <= tool_catalog::REFRESH_TIMEOUT_NANOS && (refresh.server().tool_timeout is Some
            ==> timeout <= refresh.server().tool_timeout->0),
        refresh.pending() matches CatalogAction::HardRefresh { timeout } ==> timeout
            <= tool_catalog::REFRESH_TIMEOUT_NANOS && (refresh.server().tool_timeout is Some
            ==> timeout <= refresh.server().tool_timeout->0),
{
}

/// A server whose generation is the remembered one is reported with it, is not
/// fetched from, and is remembered as before.
pub proof fn law_an_unchanged_server_is_not_fetched(refresh: CatalogRefreshView, generation: u64)
    requires
        !refresh.is_finished(),
        refresh.phase is Observing,
        refresh.state(refresh.server().name).generation == generation,
    ensures
        refresh.next(CatalogEvent::Generation(generation)).position == refresh.position + 1,
        refresh.next(CatalogEvent::Generation(generation)).phase is Observing,
        refresh.next(CatalogEvent::Generation(generation)).generations == refresh.generations.insert(
            refresh.server().name,
            Some(generation),
        ),
        refresh.next(CatalogEvent::Generation(generation)).state(refresh.server().name)
            == refresh.state(refresh.server().name),
{
}

/// What holds at every point of a pass over servers with distinct names.
pub open spec fn pass_invariant(refresh: CatalogRefreshView) -> bool {
    &&& refresh.position <= refresh.servers.len()
    &&& forall|name: Seq<char>| #[trigger]
        refresh.generations.contains_key(name) ==> exists|i: int|
            0 <= i <= refresh.position && i < refresh.servers.len() && #[trigger] refresh.servers[i].name
                == name && (i == refresh.position ==> !(refresh.phase is Observing)
                && refresh.generations[name] is None)
    &&& forall|name: Seq<char>| #[trigger]
        refresh.generations.contains_key(name) && refresh.generations[name] is Some ==> (
        refresh.states.contains_key(name) && refresh.states[name].generation
            == refresh.generations[name]->0)
    &&& !refresh.is_finished() && !(refresh.phase is Observing) ==> (
    refresh.generations.contains_key(refresh.server().name)
        && refresh.generations[refresh.server().name] is None)
    &&& !refresh.is_finished() ==> (refresh.phase matches CatalogPhase::AwaitingRetry { generation }
        ==> generation != refresh.state(refresh.server().name).generation)
    &&& !refresh.is_finished() ==> (refresh.phase matches CatalogPhase::Fetching { generation }
        ==> generation != refresh.state(refresh.server().name).generation)
    &&& !refresh.is_finished() ==> (refresh.phase matches CatalogPhase::Confirming { generation }
        ==> (refresh.states.contains_key(refresh.server().name)
        && refresh.states[refresh.server().name] == (RefreshState { generation, retry_at: None })))
}

proof fn lemma_next_keeps_servers<T>(model: CatalogModel<T>, step: CatalogStep<T>)
    ensures
        model.next(step).refresh.servers == model.refresh.servers,
        model.next(step).refresh.apps_server_name == model.refresh.apps_server_name,
        model.refresh.position <= model.next(step).refresh.position,
{
}

pub proof fn lemma_run_keeps_servers<T>(model: CatalogModel<T>, steps: Seq<CatalogStep<T>>)
    ensures
        model.run(steps).refresh.servers == model.refresh.servers,
        model.run(steps).refresh.apps_server_name == model.refresh.apps_server_name,
        model.refresh.position <= model.run(steps).refresh.position,
    decreases steps.len(),
{
    if steps.len() > 0 {
        lemma_run_keeps_servers(model, steps.drop_last());
        lemma_next_keeps_servers(model.run(steps.drop_last()), steps.last());
    }
}

proof fn lemma_next_keeps_invariant<T>(model: CatalogModel<T>, step: CatalogStep<T>)
    requires
        distinct_names(model.refresh.servers),
        pass_invariant(model.refresh),
    ensures
        pass_invariant(model.next(step).refresh),
{
    let before = model.refresh;
    let after = model.next(step).refresh;
    lemma_next_keeps_servers(model, step);
    if !before.is_finished() {
        let name = before.server().name;
        assert(before.servers[before.position as int].name == name);
        assert forall|other: Seq<char>| #[trigger]
            after.generations.contains_key(other) implies exists|i: int|
            0 <= i <= after.position && i < after.servers.len() && #[trigger] after.servers[i].name
                == other && (i == after.position ==> !(after.phase is Observing)
                && after.generations[other] is None) by {
            if other == name {
                assert(after.servers[before.position as int].name == other);
            } else {
                assert(before.generations.contains_key(other));
                let i = choose|i: int|
                    0 <= i <= before.position && i < before.servers.len()
                        && #[trigger] before.servers[i].name == other && (i == before.position
                        ==> !(before.phase is Observing) && before.generations[other] is None);
                assert(after.servers[i].name == other);
            }
        }
        assert forall|other: Seq<char>| #[trigger]
            after.generations.contains_key(other) && after.generations[other] is Some implies (
        after.states.contains_key(other) && after.states[other].generation
            == after.generations[other]->0) by {
            if other != name {
                assert(before.generations.contains_key(other));
            } else if before.generations.contains_key(name) {
                let i = choose|i: int|
                    0 <= i <= before.position && i < before.servers.len()
                        && #[trigger] before.servers[i].name == name && (i == before.position
                        ==> !(before.phase is Observing) && before.generations[name] is None);
                assert(before.servers[i].name == before.servers[before.position as int].name);
            }
        }
    }
}

proof fn lemma_run_keeps_invariant<T>(
    model: CatalogModel<T>,
    servers: Seq<CatalogServerView>,
    steps: Seq<CatalogStep<T>>,
)
    requires
        distinct_names(servers),
    ensures
        pass_invariant(model.begin(servers).run(steps).refresh),
    decreases steps.len(),
{
    if steps.len() > 0 {
        lemma_run_keeps_invariant(model, servers, steps.drop_last());
        lemma_run_keeps_servers(model.begin(servers), steps.drop_last());
        lemma_next_keeps_invariant(model.begin(servers).run(steps.drop_last()), steps.last());
    }
}

/// At every point of a pass, a generation that it reports is the one remembered
/// of that server: the one that its last complete fetch stands for, or zero
/// where there was none.
pub proof fn law_a_reported_generation_is_the_remembered_one<T>(
    model: CatalogModel<T>,
    servers: Seq<CatalogServerView>,
    steps: Seq<CatalogStep<T>>,
    name: Seq<char>,
    generation: u64,
)
    requires
        distinct_names(servers),
        model.begin(servers).run(steps).refresh.generations.contains_key(name),
        model.begin(servers).run(steps).refresh.generations[name] == Some(generation),
    ensures
        model.begin(servers).run(steps).refresh.state(name).generation == generation,
{
    lemma_run_keeps_invariant(model, servers, steps);
}

/// A pass fetches only from a server whose generation differs from the one
/// that its last complete fetch stands for, and reports it as not current
/// meanwhile.
pub proof fn law_only_changed_servers_are_fetched<T>(
    model: CatalogModel<T>,
    servers: Seq<CatalogServerView>,
    steps: Seq<CatalogStep<T>>,
)
    requires
        distinct_names(servers),
        is_fetching(
            model.begin(servers).run(steps).refresh,
            model.begin(servers).run(steps).refresh.position,
        ),
    ensures
        ({
            let refresh = model.begin(servers).run(steps).refresh;
            let name = refresh.server().name;
            &&& refresh.phase->Fetching_generation != refresh.state(name).generation
            &&& refresh.generations.contains_key(name)
            &&& refresh.generations[name] is None
        }),
{
    lemma_run_keeps_invariant(model, servers, steps);
}

/// A server that a pass is done with is left alone for the rest of the pass:
/// what is remembered, reported and published of it stays.
pub proof fn law_a_finished_server_is_left_alone<T>(
    model: CatalogModel<T>,
    position: nat,
    steps: Seq<CatalogStep<T>>,
)
    requires
        distinct_names(model.refresh.servers),
        position < model.refresh.position,
        position < model.refresh.servers.len(),
    ensures
        ({
            let name = model.refresh.servers[position as int].name;
            let after = model.run(steps);
            &&& after.refresh.state(name) == model.refresh.state(name)
            &&& after.refresh.generations.contains_key(name)
                == model.refresh.generations.contains_key(name)
            &&& after.refresh.generations[name] == model.refresh.generations[name]
            &&& after.catalog.overrides.contains_key(name)
                == model.catalog.overrides.contains_key(name)
            &&& after.catalog.overrides[name] == model.catalog.overrides[name]
        }),
    decreases steps.len(),
{
    if steps.len() > 0 {
        law_a_finished_server_is_left_alone(model, position, steps.drop_last());
        lemma_run_keeps_servers(model, steps.drop_last());
        let before = model.run(steps.drop_last());
        if !before.refresh.is_finished() {
            assert(before.refresh.servers[position as int].name
                != before.refresh.servers[before.refresh.position as int].name);
        }
    }
}

/// A step concerns the current server alone: what is remembered, reported and
/// published of any other server stays.
pub proof fn law_a_step_concerns_one_server<T>(
    model: CatalogModel<T>,
    step: CatalogStep<T>,
    name: Seq<char>,
)
    requires
        model.refresh.is_finished() || model.refresh.server().name != name,
    ensures
        ({
            let after = model.next(step);
            &&& after.refresh.state(name) == model.refresh.state(name)
            &&& after.refresh.generations.contains_key(name)
                == model.refresh.generations.contains_key(name)
            &&& after.refresh.generations[name] == model.refresh.generations[name]
            &&& after.catalog.overrides.contains_key(name)
                == model.catalog.overrides.contains_key(name)
            &&& after.catalog.overrides[name] == model.catalog.overrides[name]
        }),
{
}

/// A notice that arrives during a fetch is not acknowledged by that fetch: the
/// fetched tools are published, but the server is reported as not current, and
/// the next pass that reads the new generation fetches again at once.
pub proof fn law_a_notice_during_a_fetch_stays_pending<T>(
    model: CatalogModel<T>,
    servers: Seq<CatalogServerView>,
    steps: Seq<CatalogStep<T>>,
    tools: Seq<T>,
    current: u64,
    later: CatalogRefreshView,
)
    requires
        distinct_names(servers),
        model.begin(servers).run(steps).refresh.expects_tools(),
        current != model.begin(servers).run(steps).refresh.phase->Fetching_generation,
    ensures
        ({
            let fetching = model.begin(servers).run(steps);
            let name = fetching.refresh.server().name;
            let done = fetching.next(CatalogStep::Fetched(tools)).next(
                CatalogStep::Event(CatalogEvent::Generation(current)),
            );
            &&& done.catalog == fetching.catalog.publish(name, tools)
            &&& done.refresh.position == fetching.refresh.position + 1
            &&& done.refresh.generations.contains_key(name)
            &&& done.refresh.generations[name] is None
            &&& !later.is_finished() && later.phase is Observing && later.server().name == name
                && later.state(name) == done.refresh.state(name) ==> later.next(
                CatalogEvent::Generation(current),
            ).phase == (CatalogPhase::Fetching { generation: current })
        }),
{
    lemma_run_keeps_invariant(model, servers, steps);
}

/// A fetch without a notice during it makes the server current: its tools are
/// published, its generation is reported, and the next pass that reads the
/// same generation reports it again without a fetch.
pub proof fn law_a_complete_fetch_is_acknowledged<T>(
    fetching: CatalogModel<T>,
    tools: Seq<T>,
    later: CatalogRefreshView,
)
    requires
        fetching.refresh.expects_tools(),
    ensures
        ({
            let name = fetching.refresh.server().name;
            let generation = fetching.refresh.phase->Fetching_generation;
            let done = fetching.next(CatalogStep::Fetched(tools)).next(
                CatalogStep::Event(CatalogEvent::Generation(generation)),
            );
            &&& done.catalog == fetching.catalog.publish(name, tools)
            &&& done.catalog.revision == fetching.catalog.revision + 1
            &&& done.catalog.overrides[name] == tools
            &&& done.refresh.position == fetching.refresh.position + 1
            &&& done.refresh.generations.contains_key(name)
            &&& done.refresh.generations[name] == Some(generation)
            &&& !later.is_finished() && later.phase is Observing && later.server().name == name
                && later.state(name) == done.refresh.state(name) ==> {
                let seen = later.next(CatalogEvent::Generation(generation));
                &&& seen.position == later.position + 1
                &&& seen.generations[name] == Some(generation)
            }
        }),
{
}

/// A failed fetch publishes nothing, leaves the server reported as not current
/// and leaves the remembered generation, so that the change stays pending.
/// Later passes that read the same generation do not fetch before the delay is
/// over and leave it running, and fetch from then on without another notice.
pub proof fn law_a_failed_fetch_is_repeated_after_a_delay<T>(
    model: CatalogModel<T>,
    servers: Seq<CatalogServerView>,
    steps: Seq<CatalogStep<T>>,
    failed_at: u64,
    later: CatalogRefreshView,
    generation: u64,
    now: u64,
)
    requires
        distinct_names(servers),
        is_fetching(
            model.begin(servers).run(steps).refresh,
            model.begin(servers).run(steps).refresh.position,
        ),
    ensures
        ({
            let fetching = model.begin(servers).run(steps);
            let name = fetching.refresh.server().name;
            let done = fetching.next(CatalogStep::Event(CatalogEvent::FetchFailed)).next(
                CatalogStep::Event(CatalogEvent::Clock(failed_at)),
            );
            let seen = later.next(CatalogEvent::Generation(generation)).next(
                CatalogEvent::Clock(now),
            );
            &&& done.catalog == fetching.catalog
            &&& done.refresh.position == fetching.refresh.position + 1
            &&& done.refresh.generations.contains_key(name)
            &&& done.refresh.generations[name] is None
            &&& done.refresh.state(name).generation == fetching.refresh.state(name).generation
            &&& !later.is_finished() && later.phase is Observing && later.server().name == name
                && later.state(name) == done.refresh.state(name) && generation != later.state(
                name,
            ).generation ==> {
                &&& seen.generations.contains_key(name)
                &&& seen.generations[name] is None
                &&& now < failed_at + tool_catalog::RETRY_DELAY_NANOS ==> seen.position
                    == later.position + 1 && seen.state(name) == later.state(name)
                &&& now >= failed_at + tool_catalog::RETRY_DELAY_NANOS ==> seen.phase == (
                CatalogPhase::Fetching { generation })
            }
        }),
{
    lemma_run_keeps_invariant(model, servers, steps);
}

/// Whether the server at this position was found not connected.
pub open spec fn was_absent<T>(
    start: CatalogModel<T>,
    steps: Seq<CatalogStep<T>>,
    position: nat,
) -> bool {
    exists|i: int|
        0 <= i < steps.len() && #[trigger] steps[i] == CatalogStep::<T>::Event(
            CatalogEvent::NotReady,
        ) && start.run(steps.take(i)).refresh.position == position && start.run(
            steps.take(i),
        ).refresh.phase is Observing
}

/// A pass reports every server that it is done with, unless it found the
/// server not connected.
pub proof fn law_every_connected_server_is_reported<T>(
    model: CatalogModel<T>,
    servers: Seq<CatalogServerView>,
    steps: Seq<CatalogStep<T>>,
    position: nat,
)
    requires
        distinct_names(servers),
        position < servers.len(),
        position < model.begin(servers).run(steps).refresh.position,
    ensures
        model.begin(servers).run(steps).refresh.generations.contains_key(
            servers[position as int].name,
        ) || was_absent(model.begin(servers), steps, position),
    decreases steps.len(),
{
    let start = model.begin(servers);
    if steps.len() > 0 {
        let earlier = steps.drop_last();
        let before = start.run(earlier);
        let last = steps.len() - 1;
        lemma_run_keeps_servers(start, earlier);
        lemma_run_keeps_invariant(model, servers, earlier);
        assert(steps.take(last) =~= earlier);
        if position < before.refresh.position {
            law_every_connected_server_is_reported(model, servers, earlier, position);
            if was_absent(start, earlier, position) {
                let i = choose|i: int|
                    0 <= i < earlier.len() && #[trigger] earlier[i] == CatalogStep::<T>::Event(
                        CatalogEvent::NotReady,
                    ) && start.run(earlier.take(i)).refresh.position == position && start.run(
                        earlier.take(i),
                    ).refresh.phase is Observing;
                assert(steps.take(i) =~= earlier.take(i));
                assert(steps[i] == CatalogStep::<T>::Event(CatalogEvent::NotReady));
            }
        } else if before.refresh.phase is Observing {
            if steps[last] == CatalogStep::<T>::Event(CatalogEvent::NotReady) {
                assert(was_absent(start, steps, position));
            }
        }
    }
}

/// A pass publishes at most one catalog per server, and the revision counts
/// the publications.
pub proof fn law_one_publication_per_server_and_pass<T>(
    model: CatalogModel<T>,
    servers: Seq<CatalogServerView>,
    steps: Seq<CatalogStep<T>>,
)
    ensures
        ({
            let now = model.begin(servers).run(steps);
            let current = if !now.refresh.is_finished() && now.refresh.phase is Confirming {
                1nat
            } else {
                0nat
            };
            &&& model.catalog.revision <= now.catalog.revision
            &&& now.catalog.revision <= model.catalog.revision + now.refresh.position + current
            &&& now.refresh.position <= servers.len()
        }),
    decreases steps.len(),
{
    if steps.len() > 0 {
        law_one_publication_per_server_and_pass(model, servers, steps.drop_last());
        lemma_run_keeps_servers(model.begin(servers), steps.drop_last());
    }
}

proof fn lemma_reports_are_of_servers(
    servers: Seq<CatalogServerView>,
    generations: Map<Seq<char>, Option<u64>>,
    i: int,
)
    requires
        0 <= i < tool_catalog::reported_of(servers, generations).len(),
    ensures
        ({
            let report = tool_catalog::reported_of(servers, generations)[i];
            &&& generations.contains_key(report.0)
            &&& generations[report.0] == report.1
            &&& exists|k: int| 0 <= k < servers.len() && #[trigger] servers[k].name == report.0
        }),
    decreases servers.len(),
{
    let earlier = servers.drop_last();
    if i < tool_catalog::reported_of(earlier, generations).len() {
        lemma_reports_are_of_servers(earlier, generations, i);
        let name = tool_catalog::reported_of(servers, generations)[i].0;
        let k = choose|k: int| 0 <= k < earlier.len() && #[trigger] earlier[k].name == name;
        assert(servers[k].name == name);
    } else {
        assert(servers[servers.len() - 1] == servers.last());
    }
}

proof fn lemma_servers_are_reported(
    servers: Seq<CatalogServerView>,
    generations: Map<Seq<char>, Option<u64>>,
    k: int,
)
    requires
        0 <= k < servers.len(),
        generations.contains_key(servers[k].name),
    ensures
        tool_catalog::reported_of(servers, generations).contains(
            (servers[k].name, generations[servers[k].name]),
        ),
    decreases servers.len(),
{
    let reports = tool_catalog::reported_of(servers, generations);
    let entry = (servers[k].name, generations[servers[k].name]);
    if k == servers.len() - 1 {
        assert(reports[reports.len() - 1] == entry);
    } else {
        let earlier = servers.drop_last();
        lemma_servers_are_reported(earlier, generations, k);
        let i = choose|i: int|
            0 <= i < tool_catalog::reported_of(earlier, generations).len()
                && tool_catalog::reported_of(earlier, generations)[i] == entry;
        assert(reports[i] == entry);
    }
}

proof fn lemma_reports_are_distinct(
    servers: Seq<CatalogServerView>,
    generations: Map<Seq<char>, Option<u64>>,
    i: int,
    j: int,
)
    requires
        distinct_names(servers),
        0 <= i < j < tool_catalog::reported_of(servers, generations).len(),
    ensures
        tool_catalog::reported_of(servers, generations)[i].0 != tool_catalog::reported_of(
            servers,
            generations,
        )[j].0,
    decreases servers.len(),
{
    let earlier = servers.drop_last();
    let before = tool_catalog::reported_of(earlier, generations);
    assert(distinct_names(earlier)) by {
        assert forall|a: int, b: int| 0 <= a < b < earlier.len() implies #[trigger] earlier[a].name
            != #[trigger] earlier[b].name by {
            assert(servers[a].name != servers[b].name);
        }
    }
    if j < before.len() {
        lemma_reports_are_distinct(earlier, generations, i, j);
    } else {
        lemma_reports_are_of_servers(earlier, generations, i);
        let k = choose|k: int| 0 <= k < earlier.len() && #[trigger] earlier[k].name == before[i].0;
        assert(servers[k].name != servers[servers.len() - 1].name);
    }
}

/// What a pass hands out is what it reports: one entry for each reported
/// server, and none besides.
pub proof fn law_the_result_is_what_the_pass_reports<T>(
    model: CatalogModel<T>,
    servers: Seq<CatalogServerView>,
    steps: Seq<CatalogStep<T>>,
    name: Seq<char>,
    generation: Option<u64>,
)
    requires
        distinct_names(servers),
    ensures
        ({
            let now = model.begin(servers).run(steps).refresh;
            let reports = tool_catalog::reported_of(now.servers, now.generations);
            &&& reports.contains((name, generation)) <==> (now.generations.contains_key(name)
                && now.generations[name] == generation)
            &&& forall|i: int, j: int|
                0 <= i < j < reports.len() ==> #[trigger] reports[i].0 != #[trigger] reports[j].0
        }),
{
    let now = model.begin(servers).run(steps).refresh;
    let reports = tool_catalog::reported_of(now.servers, now.generations);
    lemma_run_keeps_servers(model.begin(servers), steps);
    lemma_run_keeps_invariant(model, servers, steps);
    if reports.contains((name, generation)) {
        let i = choose|i: int| 0 <= i < reports.len() && reports[i] == (name, generation);
        lemma_reports_are_of_servers(now.servers, now.generations, i);
    }
    if now.generations.contains_key(name) && now.generations[name] == generation {
        let k = choose|k: int|
            0 <= k <= now.position && k < now.servers.len() && #[trigger] now.servers[k].name
                == name && (k == now.position ==> !(now.phase is Observing)
                && now.generations[name] is None);
        lemma_servers_are_reported(now.servers, now.generations, k);
    }
    assert forall|i: int, j: int| 0 <= i < j < reports.len() implies #[trigger] reports[i].0
        != #[trigger] reports[j].0 by {
        lemma_reports_are_distinct(now.servers, now.generations, i, j);
    }
}

} // verus!
