//! What holds of catalog passes as a whole: each one comes to an end, and any
//! number of them over an unchanged server fetch from it once.

use crate::tool_catalog::{
    CatalogAction, CatalogEvent, CatalogPhase, CatalogRefreshView, CatalogServerView, RefreshState,
};
use crate::tool_catalog_laws;
use crate::tool_catalog_laws::{CatalogModel, CatalogStep};
use vstd::prelude::*;

verus! {

/// Whether a step answers the work that the pass waits for.
pub open spec fn answers<T>(refresh: CatalogRefreshView, step: CatalogStep<T>) -> bool {
    match (refresh.pending(), step) {
        (CatalogAction::ReadGeneration, CatalogStep::Event(CatalogEvent::NotReady)) => true,
        (CatalogAction::ReadGeneration, CatalogStep::Event(CatalogEvent::Generation(_))) => true,
        (CatalogAction::ConfirmGeneration, CatalogStep::Event(CatalogEvent::Generation(_))) => true,
        (CatalogAction::ReadClock, CatalogStep::Event(CatalogEvent::Clock(_))) => true,
        (CatalogAction::HardRefresh { .. }, CatalogStep::Event(CatalogEvent::HardRefreshed)) => true,
        (CatalogAction::HardRefresh { .. }, CatalogStep::Event(CatalogEvent::FetchFailed)) => true,
        (CatalogAction::Fetch { .. }, CatalogStep::Fetched(_)) => true,
        (CatalogAction::Fetch { .. }, CatalogStep::Event(CatalogEvent::FetchFailed)) => true,
        _ => false,
    }
}

/// Whether each step answers the work that the pass waits for when it comes.
pub open spec fn all_answer<T>(start: CatalogModel<T>, steps: Seq<CatalogStep<T>>) -> bool
    decreases steps.len(),
{
    steps.len() == 0 || (all_answer(start, steps.drop_last()) && answers(
        start.run(steps.drop_last()).refresh,
        steps.last(),
    ))
}

/// How many answers the pass still takes, at most: four for each server to
/// come, and for the current one as many as its phase leaves.
pub open spec fn answers_left(refresh: CatalogRefreshView) -> nat {
    if refresh.is_finished() {
        0
    } else {
        let current: nat = match refresh.phase {
            CatalogPhase::Observing => 4,
            CatalogPhase::AwaitingRetry { .. } => 3,
            CatalogPhase::Fetching { .. } => 2,
            CatalogPhase::BackingOff => 1,
            CatalogPhase::Confirming { .. } => 1,
        };
        ((refresh.servers.len() - refresh.position - 1) * 4 + current) as nat
    }
}

/// A step that answers the pending work brings the pass nearer to its end, and
/// any other step changes nothing. As long as the pass is not at its end, there
/// is a step that answers.
pub proof fn law_an_answer_brings_the_end_nearer<T>(model: CatalogModel<T>, step: CatalogStep<T>)
    ensures
        answers(model.refresh, step) ==> answers_left(model.next(step).refresh) < answers_left(
            model.refresh,
        ),
        !answers(model.refresh, step) ==> model.next(step) == model,
        answers_left(model.refresh) == 0 <==> model.refresh.is_finished(),
        model.refresh.is_finished() <==> model.refresh.pending() == CatalogAction::Finish,
        !model.refresh.is_finished() <==> exists|other: CatalogStep<T>|
            answers(model.refresh, other),
{
    let refresh = model.refresh;
    if !refresh.is_finished() {
        let read: CatalogStep<T> = CatalogStep::Event(CatalogEvent::Generation(0));
        let clock: CatalogStep<T> = CatalogStep::Event(CatalogEvent::Clock(0));
        let failed: CatalogStep<T> = CatalogStep::Event(CatalogEvent::FetchFailed);
        assert(answers(refresh, read) || answers(refresh, clock) || answers(refresh, failed));
    }
}

/// A pass comes to an end: over `n` servers it takes at most `4 * n` answers.
pub proof fn law_a_pass_comes_to_an_end<T>(
    model: CatalogModel<T>,
    servers: Seq<CatalogServerView>,
    steps: Seq<CatalogStep<T>>,
)
    requires
        all_answer(model.begin(servers), steps),
    ensures
        steps.len() + answers_left(model.begin(servers).run(steps).refresh) <= 4 * servers.len(),
        steps.len() == 4 * servers.len() ==> model.begin(servers).run(steps).refresh.is_finished(),
    decreases steps.len(),
{
    if steps.len() > 0 {
        let earlier = steps.drop_last();
        law_a_pass_comes_to_an_end(model, servers, earlier);
        law_an_answer_brings_the_end_nearer(model.begin(servers).run(earlier), steps.last());
    }
    law_an_answer_brings_the_end_nearer(
        model.begin(servers).run(steps),
        CatalogStep::Event(CatalogEvent::NotReady),
    );
}

/// One pass: the servers that it visits, and its steps.
#[verifier::reject_recursive_types(T)]
pub struct CatalogPass<T> {
    pub servers: Seq<CatalogServerView>,
    pub steps: Seq<CatalogStep<T>>,
}

impl<T> CatalogModel<T> {
    /// What a pass leaves behind.
    pub open spec fn pass(self, pass: CatalogPass<T>) -> CatalogModel<T> {
        self.begin(pass.servers).run(pass.steps)
    }

    /// What passes, one after the other, leave behind.
    pub open spec fn passes(self, passes: Seq<CatalogPass<T>>) -> CatalogModel<T>
        decreases passes.len(),
    {
        if passes.len() == 0 {
            self
        } else {
            self.passes(passes.drop_last()).pass(passes.last())
        }
    }
}

/// Whether the pass is at the server of this name.
pub open spec fn is_at(refresh: CatalogRefreshView, name: Seq<char>) -> bool {
    !refresh.is_finished() && refresh.server().name == name
}

/// Whether the pass is fetching from the server of this name.
pub open spec fn is_fetching_from(refresh: CatalogRefreshView, name: Seq<char>) -> bool {
    is_at(refresh, name) && refresh.phase is Fetching
}

/// Whether every generation that the steps read of a server is this one.
pub open spec fn reads_only<T>(
    start: CatalogModel<T>,
    steps: Seq<CatalogStep<T>>,
    name: Seq<char>,
    generation: u64,
) -> bool
    decreases steps.len(),
{
    steps.len() == 0 || (reads_only(start, steps.drop_last(), name, generation) && (is_at(
        start.run(steps.drop_last()).refresh,
        name,
    ) ==> (steps.last() matches CatalogStep::Event(CatalogEvent::Generation(read)) ==> read
        == generation)))
}

/// How many fetches from a server begin in these steps.
pub open spec fn fetches<T>(
    start: CatalogModel<T>,
    steps: Seq<CatalogStep<T>>,
    name: Seq<char>,
) -> nat
    decreases steps.len(),
{
    if steps.len() == 0 {
        0
    } else {
        let before = start.run(steps.drop_last()).refresh;
        let after = start.run(steps).refresh;
        fetches(start, steps.drop_last(), name) + if !is_fetching_from(before, name)
            && is_fetching_from(after, name) {
            1nat
        } else {
            0nat
        }
    }
}

/// Whether a step publishes a catalog of a server.
pub open spec fn publishes<T>(
    refresh: CatalogRefreshView,
    step: CatalogStep<T>,
    name: Seq<char>,
) -> bool {
    refresh.expects_tools() && refresh.server().name == name && step is Fetched
}

/// A publication replaces one server's catalog and moves the revision by one;
/// no other step touches the catalogs.
pub proof fn law_a_publication_moves_the_revision<T>(
    model: CatalogModel<T>,
    step: CatalogStep<T>,
    name: Seq<char>,
)
    ensures
        publishes(model.refresh, step, name) ==> model.next(step).catalog.revision
            == model.catalog.revision + 1 && model.next(step).catalog.overrides
            == model.catalog.overrides.insert(name, step->Fetched_0),
        !publishes(model.refresh, step, model.refresh.server().name) ==> model.next(step).catalog
            == model.catalog,
{
}

/// How many catalogs of a server are published in these steps.
pub open spec fn publications<T>(
    start: CatalogModel<T>,
    steps: Seq<CatalogStep<T>>,
    name: Seq<char>,
) -> nat
    decreases steps.len(),
{
    if steps.len() == 0 {
        0
    } else {
        let before = start.run(steps.drop_last()).refresh;
        publications(start, steps.drop_last(), name) + if publishes(before, steps.last(), name) {
            1nat
        } else {
            0nat
        }
    }
}

/// How many fetches from a server begin in these passes.
pub open spec fn fetches_in_passes<T>(
    model: CatalogModel<T>,
    passes: Seq<CatalogPass<T>>,
    name: Seq<char>,
) -> nat
    decreases passes.len(),
{
    if passes.len() == 0 {
        0
    } else {
        let before = model.passes(passes.drop_last());
        fetches_in_passes(model, passes.drop_last(), name) + fetches(
            before.begin(passes.last().servers),
            passes.last().steps,
            name,
        )
    }
}

/// How many catalogs of a server are published in these passes.
pub open spec fn publications_in_passes<T>(
    model: CatalogModel<T>,
    passes: Seq<CatalogPass<T>>,
    name: Seq<char>,
) -> nat
    decreases passes.len(),
{
    if passes.len() == 0 {
        0
    } else {
        let before = model.passes(passes.drop_last());
        publications_in_passes(model, passes.drop_last(), name) + publications(
            before.begin(passes.last().servers),
            passes.last().steps,
            name,
        )
    }
}

/// Whether the passes read only this generation of a server.
pub open spec fn passes_read_only<T>(
    model: CatalogModel<T>,
    passes: Seq<CatalogPass<T>>,
    name: Seq<char>,
    generation: u64,
) -> bool
    decreases passes.len(),
{
    passes.len() == 0 || (passes_read_only(model, passes.drop_last(), name, generation)
        && reads_only(
        model.passes(passes.drop_last()).begin(passes.last().servers),
        passes.last().steps,
        name,
        generation,
    ))
}

/// Whether a pass reports this generation of a server.
pub open spec fn reports(refresh: CatalogRefreshView, name: Seq<char>, generation: u64) -> bool {
    refresh.generations.contains_key(name) && refresh.generations[name] == Some(generation)
}

/// A pass that reads only the remembered generation of a server does not fetch
/// from it and publishes nothing of it; what is remembered and published of it
/// stays, and the pass reports nothing but that generation.
pub proof fn law_a_pass_leaves_a_current_server_alone<T>(
    model: CatalogModel<T>,
    pass: CatalogPass<T>,
    name: Seq<char>,
    generation: u64,
)
    requires
        model.refresh.state(name).generation == generation,
        reads_only(model.begin(pass.servers), pass.steps, name, generation),
    ensures
        fetches(model.begin(pass.servers), pass.steps, name) == 0,
        publications(model.begin(pass.servers), pass.steps, name) == 0,
        is_at(model.pass(pass).refresh, name) ==> model.pass(pass).refresh.phase is Observing,
        model.pass(pass).refresh.state(name) == model.refresh.state(name),
        model.pass(pass).catalog.overrides.contains_key(name)
            == model.catalog.overrides.contains_key(name),
        model.pass(pass).catalog.overrides[name] == model.catalog.overrides[name],
        model.pass(pass).refresh.generations.contains_key(name) ==> reports(
            model.pass(pass).refresh,
            name,
            generation,
        ),
    decreases pass.steps.len(),
{
    if pass.steps.len() > 0 {
        let earlier = CatalogPass { servers: pass.servers, steps: pass.steps.drop_last() };
        law_a_pass_leaves_a_current_server_alone(model, earlier, name, generation);
        let before = model.pass(earlier);
        if !is_at(before.refresh, name) {
            tool_catalog_laws::law_a_step_concerns_one_server(before, pass.steps.last(), name);
        }
    }
}

/// The number of publications that a complete fetch from a server makes: the
/// server whose tools have a cache of its own has none published here.
pub open spec fn publications_of_a_fetch(apps_server_name: Seq<char>, name: Seq<char>) -> nat {
    if name == apps_server_name {
        0
    } else {
        1
    }
}

/// What holds of a changed server at every point of a pass that reads only its
/// new generation.
spec fn change_invariant<T>(
    model: CatalogModel<T>,
    pass: CatalogPass<T>,
    position: nat,
    generation: u64,
) -> bool {
    let start = model.begin(pass.servers);
    let now = model.pass(pass).refresh;
    let name = pass.servers[position as int].name;
    let fetched = fetches(start, pass.steps, name);
    let published = publications(start, pass.steps, name);
    let complete = publications_of_a_fetch(model.refresh.apps_server_name, name);
    let acknowledged = RefreshState { generation, retry_at: None };
    if now.position < position {
        &&& fetched == 0
        &&& published == 0
        &&& now.state(name) == model.refresh.state(name)
        &&& !reports(now, name, generation)
    } else if now.position == position {
        &&& !reports(now, name, generation)
        &&& match now.phase {
            CatalogPhase::Observing => fetched == 0 && published == 0 && now.state(name)
                == model.refresh.state(name),
            CatalogPhase::AwaitingRetry { generation: read } => fetched == 0 && published == 0
                && read == generation && now.state(name) == model.refresh.state(name),
            CatalogPhase::Fetching { generation: read } => fetched == 1 && published == 0 && read
                == generation && now.state(name) == model.refresh.state(name),
            CatalogPhase::BackingOff => fetched == 1 && published == 0,
            CatalogPhase::Confirming { generation: read } => fetched == 1 && published == complete
                && read == generation && now.state(name) == acknowledged,
        }
    } else {
        &&& fetched <= 1
        &&& published <= fetched
        &&& reports(now, name, generation) ==> fetched == 1 && published == complete && now.state(
            name,
        ) == acknowledged
    }
}

proof fn lemma_change_invariant<T>(
    model: CatalogModel<T>,
    pass: CatalogPass<T>,
    position: nat,
    generation: u64,
)
    requires
        tool_catalog_laws::distinct_names(pass.servers),
        position < pass.servers.len(),
        model.refresh.state(pass.servers[position as int].name).generation != generation,
        reads_only(
            model.begin(pass.servers),
            pass.steps,
            pass.servers[position as int].name,
            generation,
        ),
    ensures
        change_invariant(model, pass, position, generation),
    decreases pass.steps.len(),
{
    let name = pass.servers[position as int].name;
    let start = model.begin(pass.servers);
    if pass.steps.len() > 0 {
        let earlier = CatalogPass { servers: pass.servers, steps: pass.steps.drop_last() };
        let step = pass.steps.last();
        lemma_change_invariant(model, earlier, position, generation);
        let before = model.pass(earlier);
        let after = model.pass(pass);
        tool_catalog_laws::lemma_run_keeps_servers(start, earlier.steps);
        tool_catalog_laws::lemma_run_keeps_servers(start, pass.steps);
        assert(after == before.next(step));
        if before.refresh.position != position && !before.refresh.is_finished() {
            assert(before.refresh.server().name != name);
        }
        if after.refresh.position != position && !after.refresh.is_finished() {
            assert(after.refresh.server().name != name);
        }
        if !is_at(before.refresh, name) {
            tool_catalog_laws::law_a_step_concerns_one_server(before, step, name);
        }
    }
}

/// A pass that reads only the remembered generation of a server, and is done
/// with it, reports that generation, unless it found the server not connected.
pub proof fn law_a_current_server_is_reported<T>(
    model: CatalogModel<T>,
    pass: CatalogPass<T>,
    position: nat,
    generation: u64,
)
    requires
        tool_catalog_laws::distinct_names(pass.servers),
        position < pass.servers.len(),
        position < model.pass(pass).refresh.position,
        model.refresh.state(pass.servers[position as int].name).generation == generation,
        reads_only(
            model.begin(pass.servers),
            pass.steps,
            pass.servers[position as int].name,
            generation,
        ),
    ensures
        reports(model.pass(pass).refresh, pass.servers[position as int].name, generation)
            || tool_catalog_laws::was_absent(model.begin(pass.servers), pass.steps, position),
{
    let name = pass.servers[position as int].name;
    law_a_pass_leaves_a_current_server_alone(model, pass, name, generation);
    tool_catalog_laws::law_every_connected_server_is_reported(
        model,
        pass.servers,
        pass.steps,
        position,
    );
}

/// Whether the steps find a server connected and no fetch from it fails.
pub open spec fn no_obstacle<T>(
    start: CatalogModel<T>,
    steps: Seq<CatalogStep<T>>,
    name: Seq<char>,
) -> bool
    decreases steps.len(),
{
    steps.len() == 0 || (no_obstacle(start, steps.drop_last(), name) && (is_at(
        start.run(steps.drop_last()).refresh,
        name,
    ) ==> steps.last() != CatalogStep::<T>::Event(CatalogEvent::NotReady) && steps.last()
        != CatalogStep::<T>::Event(CatalogEvent::FetchFailed)))
}

proof fn lemma_no_obstacle<T>(
    model: CatalogModel<T>,
    pass: CatalogPass<T>,
    position: nat,
    generation: u64,
)
    requires
        tool_catalog_laws::distinct_names(pass.servers),
        position < pass.servers.len(),
        model.refresh.state(pass.servers[position as int].name).generation != generation,
        model.refresh.state(pass.servers[position as int].name).retry_at is None,
        reads_only(
            model.begin(pass.servers),
            pass.steps,
            pass.servers[position as int].name,
            generation,
        ),
        no_obstacle(model.begin(pass.servers), pass.steps, pass.servers[position as int].name),
    ensures
        ({
            let now = model.pass(pass).refresh;
            let name = pass.servers[position as int].name;
            if now.position < position {
                now.state(name) == model.refresh.state(name)
            } else if now.position == position {
                match now.phase {
                    CatalogPhase::Observing => now.state(name) == model.refresh.state(name),
                    CatalogPhase::Fetching { generation: read } => read == generation,
                    CatalogPhase::Confirming { generation: read } => read == generation,
                    _ => false,
                }
            } else {
                reports(now, name, generation)
            }
        }),
    decreases pass.steps.len(),
{
    let name = pass.servers[position as int].name;
    let start = model.begin(pass.servers);
    if pass.steps.len() > 0 {
        let earlier = CatalogPass { servers: pass.servers, steps: pass.steps.drop_last() };
        let step = pass.steps.last();
        lemma_no_obstacle(model, earlier, position, generation);
        let before = model.pass(earlier);
        tool_catalog_laws::lemma_run_keeps_servers(start, earlier.steps);
        assert(model.pass(pass) == before.next(step));
        if before.refresh.position != position && !before.refresh.is_finished() {
            assert(before.refresh.server().name != name);
        }
        if !is_at(before.refresh, name) {
            tool_catalog_laws::law_a_step_concerns_one_server(before, step, name);
        }
    }
}

/// A change is acknowledged where nothing stands in its way. A pass that reads
/// only a server's new generation, finds the server connected, need not wait
/// after an earlier failure, and has no fetch from it fail, reports that
/// generation once it is done with the server.
pub proof fn law_a_change_is_acknowledged<T>(
    model: CatalogModel<T>,
    pass: CatalogPass<T>,
    position: nat,
    generation: u64,
)
    requires
        tool_catalog_laws::distinct_names(pass.servers),
        position < pass.servers.len(),
        position < model.pass(pass).refresh.position,
        model.refresh.state(pass.servers[position as int].name).generation != generation,
        model.refresh.state(pass.servers[position as int].name).retry_at is None,
        reads_only(
            model.begin(pass.servers),
            pass.steps,
            pass.servers[position as int].name,
            generation,
        ),
        no_obstacle(model.begin(pass.servers), pass.steps, pass.servers[position as int].name),
    ensures
        reports(model.pass(pass).refresh, pass.servers[position as int].name, generation),
{
    lemma_no_obstacle(model, pass, position, generation);
}

/// Notices are coalesced. Where a server's generation is not the remembered
/// one, and a pass that reads only that generation comes to report it, then
/// that pass fetched from the server exactly once and published its catalog
/// exactly once; and so did that pass together with any number of later passes
/// that read only that generation. Each of them leaves the server's catalog as
/// the first one published it. Each of them that is done with the server
/// reports that generation, unless it found the server not connected.
pub proof fn law_notices_are_coalesced<T>(
    model: CatalogModel<T>,
    passes: Seq<CatalogPass<T>>,
    position: nat,
    name: Seq<char>,
    generation: u64,
)
    requires
        passes.len() >= 1,
        tool_catalog_laws::distinct_names(passes[0].servers),
        position < passes[0].servers.len(),
        passes[0].servers[position as int].name == name,
        model.refresh.state(name).generation != generation,
        reports(model.pass(passes[0]).refresh, name, generation),
        passes_read_only(model, passes, name, generation),
    ensures
        fetches_in_passes(model, passes, name) == 1,
        publications_in_passes(model, passes, name) == publications_of_a_fetch(
            model.refresh.apps_server_name,
            name,
        ),
        model.passes(passes).refresh.state(name) == (RefreshState { generation, retry_at: None }),
        model.passes(passes).catalog.overrides.contains_key(name) == model.pass(
            passes[0],
        ).catalog.overrides.contains_key(name),
        model.passes(passes).catalog.overrides[name] == model.pass(
            passes[0],
        ).catalog.overrides[name],
        model.passes(passes).refresh.generations.contains_key(name) ==> reports(
            model.passes(passes).refresh,
            name,
            generation,
        ),
        forall|at: nat|
            tool_catalog_laws::distinct_names(passes.last().servers) && at
                < passes.last().servers.len() && #[trigger] passes.last().servers[at as int].name
                == name && at < model.passes(passes).refresh.position ==> reports(
                model.passes(passes).refresh,
                name,
                generation,
            ) || tool_catalog_laws::was_absent(
                model.passes(passes.drop_last()).begin(passes.last().servers),
                passes.last().steps,
                at,
            ),
    decreases passes.len(),
{
    let earlier = passes.drop_last();
    let last = passes.last();
    if passes.len() == 1 {
        assert(earlier =~= Seq::<CatalogPass<T>>::empty());
        reveal_with_fuel(CatalogModel::passes, 2);
        reveal_with_fuel(passes_read_only, 2);
        reveal_with_fuel(fetches_in_passes, 2);
        reveal_with_fuel(publications_in_passes, 2);
        lemma_change_invariant(model, last, position, generation);
    } else {
        assert(earlier[0] == passes[0]);
        law_notices_are_coalesced(model, earlier, position, name, generation);
        law_a_pass_leaves_a_current_server_alone(model.passes(earlier), last, name, generation);
        assert forall|at: nat|
            tool_catalog_laws::distinct_names(last.servers) && at < last.servers.len()
                && #[trigger] last.servers[at as int].name == name && at < model.passes(
                passes,
            ).refresh.position implies reports(model.passes(passes).refresh, name, generation)
            || tool_catalog_laws::was_absent(
            model.passes(earlier).begin(last.servers),
            last.steps,
            at,
        ) by {
            law_a_current_server_is_reported(model.passes(earlier), last, at, generation);
        }
    }
}

proof fn lemma_current_without_obstacle<T>(
    model: CatalogModel<T>,
    pass: CatalogPass<T>,
    position: nat,
    generation: u64,
)
    requires
        tool_catalog_laws::distinct_names(pass.servers),
        position < pass.servers.len(),
        model.refresh.state(pass.servers[position as int].name).generation == generation,
        reads_only(
            model.begin(pass.servers),
            pass.steps,
            pass.servers[position as int].name,
            generation,
        ),
        no_obstacle(model.begin(pass.servers), pass.steps, pass.servers[position as int].name),
        position < model.pass(pass).refresh.position,
    ensures
        reports(model.pass(pass).refresh, pass.servers[position as int].name, generation),
    decreases pass.steps.len(),
{
    let name = pass.servers[position as int].name;
    let start = model.begin(pass.servers);
    if pass.steps.len() > 0 {
        let earlier = CatalogPass { servers: pass.servers, steps: pass.steps.drop_last() };
        let step = pass.steps.last();
        let before = model.pass(earlier);
        law_a_pass_leaves_a_current_server_alone(model, earlier, name, generation);
        tool_catalog_laws::lemma_run_keeps_servers(start, earlier.steps);
        assert(model.pass(pass) == before.next(step));
        if position < before.refresh.position {
            lemma_current_without_obstacle(model, earlier, position, generation);
            if !before.refresh.is_finished() {
                assert(before.refresh.server().name != name);
            }
            tool_catalog_laws::law_a_step_concerns_one_server(before, step, name);
        }
    }
}

/// Whether a pass over distinct servers gets done with a server, finds it
/// connected, reads only this generation of it, and has no fetch from it fail.
pub open spec fn is_smooth<T>(
    model: CatalogModel<T>,
    pass: CatalogPass<T>,
    name: Seq<char>,
    generation: u64,
) -> bool {
    &&& tool_catalog_laws::distinct_names(pass.servers)
    &&& exists|at: int|
        0 <= at < pass.servers.len() && #[trigger] pass.servers[at].name == name && at < model.pass(
            pass,
        ).refresh.position
    &&& reads_only(model.begin(pass.servers), pass.steps, name, generation)
    &&& no_obstacle(model.begin(pass.servers), pass.steps, name)
}

proof fn lemma_smooth_passes_read_only<T>(
    model: CatalogModel<T>,
    passes: Seq<CatalogPass<T>>,
    name: Seq<char>,
    generation: u64,
)
    requires
        forall|i: int|
            0 <= i < passes.len() ==> is_smooth(
                model.passes(#[trigger] passes.take(i)),
                passes[i],
                name,
                generation,
            ),
    ensures
        passes_read_only(model, passes, name, generation),
    decreases passes.len(),
{
    if passes.len() > 0 {
        let earlier = passes.drop_last();
        assert forall|i: int| 0 <= i < earlier.len() implies is_smooth(
            model.passes(#[trigger] earlier.take(i)),
            earlier[i],
            name,
            generation,
        ) by {
            assert(earlier.take(i) =~= passes.take(i));
        }
        lemma_smooth_passes_read_only(model, earlier, name, generation);
        assert(passes.take(passes.len() - 1) =~= earlier);
    }
}

/// Readers share one fetch. The passes of any number of readers run one after
/// the other; where a server's generation is not the acknowledged one, no
/// earlier failure delays it, and every pass reads only the new generation,
/// finds the server connected and has no fetch from it fail, all passes together
/// make exactly one fetch from it and one publication, and every one of them
/// reports the new generation.
pub proof fn law_readers_share_one_fetch<T>(
    model: CatalogModel<T>,
    passes: Seq<CatalogPass<T>>,
    name: Seq<char>,
    generation: u64,
)
    requires
        passes.len() >= 1,
        model.refresh.state(name).generation != generation,
        model.refresh.state(name).retry_at is None,
        forall|i: int|
            0 <= i < passes.len() ==> is_smooth(
                model.passes(#[trigger] passes.take(i)),
                passes[i],
                name,
                generation,
            ),
    ensures
        fetches_in_passes(model, passes, name) == 1,
        publications_in_passes(model, passes, name) == publications_of_a_fetch(
            model.refresh.apps_server_name,
            name,
        ),
        forall|i: int|
            0 <= i < passes.len() ==> reports(
                model.passes(#[trigger] passes.take(i)).pass(passes[i]).refresh,
                name,
                generation,
            ),
{
    lemma_smooth_passes_read_only(model, passes, name, generation);
    let first = passes[0];
    assert(passes.take(0) =~= Seq::<CatalogPass<T>>::empty());
    assert(model.passes(passes.take(0)) == model);
    let at = choose|at: int|
        0 <= at < first.servers.len() && #[trigger] first.servers[at].name == name && at
            < model.pass(first).refresh.position;
    law_a_change_is_acknowledged(model, first, at as nat, generation);
    law_notices_are_coalesced(model, passes, at as nat, name, generation);
    assert forall|i: int| 0 <= i < passes.len() implies reports(
        model.passes(#[trigger] passes.take(i)).pass(passes[i]).refresh,
        name,
        generation,
    ) by {
        if i > 0 {
            let before = passes.take(i);
            assert(before[0] == first);
            assert forall|j: int| 0 <= j < before.len() implies is_smooth(
                model.passes(#[trigger] before.take(j)),
                before[j],
                name,
                generation,
            ) by {
                assert(before.take(j) =~= passes.take(j));
            }
            lemma_smooth_passes_read_only(model, before, name, generation);
            law_notices_are_coalesced(model, before, at as nat, name, generation);
            let pass = passes[i];
            let here = choose|here: int|
                0 <= here < pass.servers.len() && #[trigger] pass.servers[here].name == name && here
                    < model.passes(before).pass(pass).refresh.position;
            lemma_current_without_obstacle(model.passes(before), pass, here as nat, generation);
        }
    }
}

} // verus!
