//! Refreshing the tool catalogs of servers that announced a change.
//!
//! A server counts its change notices in a generation. A pass over the servers
//! fetches the catalog of each one whose generation moved, and reports per
//! server the generation that its published catalog stands for, or `None`
//! where the catalog is not known to be current. [`CatalogRefresh`] is that
//! pass as a state machine, together with what is remembered between passes;
//! [`ToolCatalog`] holds the published catalogs.
//!
//! The generation is taken before the fetch, so that a notice received during
//! the fetch stays pending. A failed fetch publishes nothing and is tried
//! again after a delay, without another notice.

use vstd::hash_map::StringHashMap;
use vstd::prelude::*;

verus! {

/// The longest time that one fetch may take, in nanoseconds.
pub const REFRESH_TIMEOUT_NANOS: u128 = 10_000_000_000;

/// How long a failed fetch is not repeated, in nanoseconds.
pub const RETRY_DELAY_NANOS: u128 = 1_000_000_000;

/// What is remembered of a server between passes.
#[derive(Clone, Copy, Debug, PartialEq, Eq, Structural)]
pub struct RefreshState {
    /// The generation that the last complete fetch stands for, or zero.
    pub generation: u64,
    /// The clock reading from which a failed fetch may be repeated.
    pub retry_at: Option<u128>,
}

/// The state of a server that was never fetched.
pub open spec fn initial_state() -> RefreshState {
    RefreshState { generation: 0, retry_at: None }
}

impl Default for RefreshState {
    fn default() -> (state: Self)
        ensures
            state == initial_state(),
    {
        RefreshState { generation: 0, retry_at: None }
    }
}

/// A server that a pass visits.
pub struct CatalogServer {
    pub name: String,
    /// The server's own limit on a tool request, in nanoseconds.
    pub tool_timeout: Option<u128>,
}

/// The mathematical counterpart of [`CatalogServer`].
pub struct CatalogServerView {
    pub name: Seq<char>,
    pub tool_timeout: Option<u128>,
}

impl View for CatalogServer {
    type V = CatalogServerView;

    open spec fn view(&self) -> CatalogServerView {
        CatalogServerView { name: self.name@, tool_timeout: self.tool_timeout }
    }
}

/// How far a pass has come with the current server.
#[derive(Clone, Copy, Debug, PartialEq, Eq, Structural)]
pub enum CatalogPhase {
    /// The server's generation has to be read.
    Observing,
    /// The generation moved to this one; an earlier fetch failed, and the
    /// clock decides whether it may be repeated.
    AwaitingRetry { generation: u64 },
    /// The catalog of this generation has to be fetched.
    Fetching { generation: u64 },
    /// The fetch failed; the clock has to be read to delay the next one.
    BackingOff,
    /// The catalog of this generation is in place; the server's generation has
    /// to be read again.
    Confirming { generation: u64 },
}

/// What came of the pending work.
pub enum CatalogEvent {
    /// The server is not connected.
    NotReady,
    /// The server's generation.
    Generation(u64),
    /// The clock reading, in nanoseconds.
    Clock(u64),
    /// The application tools' own cache was refreshed.
    HardRefreshed,
    /// The fetch failed or took too long.
    FetchFailed,
}

/// The work that a pass waits for, always with the current server.
#[derive(Clone, Copy, Debug, PartialEq, Eq, Structural)]
pub enum CatalogAction {
    /// Read the server's generation, where it is connected.
    ReadGeneration,
    /// Read the generation again, from the connection that it was first read
    /// from.
    ConfirmGeneration,
    /// Read the clock.
    ReadClock,
    /// Fetch the server's whole catalog within this many nanoseconds.
    Fetch { timeout: u128 },
    /// Refresh the application tools' cache within this many nanoseconds.
    HardRefresh { timeout: u128 },
    /// No server is left: take the generations.
    Finish,
}

/// The time that a fetch from a server may take.
pub open spec fn fetch_timeout(tool_timeout: Option<u128>) -> u128 {
    match tool_timeout {
        Some(limit) if limit < REFRESH_TIMEOUT_NANOS => limit,
        _ => REFRESH_TIMEOUT_NANOS,
    }
}

/// The time that a fetch from a server with this limit may take: the server's
/// own limit, but never more than [`REFRESH_TIMEOUT_NANOS`].
pub fn bounded_timeout(tool_timeout: Option<u128>) -> (timeout: u128)
    ensures
        timeout == fetch_timeout(tool_timeout),
{
    match tool_timeout {
        Some(limit) => if limit < REFRESH_TIMEOUT_NANOS {
            limit
        } else {
            REFRESH_TIMEOUT_NANOS
        },
        None => REFRESH_TIMEOUT_NANOS,
    }
}

/// The catalogs that were published in place of those listed at startup.
#[verifier::reject_recursive_types(T)]
pub struct ToolCatalog<T> {
    overrides: StringHashMap<Vec<T>>,
    revision: u64,
}

/// The mathematical counterpart of [`ToolCatalog`].
#[verifier::ext_equal]
#[verifier::reject_recursive_types(T)]
pub struct ToolCatalogView<T> {
    pub overrides: Map<Seq<char>, Seq<T>>,
    pub revision: nat,
}

impl<T> View for ToolCatalog<T> {
    type V = ToolCatalogView<T>;

    closed spec fn view(&self) -> ToolCatalogView<T> {
        ToolCatalogView {
            overrides: self.overrides@.map_values(|tools: Vec<T>| tools@),
            revision: self.revision as nat,
        }
    }
}

impl<T> ToolCatalogView<T> {
    /// The catalog after a server's tools were published.
    pub open spec fn publish(self, server_name: Seq<char>, tools: Seq<T>) -> ToolCatalogView<T> {
        ToolCatalogView {
            overrides: self.overrides.insert(server_name, tools),
            revision: self.revision + 1,
        }
    }
}

impl<T> ToolCatalog<T> {
    /// A catalog with nothing published.
    pub fn new() -> (catalog: Self)
        ensures
            catalog@.overrides == Map::<Seq<char>, Seq<T>>::empty(),
            catalog@.revision == 0,
    {
        let catalog = ToolCatalog { overrides: StringHashMap::new(), revision: 0 };
        assert(catalog@.overrides =~= Map::empty());
        catalog
    }

    /// How many catalogs were published.
    pub fn revision(&self) -> (revision: u64)
        ensures
            revision == self@.revision,
    {
        self.revision
    }

    /// The published tools of a server.
    pub fn tools(&self, server_name: &str) -> (tools: Option<&Vec<T>>)
        ensures
            match tools {
                Some(tools) => self@.overrides.contains_key(server_name@)
                    && self@.overrides[server_name@] == tools@,
                None => !self@.overrides.contains_key(server_name@),
            },
    {
        self.overrides.get(server_name)
    }

    /// Publishes a server's tools. Even an identical catalog moves the
    /// revision: calls prepared before it stand for an earlier generation.
    pub fn publish(&mut self, server_name: String, tools: Vec<T>)
        requires
            old(self)@.revision < u64::MAX,
        ensures
            final(self)@ == old(self)@.publish(server_name@, tools@),
    {
        let ghost before = self.overrides@;
        self.overrides.insert(server_name, tools);
        self.revision = self.revision + 1;
        assert(self@.overrides =~= before.map_values(|tools: Vec<T>| tools@).insert(
            server_name@,
            tools@,
        ));
    }
}

/// A pass over the servers, and what is remembered between passes.
pub struct CatalogRefresh {
    apps_server_name: String,
    states: StringHashMap<RefreshState>,
    servers: Vec<CatalogServer>,
    position: usize,
    phase: CatalogPhase,
    generations: StringHashMap<Option<u64>>,
}

/// The mathematical counterpart of [`CatalogRefresh`].
#[verifier::ext_equal]
pub struct CatalogRefreshView {
    /// The server whose tools have a cache of their own.
    pub apps_server_name: Seq<char>,
    /// What is remembered per server.
    pub states: Map<Seq<char>, RefreshState>,
    /// The servers that the pass visits, in order.
    pub servers: Seq<CatalogServerView>,
    /// How many of them are done.
    pub position: nat,
    /// How far the current one is.
    pub phase: CatalogPhase,
    /// What the pass reports: per server the generation of its published
    /// catalog, or `None` where that is not current.
    pub generations: Map<Seq<char>, Option<u64>>,
}

impl View for CatalogRefresh {
    type V = CatalogRefreshView;

    closed spec fn view(&self) -> CatalogRefreshView {
        CatalogRefreshView {
            apps_server_name: self.apps_server_name@,
            states: self.states@,
            servers: self.servers@.map_values(|server: CatalogServer| server@),
            position: self.position as nat,
            phase: self.phase,
            generations: self.generations@,
        }
    }
}

/// The servers that are reported, in order, each with what is reported of it.
pub open spec fn reported_of(
    servers: Seq<CatalogServerView>,
    generations: Map<Seq<char>, Option<u64>>,
) -> Seq<(Seq<char>, Option<u64>)>
    decreases servers.len(),
{
    if servers.len() == 0 {
        Seq::empty()
    } else {
        let earlier = reported_of(servers.drop_last(), generations);
        let name = servers.last().name;
        if generations.contains_key(name) {
            earlier.push((name, generations[name]))
        } else {
            earlier
        }
    }
}

/// The contents of some reports.
pub open spec fn report_views(reports: Seq<(String, Option<u64>)>) -> Seq<
    (Seq<char>, Option<u64>),
> {
    reports.map_values(|report: (String, Option<u64>)| (report.0@, report.1))
}

impl CatalogRefreshView {
    /// Whether no server is left.
    pub open spec fn is_finished(self) -> bool {
        self.position >= self.servers.len()
    }

    /// The current server.
    pub open spec fn server(self) -> CatalogServerView {
        self.servers[self.position as int]
    }

    /// What is remembered of a server.
    pub open spec fn state(self, name: Seq<char>) -> RefreshState {
        if self.states.contains_key(name) {
            self.states[name]
        } else {
            initial_state()
        }
    }

    /// Whether the pass waits for the tools of the current server.
    pub open spec fn expects_tools(self) -> bool {
        !self.is_finished() && self.phase is Fetching && self.server().name != self.apps_server_name
    }

    /// The pass at its start.
    pub open spec fn begin(self, servers: Seq<CatalogServerView>) -> CatalogRefreshView {
        CatalogRefreshView {
            servers,
            position: 0,
            phase: CatalogPhase::Observing,
            generations: Map::empty(),
            ..self
        }
    }

    /// The pass with the current server done.
    pub open spec fn move_on(self) -> CatalogRefreshView {
        CatalogRefreshView { position: self.position + 1, phase: CatalogPhase::Observing, ..self }
    }

    /// The pass with the current server's state replaced.
    pub open spec fn remember(self, state: RefreshState) -> CatalogRefreshView {
        CatalogRefreshView { states: self.states.insert(self.server().name, state), ..self }
    }

    /// The pass with the current server reported.
    pub open spec fn report(self, generation: Option<u64>) -> CatalogRefreshView {
        CatalogRefreshView {
            generations: self.generations.insert(self.server().name, generation),
            ..self
        }
    }

    /// The pass in another phase.
    pub open spec fn enter(self, phase: CatalogPhase) -> CatalogRefreshView {
        CatalogRefreshView { phase, ..self }
    }

    /// After the current server's generation was read for the first time: a
    /// known generation is reported and done with; any other makes the server
    /// unavailable and asks for a fetch, which an earlier failure may delay.
    pub open spec fn observe(self, generation: u64) -> CatalogRefreshView {
        let state = self.state(self.server().name);
        let seen = self.remember(state);
        if generation == state.generation {
            seen.report(Some(generation)).move_on()
        } else if state.retry_at is Some {
            seen.report(None).enter(CatalogPhase::AwaitingRetry { generation })
        } else {
            seen.report(None).enter(CatalogPhase::Fetching { generation })
        }
    }

    /// After the clock was read to see whether a fetch may be repeated.
    pub open spec fn retry(self, generation: u64, now: u64) -> CatalogRefreshView {
        match self.state(self.server().name).retry_at {
            Some(retry_at) if now < retry_at => self.move_on(),
            _ => self.enter(CatalogPhase::Fetching { generation }),
        }
    }

    /// After the catalog of a generation was put in place.
    pub open spec fn refreshed(self, generation: u64) -> CatalogRefreshView {
        self.remember(RefreshState { generation, retry_at: None }).enter(
            CatalogPhase::Confirming { generation },
        )
    }

    /// After the clock was read to delay the next fetch.
    pub open spec fn back_off(self, now: u64) -> CatalogRefreshView {
        let state = self.state(self.server().name);
        self.remember(
            RefreshState {
                generation: state.generation,
                retry_at: Some((now + RETRY_DELAY_NANOS) as u128),
            },
        ).move_on()
    }

    /// After the generation was read again: the catalog is current only where
    /// no notice arrived during the fetch.
    pub open spec fn confirm(self, generation: u64, current: u64) -> CatalogRefreshView {
        if current == generation {
            self.report(Some(generation)).move_on()
        } else {
            self.move_on()
        }
    }

    /// The pass after an event. An event that answers other work than the
    /// pending one changes nothing.
    pub open spec fn next(self, event: CatalogEvent) -> CatalogRefreshView {
        if self.is_finished() {
            self
        } else {
            match (self.phase, event) {
                (CatalogPhase::Observing, CatalogEvent::NotReady) => self.move_on(),
                (CatalogPhase::Observing, CatalogEvent::Generation(generation)) => self.observe(
                    generation,
                ),
                (CatalogPhase::AwaitingRetry { generation }, CatalogEvent::Clock(now)) =>
                    self.retry(generation, now),
                (CatalogPhase::Fetching { generation }, CatalogEvent::HardRefreshed) => if
                self.server().name == self.apps_server_name {
                    self.refreshed(generation)
                } else {
                    self
                },
                (CatalogPhase::Fetching { .. }, CatalogEvent::FetchFailed) => self.enter(
                    CatalogPhase::BackingOff,
                ),
                (CatalogPhase::BackingOff, CatalogEvent::Clock(now)) => self.back_off(now),
                (CatalogPhase::Confirming { generation }, CatalogEvent::Generation(current)) =>
                    self.confirm(generation, current),
                _ => self,
            }
        }
    }

    /// The pass after the current server's tools were fetched and published.
    pub open spec fn published(self) -> CatalogRefreshView {
        if self.expects_tools() {
            self.refreshed(self.phase->Fetching_generation)
        } else {
            self
        }
    }

    /// The work that the pass waits for.
    pub open spec fn pending(self) -> CatalogAction {
        if self.is_finished() {
            CatalogAction::Finish
        } else {
            match self.phase {
                CatalogPhase::Observing => CatalogAction::ReadGeneration,
                CatalogPhase::AwaitingRetry { .. } => CatalogAction::ReadClock,
                CatalogPhase::Fetching { .. } => {
                    let timeout = fetch_timeout(self.server().tool_timeout);
                    if self.server().name == self.apps_server_name {
                        CatalogAction::HardRefresh { timeout }
                    } else {
                        CatalogAction::Fetch { timeout }
                    }
                },
                CatalogPhase::BackingOff => CatalogAction::ReadClock,
                CatalogPhase::Confirming { .. } => CatalogAction::ConfirmGeneration,
            }
        }
    }
}

impl CatalogRefresh {
    /// Nothing remembered, and a pass over no server. `apps_server_name` is
    /// the server whose tools have a cache of their own.
    pub fn new(apps_server_name: String) -> (refresh: Self)
        ensures
            refresh@ == (CatalogRefreshView {
                apps_server_name: apps_server_name@,
                states: Map::empty(),
                servers: Seq::empty(),
                position: 0,
                phase: CatalogPhase::Observing,
                generations: Map::empty(),
            }),
    {
        let refresh = CatalogRefresh {
            apps_server_name,
            states: StringHashMap::new(),
            servers: Vec::new(),
            position: 0,
            phase: CatalogPhase::Observing,
            generations: StringHashMap::new(),
        };
        assert(refresh@.servers =~= Seq::empty());
        refresh
    }

    /// Starts a pass over these servers.
    pub fn begin(&mut self, servers: Vec<CatalogServer>)
        ensures
            final(self)@ == old(self)@.begin(
                servers@.map_values(|server: CatalogServer| server@),
            ),
    {
        self.servers = servers;
        self.position = 0;
        self.phase = CatalogPhase::Observing;
        self.generations = StringHashMap::new();
    }

    /// The position of the current server.
    pub fn position(&self) -> (position: usize)
        ensures
            position == self@.position,
    {
        self.position
    }

    /// What the pass reports of a server: `None` where it was not visited or
    /// not connected, else the generation of its published catalog, or `None`
    /// where that is not current.
    pub fn generation(&self, server_name: &str) -> (generation: Option<Option<u64>>)
        ensures
            match generation {
                Some(generation) => self@.generations.contains_key(server_name@)
                    && self@.generations[server_name@] == generation,
                None => !self@.generations.contains_key(server_name@),
            },
    {
        match self.generations.get(server_name) {
            Some(generation) => Some(*generation),
            None => None,
        }
    }

    /// What the pass reports, server by server.
    pub fn reported(&self) -> (reports: Vec<(String, Option<u64>)>)
        ensures
            report_views(reports@) == reported_of(self@.servers, self@.generations),
    {
        let mut reports: Vec<(String, Option<u64>)> = Vec::new();
        assert(report_views(reports@) =~= reported_of(
            self@.servers.take(0),
            self@.generations,
        ));
        for i in 0..self.servers.len()
            invariant
                report_views(reports@) == reported_of(
                    self@.servers.take(i as int),
                    self@.generations,
                ),
        {
            assert(self@.servers.take(i + 1).drop_last() =~= self@.servers.take(i as int));
            assert(self@.servers.take(i + 1).last().name == self.servers@[i as int].name@);
            if let Some(generation) = self.generation(self.servers[i].name.as_str()) {
                let ghost before = reports@;
                reports.push((self.servers[i].name.clone(), generation));
                assert(report_views(reports@) =~= report_views(before).push(
                    (self.servers@[i as int].name@, generation),
                ));
            }
        }
        assert(self@.servers.take(self.servers@.len() as int) =~= self@.servers);
        reports
    }

    /// What is remembered of a server.
    pub fn state(&self, server_name: &str) -> (state: RefreshState)
        ensures
            state == self@.state(server_name@),
    {
        match self.states.get(server_name) {
            Some(state) => *state,
            None => RefreshState { generation: 0, retry_at: None },
        }
    }

    /// Whether the current server is the one whose tools have a cache of
    /// their own.
    fn at_apps_server(&self) -> (yes: bool)
        requires
            !self@.is_finished(),
        ensures
            yes == (self@.server().name == self@.apps_server_name),
    {
        self.servers[self.position].name == self.apps_server_name
    }

    /// The work that the pass waits for.
    pub fn pending(&self) -> (action: CatalogAction)
        ensures
            action == self@.pending(),
    {
        if self.position >= self.servers.len() {
            return CatalogAction::Finish;
        }
        match self.phase {
            CatalogPhase::Observing => CatalogAction::ReadGeneration,
            CatalogPhase::AwaitingRetry { .. } => CatalogAction::ReadClock,
            CatalogPhase::Fetching { .. } => {
                let timeout = bounded_timeout(self.servers[self.position].tool_timeout);
                if self.at_apps_server() {
                    CatalogAction::HardRefresh { timeout }
                } else {
                    CatalogAction::Fetch { timeout }
                }
            },
            CatalogPhase::BackingOff => CatalogAction::ReadClock,
            CatalogPhase::Confirming { .. } => CatalogAction::ConfirmGeneration,
        }
    }

    fn move_on(&mut self)
        requires
            !old(self)@.is_finished(),
        ensures
            final(self)@ == old(self)@.move_on(),
    {
        assert(self.position < self.servers.len());
        self.position = self.position + 1;
        self.phase = CatalogPhase::Observing;
    }

    fn remember(&mut self, state: RefreshState)
        requires
            !old(self)@.is_finished(),
        ensures
            final(self)@ == old(self)@.remember(state),
    {
        let name = self.servers[self.position].name.clone();
        self.states.insert(name, state);
    }

    fn report(&mut self, generation: Option<u64>)
        requires
            !old(self)@.is_finished(),
        ensures
            final(self)@ == old(self)@.report(generation),
    {
        let name = self.servers[self.position].name.clone();
        self.generations.insert(name, generation);
    }

    fn refreshed(&mut self, generation: u64)
        requires
            !old(self)@.is_finished(),
        ensures
            final(self)@ == old(self)@.refreshed(generation),
    {
        self.remember(RefreshState { generation, retry_at: None });
        self.phase = CatalogPhase::Confirming { generation };
    }

    fn observe(&mut self, generation: u64)
        requires
            !old(self)@.is_finished(),
        ensures
            final(self)@ == old(self)@.observe(generation),
    {
        let state = self.state(self.servers[self.position].name.as_str());
        self.remember(state);
        if generation == state.generation {
            self.report(Some(generation));
            self.move_on();
        } else {
            self.report(None);
            self.phase = if state.retry_at.is_some() {
                CatalogPhase::AwaitingRetry { generation }
            } else {
                CatalogPhase::Fetching { generation }
            };
        }
    }

    fn retry(&mut self, generation: u64, now: u64)
        requires
            !old(self)@.is_finished(),
        ensures
            final(self)@ == old(self)@.retry(generation, now),
    {
        let state = self.state(self.servers[self.position].name.as_str());
        if let Some(retry_at) = state.retry_at {
            if (now as u128) < retry_at {
                self.move_on();
                return ;
            }
        }
        self.phase = CatalogPhase::Fetching { generation };
    }

    fn back_off(&mut self, now: u64)
        requires
            !old(self)@.is_finished(),
        ensures
            final(self)@ == old(self)@.back_off(now),
    {
        let state = self.state(self.servers[self.position].name.as_str());
        self.remember(
            RefreshState {
                generation: state.generation,
                retry_at: Some(now as u128 + RETRY_DELAY_NANOS),
            },
        );
        self.move_on();
    }

    /// Takes what came of the pending work, other than fetched tools.
    pub fn advance(&mut self, event: CatalogEvent)
        ensures
            final(self)@ == old(self)@.next(event),
    {
        if self.position >= self.servers.len() {
            return ;
        }
        match (self.phase, event) {
            (CatalogPhase::Observing, CatalogEvent::NotReady) => self.move_on(),
            (CatalogPhase::Observing, CatalogEvent::Generation(generation)) => self.observe(
                generation,
            ),
            (CatalogPhase::AwaitingRetry { generation }, CatalogEvent::Clock(now)) => self.retry(
                generation,
                now,
            ),
            (CatalogPhase::Fetching { generation }, CatalogEvent::HardRefreshed) => {
                if self.at_apps_server() {
                    self.refreshed(generation);
                }
            },
            (CatalogPhase::Fetching { .. }, CatalogEvent::FetchFailed) => {
                self.phase = CatalogPhase::BackingOff;
            },
            (CatalogPhase::BackingOff, CatalogEvent::Clock(now)) => self.back_off(now),
            (CatalogPhase::Confirming { generation }, CatalogEvent::Generation(current)) => {
                if current == generation {
                    self.report(Some(generation));
                }
                self.move_on();
            },
            _ => {},
        }
    }

    /// Takes the tools that were fetched from the current server and publishes
    /// them. Tools that the pass does not wait for are dropped.
    pub fn publish_fetched<T>(&mut self, catalog: &mut ToolCatalog<T>, tools: Vec<T>)
        requires
            old(self)@.expects_tools() ==> old(catalog)@.revision < u64::MAX,
        ensures
            final(self)@ == old(self)@.published(),
            final(catalog)@ == if old(self)@.expects_tools() {
                old(catalog)@.publish(old(self)@.server().name, tools@)
            } else {
                old(catalog)@
            },
    {
        if self.position >= self.servers.len() {
            return ;
        }
        if let CatalogPhase::Fetching { generation } = self.phase {
            if !self.at_apps_server() {
                let name = self.servers[self.position].name.clone();
                catalog.publish(name, tools);
                self.refreshed(generation);
            }
        }
    }
}

} // verus!
