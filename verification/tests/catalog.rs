use mcp_session::tool_catalog::{
    bounded_timeout, CatalogAction, CatalogEvent, CatalogRefresh, CatalogServer, RefreshState,
    ToolCatalog,
};

const SECOND: u64 = 1_000_000_000;

fn servers() -> Vec<CatalogServer> {
    vec![
        CatalogServer {
            name: "fabric".to_string(),
            tool_timeout: Some(5_000_000_000),
        },
        CatalogServer {
            name: "other".to_string(),
            tool_timeout: None,
        },
    ]
}

/// Runs a pass in which `fabric` is at `generation` and fetches `tools`, and
/// `other` is unchanged. Returns the number of fetches.
fn pass(
    refresh: &mut CatalogRefresh,
    catalog: &mut ToolCatalog<&'static str>,
    generation: u64,
    after: u64,
    tools: Option<Vec<&'static str>>,
    now: u64,
) -> usize {
    refresh.begin(servers());
    let mut fetches = 0;
    loop {
        match refresh.pending() {
            CatalogAction::ReadGeneration => {
                let event = if refresh.position() == 1 {
                    CatalogEvent::Generation(0)
                } else {
                    CatalogEvent::Generation(generation)
                };
                refresh.advance(event);
            }
            CatalogAction::ConfirmGeneration => {
                refresh.advance(CatalogEvent::Generation(after));
            }
            CatalogAction::ReadClock => refresh.advance(CatalogEvent::Clock(now)),
            CatalogAction::Fetch { timeout } => {
                assert_eq!(timeout, 5_000_000_000);
                fetches += 1;
                match &tools {
                    Some(tools) => refresh.publish_fetched(catalog, tools.clone()),
                    None => refresh.advance(CatalogEvent::FetchFailed),
                }
            }
            CatalogAction::HardRefresh { .. } => panic!("no application tools here"),
            CatalogAction::Finish => return fetches,
        }
    }
}

#[test]
fn timeouts_are_bounded() {
    assert_eq!(bounded_timeout(None), 10_000_000_000);
    assert_eq!(bounded_timeout(Some(3)), 3);
    assert_eq!(bounded_timeout(Some(10_000_000_000)), 10_000_000_000);
    assert_eq!(bounded_timeout(Some(u128::MAX)), 10_000_000_000);
}

#[test]
fn notified_catalogs_are_fetched_and_failures_hide_them() {
    let mut refresh = CatalogRefresh::new("apps".to_string());
    let mut catalog = ToolCatalog::new();

    // Nothing was announced.
    assert_eq!(pass(&mut refresh, &mut catalog, 0, 0, None, 0), 0);
    assert_eq!(refresh.generation("fabric"), Some(Some(0)));
    assert_eq!(refresh.generation("other"), Some(Some(0)));
    assert_eq!(catalog.revision(), 0);

    // Twenty notices cause one fetch.
    let tools = Some(vec!["same", "added"]);
    assert_eq!(pass(&mut refresh, &mut catalog, 20, 20, tools, 0), 1);
    assert_eq!(refresh.generation("fabric"), Some(Some(20)));
    assert_eq!(catalog.revision(), 1);
    assert_eq!(catalog.tools("fabric"), Some(&vec!["same", "added"]));
    assert_eq!(catalog.tools("other"), None);
    assert_eq!(pass(&mut refresh, &mut catalog, 20, 20, None, 0), 0);

    // A failed fetch publishes nothing and makes the server unavailable.
    assert_eq!(pass(&mut refresh, &mut catalog, 40, 40, None, 7 * SECOND), 1);
    assert_eq!(refresh.generation("fabric"), Some(None));
    assert_eq!(refresh.generation("other"), Some(Some(0)));
    assert_eq!(catalog.revision(), 1);
    assert_eq!(catalog.tools("fabric"), Some(&vec!["same", "added"]));
    assert_eq!(
        refresh.state("fabric"),
        RefreshState {
            generation: 20,
            retry_at: Some(8_000_000_000)
        }
    );

    // Too early.
    let recovered = || Some(vec!["recovered"]);
    assert_eq!(
        pass(&mut refresh, &mut catalog, 40, 40, recovered(), 8 * SECOND - 1),
        0
    );
    assert_eq!(refresh.generation("fabric"), Some(None));

    // After the delay, without another notice.
    assert_eq!(
        pass(&mut refresh, &mut catalog, 40, 40, recovered(), 8 * SECOND),
        1
    );
    assert_eq!(refresh.generation("fabric"), Some(Some(40)));
    assert_eq!(catalog.revision(), 2);
    assert_eq!(
        refresh.state("fabric"),
        RefreshState {
            generation: 40,
            retry_at: None
        }
    );

    // An identical catalog moves the revision too.
    assert_eq!(
        pass(&mut refresh, &mut catalog, 60, 60, recovered(), 9 * SECOND),
        1
    );
    assert_eq!(catalog.revision(), 3);
    assert_eq!(catalog.tools("fabric"), Some(&vec!["recovered"]));
}

#[test]
fn a_notice_during_the_fetch_stays_pending() {
    let mut refresh = CatalogRefresh::new("apps".to_string());
    let mut catalog = ToolCatalog::new();
    assert_eq!(
        pass(&mut refresh, &mut catalog, 20, 21, Some(vec!["same"]), 0),
        1
    );
    assert_eq!(refresh.generation("fabric"), Some(None));
    assert_eq!(catalog.revision(), 1);
    assert_eq!(
        pass(&mut refresh, &mut catalog, 21, 21, Some(vec!["same"]), 0),
        1
    );
    assert_eq!(refresh.generation("fabric"), Some(Some(21)));
    assert_eq!(catalog.revision(), 2);
}

#[test]
fn servers_that_are_not_ready_are_not_reported() {
    let mut refresh = CatalogRefresh::new("apps".to_string());
    refresh.begin(servers());
    refresh.advance(CatalogEvent::NotReady);
    assert_eq!(refresh.position(), 1);
    refresh.advance(CatalogEvent::NotReady);
    assert_eq!(refresh.pending(), CatalogAction::Finish);
    assert_eq!(refresh.generation("fabric"), None);
    assert_eq!(refresh.generation("other"), None);
    refresh.advance(CatalogEvent::Generation(3));
    assert_eq!(refresh.position(), 2);
}

#[test]
fn application_tools_are_refreshed_in_their_own_cache() {
    let mut refresh = CatalogRefresh::new("other".to_string());
    let mut catalog: ToolCatalog<&str> = ToolCatalog::new();
    refresh.begin(servers());
    refresh.advance(CatalogEvent::NotReady);
    refresh.advance(CatalogEvent::Generation(4));
    assert_eq!(
        refresh.pending(),
        CatalogAction::HardRefresh {
            timeout: 10_000_000_000
        }
    );
    // Tools are not waited for here.
    refresh.publish_fetched(&mut catalog, vec!["dropped"]);
    assert_eq!(catalog.revision(), 0);
    assert_eq!(catalog.tools("other"), None);
    refresh.advance(CatalogEvent::HardRefreshed);
    assert_eq!(refresh.pending(), CatalogAction::ConfirmGeneration);
    refresh.advance(CatalogEvent::Generation(4));
    assert_eq!(refresh.generation("other"), Some(Some(4)));
    assert_eq!(catalog.revision(), 0);
}

#[test]
fn the_generation_is_confirmed_over_the_same_connection() {
    let mut refresh = CatalogRefresh::new("apps".to_string());
    let mut catalog = ToolCatalog::new();
    refresh.begin(servers());
    refresh.advance(CatalogEvent::Generation(4));
    refresh.publish_fetched(&mut catalog, vec!["tool"]);
    assert_eq!(refresh.pending(), CatalogAction::ConfirmGeneration);
    // A connection that was there before the fetch still answers after it.
    refresh.advance(CatalogEvent::NotReady);
    assert_eq!(refresh.pending(), CatalogAction::ConfirmGeneration);
    assert_eq!(refresh.generation("fabric"), Some(None));
    refresh.advance(CatalogEvent::Generation(4));
    assert_eq!(refresh.position(), 1);
    assert_eq!(refresh.generation("fabric"), Some(Some(4)));
    assert_eq!(RefreshState::default().generation, 0);
}

#[test]
fn any_number_of_passes_share_one_fetch() {
    let mut refresh = CatalogRefresh::new("apps".to_string());
    let mut catalog = ToolCatalog::new();
    let mut fetches = 0;
    for _ in 0..5 {
        fetches += pass(&mut refresh, &mut catalog, 20, 20, Some(vec!["same"]), 0);
        assert_eq!(refresh.generation("fabric"), Some(Some(20)));
        assert_eq!(catalog.revision(), 1);
        assert_eq!(
            refresh.state("fabric"),
            RefreshState {
                generation: 20,
                retry_at: None
            }
        );
    }
    assert_eq!(fetches, 1);
    assert_eq!(catalog.tools("fabric"), Some(&vec!["same"]));
}

#[test]
fn waiting_for_a_repetition_does_not_prolong_the_delay() {
    let mut refresh = CatalogRefresh::new("apps".to_string());
    let mut catalog = ToolCatalog::new();
    assert_eq!(pass(&mut refresh, &mut catalog, 3, 3, None, SECOND), 1);
    let delayed = refresh.state("fabric");
    assert_eq!(delayed.retry_at, Some(2_000_000_000));
    assert_eq!(pass(&mut refresh, &mut catalog, 3, 3, None, 2 * SECOND - 1), 0);
    assert_eq!(refresh.state("fabric"), delayed);
}

#[test]
fn a_pass_takes_at_most_four_answers_per_server() {
    let mut refresh = CatalogRefresh::new("apps".to_string());
    let mut catalog: ToolCatalog<&str> = ToolCatalog::new();
    assert_eq!(pass(&mut refresh, &mut catalog, 3, 3, None, 0), 1);
    refresh.begin(vec![CatalogServer {
        name: "fabric".to_string(),
        tool_timeout: None,
    }]);
    refresh.advance(CatalogEvent::Generation(3));
    refresh.advance(CatalogEvent::Clock(5 * SECOND));
    // An answer to other work changes nothing.
    refresh.advance(CatalogEvent::Clock(6 * SECOND));
    assert_eq!(
        refresh.pending(),
        CatalogAction::Fetch {
            timeout: 10_000_000_000
        }
    );
    refresh.publish_fetched(&mut catalog, vec!["tool"]);
    refresh.advance(CatalogEvent::Generation(3));
    assert_eq!(refresh.pending(), CatalogAction::Finish);
}

#[test]
fn the_result_lists_the_reported_servers() {
    let mut refresh = CatalogRefresh::new("apps".to_string());
    refresh.begin(servers());
    refresh.advance(CatalogEvent::NotReady);
    refresh.advance(CatalogEvent::Generation(0));
    assert_eq!(refresh.reported(), vec![("other".to_string(), Some(0))]);
    let mut catalog = ToolCatalog::new();
    assert_eq!(pass(&mut refresh, &mut catalog, 4, 5, Some(vec!["tool"]), 0), 1);
    assert_eq!(
        refresh.reported(),
        vec![("fabric".to_string(), None), ("other".to_string(), Some(0))]
    );
}
