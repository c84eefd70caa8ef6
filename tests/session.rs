use connected_papers::client::{free_access_papers_url, graph_url, remaining_usages_url};
use connected_papers::session::{
    Emission, FetchOutcome, GraphResponseType, GraphRetrievalSession, Next, Step, OVERLOAD_RETRY_DELAYS_SECS,
};

type Session = GraphRetrievalSession<String>;

fn fetched(status: GraphResponseType, graph: Option<&str>) -> FetchOutcome<String> {
    FetchOutcome::Fetched { status, graph: graph.map(|g| g.to_owned()) }
}

fn snapshot(step: &Step<String>) -> (GraphResponseType, Option<String>) {
    match &step.emit {
        Some(Emission::Snapshot { status, graph }) => (*status, graph.clone()),
        _ => panic!("expected a snapshot"),
    }
}

fn silent(step: &Step<String>) -> bool {
    step.emit.is_none() && step.next == Next::Stop
}

const TERMINAL: [GraphResponseType; 7] = [
    GraphResponseType::BadId,
    GraphResponseType::Error,
    GraphResponseType::NotInDb,
    GraphResponseType::FreshGraph,
    GraphResponseType::BadToken,
    GraphResponseType::BadRequest,
    GraphResponseType::OutOfRequests,
];

#[test]
fn first_request_uses_the_callers_freshness() {
    let s = Session::new("abc", true, false);
    assert_eq!(s.initial_request(), Next::Fetch { delay_secs: 0, fresh: true });
    assert_eq!(s.paper_id(), "abc");
    let s = Session::new("abc", false, true);
    assert_eq!(s.initial_request(), Next::Fetch { delay_secs: 0, fresh: false });
}

#[test]
fn terminal_status_stops_in_both_modes() {
    for wait in [false, true] {
        for status in TERMINAL {
            let mut s = Session::new("p", false, wait);
            let step = s.on_fetch(fetched(status, None));
            assert_eq!(snapshot(&step).0, status);
            assert_eq!(step.next, Next::Stop);
            assert!(s.is_finished());
            assert!(silent(&s.on_fetch(fetched(GraphResponseType::InProgress, None))));
        }
    }
}

#[test]
fn graph_is_carried_forward() {
    let mut s = Session::new("p", false, true);
    let a = s.on_fetch(fetched(GraphResponseType::InProgress, None));
    assert_eq!(snapshot(&a), (GraphResponseType::InProgress, None));
    let b = s.on_fetch(fetched(GraphResponseType::InProgress, Some("g1")));
    assert_eq!(snapshot(&b), (GraphResponseType::InProgress, Some("g1".to_owned())));
    let c = s.on_fetch(fetched(GraphResponseType::Queued, None));
    assert_eq!(snapshot(&c), (GraphResponseType::Queued, Some("g1".to_owned())));
    let d = s.on_fetch(fetched(GraphResponseType::InProgress, Some("g2")));
    assert_eq!(snapshot(&d).1, Some("g2".to_owned()));
    let e = s.on_fetch(fetched(GraphResponseType::FreshGraph, None));
    assert_eq!(snapshot(&e), (GraphResponseType::FreshGraph, Some("g2".to_owned())));
    assert_eq!(e.next, Next::Stop);
}

#[test]
fn old_graph_escalates_to_fresh_once() {
    let mut s = Session::new("p", false, true);
    let first = s.on_fetch(fetched(GraphResponseType::OldGraph, Some("old")));
    assert_eq!(snapshot(&first), (GraphResponseType::OldGraph, Some("old".to_owned())));
    assert_eq!(first.next, Next::Fetch { delay_secs: 1, fresh: true });
    assert!(s.fresh_request());
    let second = s.on_fetch(fetched(GraphResponseType::OldGraph, None));
    assert_eq!(snapshot(&second), (GraphResponseType::OldGraph, Some("old".to_owned())));
    assert_eq!(second.next, Next::Stop);
    assert!(s.fresh_request());
    assert!(silent(&s.on_fetch(fetched(GraphResponseType::FreshGraph, Some("new")))));
}

#[test]
fn old_graph_then_fresh_graph() {
    let mut s = Session::new("p", false, true);
    let first = s.on_fetch(fetched(GraphResponseType::OldGraph, Some("old")));
    assert_eq!(first.next, Next::Fetch { delay_secs: 1, fresh: true });
    let second = s.on_fetch(fetched(GraphResponseType::InProgress, None));
    assert_eq!(second.next, Next::Fetch { delay_secs: 1, fresh: true });
    let third = s.on_fetch(fetched(GraphResponseType::FreshGraph, Some("new")));
    assert_eq!(snapshot(&third), (GraphResponseType::FreshGraph, Some("new".to_owned())));
    assert_eq!(third.next, Next::Stop);
}

#[test]
fn old_graph_is_final_without_waiting_or_when_fresh() {
    let mut s = Session::new("p", false, false);
    let step = s.on_fetch(fetched(GraphResponseType::OldGraph, Some("old")));
    assert_eq!(snapshot(&step).0, GraphResponseType::OldGraph);
    assert_eq!(step.next, Next::Stop);
    let mut s = Session::new("p", true, true);
    let step = s.on_fetch(fetched(GraphResponseType::OldGraph, None));
    assert_eq!(step.next, Next::Stop);
}

#[test]
fn report_only_queued_emits_once() {
    let mut s = Session::new("p", false, false);
    let step = s.on_fetch(fetched(GraphResponseType::Queued, None));
    assert_eq!(snapshot(&step).0, GraphResponseType::Queued);
    assert_eq!(step.next, Next::Stop);
    assert!(silent(&s.on_fetch(fetched(GraphResponseType::FreshGraph, None))));
}

#[test]
fn polling_continues_after_one_second() {
    let mut s = Session::new("p", false, true);
    let step = s.on_fetch(fetched(GraphResponseType::InProgress, None));
    assert_eq!(step.next, Next::Fetch { delay_secs: 1, fresh: false });
}

#[test]
fn overload_retry_stops_at_first_other_status() {
    let mut s = Session::new("p", false, true);
    let a = s.on_fetch(fetched(GraphResponseType::Overloaded, None));
    assert!(a.emit.is_none());
    assert_eq!(a.next, Next::Fetch { delay_secs: 5, fresh: false });
    let b = s.on_fetch(fetched(GraphResponseType::Overloaded, None));
    assert!(b.emit.is_none());
    assert_eq!(b.next, Next::Fetch { delay_secs: 10, fresh: false });
    let c = s.on_fetch(fetched(GraphResponseType::FreshGraph, Some("g")));
    assert_eq!(snapshot(&c), (GraphResponseType::FreshGraph, Some("g".to_owned())));
    assert_eq!(c.next, Next::Stop);
}

#[test]
fn overload_retry_single_delay_then_success() {
    let mut s = Session::new("p", false, false);
    let a = s.on_fetch(fetched(GraphResponseType::Overloaded, None));
    assert_eq!(a.next, Next::Fetch { delay_secs: 5, fresh: false });
    let b = s.on_fetch(fetched(GraphResponseType::FreshGraph, None));
    assert_eq!(snapshot(&b).0, GraphResponseType::FreshGraph);
    assert_eq!(b.next, Next::Stop);
}

#[test]
fn overload_exhausted_reports_overloaded_and_polls() {
    assert_eq!(OVERLOAD_RETRY_DELAYS_SECS, [5, 10, 20, 40]);
    let mut s = Session::new("p", true, true);
    let mut delays = Vec::new();
    for _ in 0..4 {
        let step = s.on_fetch(fetched(GraphResponseType::Overloaded, None));
        assert!(step.emit.is_none());
        match step.next {
            Next::Fetch { delay_secs, fresh } => {
                assert!(fresh);
                delays.push(delay_secs);
            }
            Next::Stop => panic!("stopped during retries"),
        }
    }
    assert_eq!(delays, vec![5, 10, 20, 40]);
    let last = s.on_fetch(fetched(GraphResponseType::Overloaded, None));
    assert_eq!(snapshot(&last).0, GraphResponseType::Overloaded);
    assert_eq!(last.next, Next::Fetch { delay_secs: 1, fresh: true });
    let again = s.on_fetch(fetched(GraphResponseType::Overloaded, None));
    assert_eq!(again.next, Next::Fetch { delay_secs: 5, fresh: true });
}

#[test]
fn overload_exhausted_in_report_only_mode_stops() {
    let mut s = Session::new("p", false, false);
    for _ in 0..4 {
        assert!(s.on_fetch(fetched(GraphResponseType::Overloaded, None)).emit.is_none());
    }
    let last = s.on_fetch(fetched(GraphResponseType::Overloaded, None));
    assert_eq!(snapshot(&last).0, GraphResponseType::Overloaded);
    assert_eq!(last.next, Next::Stop);
}

fn assert_error_ends(step: Step<String>, s: &mut Session) {
    assert!(matches!(step.emit, Some(Emission::FetchError)));
    assert_eq!(step.next, Next::Stop);
    assert!(s.is_finished());
    assert!(silent(&s.on_fetch(fetched(GraphResponseType::FreshGraph, None))));
    assert!(silent(&s.on_fetch(FetchOutcome::Failed)));
}

#[test]
fn fetch_error_ends_session_anywhere() {
    let mut s = Session::new("p", false, true);
    let step = s.on_fetch(FetchOutcome::Failed);
    assert_error_ends(step, &mut s);

    let mut s = Session::new("p", false, true);
    s.on_fetch(fetched(GraphResponseType::Overloaded, None));
    s.on_fetch(fetched(GraphResponseType::Overloaded, None));
    let step = s.on_fetch(FetchOutcome::Failed);
    assert_error_ends(step, &mut s);

    let mut s = Session::new("p", false, true);
    s.on_fetch(fetched(GraphResponseType::InProgress, Some("g")));
    s.on_fetch(fetched(GraphResponseType::Queued, None));
    let step = s.on_fetch(FetchOutcome::Failed);
    assert_error_ends(step, &mut s);
}

#[test]
fn cancel_stops_further_requests() {
    let mut s = Session::new("p", false, true);
    s.on_fetch(fetched(GraphResponseType::InProgress, None));
    s.cancel();
    assert_eq!(s.initial_request(), Next::Stop);
    assert!(silent(&s.on_fetch(fetched(GraphResponseType::FreshGraph, None))));
}

#[test]
fn statuses_read_as_the_service_writes_them() {
    assert_eq!(GraphResponseType::OutOfRequests.as_str(), "OUT_OF_REQUESTS");
    assert_eq!(GraphResponseType::FreshGraph.as_str(), "FRESH_GRAPH");
    assert!(GraphResponseType::NotInDb.is_terminal());
    assert!(!GraphResponseType::Overloaded.is_terminal());
    assert!(!GraphResponseType::OldGraph.is_terminal());
}

#[test]
fn connected_papers_addresses() {
    assert_eq!(
        graph_url("9397e7acd062245d37350f5c05faf56e9cfae0d6", false),
        "https://rest.prod.connectedpapers.com/papers-api/graph/0/9397e7acd062245d37350f5c05faf56e9cfae0d6"
    );
    assert_eq!(graph_url("x", true), "https://rest.prod.connectedpapers.com/papers-api/graph/1/x");
    assert_eq!(remaining_usages_url(), "https://rest.prod.connectedpapers.com/papers-api/remaining-usages");
    assert_eq!(free_access_papers_url(), "https://rest.prod.connectedpapers.com/papers-api/free-access-papers");
}
