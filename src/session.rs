//! Retrieval of a Connected Papers graph: the polling, back-off and
//! carry-forward protocol, as a state machine.
//!
//! The graph service builds graphs in the background. A session asks for the
//! state of one paper's graph, reports each snapshot to its caller, backs off
//! while the service reports overload, and stops on a terminal status, a fetch
//! failure, or in report-only mode after the first report.
//!
//! The session performs no I/O itself. Its driver performs each fetch that a
//! [`Step`] asks for and hands the outcome back through
//! [`GraphRetrievalSession::on_fetch`].
use vstd::prelude::*;

verus! {

/// Status code of one answer from the graph service.
#[derive(Debug, Clone, Copy, PartialEq, Eq, Structural)]
pub enum GraphResponseType {
    BadId,
    Error,
    NotInDb,
    OldGraph,
    FreshGraph,
    InProgress,
    Queued,
    BadToken,
    BadRequest,
    OutOfRequests,
    Overloaded,
}

/// Name of each status as the service writes it.
pub open spec fn status_name(s: GraphResponseType) -> Seq<char> {
    match s {
        GraphResponseType::BadId => "BAD_ID"@,
        GraphResponseType::Error => "ERROR"@,
        GraphResponseType::NotInDb => "NOT_IN_DB"@,
        GraphResponseType::OldGraph => "OLD_GRAPH"@,
        GraphResponseType::FreshGraph => "FRESH_GRAPH"@,
        GraphResponseType::InProgress => "IN_PROGRESS"@,
        GraphResponseType::Queued => "QUEUED"@,
        GraphResponseType::BadToken => "BAD_TOKEN"@,
        GraphResponseType::BadRequest => "BAD_REQUEST"@,
        GraphResponseType::OutOfRequests => "OUT_OF_REQUESTS"@,
        GraphResponseType::Overloaded => "OVERLOADED"@,
    }
}

impl GraphResponseType {
    /// A terminal status ends a session as soon as it has been reported.
    pub open spec fn spec_is_terminal(self) -> bool {
        match self {
            GraphResponseType::BadId
            | GraphResponseType::Error
            | GraphResponseType::NotInDb
            | GraphResponseType::FreshGraph
            | GraphResponseType::BadToken
            | GraphResponseType::BadRequest
            | GraphResponseType::OutOfRequests => true,
            _ => false,
        }
    }

    #[verifier::when_used_as_spec(spec_is_terminal)]
    pub fn is_terminal(self) -> (r: bool)
        ensures
            r == self.spec_is_terminal(),
    {
        match self {
            GraphResponseType::BadId
            | GraphResponseType::Error
            | GraphResponseType::NotInDb
            | GraphResponseType::FreshGraph
            | GraphResponseType::BadToken
            | GraphResponseType::BadRequest
            | GraphResponseType::OutOfRequests => true,
            _ => false,
        }
    }

    /// The status as the service spells it (`"FRESH_GRAPH"`).
    pub fn as_str(self) -> (r: &'static str)
        ensures
            r@ == status_name(self),
    {
        proof {
            reveal_strlit("BAD_ID");
            reveal_strlit("ERROR");
            reveal_strlit("NOT_IN_DB");
            reveal_strlit("OLD_GRAPH");
            reveal_strlit("FRESH_GRAPH");
            reveal_strlit("IN_PROGRESS");
            reveal_strlit("QUEUED");
            reveal_strlit("BAD_TOKEN");
            reveal_strlit("BAD_REQUEST");
            reveal_strlit("OUT_OF_REQUESTS");
            reveal_strlit("OVERLOADED");
        }
        match self {
            GraphResponseType::BadId => "BAD_ID",
            GraphResponseType::Error => "ERROR",
            GraphResponseType::NotInDb => "NOT_IN_DB",
            GraphResponseType::OldGraph => "OLD_GRAPH",
            GraphResponseType::FreshGraph => "FRESH_GRAPH",
            GraphResponseType::InProgress => "IN_PROGRESS",
            GraphResponseType::Queued => "QUEUED",
            GraphResponseType::BadToken => "BAD_TOKEN",
            GraphResponseType::BadRequest => "BAD_REQUEST",
            GraphResponseType::OutOfRequests => "OUT_OF_REQUESTS",
            GraphResponseType::Overloaded => "OVERLOADED",
        }
    }
}

/// Seconds between two polls of a graph that is still being built.
pub const POLL_INTERVAL_SECS: u64 = 1;

/// Number of extra fetches made while the service reports overload.
pub const OVERLOAD_RETRY_LIMIT: usize = 4;

/// Seconds to wait before each extra fetch made under overload, in order.
pub const OVERLOAD_RETRY_DELAYS_SECS: [u64; 4] = [5, 10, 20, 40];

/// Delay before the overload retry of the given round (0-based).
pub open spec fn overload_delay(round: int) -> u64 {
    if round == 0 {
        5
    } else if round == 1 {
        10
    } else if round == 2 {
        20
    } else {
        40
    }
}

/// Delay before the overload retry of the given round (0-based).
pub fn overload_retry_delay(round: usize) -> (r: u64)
    requires
        round < OVERLOAD_RETRY_LIMIT,
    ensures
        r == overload_delay(round as int),
{
    let delays = OVERLOAD_RETRY_DELAYS_SECS;
    assert(delays@ =~= seq![5u64, 10u64, 20u64, 40u64]);
    delays[round]
}

/// What a fetch of the graph's state gave.
pub enum FetchOutcome<G> {
    /// The service answered with a status and, maybe, a graph.
    Fetched { status: GraphResponseType, graph: Option<G> },
    /// The fetch itself failed (transport, decoding, or an error response).
    Failed,
}

/// One item handed to the caller of a session.
pub enum Emission<G> {
    /// A snapshot, carrying the most recent graph seen so far.
    Snapshot { status: GraphResponseType, graph: Option<G> },
    /// The fetch failed; this is the last item.
    FetchError,
}

/// What the driver does after a step.
#[derive(Debug, Clone, Copy, PartialEq, Eq, Structural)]
pub enum Next {
    /// The session is over: no more fetches.
    Stop,
    /// Wait `delay_secs`, then fetch again with the given freshness flag.
    Fetch { delay_secs: u64, fresh: bool },
}

/// Result of handing one fetch outcome to a session: at most one item for
/// the caller, then what to do next.
pub struct Step<G> {
    pub emit: Option<Emission<G>>,
    pub next: Next,
}

/// Where a session stands between two fetches.
#[derive(Debug, Clone, Copy, PartialEq, Eq, Structural)]
pub enum Phase {
    /// Waiting for an ordinary fetch.
    Polling,
    /// Waiting for the overload retry of the given round (0-based).
    RetryingOverload { round: usize },
    /// No more fetches will be made.
    Finished,
}

/// The mathematical state of a session.
pub struct SessionView<G> {
    pub wait_until_complete: bool,
    pub fresh: bool,
    pub last_known_graph: Option<G>,
    pub phase: Phase,
}

/// The most recent graph, once `o` has been seen after `last`.
pub open spec fn graph_after<G>(last: Option<G>, o: FetchOutcome<G>) -> Option<G> {
    match o {
        FetchOutcome::Fetched { graph: Some(g), .. } => Some(g),
        _ => last,
    }
}

/// Report `status` with the last known graph, then stop or poll again.
pub open spec fn report<G>(v: SessionView<G>, status: GraphResponseType) -> (SessionView<G>, Step<G>) {
    let emit = Some(Emission::Snapshot { status, graph: v.last_known_graph });
    if !v.wait_until_complete || status.spec_is_terminal() {
        (
            SessionView { phase: Phase::Finished, ..v },
            Step { emit, next: Next::Stop },
        )
    } else {
        (
            SessionView { phase: Phase::Polling, ..v },
            Step { emit, next: Next::Fetch { delay_secs: POLL_INTERVAL_SECS, fresh: v.fresh } },
        )
    }
}

/// The transition of a session on one fetch outcome.
pub open spec fn step_spec<G>(v: SessionView<G>, o: FetchOutcome<G>) -> (SessionView<G>, Step<G>) {
    match v.phase {
        Phase::Finished => (v, Step { emit: None, next: Next::Stop }),
        _ => match o {
            FetchOutcome::Failed => (
                SessionView { phase: Phase::Finished, ..v },
                Step { emit: Some(Emission::FetchError), next: Next::Stop },
            ),
            FetchOutcome::Fetched { status, graph } => {
                let v1 = SessionView { last_known_graph: graph_after(v.last_known_graph, o), ..v };
                match v.phase {
                    Phase::RetryingOverload { round } => {
                        if status == GraphResponseType::Overloaded && round + 1 < OVERLOAD_RETRY_LIMIT {
                            (
                                SessionView { phase: Phase::RetryingOverload { round: (round + 1) as usize }, ..v1 },
                                Step {
                                    emit: None,
                                    next: Next::Fetch { delay_secs: overload_delay(round + 1), fresh: v.fresh },
                                },
                            )
                        } else {
                            report(v1, status)
                        }
                    },
                    _ => {
                        if status == GraphResponseType::OldGraph {
                            let emit = Some(Emission::Snapshot { status, graph: v1.last_known_graph });
                            if v.wait_until_complete && !v.fresh {
                                (
                                    SessionView { fresh: true, phase: Phase::Polling, ..v1 },
                                    Step { emit, next: Next::Fetch { delay_secs: POLL_INTERVAL_SECS, fresh: true } },
                                )
                            } else {
                                (
                                    SessionView { phase: Phase::Finished, ..v1 },
                                    Step { emit, next: Next::Stop },
                                )
                            }
                        } else if status == GraphResponseType::Overloaded {
                            (
                                SessionView { phase: Phase::RetryingOverload { round: 0 }, ..v1 },
                                Step { emit: None, next: Next::Fetch { delay_secs: overload_delay(0), fresh: v.fresh } },
                            )
                        } else {
                            report(v1, status)
                        }
                    },
                }
            },
        },
    }
}

/// `b` is a copy of the optional graph `a`.
pub open spec fn graph_cloned<G: Clone>(a: Option<G>, b: Option<G>) -> bool {
    match (a, b) {
        (None, None) => true,
        (Some(x), Some(y)) => cloned(x, y),
        _ => false,
    }
}

/// `r` is the step `s`, with each graph in it copied.
pub open spec fn step_matches<G: Clone>(r: Step<G>, s: Step<G>) -> bool {
    &&& r.next == s.next
    &&& match (r.emit, s.emit) {
        (None, None) => true,
        (Some(Emission::FetchError), Some(Emission::FetchError)) => true,
        (Some(Emission::Snapshot { status: a, graph: ga }), Some(Emission::Snapshot { status: b, graph: gb })) =>
            a == b && graph_cloned(gb, ga),
        _ => false,
    }
}

/// State of a session once it has handled the outcomes `outs`, in order.
pub open spec fn state_after<G>(v: SessionView<G>, outs: Seq<FetchOutcome<G>>) -> SessionView<G>
    decreases outs.len(),
{
    if outs.len() == 0 {
        v
    } else {
        step_spec(state_after(v, outs.drop_last()), outs.last()).0
    }
}

/// The step with which a session that started as `v` handles `outs[j]`.
pub open spec fn step_at<G>(v: SessionView<G>, outs: Seq<FetchOutcome<G>>, j: int) -> Step<G> {
    step_spec(state_after(v, outs.take(j)), outs[j]).1
}

/// The most recent graph carried by `outs`, or `last` if none carries one.
pub open spec fn latest_graph<G>(last: Option<G>, outs: Seq<FetchOutcome<G>>) -> Option<G>
    decreases outs.len(),
{
    if outs.len() == 0 {
        last
    } else {
        graph_after(latest_graph(last, outs.drop_last()), outs.last())
    }
}

/// A step that reports nothing and asks for no further fetch.
pub open spec fn is_silent<G>(s: Step<G>) -> bool {
    s.emit is None && s.next == Next::Stop
}

proof fn lemma_state_after_take<G>(v: SessionView<G>, outs: Seq<FetchOutcome<G>>, j: int)
    requires
        0 <= j < outs.len(),
    ensures
        state_after(v, outs.take(j + 1)) == step_spec(state_after(v, outs.take(j)), outs[j]).0,
        latest_graph(v.last_known_graph, outs.take(j + 1))
            == graph_after(latest_graph(v.last_known_graph, outs.take(j)), outs[j]),
{
    assert(outs.take(j + 1).drop_last() =~= outs.take(j));
    assert(outs.take(j + 1).last() == outs[j]);
}

proof fn lemma_finished_stays<G>(v: SessionView<G>, outs: Seq<FetchOutcome<G>>, i: int, j: int)
    requires
        0 <= i <= j <= outs.len(),
        state_after(v, outs.take(i)).phase == Phase::Finished,
    ensures
        state_after(v, outs.take(j)).phase == Phase::Finished,
    decreases j - i,
{
    if i < j {
        lemma_finished_stays(v, outs, i, j - 1);
        lemma_state_after_take(v, outs, j - 1);
    }
}

proof fn lemma_wait_flag_kept<G>(v: SessionView<G>, outs: Seq<FetchOutcome<G>>, j: int)
    requires
        0 <= j <= outs.len(),
    ensures
        state_after(v, outs.take(j)).wait_until_complete == v.wait_until_complete,
    decreases j,
{
    if j == 0 {
        assert(outs.take(0) =~= Seq::<FetchOutcome<G>>::empty());
    } else {
        lemma_wait_flag_kept(v, outs, j - 1);
        lemma_state_after_take(v, outs, j - 1);
    }
}

proof fn lemma_last_known_is_latest<G>(v: SessionView<G>, outs: Seq<FetchOutcome<G>>, j: int)
    requires
        0 <= j <= outs.len(),
        state_after(v, outs.take(j)).phase != Phase::Finished,
    ensures
        state_after(v, outs.take(j)).last_known_graph == latest_graph(v.last_known_graph, outs.take(j)),
    decreases j,
{
    if j == 0 {
        assert(outs.take(0) =~= Seq::<FetchOutcome<G>>::empty());
    } else {
        lemma_state_after_take(v, outs, j - 1);
        if state_after(v, outs.take(j - 1)).phase == Phase::Finished {
            lemma_finished_stays(v, outs, j - 1, j);
        }
        lemma_last_known_is_latest(v, outs, j - 1);
    }
}

proof fn lemma_latest_graph_present<G>(last: Option<G>, outs: Seq<FetchOutcome<G>>, i: int)
    requires
        0 <= i < outs.len(),
        outs[i] matches FetchOutcome::Fetched { graph: Some(_), .. },
    ensures
        latest_graph(last, outs) is Some,
    decreases outs.len(),
{
    if i < outs.len() - 1 {
        lemma_latest_graph_present(last, outs.drop_last(), i);
    }
}

/// Once a session is over, it reports nothing more and fetches nothing more.
pub proof fn lemma_finished_session_is_silent<G>(v: SessionView<G>, outs: Seq<FetchOutcome<G>>, i: int, j: int)
    requires
        0 <= i <= j < outs.len(),
        state_after(v, outs.take(i)).phase == Phase::Finished,
    ensures
        is_silent(step_at(v, outs, j)),
{
    lemma_finished_stays(v, outs, i, j);
}

/// A terminal status (any but `OldGraph`, `InProgress`, `Queued` and
/// `Overloaded`) is reported and ends the session, whether or not it waits
/// for completion: every later step is silent.
pub proof fn lemma_terminal_status_ends_session<G>(v: SessionView<G>, outs: Seq<FetchOutcome<G>>, i: int)
    requires
        0 <= i < outs.len(),
        state_after(v, outs.take(i)).phase != Phase::Finished,
        outs[i] matches FetchOutcome::Fetched { status, .. } && status.spec_is_terminal(),
    ensures
        step_at(v, outs, i).emit matches Some(Emission::Snapshot { status, .. })
            && outs[i] matches FetchOutcome::Fetched { status: s, .. } && status == s,
        step_at(v, outs, i).next == Next::Stop,
        forall|j: int| i < j < outs.len() ==> #[trigger] is_silent(step_at(v, outs, j)),
{
    lemma_state_after_take(v, outs, i);
    assert forall|j: int| i < j < outs.len() implies #[trigger] is_silent(step_at(v, outs, j)) by {
        lemma_finished_session_is_silent(v, outs, i + 1, j);
    }
}

/// In report-only mode a session reports at most once: every step after
/// one that reports something is silent.
pub proof fn lemma_report_only_emits_once<G>(v: SessionView<G>, outs: Seq<FetchOutcome<G>>, i: int, j: int)
    requires
        !v.wait_until_complete,
        0 <= i < j < outs.len(),
        step_at(v, outs, i).emit is Some,
    ensures
        is_silent(step_at(v, outs, j)),
{
    lemma_wait_flag_kept(v, outs, i);
    lemma_state_after_take(v, outs, i);
    lemma_finished_session_is_silent(v, outs, i + 1, j);
}

/// Every reported snapshot carries the most recent graph seen so far; so
/// once some outcome has carried a graph, no later snapshot lacks one.
pub proof fn lemma_graph_carried_forward<G>(v: SessionView<G>, outs: Seq<FetchOutcome<G>>, i: int, j: int)
    requires
        0 <= i <= j < outs.len(),
        outs[i] matches FetchOutcome::Fetched { graph: Some(_), .. },
        step_at(v, outs, j).emit matches Some(Emission::Snapshot { .. }),
    ensures
        step_at(v, outs, j).emit matches Some(Emission::Snapshot { graph, .. })
            && graph == latest_graph(v.last_known_graph, outs.take(j + 1)) && graph is Some,
{
    lemma_last_known_is_latest(v, outs, j);
    lemma_state_after_take(v, outs, j);
    lemma_latest_graph_present(v.last_known_graph, outs.take(j + 1), i);
}

/// A fetch failure is reported as the last item, and nothing is fetched
/// after it.
pub proof fn lemma_fetch_error_ends_session<G>(v: SessionView<G>, outs: Seq<FetchOutcome<G>>, i: int)
    requires
        0 <= i < outs.len(),
        outs[i] is Failed,
    ensures
        step_at(v, outs, i).next == Next::Stop,
        state_after(v, outs.take(i)).phase != Phase::Finished ==> step_at(v, outs, i).emit == Some(
            Emission::<G>::FetchError,
        ),
        forall|j: int| i < j < outs.len() ==> #[trigger] is_silent(step_at(v, outs, j)),
{
    lemma_state_after_take(v, outs, i);
    assert forall|j: int| i < j < outs.len() implies #[trigger] is_silent(step_at(v, outs, j)) by {
        lemma_finished_session_is_silent(v, outs, i + 1, j);
    }
}

/// Once a session asks for fresh rebuilds it keeps asking for them: the
/// switch to fresh mode happens at most once.
pub proof fn lemma_fresh_request_kept<G>(v: SessionView<G>, outs: Seq<FetchOutcome<G>>, i: int, j: int)
    requires
        0 <= i <= j <= outs.len(),
        state_after(v, outs.take(i)).fresh,
    ensures
        state_after(v, outs.take(j)).fresh,
    decreases j - i,
{
    if i < j {
        lemma_fresh_request_kept(v, outs, i, j - 1);
        lemma_state_after_take(v, outs, j - 1);
    }
}

/// One retrieval of one paper's graph.
pub struct GraphRetrievalSession<G> {
    paper_id: String,
    wait_until_complete: bool,
    current_fresh_request: bool,
    last_known_graph: Option<G>,
    phase: Phase,
}

impl<G> View for GraphRetrievalSession<G> {
    type V = SessionView<G>;

    closed spec fn view(&self) -> SessionView<G> {
        SessionView {
            wait_until_complete: self.wait_until_complete,
            fresh: self.current_fresh_request,
            last_known_graph: self.last_known_graph,
            phase: self.phase,
        }
    }
}

fn clone_graph<G: Clone>(g: &Option<G>) -> (r: Option<G>)
    ensures
        graph_cloned(*g, r),
{
    match g {
        Some(x) => Some(x.clone()),
        None => None,
    }
}

impl<G: Clone> GraphRetrievalSession<G> {
    pub closed spec fn spec_paper_id(&self) -> Seq<char> {
        self.paper_id@
    }

    /// A session for `paper_id`. With `fresh_only` every fetch asks for a
    /// rebuild; with `wait_until_complete` the session polls until a final
    /// answer, else it reports once.
    pub fn new(paper_id: &str, fresh_only: bool, wait_until_complete: bool) -> (r: Self)
        ensures
            r@ == (SessionView::<G> {
                wait_until_complete,
                fresh: fresh_only,
                last_known_graph: None,
                phase: Phase::Polling,
            }),
            r.spec_paper_id() == paper_id@,
    {
        GraphRetrievalSession {
            paper_id: paper_id.to_string(),
            wait_until_complete,
            current_fresh_request: fresh_only,
            last_known_graph: None,
            phase: Phase::Polling,
        }
    }

    /// The paper whose graph is fetched.
    pub fn paper_id(&self) -> (r: &str)
        ensures
            r@ == self.spec_paper_id(),
    {
        self.paper_id.as_str()
    }

    /// Whether fetches ask for a fresh rebuild.
    pub fn fresh_request(&self) -> (r: bool)
        ensures
            r == self@.fresh,
    {
        self.current_fresh_request
    }

    /// Whether the session is over.
    pub fn is_finished(&self) -> (r: bool)
        ensures
            r == (self@.phase == Phase::Finished),
    {
        self.phase == Phase::Finished
    }

    /// The first fetch to make: at once, with the current freshness flag.
    pub fn initial_request(&self) -> (r: Next)
        ensures
            self@.phase == Phase::Finished ==> r == Next::Stop,
            self@.phase != Phase::Finished ==> r == (Next::Fetch { delay_secs: 0, fresh: self@.fresh }),
    {
        if self.phase == Phase::Finished {
            Next::Stop
        } else {
            Next::Fetch { delay_secs: 0, fresh: self.current_fresh_request }
        }
    }

    /// The caller stopped listening: no fetch is asked for from now on.
    pub fn cancel(&mut self)
        ensures
            final(self)@ == (SessionView { phase: Phase::Finished, ..old(self)@ }),
            final(self).spec_paper_id() == old(self).spec_paper_id(),
    {
        self.phase = Phase::Finished;
    }

    fn report(&mut self, status: GraphResponseType) -> (r: Step<G>)
        ensures
            final(self)@ == report(old(self)@, status).0,
            step_matches(r, report(old(self)@, status).1),
            final(self).spec_paper_id() == old(self).spec_paper_id(),
    {
        let graph = clone_graph(&self.last_known_graph);
        let emit = Some(Emission::Snapshot { status, graph });
        if !self.wait_until_complete || status.is_terminal() {
            self.phase = Phase::Finished;
            Step { emit, next: Next::Stop }
        } else {
            self.phase = Phase::Polling;
            Step { emit, next: Next::Fetch { delay_secs: POLL_INTERVAL_SECS, fresh: self.current_fresh_request } }
        }
    }

    /// Hand the outcome of the fetch that the last step asked for to the
    /// session; it says what to report and what to do next.
    pub fn on_fetch(&mut self, outcome: FetchOutcome<G>) -> (r: Step<G>)
        ensures
            final(self)@ == step_spec(old(self)@, outcome).0,
            step_matches(r, step_spec(old(self)@, outcome).1),
            final(self).spec_paper_id() == old(self).spec_paper_id(),
    {
        if self.phase == Phase::Finished {
            return Step { emit: None, next: Next::Stop };
        }
        match outcome {
            FetchOutcome::Failed => {
                self.phase = Phase::Finished;
                Step { emit: Some(Emission::FetchError), next: Next::Stop }
            },
            FetchOutcome::Fetched { status, graph } => {
                match graph {
                    Some(g) => {
                        self.last_known_graph = Some(g);
                    },
                    None => {},
                }
                match self.phase {
                    Phase::RetryingOverload { round } => {
                        if status == GraphResponseType::Overloaded && round < OVERLOAD_RETRY_LIMIT - 1 {
                            let delay_secs = overload_retry_delay(round + 1);
                            self.phase = Phase::RetryingOverload { round: round + 1 };
                            Step { emit: None, next: Next::Fetch { delay_secs, fresh: self.current_fresh_request } }
                        } else {
                            self.report(status)
                        }
                    },
                    _ => {
                        if status == GraphResponseType::OldGraph {
                            let graph = clone_graph(&self.last_known_graph);
                            let emit = Some(Emission::Snapshot { status, graph });
                            if self.wait_until_complete && !self.current_fresh_request {
                                self.current_fresh_request = true;
                                self.phase = Phase::Polling;
                                Step { emit, next: Next::Fetch { delay_secs: POLL_INTERVAL_SECS, fresh: true } }
                            } else {
                                self.phase = Phase::Finished;
                                Step { emit, next: Next::Stop }
                            }
                        } else if status == GraphResponseType::Overloaded {
                            let delay_secs = overload_retry_delay(0);
                            self.phase = Phase::RetryingOverload { round: 0 };
                            Step { emit: None, next: Next::Fetch { delay_secs, fresh: self.current_fresh_request } }
                        } else {
                            self.report(status)
                        }
                    },
                }
            },
        }
    }
}

} // verus!
