//! The dispatcher: the configuration that maps endpoint ids to transformers,
//! the fan-out of a request to every transformer of its endpoint, and the
//! policy that folds their outcomes, in completion order, into one response.

use vstd::prelude::*;
use crate::message::{outcome_view, HookshotMessage};
use crate::text::same_text;
use crate::transformer::{transformer_outcome, transformer_uri, TransformerConfigTypes};

verus! {

/// The transformers configured under one endpoint id.
#[derive(Debug)]
pub struct Endpoint {
    pub id: String,
    pub transformers: Vec<TransformerConfigTypes>,
}

/// The process-wide configuration, immutable once loaded.
#[derive(Debug)]
pub struct Config {
    continue_on_error: Option<bool>,
    endpoints: Vec<Endpoint>,
}

/// What a [`Config`] holds.
pub struct ConfigView {
    /// Whether every invocation is waited for even after one has failed; unset means yes.
    pub continue_on_error: Option<bool>,
    /// The transformers under each endpoint id, in the order of configuration.
    pub endpoints: Map<Seq<char>, Seq<TransformerConfigTypes>>,
}

/// The endpoint ids of a list of entries and their transformers; a later
/// entry for an id takes the place of an earlier one.
pub open spec fn endpoint_map(eps: Seq<Endpoint>) -> Map<Seq<char>, Seq<TransformerConfigTypes>>
    decreases eps.len(),
{
    if eps.len() == 0 {
        Map::empty()
    } else {
        endpoint_map(eps.drop_last()).insert(eps.last().id@, eps.last().transformers@)
    }
}

impl View for Config {
    type V = ConfigView;

    closed spec fn view(&self) -> ConfigView {
        ConfigView { continue_on_error: self.continue_on_error, endpoints: endpoint_map(self.endpoints@) }
    }
}

proof fn lemma_endpoint_map_suffix(eps: Seq<Endpoint>, i: int, id: Seq<char>)
    requires
        0 <= i <= eps.len(),
        forall|j: int| i <= j < eps.len() ==> (#[trigger] eps[j]).id@ != id,
    ensures
        endpoint_map(eps).contains_key(id) == endpoint_map(eps.take(i)).contains_key(id),
        endpoint_map(eps)[id] == endpoint_map(eps.take(i))[id],
    decreases eps.len() - i,
{
    if i < eps.len() {
        lemma_endpoint_map_suffix(eps.drop_last(), i, id);
        assert(eps.drop_last().take(i) =~= eps.take(i));
    } else {
        assert(eps.take(i) =~= eps);
    }
}

impl Config {
    /// A configuration with no endpoints.
    pub fn new(continue_on_error: Option<bool>) -> (r: Config)
        ensures
            r@.endpoints == Map::<Seq<char>, Seq<TransformerConfigTypes>>::empty(),
            r@.continue_on_error == continue_on_error,
    {
        Config { continue_on_error, endpoints: Vec::new() }
    }

    /// Configures `transformers` under `id`, in place of what was there.
    pub fn add_endpoint(&mut self, id: String, transformers: Vec<TransformerConfigTypes>)
        ensures
            final(self)@.endpoints == old(self)@.endpoints.insert(id@, transformers@),
            final(self)@.continue_on_error == old(self)@.continue_on_error,
    {
        let ghost before = self.endpoints@;
        self.endpoints.push(Endpoint { id, transformers });
        proof {
            assert(self.endpoints@.drop_last() =~= before);
        }
    }

    /// Whether every invocation is waited for even after one has failed.
    pub fn waits_for_all(&self) -> (r: bool)
        ensures
            r == (self@.continue_on_error != Some(false)),
    {
        match self.continue_on_error {
            Some(b) => b,
            None => true,
        }
    }

    /// The transformers configured under `id`, in the order of configuration.
    pub fn transformers_for(&self, id: &str) -> (r: Option<&Vec<TransformerConfigTypes>>)
        ensures
            r is Some <==> self@.endpoints.contains_key(id@),
            r matches Some(v) ==> v@ == self@.endpoints[id@],
    {
        let mut i: usize = self.endpoints.len();
        while i > 0
            invariant
                0 <= i <= self.endpoints.len(),
                forall|j: int| i <= j < self.endpoints.len() ==> (#[trigger] self.endpoints@[j]).id@ != id@,
            decreases i,
        {
            if same_text(self.endpoints[i - 1].id.as_str(), id) {
                proof {
                    let eps = self.endpoints@;
                    lemma_endpoint_map_suffix(eps, i as int, id@);
                    assert(eps.take(i as int).drop_last() =~= eps.take(i - 1));
                }
                return Some(&self.endpoints[i - 1].transformers);
            }
            i -= 1;
        }
        proof {
            lemma_endpoint_map_suffix(self.endpoints@, 0, id@);
            assert(self.endpoints@.take(0) =~= Seq::<Endpoint>::empty());
        }
        None
    }
}

/// One invocation of a transformer: where its message goes, and the message
/// or why there is none.
#[derive(Debug)]
pub struct Invocation {
    pub uri: String,
    pub outcome: Result<HookshotMessage, String>,
}

/// Whether `v` holds, one for one and in order, the invocations of the
/// transformers `ts` on a request with the given method and body.
pub open spec fn invokes(v: Seq<Invocation>, ts: Seq<TransformerConfigTypes>, method: Seq<char>, body: Seq<u8>) -> bool {
    &&& v.len() == ts.len()
    &&& forall|i: int| 0 <= i < v.len() ==> {
        &&& (#[trigger] v[i]).uri@ == transformer_uri(ts[i])
        &&& outcome_view(v[i].outcome) == transformer_outcome(ts[i], method, body)
    }
}

/// Runs every transformer configured under `id` on the request, in the order
/// of configuration; `None`, with no transformer run, where `id` is unknown.
pub fn dispatch(config: &Config, id: &str, method: &str, body: &[u8]) -> (r: Option<Vec<Invocation>>)
    ensures
        r is Some <==> config@.endpoints.contains_key(id@),
        r matches Some(v) ==> invokes(v@, config@.endpoints[id@], method@, body@),
{
    let ts = config.transformers_for(id)?;
    let mut v: Vec<Invocation> = Vec::new();
    let mut i: usize = 0;
    while i < ts.len()
        invariant
            0 <= i <= ts.len(),
            invokes(v@, ts@.take(i as int), method@, body@),
        decreases ts.len() - i,
    {
        let t = &ts[i];
        let outcome = t.handle(method, body);
        let uri = t.uri().to_string();
        let ghost before = v@;
        v.push(Invocation { uri, outcome });
        proof {
            let tk = ts@.take(i + 1);
            assert forall|j: int| 0 <= j < v@.len() implies {
                &&& (#[trigger] v@[j]).uri@ == transformer_uri(tk[j])
                &&& outcome_view(v@[j].outcome) == transformer_outcome(tk[j], method@, body@)
            } by {
                if j < i {
                    assert(v@[j] == before[j]);
                    assert(tk[j] == ts@.take(i as int)[j]);
                }
            }
        }
        i += 1;
    }
    proof {
        assert(ts@.take(ts.len() as int) =~= ts@);
    }
    Some(v)
}

/// The response to a request.
#[derive(Debug)]
pub enum RequestOutcome {
    /// Every invocation that was waited for succeeded.
    Success,
    /// The endpoint id is not configured.
    NotFound,
    /// An invocation failed, with its description.
    Failed(String),
}

impl RequestOutcome {
    /// The HTTP status of the response.
    pub fn status_code(&self) -> (r: u16)
        ensures
            r == match self {
                RequestOutcome::Success => 200u16,
                RequestOutcome::NotFound => 404u16,
                RequestOutcome::Failed(_) => 500u16,
            },
    {
        match self {
            RequestOutcome::Success => 200,
            RequestOutcome::NotFound => 404,
            RequestOutcome::Failed(_) => 500,
        }
    }

    /// The body of the response; a failure's description is embedded verbatim.
    pub fn response_body(&self) -> (r: String)
        ensures
            r@ == match self {
                RequestOutcome::Success => "OK"@,
                RequestOutcome::NotFound => "Unknown endpoint id"@,
                RequestOutcome::Failed(e) => "Internal server error: "@ + e@,
            },
    {
        match self {
            RequestOutcome::Success => "OK".to_string(),
            RequestOutcome::NotFound => "Unknown endpoint id".to_string(),
            RequestOutcome::Failed(e) => {
                let mut s = "Internal server error: ".to_string();
                s.append(e.as_str());
                s
            },
        }
    }
}

/// What the dispatcher does after an event: wait for more outcomes, or respond.
#[derive(Debug)]
pub enum Decision {
    Wait,
    Respond(RequestOutcome),
}

/// The state of a request whose invocations are running.
#[derive(Debug)]
pub struct Aggregator {
    waits_for_all: bool,
    pending: usize,
    last_error: Option<String>,
}

/// What an [`Aggregator`] holds.
pub struct AggregatorView {
    /// Whether every outcome is waited for, also after a failure.
    pub waits_for_all: bool,
    /// How many outcomes have not been observed yet.
    pub pending: nat,
    /// The most recently observed failure.
    pub last_error: Option<String>,
}

impl View for Aggregator {
    type V = AggregatorView;

    closed spec fn view(&self) -> AggregatorView {
        AggregatorView { waits_for_all: self.waits_for_all, pending: self.pending as nat, last_error: self.last_error }
    }
}

/// The response once every outcome has been observed.
pub open spec fn settled(last_error: Option<String>) -> RequestOutcome {
    match last_error {
        Some(e) => RequestOutcome::Failed(e),
        None => RequestOutcome::Success,
    }
}

/// The next state and decision after observing `outcome`.
pub open spec fn step(s: AggregatorView, outcome: Result<(), String>) -> (AggregatorView, Decision) {
    let next = AggregatorView {
        waits_for_all: s.waits_for_all,
        pending: (s.pending - 1) as nat,
        last_error: match outcome {
            Err(e) => Some(e),
            Ok(_) => s.last_error,
        },
    };
    let decision = match outcome {
        Err(e) if !s.waits_for_all => Decision::Respond(RequestOutcome::Failed(e)),
        _ => if next.pending == 0 {
            Decision::Respond(settled(next.last_error))
        } else {
            Decision::Wait
        },
    };
    (next, decision)
}

impl Aggregator {
    /// The state of a request with `invocations` running, and what to do at once:
    /// with none running, the request has succeeded.
    pub fn new(waits_for_all: bool, invocations: usize) -> (r: (Aggregator, Decision))
        ensures
            r.0@ == (AggregatorView { waits_for_all, pending: invocations as nat, last_error: None }),
            r.1 == if invocations == 0 {
                Decision::Respond(RequestOutcome::Success)
            } else {
                Decision::Wait
            },
    {
        let a = Aggregator { waits_for_all, pending: invocations, last_error: None };
        if invocations == 0 {
            (a, Decision::Respond(RequestOutcome::Success))
        } else {
            (a, Decision::Wait)
        }
    }

    /// How many outcomes have not been observed yet.
    pub fn pending(&self) -> (r: usize)
        ensures
            r == self@.pending,
    {
        self.pending
    }

    /// Observes the outcome of one invocation, in completion order.
    pub fn observe(&mut self, outcome: Result<(), String>) -> (d: Decision)
        requires
            old(self)@.pending > 0,
        ensures
            (final(self)@, d) == step(old(self)@, outcome),
    {
        self.pending = self.pending - 1;
        match outcome {
            Err(e) => {
                if !self.waits_for_all {
                    self.last_error = Some(e.clone());
                    return Decision::Respond(RequestOutcome::Failed(e));
                }
                self.last_error = Some(e);
            },
            Ok(()) => {},
        }
        if self.pending == 0 {
            match &self.last_error {
                Some(e) => Decision::Respond(RequestOutcome::Failed(e.clone())),
                None => Decision::Respond(RequestOutcome::Success),
            }
        } else {
            Decision::Wait
        }
    }
}

/// The most recent failure among outcomes listed in completion order.
pub open spec fn last_failure(outcomes: Seq<Result<(), String>>) -> Option<String>
    decreases outcomes.len(),
{
    if outcomes.len() == 0 {
        None
    } else {
        match outcomes.last() {
            Err(e) => Some(e),
            Ok(_) => last_failure(outcomes.drop_last()),
        }
    }
}

/// The position of the first failure among outcomes listed in completion order.
pub open spec fn first_failure(outcomes: Seq<Result<(), String>>) -> Option<nat>
    decreases outcomes.len(),
{
    if outcomes.len() == 0 {
        None
    } else {
        match first_failure(outcomes.drop_last()) {
            Some(i) => Some(i),
            None => if outcomes.last() is Err {
                Some((outcomes.len() - 1) as nat)
            } else {
                None
            },
        }
    }
}

/// For outcomes listed in completion order: how many the dispatcher observes
/// before it responds, and its response. Waiting for all, it observes every
/// one and reports the most recent failure; otherwise it stops at the first.
pub open spec fn aggregate_spec(waits_for_all: bool, outcomes: Seq<Result<(), String>>) -> (nat, RequestOutcome) {
    if waits_for_all {
        (outcomes.len(), settled(last_failure(outcomes)))
    } else {
        match first_failure(outcomes) {
            Some(i) => ((i + 1) as nat, RequestOutcome::Failed(outcomes[i as int]->Err_0)),
            None => (outcomes.len(), RequestOutcome::Success),
        }
    }
}

proof fn lemma_first_failure_prefix(outcomes: Seq<Result<(), String>>, k: int)
    requires
        0 <= k <= outcomes.len(),
        first_failure(outcomes.take(k)) is Some,
    ensures
        first_failure(outcomes) == first_failure(outcomes.take(k)),
    decreases outcomes.len() - k,
{
    if k < outcomes.len() {
        assert(outcomes.take(k + 1).drop_last() =~= outcomes.take(k));
        lemma_first_failure_prefix(outcomes, k + 1);
    } else {
        assert(outcomes.take(k) =~= outcomes);
    }
}

proof fn lemma_first_failure_is_failure(outcomes: Seq<Result<(), String>>)
    ensures
        first_failure(outcomes) matches Some(i) ==> i < outcomes.len() && outcomes[i as int] is Err,
        first_failure(outcomes) is None ==> forall|j: int| 0 <= j < outcomes.len() ==> (#[trigger] outcomes[j]) is Ok,
    decreases outcomes.len(),
{
    if outcomes.len() > 0 {
        let pre = outcomes.drop_last();
        lemma_first_failure_is_failure(pre);
        assert forall|j: int| 0 <= j < pre.len() implies outcomes[j] == #[trigger] pre[j] by {}
        if first_failure(outcomes) is None {
            assert forall|j: int| 0 <= j < outcomes.len() implies (#[trigger] outcomes[j]) is Ok by {
                if j < pre.len() {
                    assert(pre[j] is Ok);
                }
            }
        }
    }
}

proof fn lemma_last_failure_exists(outcomes: Seq<Result<(), String>>, i: int)
    requires
        0 <= i < outcomes.len(),
        outcomes[i] is Err,
    ensures
        last_failure(outcomes) is Some,
    decreases outcomes.len(),
{
    if outcomes.last() is Ok {
        assert(i < outcomes.len() - 1);
        assert(outcomes.drop_last()[i] == outcomes[i]);
        lemma_last_failure_exists(outcomes.drop_last(), i);
    }
}

fn copy_outcome(o: &Result<(), String>) -> (r: Result<(), String>)
    ensures
        r == *o,
{
    match o {
        Ok(u) => Ok(*u),
        Err(e) => Err(e.clone()),
    }
}

/// Feeds outcomes, listed in completion order, to an [`Aggregator`] until it
/// responds; returns the response and how many outcomes it observed.
pub fn aggregate(waits_for_all: bool, outcomes: &Vec<Result<(), String>>) -> (r: (RequestOutcome, usize))
    ensures
        (r.1 as nat, r.0) == aggregate_spec(waits_for_all, outcomes@),
{
    let n = outcomes.len();
    let (mut agg, start) = Aggregator::new(waits_for_all, n);
    if let Decision::Respond(x) = start {
        return (x, 0);
    }
    let mut i: usize = 0;
    proof {
        assert(outcomes@.take(0) =~= Seq::<Result<(), String>>::empty());
    }
    loop
        invariant
            n == outcomes.len(),
            0 <= i < n,
            agg@ == (AggregatorView {
                waits_for_all,
                pending: (n - i) as nat,
                last_error: last_failure(outcomes@.take(i as int)),
            }),
            !waits_for_all ==> first_failure(outcomes@.take(i as int)) is None,
            !waits_for_all ==> last_failure(outcomes@.take(i as int)) is None,
        decreases n - i,
    {
        let o = copy_outcome(&outcomes[i]);
        let d = agg.observe(o);
        proof {
            let tk = outcomes@.take(i + 1);
            assert(tk.drop_last() =~= outcomes@.take(i as int));
            assert(tk.last() == outcomes@[i as int]);
        }
        match d {
            Decision::Respond(x) => {
                proof {
                    if i + 1 == n {
                        assert(outcomes@.take(i + 1) =~= outcomes@);
                    }
                    if !waits_for_all && outcomes@[i as int] is Err {
                        lemma_first_failure_prefix(outcomes@, i + 1);
                    }
                }
                return (x, i + 1);
            },
            Decision::Wait => {
                i += 1;
            },
        }
    }
}

/// Waiting for all, once at least one invocation fails, every outcome is
/// observed and the request fails.
pub proof fn lemma_waiting_for_all_observes_every_outcome(outcomes: Seq<Result<(), String>>, failed: int)
    requires
        0 <= failed < outcomes.len(),
        outcomes[failed] is Err,
    ensures
        aggregate_spec(true, outcomes).0 == outcomes.len(),
        aggregate_spec(true, outcomes).1 is Failed,
{
    lemma_last_failure_exists(outcomes, failed);
}

/// Not waiting for all, when the first outcome to complete is a failure, the
/// request fails at once with that failure's description, however many
/// invocations there are.
pub proof fn lemma_fail_fast_reports_first_completion(outcomes: Seq<Result<(), String>>)
    requires
        outcomes.len() >= 1,
        outcomes[0] is Err,
    ensures
        aggregate_spec(false, outcomes) == (1nat, RequestOutcome::Failed(outcomes[0]->Err_0)),
{
    assert(outcomes.take(1).drop_last() =~= Seq::<Result<(), String>>::empty());
    assert(outcomes.take(1).last() == outcomes[0]);
    assert(first_failure(Seq::<Result<(), String>>::empty()) is None);
    assert(first_failure(outcomes.take(1)) == Some(0nat));
    lemma_first_failure_prefix(outcomes, 1);
}

/// In either mode, when no invocation fails, every outcome is observed and
/// the request succeeds.
pub proof fn lemma_no_failure_succeeds(waits_for_all: bool, outcomes: Seq<Result<(), String>>)
    requires
        forall|j: int| 0 <= j < outcomes.len() ==> (#[trigger] outcomes[j]) is Ok,
    ensures
        aggregate_spec(waits_for_all, outcomes) == (outcomes.len(), RequestOutcome::Success),
{
    lemma_first_failure_is_failure(outcomes);
    if last_failure(outcomes) is Some {
        lemma_last_failure_some(outcomes);
    }
}

proof fn lemma_last_failure_some(outcomes: Seq<Result<(), String>>)
    requires
        last_failure(outcomes) is Some,
    ensures
        exists|j: int| 0 <= j < outcomes.len() && (#[trigger] outcomes[j]) is Err,
    decreases outcomes.len(),
{
    if outcomes.last() is Ok {
        lemma_last_failure_some(outcomes.drop_last());
        let j = choose|j: int| 0 <= j < outcomes.drop_last().len() && (#[trigger] outcomes.drop_last()[j]) is Err;
        assert(outcomes[j] == outcomes.drop_last()[j]);
    } else {
        assert(outcomes[outcomes.len() - 1] is Err);
    }
}

} // verus!
