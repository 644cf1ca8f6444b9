//! Orders, authorizations and challenges, and the order flow: for each authorization
//! of an order, fetch it, then trigger each of its `dns-01` challenges, wait, and poll
//! the challenge's status.
use vstd::prelude::*;

use crate::error::AcmeError;
use crate::json::{json_quoted, json_string};
use crate::status_ok;
use crate::text::str_equal;

verus! {

/// Seconds to wait between triggering a challenge and polling its status.
pub const CHALLENGE_WAIT_SECS: u64 = 2;

/// `{"type":"dns","value":<domain>}`
pub open spec fn identifier_text(domain: Seq<char>) -> Seq<char> {
    "{\"type\":\"dns\",\"value\":"@ + json_quoted(domain) + "}"@
}

/// The identifiers of `domains`, separated by commas.
pub open spec fn identifiers_text(domains: Seq<Seq<char>>) -> Seq<char>
    decreases domains.len(),
{
    if domains.len() == 0 {
        seq![]
    } else if domains.len() == 1 {
        identifier_text(domains[0])
    } else {
        identifiers_text(domains.drop_last()) + ","@ + identifier_text(domains.last())
    }
}

/// The `newOrder` payload: `{"identifiers":[...]}` with one DNS identifier per domain.
pub open spec fn order_payload_text(domains: Seq<Seq<char>>) -> Seq<char> {
    "{\"identifiers\":["@ + identifiers_text(domains) + "]}"@
}

/// The `newOrder` payload for `domains`, in their order.
pub fn order_payload(domains: &Vec<String>) -> (r: String)
    ensures
        r@ == order_payload_text(domains@.map_values(|d: String| d@)),
{
    let ghost ds = domains@.map_values(|d: String| d@);
    let mut list = String::new();
    let mut i: usize = 0;
    while i < domains.len()
        invariant
            i <= domains@.len(),
            ds == domains@.map_values(|d: String| d@),
            list@ == identifiers_text(ds.subrange(0, i as int)),
        decreases domains.len() - i,
    {
        if i > 0 {
            list.append(",");
        }
        list.append("{\"type\":\"dns\",\"value\":");
        list.append(json_string(domains[i].as_str()).as_str());
        list.append("}");
        proof {
            let next = ds.subrange(0, i + 1);
            assert(next.drop_last() =~= ds.subrange(0, i as int));
            assert(next.last() == domains@[i as int]@);
        }
        i = i + 1;
    }
    assert(ds.subrange(0, domains@.len() as int) =~= ds);
    let mut s = String::from_str("{\"identifiers\":[");
    s.append(list.as_str());
    s.append("]}");
    s
}

/// An identifier to be authorized; `kind` is the JSON member `type` (always `dns`
/// here).
#[derive(Debug, Clone, PartialEq, Eq)]
pub struct Identifier {
    pub kind: String,
    pub value: String,
}

/// An order as the server returns it.
#[derive(Debug, Clone, PartialEq, Eq)]
pub struct Order {
    pub status: String,
    pub expires: String,
    pub identifiers: Vec<Identifier>,
    pub authorizations: Vec<String>,
    pub finalize: String,
}

/// A challenge of an authorization; `kind` is the JSON member `type`.
#[derive(Debug, Clone, PartialEq, Eq)]
pub struct Challenge {
    pub kind: String,
    pub status: String,
    pub url: String,
    pub token: String,
}

/// An authorization as the server returns it.
#[derive(Debug, Clone, PartialEq, Eq)]
pub struct Authorization {
    pub identifier: Identifier,
    pub status: String,
    pub expires: String,
    pub challenges: Vec<Challenge>,
}

pub struct ChallengeView {
    pub kind: Seq<char>,
    pub url: Seq<char>,
    pub token: Seq<char>,
}

impl View for Challenge {
    type V = ChallengeView;

    open spec fn view(&self) -> ChallengeView {
        ChallengeView { kind: self.kind@, url: self.url@, token: self.token@ }
    }
}

/// One thing for the caller of the order flow to do next.
#[derive(Debug, Clone, PartialEq, Eq)]
pub enum Step {
    /// POST-as-GET the authorization at this URL and hand it to the flow.
    FetchAuthorization(String),
    /// POST `{}` to the challenge URL, which asks the server to validate; `token` is
    /// the challenge's token, from which the key authorization to publish is made.
    TriggerChallenge { url: String, token: String },
    /// Sleep for this many seconds.
    Wait(u64),
    /// POST-as-GET the challenge URL to read its status.
    PollChallenge(String),
    /// Nothing is left to do.
    Done,
}

pub enum StepView {
    FetchAuthorization(Seq<char>),
    TriggerChallenge(Seq<char>, Seq<char>),
    Wait(u64),
    PollChallenge(Seq<char>),
    Done,
}

impl View for Step {
    type V = StepView;

    open spec fn view(&self) -> StepView {
        match self {
            Step::FetchAuthorization(u) => StepView::FetchAuthorization(u@),
            Step::TriggerChallenge { url, token } => StepView::TriggerChallenge(url@, token@),
            Step::Wait(s) => StepView::Wait(*s),
            Step::PollChallenge(u) => StepView::PollChallenge(u@),
            Step::Done => StepView::Done,
        }
    }
}

/// What a step sends: its target URL and its payload. Fetching an authorization and
/// polling a challenge are POST-as-GET (the empty payload); triggering a challenge
/// sends `{}`. Waiting and the end send nothing.
pub open spec fn step_post(step: StepView) -> Option<(Seq<char>, Seq<char>)> {
    match step {
        StepView::FetchAuthorization(u) => Some((u, Seq::empty())),
        StepView::TriggerChallenge(u, _) => Some((u, "{}"@)),
        StepView::PollChallenge(u) => Some((u, Seq::empty())),
        StepView::Wait(_) => None,
        StepView::Done => None,
    }
}

impl Step {
    /// The target URL and the payload of the request this step sends, if any.
    pub fn post(&self) -> (r: Option<(&String, &'static str)>)
        ensures
            match r {
                Some((u, p)) => step_post(self@) == Some((u@, p@)),
                None => step_post(self@) is None,
            },
    {
        proof {
            reveal_strlit("");
            assert(""@ =~= Seq::<char>::empty());
        }
        match self {
            Step::FetchAuthorization(u) => Some((u, "")),
            Step::TriggerChallenge { url, token: _ } => Some((url, "{}")),
            Step::PollChallenge(u) => Some((u, "")),
            Step::Wait(_) => None,
            Step::Done => None,
        }
    }
}

/// The steps for the challenges of one authorization: for each `dns-01` challenge,
/// in order, trigger it, wait, and poll it. Other challenge types are left alone.
pub open spec fn challenge_plan(challenges: Seq<ChallengeView>) -> Seq<StepView>
    decreases challenges.len(),
{
    if challenges.len() == 0 {
        seq![]
    } else {
        let c = challenges.last();
        challenge_plan(challenges.drop_last()) + if c.kind == "dns-01"@ {
            seq![
                StepView::TriggerChallenge(c.url, c.token),
                StepView::Wait(CHALLENGE_WAIT_SECS),
                StepView::PollChallenge(c.url),
            ]
        } else {
            seq![]
        }
    }
}

/// The body of a successful `newOrder` response; a failure carries the body.
pub fn order_outcome(status: u16, body: String) -> (r: Result<String, AcmeError>)
    ensures
        status_ok(status) ==> r == Ok::<String, AcmeError>(body),
        !status_ok(status) ==> r == Err::<String, AcmeError>(AcmeError::OrderFailed(body)),
{
    if crate::http_status_ok(status) {
        Ok(body)
    } else {
        Err(AcmeError::OrderFailed(body))
    }
}

/// The body of a successful authorization fetch; a failure carries the body.
pub fn authorization_outcome(status: u16, body: String) -> (r: Result<String, AcmeError>)
    ensures
        status_ok(status) ==> r == Ok::<String, AcmeError>(body),
        !status_ok(status) ==> r == Err::<String, AcmeError>(
            AcmeError::AuthorizationFailed(body),
        ),
{
    if crate::http_status_ok(status) {
        Ok(body)
    } else {
        Err(AcmeError::AuthorizationFailed(body))
    }
}

fn copy_step(s: &Step) -> (r: Step)
    ensures
        r@ == s@,
{
    match s {
        Step::FetchAuthorization(u) => Step::FetchAuthorization(u.clone()),
        Step::TriggerChallenge { url, token } => Step::TriggerChallenge {
            url: url.clone(),
            token: token.clone(),
        },
        Step::Wait(n) => Step::Wait(*n),
        Step::PollChallenge(u) => Step::PollChallenge(u.clone()),
        Step::Done => Step::Done,
    }
}

/// The steps for the challenges of `auth`.
pub fn plan_challenges(auth: &Authorization) -> (r: Vec<Step>)
    ensures
        r@.map_values(|s: Step| s@) == challenge_plan(
            auth.challenges@.map_values(|c: Challenge| c@),
        ),
{
    let ghost cs = auth.challenges@.map_values(|c: Challenge| c@);
    let mut steps: Vec<Step> = Vec::new();
    let mut i: usize = 0;
    while i < auth.challenges.len()
        invariant
            i <= auth.challenges@.len(),
            cs == auth.challenges@.map_values(|c: Challenge| c@),
            steps@.map_values(|s: Step| s@) == challenge_plan(cs.subrange(0, i as int)),
        decreases auth.challenges.len() - i,
    {
        let c = &auth.challenges[i];
        let ghost before = steps@.map_values(|s: Step| s@);
        if str_equal(c.kind.as_str(), "dns-01") {
            steps.push(Step::TriggerChallenge { url: c.url.clone(), token: c.token.clone() });
            steps.push(Step::Wait(CHALLENGE_WAIT_SECS));
            steps.push(Step::PollChallenge(c.url.clone()));
        }
        proof {
            let next = cs.subrange(0, i + 1);
            assert(next.drop_last() =~= cs.subrange(0, i as int));
            assert(next.last() == c@);
            let tail = if c@.kind == "dns-01"@ {
                seq![
                    StepView::TriggerChallenge(c@.url, c@.token),
                    StepView::Wait(CHALLENGE_WAIT_SECS),
                    StepView::PollChallenge(c@.url),
                ]
            } else {
                seq![]
            };
            assert(steps@.map_values(|s: Step| s@) =~= before + tail);
        }
        i = i + 1;
    }
    assert(cs.subrange(0, auth.challenges@.len() as int) =~= cs);
    steps
}

/// The state of the order flow, as plain values.
pub struct OrderFlowView {
    pub authorizations: Seq<Seq<char>>,
    pub next_authorization: int,
    pub steps: Seq<StepView>,
    pub next_step: int,
}

/// The order flow: which authorizations remain to be fetched, and the steps left for
/// the challenges of the one fetched last.
pub struct OrderFlow {
    authorizations: Vec<String>,
    next_authorization: usize,
    steps: Vec<Step>,
    next_step: usize,
}

impl View for OrderFlow {
    type V = OrderFlowView;

    closed spec fn view(&self) -> OrderFlowView {
        OrderFlowView {
            authorizations: self.authorizations@.map_values(|u: String| u@),
            next_authorization: self.next_authorization as int,
            steps: self.steps@.map_values(|s: Step| s@),
            next_step: self.next_step as int,
        }
    }
}

/// The flow for authorizations `auths`, none fetched yet.
pub open spec fn flow_start(auths: Seq<Seq<char>>) -> OrderFlowView {
    OrderFlowView { authorizations: auths, next_authorization: 0, steps: seq![], next_step: 0 }
}

/// What a flow in state `v` asks for next.
pub open spec fn next_of(v: OrderFlowView) -> StepView {
    if v.next_step < v.steps.len() {
        v.steps[v.next_step]
    } else if v.next_authorization < v.authorizations.len() {
        StepView::FetchAuthorization(v.authorizations[v.next_authorization])
    } else {
        StepView::Done
    }
}

/// The flow after its current challenge step was done.
pub open spec fn after_step(v: OrderFlowView) -> OrderFlowView {
    OrderFlowView { next_step: v.next_step + 1, ..v }
}

/// The flow after the authorization it asked for was fetched with challenges `cs`.
pub open spec fn after_fetch(v: OrderFlowView, cs: Seq<ChallengeView>) -> OrderFlowView {
    OrderFlowView {
        authorizations: v.authorizations,
        next_authorization: v.next_authorization + 1,
        steps: challenge_plan(cs),
        next_step: 0,
    }
}

/// The steps a flow in state `v` hands out until it is done, when the caller answers
/// the fetch of the `i`-th authorization with the challenges `fetched[i]`.
pub open spec fn handed_out(v: OrderFlowView, fetched: Seq<Seq<ChallengeView>>) -> Seq<StepView>
    decreases v.authorizations.len() - v.next_authorization, v.steps.len() - v.next_step,
{
    if 0 <= v.next_step < v.steps.len() {
        seq![v.steps[v.next_step]] + handed_out(after_step(v), fetched)
    } else if 0 <= v.next_authorization < v.authorizations.len() && v.next_authorization
        < fetched.len() {
        seq![StepView::FetchAuthorization(v.authorizations[v.next_authorization])]
            + handed_out(after_fetch(v, fetched[v.next_authorization]), fetched)
    } else {
        seq![]
    }
}

/// For each authorization in order: fetch it, then its challenges' steps.
pub open spec fn planned_steps(auths: Seq<Seq<char>>, fetched: Seq<Seq<ChallengeView>>) -> Seq<
    StepView,
>
    decreases auths.len(),
{
    if auths.len() == 0 || fetched.len() == 0 {
        seq![]
    } else {
        seq![StepView::FetchAuthorization(auths[0])] + challenge_plan(fetched[0]) + planned_steps(
            auths.drop_first(),
            fetched.drop_first(),
        )
    }
}

/// The challenge steps left are handed out first, in order.
proof fn lemma_drain_steps(v: OrderFlowView, fetched: Seq<Seq<ChallengeView>>)
    requires
        0 <= v.next_step <= v.steps.len(),
    ensures
        handed_out(v, fetched) == v.steps.subrange(v.next_step, v.steps.len() as int) + handed_out(
            OrderFlowView { next_step: v.steps.len() as int, ..v },
            fetched,
        ),
    decreases v.steps.len() - v.next_step,
{
    if v.next_step < v.steps.len() {
        lemma_drain_steps(after_step(v), fetched);
        assert(v.steps.subrange(v.next_step, v.steps.len() as int) =~= seq![v.steps[v.next_step]]
            + v.steps.subrange(v.next_step + 1, v.steps.len() as int));
    } else {
        assert(v.steps.subrange(v.next_step, v.steps.len() as int) =~= Seq::<StepView>::empty());
        assert(v == OrderFlowView { next_step: v.steps.len() as int, ..v });
    }
}

proof fn lemma_remaining_authorizations(v: OrderFlowView, fetched: Seq<Seq<ChallengeView>>)
    requires
        v.next_step == v.steps.len(),
        0 <= v.next_authorization <= v.authorizations.len(),
        fetched.len() == v.authorizations.len(),
    ensures
        handed_out(v, fetched) == planned_steps(
            v.authorizations.skip(v.next_authorization),
            fetched.skip(v.next_authorization),
        ),
    decreases v.authorizations.len() - v.next_authorization,
{
    let k = v.next_authorization;
    let auths = v.authorizations;
    if k < auths.len() {
        let w = after_fetch(v, fetched[k]);
        lemma_drain_steps(w, fetched);
        let rest = OrderFlowView { next_step: w.steps.len() as int, ..w };
        lemma_remaining_authorizations(rest, fetched);
        assert(w.steps.subrange(0, w.steps.len() as int) =~= w.steps);
        assert(auths.skip(k).drop_first() =~= auths.skip(k + 1));
        assert(fetched.skip(k).drop_first() =~= fetched.skip(k + 1));
        assert(auths.skip(k)[0] == auths[k]);
        assert(fetched.skip(k)[0] == fetched[k]);
    } else {
        assert(auths.skip(k).len() == 0);
    }
}

/// Order flow: when the caller answers the fetch of each authorization with that
/// authorization's challenges, the flow hands out, in order, a fetch of each
/// authorization URL of the order, each followed by the trigger, wait and poll of
/// that authorization's `dns-01` challenges, and nothing else. Each fetch and poll is
/// then sent as a POST-as-GET and each trigger with `{}` (see
/// `Account::step_request`).
pub proof fn order_flow_steps(auths: Seq<Seq<char>>, fetched: Seq<Seq<ChallengeView>>)
    requires
        fetched.len() == auths.len(),
    ensures
        handed_out(flow_start(auths), fetched) == planned_steps(auths, fetched),
{
    lemma_remaining_authorizations(flow_start(auths), fetched);
    assert(auths.skip(0) =~= auths);
    assert(fetched.skip(0) =~= fetched);
}

impl OrderFlow {
    /// The counters stay within their sequences.
    pub open spec fn wf(&self) -> bool {
        &&& 0 <= self@.next_authorization <= self@.authorizations.len()
        &&& 0 <= self@.next_step <= self@.steps.len()
    }

    /// What to do next: the next step for the current authorization's challenges,
    /// else fetch the next authorization, else done.
    pub open spec fn next_spec(&self) -> StepView {
        next_of(self@)
    }

    /// The flow for an order: its authorizations, in order, none fetched yet.
    pub fn new(order: &Order) -> (r: OrderFlow)
        ensures
            r.wf(),
            r@.authorizations == order.authorizations@.map_values(|u: String| u@),
            r@.next_authorization == 0,
            r@.steps.len() == 0,
            r@.next_step == 0,
            r@ == flow_start(order.authorizations@.map_values(|u: String| u@)),
    {
        let mut authorizations: Vec<String> = Vec::new();
        let mut i: usize = 0;
        while i < order.authorizations.len()
            invariant
                i <= order.authorizations@.len(),
                authorizations@.len() == i,
                forall|j: int| 0 <= j < i ==> #[trigger] authorizations@[j]@ == order.authorizations@[j]@,
            decreases order.authorizations.len() - i,
        {
            authorizations.push(order.authorizations[i].clone());
            i = i + 1;
        }
        assert(authorizations@.map_values(|u: String| u@) =~= order.authorizations@.map_values(
            |u: String| u@,
        ));
        let r = OrderFlow { authorizations, next_authorization: 0, steps: Vec::new(), next_step: 0 };
        assert(r@.steps =~= Seq::<StepView>::empty());
        r
    }

    /// The next step.
    pub fn next(&self) -> (r: Step)
        requires
            self.wf(),
        ensures
            r@ == self.next_spec(),
    {
        if self.next_step < self.steps.len() {
            copy_step(&self.steps[self.next_step])
        } else if self.next_authorization < self.authorizations.len() {
            Step::FetchAuthorization(self.authorizations[self.next_authorization].clone())
        } else {
            Step::Done
        }
    }

    /// Records that the current challenge step (trigger, wait or poll) was done.
    pub fn step_done(&mut self)
        requires
            old(self).wf(),
            old(self)@.next_step < old(self)@.steps.len(),
        ensures
            final(self).wf(),
            final(self)@.authorizations == old(self)@.authorizations,
            final(self)@.next_authorization == old(self)@.next_authorization,
            final(self)@.steps == old(self)@.steps,
            final(self)@.next_step == old(self)@.next_step + 1,
            final(self)@ == after_step(old(self)@),
    {
        let n = self.steps.len();
        proof {
            assert(self@.steps.len() == n);
        }
        self.next_step = self.next_step + 1;
    }

    /// Hands the flow the authorization that the `FetchAuthorization` step fetched:
    /// its `dns-01` challenges become the next steps.
    pub fn authorization_fetched(&mut self, auth: &Authorization)
        requires
            old(self).wf(),
            old(self)@.next_step >= old(self)@.steps.len(),
            old(self)@.next_authorization < old(self)@.authorizations.len(),
        ensures
            final(self).wf(),
            final(self)@.authorizations == old(self)@.authorizations,
            final(self)@.next_authorization == old(self)@.next_authorization + 1,
            final(self)@.steps == challenge_plan(auth.challenges@.map_values(|c: Challenge| c@)),
            final(self)@.next_step == 0,
            final(self)@ == after_fetch(old(self)@, auth.challenges@.map_values(|c: Challenge| c@)),
    {
        let n = self.authorizations.len();
        proof {
            assert(self@.authorizations.len() == n);
        }
        self.steps = plan_challenges(auth);
        self.next_step = 0;
        self.next_authorization = self.next_authorization + 1;
    }

    /// Whether the flow has finished.
    pub fn is_done(&self) -> (r: bool)
        requires
            self.wf(),
        ensures
            r == (self@.next_step >= self@.steps.len() && self@.next_authorization
                >= self@.authorizations.len()),
            r ==> self.next_spec() == StepView::Done,
    {
        self.next_step >= self.steps.len() && self.next_authorization >= self.authorizations.len()
    }
}

} // verus!
