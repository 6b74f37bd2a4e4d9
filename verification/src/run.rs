//! The run itself: a state machine that drives one invocation of the tool.
//!
//! The caller owns the network.  It asks the run for its next [`Action`]; a
//! [`Action::Request`] is sent as-is, and the reply (or the transport's
//! failure) comes back through [`Run::on_event`], which returns the lines to
//! print.  The run moves strictly one request at a time: the search first,
//! then — for an update — one mutation per matched repository, in the order
//! the search returned them, and the first failure is final.

use vstd::pervasive::unreached;
use vstd::prelude::*;
use vstd::string::*;

use crate::error::ClientError;
use crate::json::Json;
use crate::protocol::{
    confirmation_line, confirmation_line_spec, decode_search, decode_update,
    mutation_request_body, mutation_request_body_spec, search_of, search_request_body,
    search_request_body_spec, update_of, Repo, RepoV,
};

verus! {

/// The mathematical value of a [`ClientError`].
pub ghost enum ErrV {
    MissingCredential,
    Transport(Seq<char>),
    Decode,
}

impl View for ClientError {
    type V = ErrV;

    open spec fn view(&self) -> ErrV {
        match self {
            ClientError::MissingCredential => ErrV::MissingCredential,
            ClientError::Transport(m) => ErrV::Transport(m@),
            ClientError::Decode => ErrV::Decode,
        }
    }
}

/// What the user asked for on the command line.
pub enum Command {
    /// List the repositories of `organization` tagged with `team`.
    Repos { organization: String, team: String },
    /// Replace the topic set of each such repository with `[topic]`.
    UpdateTopic { organization: String, team: String, topic: String },
}

/// The mathematical value of a [`Command`].
pub ghost enum CommandV {
    Repos { organization: Seq<char>, team: Seq<char> },
    UpdateTopic { organization: Seq<char>, team: Seq<char>, topic: Seq<char> },
}

impl View for Command {
    type V = CommandV;

    open spec fn view(&self) -> CommandV {
        match self {
            Command::Repos { organization, team } => CommandV::Repos {
                organization: organization@,
                team: team@,
            },
            Command::UpdateTopic { organization, team, topic } => CommandV::UpdateTopic {
                organization: organization@,
                team: team@,
                topic: topic@,
            },
        }
    }
}

/// One HTTP request, ready to send: the fixed endpoint, the authorization
/// header's value, and the JSON body.
pub struct HttpRequest {
    pub url: String,
    pub auth: String,
    pub body: String,
}

/// The mathematical value of an [`HttpRequest`].
pub ghost struct HttpRequestV {
    pub url: Seq<char>,
    pub auth: Seq<char>,
    pub body: Seq<char>,
}

impl View for HttpRequest {
    type V = HttpRequestV;

    open spec fn view(&self) -> HttpRequestV {
        HttpRequestV { url: self.url@, auth: self.auth@, body: self.body@ }
    }
}

/// The fixed GraphQL endpoint.
pub open spec fn endpoint_spec() -> Seq<char> {
    "https://api.github.com/graphql"@
}

/// The value of the authorization header: `Bearer <token>`.
pub open spec fn bearer_spec(token: Seq<char>) -> Seq<char> {
    "Bearer "@ + token
}

/// What the caller must do next.
pub enum Action {
    /// Send this request and hand the outcome back.
    Request(HttpRequest),
    /// The run is over; exit with success.
    Done,
    /// The run failed; report the error and exit with failure.
    Fail(ClientError),
}

/// The mathematical value of an [`Action`].
pub ghost enum ActionV {
    Request(HttpRequestV),
    Done,
    Fail(ErrV),
}

impl View for Action {
    type V = ActionV;

    open spec fn view(&self) -> ActionV {
        match self {
            Action::Request(req) => ActionV::Request(req@),
            Action::Done => ActionV::Done,
            Action::Fail(e) => ActionV::Fail(e@),
        }
    }
}

/// What came back for the pending request.
pub enum Outcome {
    /// The transport delivered a reply, already parsed as JSON.
    Reply(Json),
    /// The transport failed, with its own description of the failure.
    TransportFailed(String),
}

/// The mathematical value of an [`Outcome`].
pub ghost enum OutcomeV {
    Reply(Json),
    TransportFailed(Seq<char>),
}

impl View for Outcome {
    type V = OutcomeV;

    open spec fn view(&self) -> OutcomeV {
        match self {
            Outcome::Reply(j) => OutcomeV::Reply(*j),
            Outcome::TransportFailed(m) => OutcomeV::TransportFailed(m@),
        }
    }
}

/// Where a run stands.
pub enum Phase {
    /// The search request is pending.
    AwaitSearch,
    /// Mutations are being issued one by one.
    Mutating,
    /// Everything was done.
    Finished,
    /// The run failed; the first failure is final.
    Failed(ClientError),
}

/// The mathematical value of a [`Phase`].
pub ghost enum PhaseV {
    AwaitSearch,
    Mutating,
    Finished,
    Failed(ErrV),
}

impl View for Phase {
    type V = PhaseV;

    open spec fn view(&self) -> PhaseV {
        match self {
            Phase::AwaitSearch => PhaseV::AwaitSearch,
            Phase::Mutating => PhaseV::Mutating,
            Phase::Finished => PhaseV::Finished,
            Phase::Failed(e) => PhaseV::Failed(e@),
        }
    }
}

/// One invocation of the tool.
pub struct Run {
    pub token: String,
    pub organization: String,
    pub team: String,
    /// `None` for a listing run; the new topic for an update run.
    pub new_topic: Option<String>,
    pub phase: Phase,
    /// The matched repositories, once the search reply has arrived.
    pub repos: Vec<Repo>,
    /// How many of them have been updated.
    pub next: usize,
}

/// The mathematical value of a [`Run`].
pub ghost struct RunV {
    pub token: Seq<char>,
    pub organization: Seq<char>,
    pub team: Seq<char>,
    pub new_topic: Option<Seq<char>>,
    pub phase: PhaseV,
    pub repos: Seq<RepoV>,
    pub next: int,
}

impl View for Run {
    type V = RunV;

    open spec fn view(&self) -> RunV {
        RunV {
            token: self.token@,
            organization: self.organization@,
            team: self.team@,
            new_topic: match self.new_topic {
                Some(t) => Some(t@),
                None => None,
            },
            phase: self.phase@,
            repos: self.repos@.map_values(|r: Repo| r@),
            next: self.next as int,
        }
    }
}

/// A run's internal invariant: while mutating, the cursor stays within the
/// matched repositories and the new topic is present.
pub open spec fn wf_v(r: RunV) -> bool {
    r.phase is Mutating ==> (0 <= r.next <= r.repos.len() && r.new_topic is Some)
}

/// Builds a request to the fixed endpoint, authorized with `token`.
fn make_request(token: &str, body: String) -> (r: HttpRequest)
    ensures
        r@ == (HttpRequestV { url: endpoint_spec(), auth: bearer_spec(token@), body: body@ }),
{
    let mut auth = String::from_str("Bearer ");
    auth.append(token);
    HttpRequest { url: String::from_str("https://api.github.com/graphql"), auth, body }
}

/// The run a fresh start yields.
pub open spec fn start_spec(token: Seq<char>, cmd: CommandV) -> RunV {
    match cmd {
        CommandV::Repos { organization, team } => RunV {
            token,
            organization,
            team,
            new_topic: None,
            phase: PhaseV::AwaitSearch,
            repos: Seq::empty(),
            next: 0,
        },
        CommandV::UpdateTopic { organization, team, topic } => RunV {
            token,
            organization,
            team,
            new_topic: Some(topic),
            phase: PhaseV::AwaitSearch,
            repos: Seq::empty(),
            next: 0,
        },
    }
}

/// The mutation request an update run issues for its `i`-th repository.
pub open spec fn mutation_request_v(r: RunV, i: int) -> HttpRequestV {
    HttpRequestV {
        url: endpoint_spec(),
        auth: bearer_spec(r.token),
        body: mutation_request_body_spec(r.repos[i].id, r.new_topic.unwrap()),
    }
}

/// What the caller must do next, as a function of the run's value.
pub open spec fn spec_action(r: RunV) -> ActionV {
    match r.phase {
        PhaseV::AwaitSearch => ActionV::Request(
            HttpRequestV {
                url: endpoint_spec(),
                auth: bearer_spec(r.token),
                body: search_request_body_spec(r.organization, r.team),
            },
        ),
        PhaseV::Mutating => if r.next < r.repos.len() {
            ActionV::Request(mutation_request_v(r, r.next))
        } else {
            ActionV::Done
        },
        PhaseV::Finished => ActionV::Done,
        PhaseV::Failed(e) => ActionV::Fail(e),
    }
}

/// Whether a request is pending, so that an outcome is expected.
pub open spec fn expects_reply(r: RunV) -> bool {
    spec_action(r) is Request
}

/// The run after `r` fails with `e`.
pub open spec fn failed(r: RunV, e: ErrV) -> RunV {
    RunV { phase: PhaseV::Failed(e), ..r }
}

/// How one outcome moves the run: the new run, and the lines to print.
pub open spec fn step(r: RunV, o: OutcomeV) -> (RunV, Seq<Seq<char>>) {
    if !expects_reply(r) {
        (r, Seq::empty())
    } else {
        match o {
            OutcomeV::TransportFailed(m) => (failed(r, ErrV::Transport(m)), Seq::empty()),
            OutcomeV::Reply(j) => match r.phase {
                PhaseV::AwaitSearch => match search_of(j) {
                    None => (failed(r, ErrV::Decode), Seq::empty()),
                    Some(s) => match r.new_topic {
                        None => (
                            RunV { phase: PhaseV::Finished, ..r },
                            s.repos.map_values(|rep: RepoV| rep.name),
                        ),
                        Some(_) => (
                            RunV { phase: PhaseV::Mutating, repos: s.repos, next: 0, ..r },
                            Seq::empty(),
                        ),
                    },
                },
                PhaseV::Mutating => match update_of(j) {
                    None => (failed(r, ErrV::Decode), Seq::empty()),
                    Some(rep) => (
                        RunV { next: r.next + 1, ..r },
                        seq![confirmation_line_spec(rep.name, r.team, r.new_topic.unwrap())],
                    ),
                },
                _ => (r, Seq::empty()),
            },
        }
    }
}

impl Run {
    /// The run's internal invariant.
    pub open spec fn wf(&self) -> bool {
        wf_v(self@)
    }

    /// Starts a run.  Without the credential nothing starts: no request will
    /// ever exist, and the caller exits with failure.
    pub fn start(token: Option<String>, cmd: Command) -> (r: Result<Run, ClientError>)
        ensures
            token is Some <==> r is Ok,
            r matches Err(e) ==> e is MissingCredential,
            token matches Some(t) ==> (r matches Ok(run) ==> run.wf() && run@ == start_spec(
                t@,
                cmd@,
            )),
    {
        let t = match token {
            Some(t) => t,
            None => {
                return Err(ClientError::MissingCredential);
            },
        };
        let run = match cmd {
            Command::Repos { organization, team } => Run {
                token: t,
                organization,
                team,
                new_topic: None,
                phase: Phase::AwaitSearch,
                repos: Vec::new(),
                next: 0,
            },
            Command::UpdateTopic { organization, team, topic } => Run {
                token: t,
                organization,
                team,
                new_topic: Some(topic),
                phase: Phase::AwaitSearch,
                repos: Vec::new(),
                next: 0,
            },
        };
        proof {
            assert(run@.repos =~= Seq::<RepoV>::empty());
        }
        Ok(run)
    }

    /// What the caller must do now.
    pub fn action(&self) -> (a: Action)
        requires
            self.wf(),
        ensures
            a@ == spec_action(self@),
    {
        match &self.phase {
            Phase::AwaitSearch => Action::Request(
                make_request(
                    self.token.as_str(),
                    search_request_body(self.organization.as_str(), self.team.as_str()),
                ),
            ),
            Phase::Mutating => {
                if self.next < self.repos.len() {
                    let topic = match &self.new_topic {
                        Some(t) => t,
                        None => unreached(),
                    };
                    Action::Request(
                        make_request(
                            self.token.as_str(),
                            mutation_request_body(
                                self.repos[self.next].id.as_str(),
                                topic.as_str(),
                            ),
                        ),
                    )
                } else {
                    Action::Done
                }
            },
            Phase::Finished => Action::Done,
            Phase::Failed(e) => Action::Fail(
                match e {
                    ClientError::MissingCredential => ClientError::MissingCredential,
                    ClientError::Transport(m) => ClientError::Transport(m.clone()),
                    ClientError::Decode => ClientError::Decode,
                },
            ),
        }
    }

    /// Feeds the outcome of the pending request into the run, and returns
    /// the lines to print: the repository names for a listing's search
    /// reply, one confirmation per successful update, nothing otherwise.
    pub fn on_event(&mut self, o: Outcome) -> (lines: Vec<String>)
        requires
            old(self).wf(),
            expects_reply(old(self)@),
        ensures
            final(self).wf(),
            final(self)@ == step(old(self)@, o@).0,
            lines.deep_view() == step(old(self)@, o@).1,
    {
        let j = match o {
            Outcome::TransportFailed(m) => {
                self.phase = Phase::Failed(ClientError::Transport(m));
                let lines: Vec<String> = Vec::new();
                proof {
                    assert(lines.deep_view() =~= Seq::<Seq<char>>::empty());
                }
                return lines;
            },
            Outcome::Reply(j) => j,
        };
        let awaiting_search = match &self.phase {
            Phase::AwaitSearch => true,
            _ => false,
        };
        if awaiting_search {
            let results = match decode_search(&j) {
                Some(results) => results,
                None => {
                    self.phase = Phase::Failed(ClientError::Decode);
                    let lines: Vec<String> = Vec::new();
                    proof {
                        assert(lines.deep_view() =~= Seq::<Seq<char>>::empty());
                    }
                    return lines;
                },
            };
            let listing = match &self.new_topic {
                None => true,
                Some(_) => false,
            };
            if listing {
                let lines = crate::protocol::repo_names(&results);
                self.phase = Phase::Finished;
                lines
            } else {
                self.repos = results.repos;
                self.next = 0;
                self.phase = Phase::Mutating;
                let lines: Vec<String> = Vec::new();
                proof {
                    assert(lines.deep_view() =~= Seq::<Seq<char>>::empty());
                }
                lines
            }
        } else {
            // wf and expects_reply leave only the mutating phase here
            let rep = match decode_update(&j) {
                Some(rep) => rep,
                None => {
                    self.phase = Phase::Failed(ClientError::Decode);
                    let lines: Vec<String> = Vec::new();
                    proof {
                        assert(lines.deep_view() =~= Seq::<Seq<char>>::empty());
                    }
                    return lines;
                },
            };
            let topic_text = match &self.new_topic {
                Some(t) => t.as_str(),
                None => unreached(),
            };
            let line = confirmation_line(rep.name.as_str(), self.team.as_str(), topic_text);
            proof {
                assert(self@.phase is Mutating);
                assert(self.next < self.repos.len());
            }
            self.next = self.next + 1;
            let mut lines: Vec<String> = Vec::new();
            lines.push(line);
            proof {
                assert(lines.deep_view() =~= seq![
                    confirmation_line_spec(rep@.name, old(self)@.team, old(self)@.new_topic.unwrap()),
                ]);
            }
            lines
        }
    }
}

/// The run after a whole sequence of outcomes has been fed in.
pub open spec fn run_steps(r: RunV, events: Seq<OutcomeV>) -> RunV
    decreases events.len(),
{
    if events.len() == 0 {
        r
    } else {
        run_steps(step(r, events[0]).0, events.drop_first())
    }
}

/// The requests a run issues while the outcomes arrive: one before each
/// outcome, as long as the run keeps asking for one.  A run whose action is
/// not a request issues nothing more, whatever outcomes may still be queued.
pub open spec fn issued(r: RunV, events: Seq<OutcomeV>) -> Seq<HttpRequestV>
    decreases events.len(),
{
    if events.len() == 0 {
        Seq::empty()
    } else {
        match spec_action(r) {
            ActionV::Request(req) => seq![req] + issued(step(r, events[0]).0, events.drop_first()),
            _ => Seq::empty(),
        }
    }
}

/// An outcome that reports one repository as updated.
pub open spec fn successful_update(o: OutcomeV) -> bool {
    o matches OutcomeV::Reply(j) && update_of(j) is Some
}

/// Every step keeps the run's invariant.
pub proof fn lemma_step_preserves_wf(r: RunV, o: OutcomeV)
    requires
        wf_v(r),
    ensures
        wf_v(step(r, o).0),
{
}

/// A failed run is final: no event changes it, nothing more is printed, and
/// no request is ever issued again.
pub proof fn lemma_failed_run_is_final(r: RunV, events: Seq<OutcomeV>)
    requires
        r.phase matches PhaseV::Failed(_),
    ensures
        run_steps(r, events) == r,
        issued(r, events) == Seq::<HttpRequestV>::empty(),
    decreases events.len(),
{
    if events.len() > 0 {
        lemma_failed_run_is_final(r, events.drop_first());
    }
}

/// A transport failure aborts the run at once: the run fails with that
/// failure's description, prints nothing, and — whatever outcomes might
/// still arrive — never issues another request.
pub proof fn lemma_transport_failure_aborts(r: RunV, m: Seq<char>, later: Seq<OutcomeV>)
    requires
        expects_reply(r),
    ensures
        step(r, OutcomeV::TransportFailed(m)).0 == failed(r, ErrV::Transport(m)),
        step(r, OutcomeV::TransportFailed(m)).1 == Seq::<Seq<char>>::empty(),
        issued(step(r, OutcomeV::TransportFailed(m)).0, later) == Seq::<HttpRequestV>::empty(),
{
    lemma_failed_run_is_final(step(r, OutcomeV::TransportFailed(m)).0, later);
}

/// A listing run prints exactly the matched repositories' names, one per
/// repository, in the order the search reply carries them, then finishes
/// without issuing another request.
pub proof fn lemma_list_prints_names(r: RunV, j: Json)
    requires
        wf_v(r),
        r.phase is AwaitSearch,
        r.new_topic is None,
        search_of(j) is Some,
    ensures
        step(r, OutcomeV::Reply(j)).1 == search_of(j).unwrap().repos.map_values(
            |rep: RepoV| rep.name,
        ),
        step(r, OutcomeV::Reply(j)).0.phase is Finished,
        spec_action(step(r, OutcomeV::Reply(j)).0) is Done,
{
}

/// While mutations are pending, the run issues exactly one mutation per
/// remaining repository, in the order the search returned them; each request
/// exists only once the reply to the one before has been consumed.
pub proof fn lemma_mutations_in_order(r: RunV, events: Seq<OutcomeV>)
    requires
        wf_v(r),
        r.phase is Mutating,
        events.len() == r.repos.len() - r.next,
        forall|i: int| 0 <= i < events.len() ==> successful_update(#[trigger] events[i]),
    ensures
        issued(r, events).len() == events.len(),
        forall|i: int| 0 <= i < events.len() ==> issued(r, events)[i] == mutation_request_v(
            r,
            r.next + i,
        ),
        run_steps(r, events).phase is Mutating,
        run_steps(r, events).next == r.repos.len(),
        spec_action(run_steps(r, events)) is Done,
    decreases events.len(),
{
    if events.len() > 0 {
        let r2 = step(r, events[0]).0;
        assert(r2 == RunV { next: r.next + 1, ..r });
        lemma_mutations_in_order(r2, events.drop_first());
        assert(issued(r, events) =~= seq![mutation_request_v(r, r.next)] + issued(
            r2,
            events.drop_first(),
        ));
        assert forall|i: int| 0 <= i < events.len() implies issued(r, events)[i]
            == mutation_request_v(r, r.next + i) by {
            if i > 0 {
                assert(issued(r, events)[i] == issued(r2, events.drop_first())[i - 1]);
                assert(issued(r2, events.drop_first())[i - 1] == mutation_request_v(
                    r2,
                    r2.next + i - 1,
                ));
                assert(mutation_request_v(r2, r.next + i) == mutation_request_v(r, r.next + i));
            }
        }
    }
}

/// An update run's whole conversation: the search request first; then, once
/// the search reply has named the matched repositories, exactly one mutation
/// per repository, in the order the search returned them, each request
/// issued only after the reply before it was consumed.
pub proof fn lemma_update_run_trace(r: RunV, js: Json, updates: Seq<OutcomeV>)
    requires
        wf_v(r),
        r.phase is AwaitSearch,
        r.new_topic is Some,
        search_of(js) is Some,
        updates.len() == search_of(js).unwrap().repos.len(),
        forall|i: int| 0 <= i < updates.len() ==> successful_update(#[trigger] updates[i]),
    ensures
        ({
            let events = seq![OutcomeV::Reply(js)] + updates;
            let repos = search_of(js).unwrap().repos;
            &&& issued(r, events).len() == 1 + repos.len()
            &&& issued(r, events)[0] == HttpRequestV {
                url: endpoint_spec(),
                auth: bearer_spec(r.token),
                body: search_request_body_spec(r.organization, r.team),
            }
            &&& forall|i: int|
                0 <= i < repos.len() ==> issued(r, events)[i + 1] == HttpRequestV {
                    url: endpoint_spec(),
                    auth: bearer_spec(r.token),
                    body: mutation_request_body_spec(repos[i].id, r.new_topic.unwrap()),
                }
            &&& spec_action(run_steps(r, events)) is Done
        }),
{
    let events = seq![OutcomeV::Reply(js)] + updates;
    let repos = search_of(js).unwrap().repos;
    let r2 = step(r, events[0]).0;
    assert(r2 == RunV { phase: PhaseV::Mutating, repos, next: 0, ..r });
    assert(events.drop_first() =~= updates);
    lemma_mutations_in_order(r2, updates);
    assert(issued(r, events) =~= seq![
        HttpRequestV {
            url: endpoint_spec(),
            auth: bearer_spec(r.token),
            body: search_request_body_spec(r.organization, r.team),
        },
    ] + issued(r2, updates));
    assert forall|i: int| 0 <= i < repos.len() implies issued(r, events)[i + 1] == HttpRequestV {
        url: endpoint_spec(),
        auth: bearer_spec(r.token),
        body: mutation_request_body_spec(repos[i].id, r.new_topic.unwrap()),
    } by {
        assert(issued(r, events)[i + 1] == issued(r2, updates)[i]);
        assert(issued(r2, updates)[i] == mutation_request_v(r2, i));
    }
    assert(run_steps(r, events) == run_steps(r2, updates));
}

} // verus!
