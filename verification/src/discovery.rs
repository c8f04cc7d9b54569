//! Discovery client: finds the issuer's endpoint metadata by probing a
//! prioritized list of well-known paths, one after the other.

use vstd::prelude::*;
use vstd::string::StringExecFns;
use crate::error::fault_view;
use crate::error::OAuthError;
use crate::error::OAuthErrorModel;
use crate::error::ProbeFault;
use crate::error::ProbeFaultModel;
use crate::http::is_success;
use crate::http::status_is_success;
use crate::json::json_members;
use crate::json::parse_json;
use crate::json::string_member;
use crate::json::string_members;
use crate::resource::parse_url;
use crate::resource::parsed_url;

verus! {

/// The endpoints that an issuer publishes.
#[derive(Debug, Clone, PartialEq, Eq)]
pub struct OidcEndpoints {
    pub authorization_endpoint: String,
    pub token_endpoint: String,
    pub registration_endpoint: Option<String>,
}

/// Mathematical value of [`OidcEndpoints`].
pub struct EndpointsModel {
    pub authorization_endpoint: Seq<char>,
    pub token_endpoint: Seq<char>,
    pub registration_endpoint: Option<Seq<char>>,
}

impl View for OidcEndpoints {
    type V = EndpointsModel;

    open spec fn view(&self) -> EndpointsModel {
        EndpointsModel {
            authorization_endpoint: self.authorization_endpoint@,
            token_endpoint: self.token_endpoint@,
            registration_endpoint: self.registration_endpoint.deep_view(),
        }
    }
}

impl DeepView for OidcEndpoints {
    type V = EndpointsModel;

    open spec fn deep_view(&self) -> EndpointsModel {
        self@
    }
}

/// The member that names the authorization endpoint.
pub const AUTHORIZATION_ENDPOINT: &'static str = "authorization_endpoint";

/// The member that names the token endpoint.
pub const TOKEN_ENDPOINT: &'static str = "token_endpoint";

/// The member that names the registration endpoint.
pub const REGISTRATION_ENDPOINT: &'static str = "registration_endpoint";

/// The endpoints that a metadata document with the given string members
/// publishes. The authorization and the token endpoint are required, and the
/// first one that is missing is the fault; the registration endpoint is
/// optional.
pub open spec fn endpoints_of(members: Map<Seq<char>, Seq<char>>) -> Result<
    EndpointsModel,
    ProbeFaultModel,
> {
    if !members.contains_key(AUTHORIZATION_ENDPOINT@) {
        Err(ProbeFaultModel::MissingAuthorizationEndpoint)
    } else if !members.contains_key(TOKEN_ENDPOINT@) {
        Err(ProbeFaultModel::MissingTokenEndpoint)
    } else {
        Ok(
            EndpointsModel {
                authorization_endpoint: members[AUTHORIZATION_ENDPOINT@],
                token_endpoint: members[TOKEN_ENDPOINT@],
                registration_endpoint: if members.contains_key(REGISTRATION_ENDPOINT@) {
                    Some(members[REGISTRATION_ENDPOINT@])
                } else {
                    None
                },
            },
        )
    }
}

/// Mathematical value of the result of reading a metadata document.
pub open spec fn parsed_view(r: Result<OidcEndpoints, ProbeFault>) -> Result<
    EndpointsModel,
    ProbeFaultModel,
> {
    match r {
        Ok(endpoints) => Ok(endpoints@),
        Err(fault) => Err(fault@),
    }
}

/// Reads the endpoints out of a metadata document.
pub fn parse_oauth_config(oidc_config: serde_json::Value) -> (r: Result<OidcEndpoints, ProbeFault>)
    ensures
        parsed_view(r) == endpoints_of(string_members(oidc_config)),
{
    let authorization_endpoint = match string_member(&oidc_config, AUTHORIZATION_ENDPOINT) {
        Some(endpoint) => endpoint,
        None => {
            return Err(ProbeFault::MissingAuthorizationEndpoint);
        },
    };
    let token_endpoint = match string_member(&oidc_config, TOKEN_ENDPOINT) {
        Some(endpoint) => endpoint,
        None => {
            return Err(ProbeFault::MissingTokenEndpoint);
        },
    };
    let registration_endpoint = string_member(&oidc_config, REGISTRATION_ENDPOINT);
    Ok(OidcEndpoints { authorization_endpoint, token_endpoint, registration_endpoint })
}

/// What came back from one probe.
#[derive(Debug, Clone, PartialEq, Eq)]
pub enum ProbeOutcome {
    /// The request did not complete; the text describes the failure.
    Unreachable(String),
    /// The server answered with a status code and a body.
    Answered { status: u16, body: String },
}

/// Mathematical value of a [`ProbeOutcome`].
pub enum OutcomeModel {
    Unreachable(Seq<char>),
    Answered { status: u16, body: Seq<char> },
}

impl View for ProbeOutcome {
    type V = OutcomeModel;

    open spec fn view(&self) -> OutcomeModel {
        match self {
            ProbeOutcome::Unreachable(detail) => OutcomeModel::Unreachable(detail@),
            ProbeOutcome::Answered { status, body } => OutcomeModel::Answered {
                status: *status,
                body: body@,
            },
        }
    }
}

/// What discovery makes of one probe.
pub enum Verdict {
    /// The candidate published valid metadata.
    Accept(EndpointsModel),
    /// The candidate is passed over, with the fault that it leaves behind, if
    /// any.
    Reject(Option<ProbeFaultModel>),
}

/// Judges one probe. A transport failure and an unusable document leave a
/// fault behind; a status outside the success class leaves none.
pub open spec fn judge(outcome: OutcomeModel) -> Verdict {
    match outcome {
        OutcomeModel::Unreachable(detail) => Verdict::Reject(
            Some(ProbeFaultModel::Transport(detail)),
        ),
        OutcomeModel::Answered { status, body } => if !is_success(status) {
            Verdict::Reject(None)
        } else {
            match json_members(body) {
                None => Verdict::Reject(Some(ProbeFaultModel::InvalidJson)),
                Some(members) => match endpoints_of(members) {
                    Ok(endpoints) => Verdict::Accept(endpoints),
                    Err(fault) => Verdict::Reject(Some(fault)),
                },
            }
        },
    }
}

/// The verdict that a judged probe stands for: acceptance with the
/// endpoints, or rejection with the fault.
pub open spec fn verdict_view(r: Result<OidcEndpoints, Option<ProbeFault>>) -> Verdict {
    match r {
        Ok(endpoints) => Verdict::Accept(endpoints@),
        Err(fault) => Verdict::Reject(fault_view(fault)),
    }
}

/// Judges one probe: the endpoints of an accepted candidate, or the fault
/// that a rejected one leaves behind.
pub fn judge_probe(outcome: ProbeOutcome) -> (r: Result<OidcEndpoints, Option<ProbeFault>>)
    ensures
        verdict_view(r) == judge(outcome@),
{
    match outcome {
        ProbeOutcome::Unreachable(detail) => Err(Some(ProbeFault::Transport(detail))),
        ProbeOutcome::Answered { status, body } => {
            if !status_is_success(status) {
                return Err(None);
            }
            match parse_json(body.as_str()) {
                Err(_) => Err(Some(ProbeFault::InvalidJson)),
                Ok(document) => match parse_oauth_config(document) {
                    Ok(endpoints) => Ok(endpoints),
                    Err(fault) => Err(Some(fault)),
                },
            }
        },
    }
}

/// The well-known discovery paths, in the order in which they are tried.
pub open spec fn well_known_paths() -> Seq<Seq<char>> {
    seq![
        "/.well-known/oauth-authorization-server"@,
        "/.well-known/openid_configuration"@,
        "/oauth/.well-known/oauth-authorization-server"@,
        "/.well-known/oauth_authorization_server"@,
    ]
}

/// The candidate paths: the custom path first, where one is configured, then
/// the well-known ones.
pub open spec fn candidate_paths(custom: Option<Seq<char>>) -> Seq<Seq<char>> {
    match custom {
        Some(path) => seq![path] + well_known_paths(),
        None => well_known_paths(),
    }
}

/// A custom path goes first and displaces nothing: it is the first
/// candidate, and the well-known paths follow it in their own order;
/// without one the candidates are the well-known paths.
pub proof fn law_custom_path_goes_first(custom: Seq<char>)
    ensures
        candidate_paths(Some(custom)).len() == 5,
        candidate_paths(Some(custom))[0] == custom,
        candidate_paths(Some(custom)).subrange(1, 5) == well_known_paths(),
        candidate_paths(None) == well_known_paths(),
        well_known_paths().len() == 4,
{
}

/// Lists the candidate paths in the order in which they are tried.
pub fn discovery_paths(custom_discovery_path: Option<&str>) -> (r: Vec<String>)
    ensures
        r.deep_view() == candidate_paths(custom_discovery_path.deep_view()),
{
    let mut paths: Vec<String> = Vec::new();
    match custom_discovery_path {
        Some(path) => {
            paths.push(String::from_str(path));
        },
        None => {},
    }
    paths.push(String::from_str("/.well-known/oauth-authorization-server"));
    paths.push(String::from_str("/.well-known/openid_configuration"));
    paths.push(String::from_str("/oauth/.well-known/oauth-authorization-server"));
    paths.push(String::from_str("/.well-known/oauth_authorization_server"));
    assert(paths.deep_view() =~= candidate_paths(custom_discovery_path.deep_view()));
    paths
}

/// What `url::Url::join` makes of a reference on a base: `None` where the
/// base does not parse as an absolute URL or the join reports an error, else
/// the serialization of the joined URL.
pub uninterp spec fn joined_url(base: Seq<char>, reference: Seq<char>) -> Option<Seq<char>>;

/// Calls `url::Url::parse` on the base, `Url::join` with the reference, and
/// `Url::as_str` on the result. Trusted: the outcome is a function of the two
/// strings alone, named [`joined_url`].
#[verifier::external_body]
pub(crate) fn join_url(base: &str, reference: &str) -> (r: Result<String, url::ParseError>)
    ensures
        match r {
            Ok(url) => joined_url(base@, reference@) == Some(url@),
            Err(_) => joined_url(base@, reference@) is None,
        },
{
    match url::Url::parse(base) {
        Ok(parsed) => match parsed.join(reference) {
            Ok(joined) => Ok(joined.as_str().to_string()),
            Err(e) => Err(e),
        },
        Err(e) => Err(e),
    }
}

/// The index of the first candidate at or after `from` that joins with the
/// host to a URL, or the number of candidates where there is none.
pub open spec fn next_joinable(host: Seq<char>, paths: Seq<Seq<char>>, from: nat) -> nat
    decreases paths.len() - from,
{
    if from >= paths.len() {
        paths.len()
    } else if joined_url(host, paths[from as int]) is Some {
        from
    } else {
        next_joinable(host, paths, from + 1)
    }
}

/// The URLs of the candidates at or after `from` that join with the host, in
/// candidate order.
pub open spec fn joinable_urls(host: Seq<char>, paths: Seq<Seq<char>>, from: nat) -> Seq<
    Seq<char>,
>
    decreases paths.len() - from,
{
    if from >= paths.len() {
        Seq::empty()
    } else {
        match joined_url(host, paths[from as int]) {
            Some(url) => seq![url] + joinable_urls(host, paths, from + 1),
            None => joinable_urls(host, paths, from + 1),
        }
    }
}

/// Mathematical value of a [`Discovery`].
pub struct DiscoveryModel {
    /// The issuer origin.
    pub host: Seq<char>,
    /// The candidate paths, in priority order.
    pub paths: Seq<Seq<char>>,
    /// How many candidates have been passed, probed or skipped.
    pub cursor: nat,
    /// Whether a probe is out and its outcome not yet recorded.
    pub awaiting: bool,
    /// Whether a candidate has been accepted.
    pub done: bool,
    /// The fault of the last candidate that left one.
    pub last_cause: Option<ProbeFaultModel>,
}

impl DiscoveryModel {
    /// What every reachable state satisfies.
    pub open spec fn wf(self) -> bool {
        &&& self.cursor <= self.paths.len()
        &&& self.done ==> !self.awaiting
    }

    /// The state before the first probe.
    pub open spec fn start(host: Seq<char>, custom: Option<Seq<char>>) -> DiscoveryModel {
        DiscoveryModel {
            host,
            paths: candidate_paths(custom),
            cursor: 0,
            awaiting: false,
            done: false,
            last_cause: None,
        }
    }

    /// Asking for the next probe: the next state, and the URL to fetch. The
    /// URL is that of the first candidate not yet passed that joins with the
    /// host; candidates that do not join are skipped. There is no URL, and
    /// nothing changes, while a probe is out or once a candidate has been
    /// accepted; and there is none once all candidates have been passed.
    pub open spec fn probe(self) -> (DiscoveryModel, Option<Seq<char>>) {
        if self.done || self.awaiting {
            (self, None)
        } else {
            let j = next_joinable(self.host, self.paths, self.cursor);
            if j < self.paths.len() {
                (
                    DiscoveryModel { cursor: j + 1, awaiting: true, ..self },
                    joined_url(self.host, self.paths[j as int]),
                )
            } else {
                (DiscoveryModel { cursor: j, awaiting: false, ..self }, None)
            }
        }
    }

    /// Recording the outcome of the probe that is out: the next state, and
    /// the endpoints where the candidate is accepted. A rejection keeps its
    /// fault, if it left one. Without a probe out nothing changes.
    pub open spec fn record(self, outcome: OutcomeModel) -> (DiscoveryModel, Option<
        EndpointsModel,
    >) {
        if !self.awaiting {
            (self, None)
        } else {
            match judge(outcome) {
                Verdict::Accept(endpoints) => (
                    DiscoveryModel { awaiting: false, done: true, ..self },
                    Some(endpoints),
                ),
                Verdict::Reject(cause) => (
                    DiscoveryModel {
                        awaiting: false,
                        last_cause: match cause {
                            Some(fault) => Some(fault),
                            None => self.last_cause,
                        },
                        ..self
                    },
                    None,
                ),
            }
        }
    }

    /// The error of a discovery that found nothing: the candidates passed so
    /// far and the last fault.
    pub open spec fn failure(self) -> OAuthErrorModel {
        OAuthErrorModel::DiscoveryExhausted {
            attempted: self.paths.take(self.cursor as int),
            last_cause: self.last_cause,
        }
    }
}

/// One discovery: the candidates of an issuer and how far they have been
/// tried. The caller asks for a URL with [`Discovery::next_probe`], fetches
/// it, hands the outcome to [`Discovery::record`], and repeats until
/// endpoints come back or no URL is left.
#[derive(Debug)]
pub struct Discovery {
    host: String,
    paths: Vec<String>,
    cursor: usize,
    awaiting: bool,
    done: bool,
    last_cause: Option<ProbeFault>,
}

impl View for Discovery {
    type V = DiscoveryModel;

    closed spec fn view(&self) -> DiscoveryModel {
        DiscoveryModel {
            host: self.host@,
            paths: self.paths.deep_view(),
            cursor: self.cursor as nat,
            awaiting: self.awaiting,
            done: self.done,
            last_cause: fault_view(self.last_cause),
        }
    }
}

impl Discovery {
    #[verifier::type_invariant]
    spec fn inv(self) -> bool {
        &&& self.cursor <= self.paths.len()
        &&& self.done ==> !self.awaiting
    }

    /// Prepares the discovery of the issuer at `host`, with the custom path
    /// first where one is given. Fails with `InvalidTarget` where `host` is
    /// no absolute URL.
    pub fn begin(host: &str, custom_discovery_path: Option<&str>) -> (r: Result<
        Discovery,
        OAuthError,
    >)
        ensures
            match parsed_url(host@) {
                Some(_) => r is Ok && r->Ok_0@ == DiscoveryModel::start(
                    host@,
                    custom_discovery_path.deep_view(),
                ),
                None => r is Err && r->Err_0@ == OAuthErrorModel::InvalidTarget,
            },
    {
        match parse_url(host) {
            Ok(_) => Ok(
                Discovery {
                    host: String::from_str(host),
                    paths: discovery_paths(custom_discovery_path),
                    cursor: 0,
                    awaiting: false,
                    done: false,
                    last_cause: None,
                },
            ),
            Err(_) => Err(OAuthError::InvalidTarget),
        }
    }

    /// The URL to fetch next, or `None` while the outcome of the last probe
    /// has not been recorded, once a candidate has been accepted, or once all
    /// have been passed. Probes are thus made one at a time.
    pub fn next_probe(&mut self) -> (probe: Option<String>)
        ensures
            final(self)@ == old(self)@.probe().0,
            probe.deep_view() == old(self)@.probe().1,
            final(self)@.wf(),
    {
        proof {
            use_type_invariant(&*self);
        }
        if self.done || self.awaiting {
            return None;
        }
        let ghost host = self.host@;
        let ghost paths = self.paths.deep_view();
        let ghost start = self.cursor as nat;
        let n = self.paths.len();
        let mut i = self.cursor;
        while i < n
            invariant
                self.host@ == host,
                self.paths.deep_view() == paths,
                n == self.paths.len(),
                start <= i <= n,
                next_joinable(host, paths, i as nat) == next_joinable(host, paths, start),
                *self == *old(self),
                start == old(self).cursor,
                !self.done,
                !self.awaiting,
            decreases n - i,
        {
            assert(paths[i as int] == self.paths@[i as int]@);
            match join_url(self.host.as_str(), self.paths[i].as_str()) {
                Ok(url) => {
                    self.cursor = i + 1;
                    self.awaiting = true;
                    return Some(url);
                },
                Err(_) => {
                    i += 1;
                },
            }
        }
        self.cursor = i;
        self.awaiting = false;
        None
    }

    /// Whether a probe is out and its outcome not yet recorded.
    pub fn awaiting(&self) -> (r: bool)
        ensures
            r == self@.awaiting,
    {
        self.awaiting
    }

    /// Records the outcome of the probe that is out. Returns the endpoints
    /// where the candidate is accepted; the discovery is then over.
    pub fn record(&mut self, outcome: ProbeOutcome) -> (found: Option<OidcEndpoints>)
        ensures
            final(self)@ == old(self)@.record(outcome@).0,
            found.deep_view() == old(self)@.record(outcome@).1,
            final(self)@.wf(),
    {
        proof {
            use_type_invariant(&*self);
        }
        if !self.awaiting {
            return None;
        }
        match judge_probe(outcome) {
            Ok(endpoints) => {
                self.awaiting = false;
                self.done = true;
                Some(endpoints)
            },
            Err(cause) => {
                self.awaiting = false;
                match cause {
                    Some(fault) => {
                        self.last_cause = Some(fault);
                    },
                    None => {},
                }
                None
            },
        }
    }

    /// Ends a discovery that found nothing: the error names the candidates
    /// passed and the last fault.
    pub fn into_error(self) -> (r: OAuthError)
        ensures
            r@ == self@.failure(),
    {
        proof {
            use_type_invariant(&self);
        }
        let mut attempted = self.paths;
        attempted.truncate(self.cursor);
        assert(attempted.deep_view() =~= self@.paths.take(self.cursor as int));
        OAuthError::DiscoveryExhausted { attempted, last_cause: self.last_cause }
    }
}

/// The course of one discovery: the URLs fetched, in order, and how it
/// ended.
pub struct Run {
    pub probed: Seq<Seq<char>>,
    pub result: Result<EndpointsModel, OAuthErrorModel>,
}

/// The first candidate at or after `from` that joins lies at or after `from`
/// and does join; none before it does.
pub proof fn lemma_next_joinable(host: Seq<char>, paths: Seq<Seq<char>>, from: nat)
    requires
        from <= paths.len(),
    ensures
        from <= next_joinable(host, paths, from) <= paths.len(),
        next_joinable(host, paths, from) < paths.len() ==> joined_url(
            host,
            paths[next_joinable(host, paths, from) as int],
        ) is Some,
        forall|i: int|
            from <= i < next_joinable(host, paths, from) ==> joined_url(host, #[trigger] paths[i])
                is None,
        joinable_urls(host, paths, from) == if next_joinable(host, paths, from) < paths.len() {
            seq![joined_url(host, paths[next_joinable(host, paths, from) as int])->0]
                + joinable_urls(host, paths, next_joinable(host, paths, from) + 1)
        } else {
            Seq::empty()
        },
    decreases paths.len() - from,
{
    if from < paths.len() && joined_url(host, paths[from as int]) is None {
        lemma_next_joinable(host, paths, from + 1);
    }
}

/// The fault that is left after the outcomes of `urls` have been recorded in
/// order, starting from `initial`: that of the last URL that left one.
pub open spec fn last_fault(
    urls: Seq<Seq<char>>,
    issuer: spec_fn(Seq<char>) -> OutcomeModel,
    initial: Option<ProbeFaultModel>,
) -> Option<ProbeFaultModel>
    decreases urls.len(),
{
    if urls.len() == 0 {
        initial
    } else {
        match judge(issuer(urls.last())) {
            Verdict::Reject(Some(fault)) => Some(fault),
            _ => last_fault(urls.drop_last(), issuer, initial),
        }
    }
}

impl DiscoveryModel {
    /// The course of a discovery that is run from this state to its end
    /// against an issuer that answers each URL as `issuer` says.
    pub open spec fn drive(self, issuer: spec_fn(Seq<char>) -> OutcomeModel) -> Run
        decreases self.paths.len() - self.cursor,
        when self.wf()
    {
        let (asked, probe) = self.probe();
        match probe {
            None => Run { probed: Seq::empty(), result: Err(asked.failure()) },
            Some(url) => {
                let (told, found) = asked.record(issuer(url));
                match found {
                    Some(endpoints) => Run { probed: seq![url], result: Ok(endpoints) },
                    None => {
                        proof {
                            lemma_next_joinable(self.host, self.paths, self.cursor);
                        }
                        let rest = told.drive(issuer);
                        Run { probed: seq![url] + rest.probed, result: rest.result }
                    },
                }
            },
        }
    }
}

/// A discovery stays well formed: from a well-formed state, asking for a
/// probe and recording an outcome both lead to a well-formed state, and the
/// state before the first probe is well formed.
pub proof fn law_discovery_stays_well_formed(
    m: DiscoveryModel,
    outcome: OutcomeModel,
    host: Seq<char>,
    custom: Option<Seq<char>>,
)
    requires
        m.wf(),
    ensures
        m.probe().0.wf(),
        m.record(outcome).0.wf(),
        DiscoveryModel::start(host, custom).wf(),
{
    lemma_next_joinable(m.host, m.paths, m.cursor);
}

/// Discovery is sequential, keeps the priority order and stops at the first
/// success. Run to its end against any issuer, from a state in which no
/// probe is out and no candidate accepted, a discovery fetches the URLs
/// of the candidates that are left, in candidate order and without a gap; it
/// goes on to the next one only after a rejection; it ends with the endpoints
/// of the first candidate that is accepted, and fetches nothing after it;
/// and where no candidate is accepted it has fetched them all and fails with
/// all candidate paths and the last fault that was left.
pub proof fn law_discovery_order(m: DiscoveryModel, issuer: spec_fn(Seq<char>) -> OutcomeModel)
    requires
        m.wf(),
        !m.done,
        !m.awaiting,
    ensures
        ({
            let run = m.drive(issuer);
            let urls = joinable_urls(m.host, m.paths, m.cursor);
            &&& run.probed.len() <= urls.len()
            &&& run.probed == urls.take(run.probed.len() as int)
            &&& forall|i: int|
                0 <= i < run.probed.len() - 1 ==> judge(issuer(#[trigger] run.probed[i]))
                    is Reject
            &&& match run.result {
                Ok(endpoints) => run.probed.len() > 0 && judge(issuer(run.probed.last()))
                    == Verdict::Accept(endpoints),
                Err(error) => {
                    &&& run.probed == urls
                    &&& forall|i: int|
                        0 <= i < urls.len() ==> judge(issuer(#[trigger] urls[i])) is Reject
                    &&& error == OAuthErrorModel::DiscoveryExhausted {
                        attempted: m.paths,
                        last_cause: last_fault(urls, issuer, m.last_cause),
                    }
                },
            }
        }),
    decreases m.paths.len() - m.cursor,
{
    lemma_next_joinable(m.host, m.paths, m.cursor);
    let urls = joinable_urls(m.host, m.paths, m.cursor);
    let (asked, probe) = m.probe();
    match probe {
        None => {
            assert(asked.cursor == m.paths.len());
            assert(m.paths.take(m.paths.len() as int) == m.paths);
        },
        Some(url) => {
            let (told, found) = asked.record(issuer(url));
            let tail = joinable_urls(m.host, m.paths, asked.cursor);
            assert(urls == seq![url] + tail);
            match found {
                Some(endpoints) => {
                    assert(seq![url] == urls.take(1));
                },
                None => {
                    law_discovery_order(told, issuer);
                    let rest = told.drive(issuer);
                    let run = m.drive(issuer);
                    assert(run.probed == seq![url] + rest.probed);
                    assert(run.probed == urls.take(run.probed.len() as int)) by {
                        assert(rest.probed == tail.take(rest.probed.len() as int));
                    }
                    assert forall|i: int| 0 <= i < run.probed.len() - 1 implies judge(
                        issuer(#[trigger] run.probed[i]),
                    ) is Reject by {
                        if i > 0 {
                            assert(run.probed[i] == rest.probed[i - 1]);
                        }
                    }
                    match run.result {
                        Ok(endpoints) => {
                            assert(run.probed.last() == rest.probed.last());
                        },
                        Err(error) => {
                            assert forall|i: int| 0 <= i < urls.len() implies judge(
                                issuer(#[trigger] urls[i]),
                            ) is Reject by {
                                if i > 0 {
                                    assert(urls[i] == tail[i - 1]);
                                }
                            }
                            lemma_last_fault_prepend(url, tail, issuer, m.last_cause);
                        },
                    }
                },
            }
        },
    }
}

/// Recording one more outcome first only changes the fault from which the
/// rest starts.
proof fn lemma_last_fault_prepend(
    url: Seq<char>,
    tail: Seq<Seq<char>>,
    issuer: spec_fn(Seq<char>) -> OutcomeModel,
    initial: Option<ProbeFaultModel>,
)
    ensures
        last_fault(seq![url] + tail, issuer, initial) == last_fault(
            tail,
            issuer,
            match judge(issuer(url)) {
                Verdict::Reject(Some(fault)) => Some(fault),
                _ => initial,
            },
        ),
    decreases tail.len(),
{
    let all = seq![url] + tail;
    if tail.len() == 0 {
        assert(all.drop_last() == Seq::<Seq<char>>::empty());
        assert(all.last() == url);
    } else {
        assert(all.last() == tail.last());
        assert(all.drop_last() == seq![url] + tail.drop_last());
        lemma_last_fault_prepend(url, tail.drop_last(), issuer, initial);
    }
}

} // verus!
