//! One authentication attempt from the target URL to the access token:
//! discovery, registration, authorization and exchange, in that order.
//!
//! The caller performs what each [`Action`] asks for and answers with the
//! matching [`Reply`]. The attempt is over with [`Action::Done`] or
//! [`Action::Failed`].

use vstd::prelude::*;
use crate::callback::CompletionSlot;
use crate::callback::SlotModel;
use crate::discovery::Discovery;
use crate::discovery::DiscoveryModel;
use crate::discovery::EndpointsModel;
use crate::discovery::OidcEndpoints;
use crate::discovery::OutcomeModel;
use crate::discovery::ProbeOutcome;
use crate::error::OAuthError;
use crate::error::OAuthErrorModel;
use crate::flow::FlowModel;
use crate::flow::OAuthFlow;
use crate::flow::TokenRequest;
use crate::flow::TokenRequestModel;
use crate::orchestrator::Authorization;
use crate::orchestrator::AuthorizationModel;
use crate::orchestrator::Phase;
use crate::orchestrator::Step;
use crate::orchestrator::StepModel;
use crate::pkce::is_token;
use crate::pkce::STATE_LENGTH;
use crate::pkce::VERIFIER_LENGTH;
use crate::registration::plan_registration;
use crate::registration::read_registration;
use crate::registration::registration_call_of;
use crate::registration::registration_result;
use crate::registration::ClientRegistrationRequest;
use crate::registration::RegistrationRequestModel;
use crate::resource::parsed_url;
use crate::resource::target_resource;
use crate::resource::ServiceConfig;
use crate::resource::ServiceConfigModel;

verus! {

/// How far an attempt has come.
#[derive(Clone, Copy, Debug, PartialEq, Eq, Structural)]
pub enum Stage {
    /// The issuer's endpoints are being looked for.
    Discovering,
    /// The client is being registered.
    Registering,
    /// The user authorizes, and the code is exchanged.
    Authorizing,
    /// The attempt is over.
    Finished,
}

/// What the caller reports.
#[derive(Debug, Clone, PartialEq, Eq)]
pub enum Reply {
    /// Nothing yet: the attempt starts.
    Start,
    /// The outcome of the probe that [`Action::Get`] asked for.
    Probe(ProbeOutcome),
    /// The answer to the request that [`Action::Register`] or
    /// [`Action::Exchange`] asked for.
    Http { status: u16, body: String },
    /// The wait that [`Action::Listen`] or [`Action::Wait`] asked for has
    /// ended: the listener signalled, or the bound has passed (`expired`).
    WaitEnded { expired: bool },
}

/// Mathematical value of a [`Reply`].
pub enum ReplyModel {
    Start,
    Probe(OutcomeModel),
    Http { status: u16, body: Seq<char> },
    WaitEnded { expired: bool },
}

impl View for Reply {
    type V = ReplyModel;

    open spec fn view(&self) -> ReplyModel {
        match self {
            Reply::Start => ReplyModel::Start,
            Reply::Probe(outcome) => ReplyModel::Probe(outcome@),
            Reply::Http { status, body } => ReplyModel::Http { status: *status, body: body@ },
            Reply::WaitEnded { expired } => ReplyModel::WaitEnded { expired: *expired },
        }
    }
}

/// What the caller does next.
#[derive(Debug, Clone, PartialEq, Eq)]
pub enum Action {
    /// Fetch `url` with GET and report the outcome as [`Reply::Probe`].
    Get { url: String },
    /// Post `body` as JSON to `endpoint` and report the answer as
    /// [`Reply::Http`].
    Register { endpoint: String, body: ClientRegistrationRequest },
    /// Bind the listener to `port` on the loopback address, open
    /// `authorization_url` in the browser, wait for the slot to fill, at most
    /// `timeout_secs` seconds, and report [`Reply::WaitEnded`]. If the
    /// browser does not open, show the URL to the user and wait all the same.
    Listen { port: u16, authorization_url: String, timeout_secs: u64 },
    /// Go on waiting and report [`Reply::WaitEnded`].
    Wait,
    /// Stop the listener, post the token request and report the answer as
    /// [`Reply::Http`].
    Exchange(TokenRequest),
    /// The attempt has succeeded with this access token.
    Done(String),
    /// The attempt has failed; stop the listener if it runs.
    Failed(OAuthError),
    /// The reply does not belong to the stage of the attempt; nothing has
    /// changed.
    Ignored,
}

/// Mathematical value of an [`Action`].
pub enum ActionModel {
    Get { url: Seq<char> },
    Register { endpoint: Seq<char>, body: RegistrationRequestModel },
    Listen { port: u16, authorization_url: Seq<char>, timeout_secs: u64 },
    Wait,
    Exchange(TokenRequestModel),
    Done(Seq<char>),
    Failed(OAuthErrorModel),
    Ignored,
}

impl View for Action {
    type V = ActionModel;

    open spec fn view(&self) -> ActionModel {
        match self {
            Action::Get { url } => ActionModel::Get { url: url@ },
            Action::Register { endpoint, body } => ActionModel::Register {
                endpoint: endpoint@,
                body: body@,
            },
            Action::Listen { port, authorization_url, timeout_secs } => ActionModel::Listen {
                port: *port,
                authorization_url: authorization_url@,
                timeout_secs: *timeout_secs,
            },
            Action::Wait => ActionModel::Wait,
            Action::Exchange(request) => ActionModel::Exchange(request@),
            Action::Done(token) => ActionModel::Done(token@),
            Action::Failed(error) => ActionModel::Failed(error@),
            Action::Ignored => ActionModel::Ignored,
        }
    }
}

impl ActionModel {
    /// Whether the action ends the attempt.
    pub open spec fn is_final(self) -> bool {
        self is Done || self is Failed
    }
}

/// What an attempt holds at each stage.
pub enum ProgressModel {
    Discovering(DiscoveryModel),
    Registering(EndpointsModel),
    Authorizing(AuthorizationModel),
    Finished,
}

impl ProgressModel {
    /// The stage of the attempt.
    pub open spec fn stage(self) -> Stage {
        match self {
            ProgressModel::Discovering(_) => Stage::Discovering,
            ProgressModel::Registering(_) => Stage::Registering,
            ProgressModel::Authorizing(_) => Stage::Authorizing,
            ProgressModel::Finished => Stage::Finished,
        }
    }

    /// Whether the listener is to run.
    pub open spec fn serving(self) -> bool {
        match self {
            ProgressModel::Authorizing(authorization) => authorization.phase.serving(),
            _ => false,
        }
    }
}

/// Mathematical value of an [`Authentication`].
pub struct AuthenticationModel {
    pub config: ServiceConfigModel,
    /// The canonical resource identifier of the target.
    pub resource: Seq<char>,
    pub progress: ProgressModel,
}

/// What follows the discovery of `endpoints`: the registration of a client,
/// or failure where the issuer takes no registrations.
pub open spec fn after_discovery(config: ServiceConfigModel, endpoints: EndpointsModel) -> (
    ProgressModel,
    ActionModel,
) {
    match registration_call_of(endpoints, config) {
        Some(call) => (
            ProgressModel::Registering(endpoints),
            ActionModel::Register { endpoint: call.0, body: call.1 },
        ),
        None => (
            ProgressModel::Finished,
            ActionModel::Failed(OAuthErrorModel::NoRegistrationEndpoint),
        ),
    }
}

/// One round of discovery: the outcome of the last probe is recorded, if
/// there is one; endpoints that it yields lead on to registration, and
/// otherwise the next candidate is probed or, where none is left, the
/// attempt fails.
pub open spec fn discovering(
    config: ServiceConfigModel,
    discovery: DiscoveryModel,
    outcome: Option<OutcomeModel>,
) -> (ProgressModel, ActionModel) {
    let (told, found) = match outcome {
        Some(outcome) => discovery.record(outcome),
        None => (discovery, None),
    };
    match found {
        Some(endpoints) => after_discovery(config, endpoints),
        None => {
            let (asked, probe) = told.probe();
            match probe {
                Some(url) => (ProgressModel::Discovering(asked), ActionModel::Get { url }),
                None => (ProgressModel::Finished, ActionModel::Failed(asked.failure())),
            }
        },
    }
}

/// What an answer of the registration endpoint leads to: with a client
/// identifier, an authorization with the given fresh secrets is started;
/// without one the attempt fails.
pub open spec fn after_registration(
    config: ServiceConfigModel,
    resource: Seq<char>,
    endpoints: EndpointsModel,
    status: u16,
    body: Seq<char>,
    state: Seq<char>,
    verifier: Seq<char>,
) -> (ProgressModel, ActionModel) {
    match registration_result(status, body) {
        Ok(client_id) => {
            let flow = FlowModel {
                endpoints,
                client_id,
                redirect_url: config.redirect_uri,
                state,
                verifier,
            };
            let created = AuthorizationModel { flow, resource, phase: Phase::Created };
            after_step(created.begin().0, created.begin().1)
        },
        Err(error) => (ProgressModel::Finished, ActionModel::Failed(error)),
    }
}

/// What a step of the authorization means for the attempt as a whole.
pub open spec fn after_step(authorization: AuthorizationModel, step: StepModel) -> (
    ProgressModel,
    ActionModel,
) {
    match step {
        StepModel::Listen { port, authorization_url, timeout_secs } => (
            ProgressModel::Authorizing(authorization),
            ActionModel::Listen { port, authorization_url, timeout_secs },
        ),
        StepModel::Wait => (ProgressModel::Authorizing(authorization), ActionModel::Wait),
        StepModel::Exchange(request) => (
            ProgressModel::Authorizing(authorization),
            ActionModel::Exchange(request),
        ),
        StepModel::Done(tokens) => (ProgressModel::Finished, ActionModel::Done(tokens.access_token)),
        StepModel::Failed(error) => (ProgressModel::Finished, ActionModel::Failed(error)),
        StepModel::Ignored => (ProgressModel::Authorizing(authorization), ActionModel::Ignored),
    }
}

impl AuthenticationModel {
    /// This attempt with other progress.
    pub open spec fn at(self, progress: ProgressModel) -> AuthenticationModel {
        AuthenticationModel { progress, ..self }
    }

    /// The attempt before its first step.
    pub open spec fn start(config: ServiceConfigModel, resource: Seq<char>) -> AuthenticationModel {
        AuthenticationModel {
            config,
            resource,
            progress: ProgressModel::Discovering(
                DiscoveryModel::start(config.oauth_host, config.discovery_path),
            ),
        }
    }

    /// One step of the attempt: the next state of the attempt and of the
    /// slot, and what the caller does next. `state` and `verifier` are the
    /// secrets that an authorization gets if this step starts one. A reply
    /// counts only where the attempt waits for it: the start while no probe
    /// is out, the outcome of a probe while one is out, an answer while
    /// registering or exchanging, the end of a wait while listening.
    pub open spec fn advance(
        self,
        reply: ReplyModel,
        slot: SlotModel,
        state: Seq<char>,
        verifier: Seq<char>,
    ) -> (AuthenticationModel, SlotModel, ActionModel) {
        match self.progress {
            ProgressModel::Discovering(discovery) => match reply {
                ReplyModel::Start => if discovery.awaiting {
                    (self, slot, ActionModel::Ignored)
                } else {
                    let next = discovering(self.config, discovery, None);
                    (self.at(next.0), slot, next.1)
                },
                ReplyModel::Probe(outcome) => if discovery.awaiting {
                    let next = discovering(self.config, discovery, Some(outcome));
                    (self.at(next.0), slot, next.1)
                } else {
                    (self, slot, ActionModel::Ignored)
                },
                _ => (self, slot, ActionModel::Ignored),
            },
            ProgressModel::Registering(endpoints) => match reply {
                ReplyModel::Http { status, body } => {
                    let next = after_registration(
                        self.config,
                        self.resource,
                        endpoints,
                        status,
                        body,
                        state,
                        verifier,
                    );
                    (self.at(next.0), slot, next.1)
                },
                _ => (self, slot, ActionModel::Ignored),
            },
            ProgressModel::Authorizing(authorization) => match reply {
                ReplyModel::WaitEnded { expired } => {
                    let waited = authorization.wait_ended(slot, expired);
                    let next = after_step(waited.0, waited.2);
                    (self.at(next.0), waited.1, next.1)
                },
                ReplyModel::Http { status, body } => {
                    let replied = authorization.token_reply(status, body);
                    let next = after_step(replied.0, replied.1);
                    (self.at(next.0), slot, next.1)
                },
                _ => (self, slot, ActionModel::Ignored),
            },
            ProgressModel::Finished => (self, slot, ActionModel::Ignored),
        }
    }

    /// Giving the attempt up, for a failure that the caller met on its own
    /// side: the attempt is over and the slot closed.
    pub open spec fn abort(self, slot: SlotModel) -> (AuthenticationModel, SlotModel) {
        match self.progress {
            ProgressModel::Finished => (self, slot),
            _ => (self.at(ProgressModel::Finished), SlotModel::Closed),
        }
    }
}

#[derive(Debug)]
enum Progress {
    Discovering(Discovery),
    Registering(OidcEndpoints),
    Authorizing(Authorization),
    Finished,
}

impl View for Progress {
    type V = ProgressModel;

    closed spec fn view(&self) -> ProgressModel {
        match self {
            Progress::Discovering(discovery) => ProgressModel::Discovering(discovery@),
            Progress::Registering(endpoints) => ProgressModel::Registering(endpoints@),
            Progress::Authorizing(authorization) => ProgressModel::Authorizing(authorization@),
            Progress::Finished => ProgressModel::Finished,
        }
    }
}

/// One authentication attempt in progress.
#[derive(Debug)]
pub struct Authentication {
    config: ServiceConfig,
    resource: String,
    progress: Progress,
}

impl View for Authentication {
    type V = AuthenticationModel;

    closed spec fn view(&self) -> AuthenticationModel {
        AuthenticationModel {
            config: self.config@,
            resource: self.resource@,
            progress: self.progress@,
        }
    }
}

fn leave_discovery(config: &ServiceConfig, endpoints: OidcEndpoints) -> (r: (Progress, Action))
    ensures
        (r.0@, r.1@) == after_discovery(config@, endpoints@),
{
    match plan_registration(&endpoints, config) {
        Ok(call) => (
            Progress::Registering(endpoints),
            Action::Register { endpoint: call.endpoint, body: call.body },
        ),
        Err(error) => (Progress::Finished, Action::Failed(error)),
    }
}

fn discover(config: &ServiceConfig, discovery: Discovery, outcome: Option<ProbeOutcome>) -> (r: (
    Progress,
    Action,
))
    ensures
        (r.0@, r.1@) == discovering(
            config@,
            discovery@,
            match outcome {
                Some(outcome) => Some(outcome@),
                None => None,
            },
        ),
{
    let mut discovery = discovery;
    let found = match outcome {
        Some(outcome) => discovery.record(outcome),
        None => None,
    };
    match found {
        Some(endpoints) => leave_discovery(config, endpoints),
        None => match discovery.next_probe() {
            Some(url) => (Progress::Discovering(discovery), Action::Get { url }),
            None => (Progress::Finished, Action::Failed(discovery.into_error())),
        },
    }
}

fn follow(authorization: Authorization, step: Step) -> (r: (Progress, Action))
    ensures
        (r.0@, r.1@) == after_step(authorization@, step@),
{
    match step {
        Step::Listen { port, authorization_url, timeout_secs } => (
            Progress::Authorizing(authorization),
            Action::Listen { port, authorization_url, timeout_secs },
        ),
        Step::Wait => (Progress::Authorizing(authorization), Action::Wait),
        Step::Exchange(request) => (Progress::Authorizing(authorization), Action::Exchange(request)),
        Step::Done(tokens) => (Progress::Finished, Action::Done(tokens.access_token)),
        Step::Failed(error) => (Progress::Finished, Action::Failed(error)),
        Step::Ignored => (Progress::Authorizing(authorization), Action::Ignored),
    }
}

fn leave_registration(
    config: &ServiceConfig,
    resource: &String,
    endpoints: OidcEndpoints,
    status: u16,
    body: &str,
) -> (r: (Progress, Action))
    ensures
        exists|state: Seq<char>, verifier: Seq<char>|
            is_token(state, STATE_LENGTH as nat) && is_token(verifier, VERIFIER_LENGTH as nat) && (
            r.0@,
            r.1@,
        ) == #[trigger] after_registration(
                config@,
                resource@,
                endpoints@,
                status,
                body@,
                state,
                verifier,
            ),
{
    match read_registration(status, body) {
        Ok(client_id) => {
            let flow = OAuthFlow::new(endpoints, client_id, config.redirect_uri.clone());
            let ghost state = flow@.state;
            let ghost verifier = flow@.verifier;
            let mut authorization = Authorization::new(flow, resource.clone());
            let step = authorization.begin();
            let r = follow(authorization, step);
            assert((r.0@, r.1@) == after_registration(
                config@,
                resource@,
                endpoints@,
                status,
                body@,
                state,
                verifier,
            ));
            r
        },
        Err(error) => {
            let r = (Progress::Finished, Action::Failed(error));
            proof {
                lemma_sample_tokens();
            }
            assert((r.0@, r.1@) == after_registration(
                config@,
                resource@,
                endpoints@,
                status,
                body@,
                sample_token(STATE_LENGTH as nat),
                sample_token(VERIFIER_LENGTH as nat),
            ));
            r
        },
    }
}

/// A token of the given length: the letter `a` throughout.
spec fn sample_token(len: nat) -> Seq<char> {
    Seq::new(len, |i: int| 'a')
}

/// There are tokens of the lengths of the two secrets.
proof fn lemma_sample_tokens()
    ensures
        is_token(sample_token(STATE_LENGTH as nat), STATE_LENGTH as nat),
        is_token(sample_token(VERIFIER_LENGTH as nat), VERIFIER_LENGTH as nat),
{
}

impl Authentication {
    /// Prepares the attempt to authenticate with the server behind
    /// `mcp_url`. Fails with `InvalidTarget` where the URL, or the issuer
    /// origin of the configuration, does not parse or has no host.
    pub fn begin(config: ServiceConfig, mcp_url: &str) -> (r: Result<Authentication, OAuthError>)
        ensures
            match target_resource(mcp_url@) {
                Some(resource) => match parsed_url(config@.oauth_host) {
                    Some(_) => r is Ok && r->Ok_0@ == AuthenticationModel::start(config@, resource),
                    None => r is Err && r->Err_0@ == OAuthErrorModel::InvalidTarget,
                },
                None => r is Err && r->Err_0@ == OAuthErrorModel::InvalidTarget,
            },
    {
        let resource = match config.get_canonical_resource_uri(mcp_url) {
            Ok(resource) => resource,
            Err(error) => {
                return Err(error);
            },
        };
        let custom = match &config.discovery_path {
            Some(path) => Some(path.as_str()),
            None => None,
        };
        let discovery = match Discovery::begin(config.oauth_host.as_str(), custom) {
            Ok(discovery) => discovery,
            Err(error) => {
                return Err(error);
            },
        };
        Ok(Authentication { config, resource, progress: Progress::Discovering(discovery) })
    }

    /// The stage of the attempt.
    pub fn stage(&self) -> (r: Stage)
        ensures
            r == self@.progress.stage(),
    {
        match &self.progress {
            Progress::Discovering(_) => Stage::Discovering,
            Progress::Registering(_) => Stage::Registering,
            Progress::Authorizing(_) => Stage::Authorizing,
            Progress::Finished => Stage::Finished,
        }
    }

    /// Whether the listener is to run now.
    pub fn serving(&self) -> (r: bool)
        ensures
            r == self@.progress.serving(),
    {
        match &self.progress {
            Progress::Authorizing(authorization) => authorization.serving(),
            _ => false,
        }
    }

    /// The state that a redirect must echo, once the authorization has
    /// started.
    pub fn expected_state(&self) -> (r: Option<&str>)
        ensures
            r.deep_view() == match self@.progress {
                ProgressModel::Authorizing(authorization) => Some(authorization.flow.state),
                _ => None,
            },
    {
        match &self.progress {
            Progress::Authorizing(authorization) => Some(authorization.flow().state()),
            _ => None,
        }
    }

    /// Takes the attempt one step on. The reply is judged by the stage of the
    /// attempt; the action says what the caller does next. The secrets of an
    /// authorization that this step starts are fresh random tokens.
    pub fn advance(&mut self, reply: Reply, slot: &mut CompletionSlot) -> (action: Action)
        ensures
            exists|state: Seq<char>, verifier: Seq<char>|
                is_token(state, STATE_LENGTH as nat) && is_token(verifier, VERIFIER_LENGTH as nat)
                    && (final(self)@, final(slot)@, action@) == #[trigger] old(self)@.advance(
                    reply@,
                    old(slot)@,
                    state,
                    verifier,
                ),
    {
        let ghost before = self@;
        let ghost sample_state = sample_token(STATE_LENGTH as nat);
        let ghost sample_verifier = sample_token(VERIFIER_LENGTH as nat);
        proof {
            lemma_sample_tokens();
        }
        let mut progress = Progress::Finished;
        std::mem::swap(&mut self.progress, &mut progress);
        match progress {
            Progress::Discovering(discovery) => {
                let awaiting = discovery.awaiting();
                let outcome = match reply {
                    Reply::Start if !awaiting => None,
                    Reply::Probe(outcome) if awaiting => Some(outcome),
                    _ => {
                        self.progress = Progress::Discovering(discovery);
                        assert((self@, slot@, ActionModel::Ignored) == before.advance(
                            reply@,
                            old(slot)@,
                            sample_state,
                            sample_verifier,
                        ));
                        return Action::Ignored;
                    },
                };
                let (next, action) = discover(&self.config, discovery, outcome);
                self.progress = next;
                assert((self@, slot@, action@) == before.advance(
                    reply@,
                    old(slot)@,
                    sample_state,
                    sample_verifier,
                ));
                action
            },
            Progress::Registering(endpoints) => match reply {
                Reply::Http { status, body } => {
                    let (next, action) = leave_registration(
                        &self.config,
                        &self.resource,
                        endpoints,
                        status,
                        body.as_str(),
                    );
                    let ghost secrets = choose|state: Seq<char>, verifier: Seq<char>|
                        is_token(state, STATE_LENGTH as nat) && is_token(
                            verifier,
                            VERIFIER_LENGTH as nat,
                        ) && (next@, action@) == #[trigger] after_registration(
                            before.config,
                            before.resource,
                            endpoints@,
                            status,
                            body@,
                            state,
                            verifier,
                        );
                    self.progress = next;
                    assert((self@, slot@, action@) == before.advance(
                        reply@,
                        old(slot)@,
                        secrets.0,
                        secrets.1,
                    ));
                    action
                },
                _ => {
                    self.progress = Progress::Registering(endpoints);
                    assert((self@, slot@, ActionModel::Ignored) == before.advance(
                        reply@,
                        old(slot)@,
                        sample_state,
                        sample_verifier,
                    ));
                    Action::Ignored
                },
            },
            Progress::Authorizing(authorization) => {
                let mut authorization = authorization;
                let step = match reply {
                    Reply::WaitEnded { expired } => authorization.wait_ended(slot, expired),
                    Reply::Http { status, body } => authorization.token_reply(status, body.as_str()),
                    _ => {
                        self.progress = Progress::Authorizing(authorization);
                        assert((self@, slot@, ActionModel::Ignored) == before.advance(
                            reply@,
                            old(slot)@,
                            sample_state,
                            sample_verifier,
                        ));
                        return Action::Ignored;
                    },
                };
                let (next, action) = follow(authorization, step);
                self.progress = next;
                assert((self@, slot@, action@) == before.advance(
                    reply@,
                    old(slot)@,
                    sample_state,
                    sample_verifier,
                ));
                action
            },
            Progress::Finished => {
                assert((self@, slot@, ActionModel::Ignored) == before.advance(
                    reply@,
                    old(slot)@,
                    sample_state,
                    sample_verifier,
                ));
                Action::Ignored
            },
        }
    }

    /// Gives the attempt up after a failure on the caller's side: a request
    /// could not be sent, or the listener not be bound.
    pub fn abort(&mut self, slot: &mut CompletionSlot)
        ensures
            final(self)@ == old(self)@.abort(old(slot)@).0,
            final(slot)@ == old(self)@.abort(old(slot)@).1,
    {
        match &self.progress {
            Progress::Finished => {},
            _ => {
                self.progress = Progress::Finished;
                slot.close();
            },
        }
    }
}

impl Stage {
    /// The place of a stage in the order of an attempt.
    pub open spec fn rank(self) -> nat {
        match self {
            Stage::Discovering => 0,
            Stage::Registering => 1,
            Stage::Authorizing => 2,
            Stage::Finished => 3,
        }
    }
}

/// An attempt goes through its stages in order and asks for each kind of
/// request only at its stage. Whatever is replied, the stage never goes
/// back; a probe is asked for only while discovering, a registration only on
/// leaving discovery, the listener only on leaving registration, and waiting
/// and the exchange only while authorizing; and an action that ends the
/// attempt leaves it finished.
pub proof fn law_stages_in_order(
    m: AuthenticationModel,
    reply: ReplyModel,
    slot: SlotModel,
    state: Seq<char>,
    verifier: Seq<char>,
)
    ensures
        ({
            let (next, emptied, action) = m.advance(reply, slot, state, verifier);
            let from = m.progress.stage();
            let to = next.progress.stage();
            &&& from.rank() <= to.rank()
            &&& next.config == m.config
            &&& next.resource == m.resource
            &&& action is Get ==> from == Stage::Discovering && to == Stage::Discovering
            &&& action is Register ==> from == Stage::Discovering && to == Stage::Registering
            &&& action is Listen ==> from == Stage::Registering && to == Stage::Authorizing
            &&& action is Wait ==> from == Stage::Authorizing && to == Stage::Authorizing
            &&& action is Exchange ==> from == Stage::Authorizing && to == Stage::Authorizing
            &&& action.is_final() ==> from != Stage::Finished && to == Stage::Finished
            &&& action is Ignored ==> to == from
        }),
{
}

/// An attempt fails fast and retries nothing. Once an action has ended the
/// attempt, every further reply is ignored and changes neither the attempt
/// nor the slot: no request follows a failure or a success.
pub proof fn law_finished_is_final(
    m: AuthenticationModel,
    reply: ReplyModel,
    slot: SlotModel,
    state: Seq<char>,
    verifier: Seq<char>,
)
    requires
        m.progress is Finished,
    ensures
        m.advance(reply, slot, state, verifier) == (m, slot, ActionModel::Ignored),
        m.abort(slot) == (m, slot),
{
}

/// The listener runs only while the attempt waits for the redirect. After
/// any step the listener is to run only where the action asks to listen or
/// to go on waiting, or where a reply was ignored while it ran; an action
/// that asks for the exchange or ends the attempt, and giving the attempt
/// up, leave it not to run.
pub proof fn law_listener_runs_only_while_waiting(
    m: AuthenticationModel,
    reply: ReplyModel,
    slot: SlotModel,
    state: Seq<char>,
    verifier: Seq<char>,
)
    ensures
        ({
            let (next, emptied, action) = m.advance(reply, slot, state, verifier);
            &&& next.progress.serving() ==> action is Listen || action is Wait || (action is Ignored
                && m.progress.serving())
            &&& action is Listen || action is Wait ==> next.progress.serving()
            &&& action is Exchange || action.is_final() ==> !next.progress.serving()
            &&& !m.abort(slot).0.progress.serving()
        }),
{
}

/// An attempt that times out fails and leaves nothing running. When the wait
/// of an attempt ends because the bound has passed and the slot still waits,
/// the action is failure with `AuthorizationTimeout`, the attempt is
/// finished, the listener is not to run, and the slot is closed.
pub proof fn law_attempt_times_out(
    m: AuthenticationModel,
    authorization: AuthorizationModel,
    state: Seq<char>,
    verifier: Seq<char>,
)
    requires
        m.progress == ProgressModel::Authorizing(authorization),
        authorization.phase == Phase::Listening,
    ensures
        ({
            let (next, emptied, action) = m.advance(
                ReplyModel::WaitEnded { expired: true },
                SlotModel::Waiting,
                state,
                verifier,
            );
            &&& action == ActionModel::Failed(OAuthErrorModel::AuthorizationTimeout)
            &&& next.progress is Finished
            &&& !next.progress.serving()
            &&& emptied == SlotModel::Closed
        }),
{
}

} // verus!
