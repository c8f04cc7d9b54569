//! Authorization orchestrator: the state machine of one attempt, from the
//! start of the listener to the exchanged token.
//!
//! The caller performs what each step asks for and reports back: it binds
//! the listener and opens the browser, waits for the slot to fill or the
//! bound to pass, and posts the token request.

use vstd::prelude::*;
use crate::callback::collect;
use crate::callback::receive;
use crate::callback::CallbackReply;
use crate::callback::CallbackRequest;
use crate::callback::CompletionSlot;
use crate::callback::SlotModel;
use crate::error::OAuthError;
use crate::error::OAuthErrorModel;
use crate::flow::authorization_url_of;
use crate::flow::read_token_response;
use crate::flow::token_request_of;
use crate::flow::token_result;
use crate::flow::FlowModel;
use crate::flow::OAuthFlow;
use crate::flow::TokenData;
use crate::flow::TokenModel;
use crate::flow::TokenRequest;
use crate::flow::TokenRequestModel;
use crate::resource::read_url;
use crate::resource::url_of;

verus! {

/// Where an attempt stands.
#[derive(Clone, Copy, Debug, PartialEq, Eq, Structural)]
pub enum Phase {
    /// The secrets are made; nothing has been started.
    Created,
    /// The listener runs and the orchestrator waits for the code.
    Listening,
    /// The code has arrived and is being exchanged.
    CodeReceived,
    /// The bound passed without a code.
    TimedOut,
    /// The token has been obtained.
    Exchanged,
    /// The attempt has failed.
    Failed,
}

impl Phase {
    /// Whether the listener runs in this phase.
    pub open spec fn serving(self) -> bool {
        self == Phase::Listening
    }

    /// Whether the attempt is over.
    pub open spec fn is_final(self) -> bool {
        self == Phase::TimedOut || self == Phase::Exchanged || self == Phase::Failed
    }

    /// Whether an attempt may pass from this phase to `next` in one
    /// transition.
    pub open spec fn leads_to(self, next: Phase) -> bool {
        match self {
            Phase::Created => next == Phase::Listening || next == Phase::Failed,
            Phase::Listening => next == Phase::CodeReceived || next == Phase::TimedOut || next
                == Phase::Failed,
            Phase::CodeReceived => next == Phase::Exchanged || next == Phase::Failed,
            _ => false,
        }
    }
}

/// The port of the listener where the redirect URI names none.
pub const DEFAULT_CALLBACK_PORT: u16 = 8020;

/// How long the orchestrator waits for the code, in seconds.
pub const AUTHORIZATION_TIMEOUT_SECS: u64 = 120;

/// What the caller does next.
#[derive(Debug, Clone, PartialEq, Eq)]
pub enum Step {
    /// Bind the listener to `port` on the loopback address, open
    /// `authorization_url` in the browser, and wait for the slot to fill, at
    /// most `timeout_secs` seconds. If the browser does not open, show the
    /// URL to the user and wait all the same.
    Listen { port: u16, authorization_url: String, timeout_secs: u64 },
    /// Go on waiting.
    Wait,
    /// Stop the listener and post the token request.
    Exchange(TokenRequest),
    /// The attempt has succeeded with these tokens.
    Done(TokenData),
    /// The attempt has failed; stop the listener if it runs.
    Failed(OAuthError),
    /// The report does not belong to the phase of the attempt; nothing has
    /// changed.
    Ignored,
}

/// Mathematical value of a [`Step`].
pub enum StepModel {
    Listen { port: u16, authorization_url: Seq<char>, timeout_secs: u64 },
    Wait,
    Exchange(TokenRequestModel),
    Done(TokenModel),
    Failed(OAuthErrorModel),
    Ignored,
}

impl View for Step {
    type V = StepModel;

    open spec fn view(&self) -> StepModel {
        match self {
            Step::Listen { port, authorization_url, timeout_secs } => StepModel::Listen {
                port: *port,
                authorization_url: authorization_url@,
                timeout_secs: *timeout_secs,
            },
            Step::Wait => StepModel::Wait,
            Step::Exchange(request) => StepModel::Exchange(request@),
            Step::Done(tokens) => StepModel::Done(tokens@),
            Step::Failed(error) => StepModel::Failed(error@),
            Step::Ignored => StepModel::Ignored,
        }
    }
}

/// Mathematical value of an [`Authorization`].
pub struct AuthorizationModel {
    pub flow: FlowModel,
    /// The canonical resource identifier, sent with both requests.
    pub resource: Seq<char>,
    pub phase: Phase,
}

impl AuthorizationModel {
    /// This attempt in another phase.
    pub open spec fn at(self, phase: Phase) -> AuthorizationModel {
        AuthorizationModel { phase, ..self }
    }

    /// Starting the attempt. From `Created` it passes to `Listening` and asks
    /// for the listener on the port that the redirect URI states, 8020 where
    /// it states none; where the redirect URI does not parse it fails.
    pub open spec fn begin(self) -> (AuthorizationModel, StepModel) {
        if self.phase != Phase::Created {
            (self, StepModel::Ignored)
        } else {
            match url_of(self.flow.redirect_url) {
                Some(redirect) => (
                    self.at(Phase::Listening),
                    StepModel::Listen {
                        port: match redirect.port {
                            Some(port) => port,
                            None => DEFAULT_CALLBACK_PORT,
                        },
                        authorization_url: authorization_url_of(self.flow, self.resource),
                        timeout_secs: AUTHORIZATION_TIMEOUT_SECS,
                    },
                ),
                None => (
                    self.at(Phase::Failed),
                    StepModel::Failed(OAuthErrorModel::InvalidRedirectUri),
                ),
            }
        }
    }

    /// The end of a wait, because the listener signalled or because the
    /// bound passed (`expired`). While `Listening`, a code in the slot is
    /// collected and exchanged; without one the attempt times out if the
    /// bound has passed, and goes on waiting if it has not.
    pub open spec fn wait_ended(self, slot: SlotModel, expired: bool) -> (
        AuthorizationModel,
        SlotModel,
        StepModel,
    ) {
        if self.phase != Phase::Listening {
            (self, slot, StepModel::Ignored)
        } else {
            let (emptied, code) = collect(slot, expired);
            match code {
                Some(code) => (
                    self.at(Phase::CodeReceived),
                    emptied,
                    StepModel::Exchange(token_request_of(self.flow, code, self.resource)),
                ),
                None => if expired {
                    (
                        self.at(Phase::TimedOut),
                        emptied,
                        StepModel::Failed(OAuthErrorModel::AuthorizationTimeout),
                    )
                } else {
                    (self, emptied, StepModel::Wait)
                },
            }
        }
    }

    /// The answer of the token endpoint. While `CodeReceived`, the attempt
    /// ends with the tokens or with the failure that the answer amounts to.
    pub open spec fn token_reply(self, status: u16, body: Seq<char>) -> (
        AuthorizationModel,
        StepModel,
    ) {
        if self.phase != Phase::CodeReceived {
            (self, StepModel::Ignored)
        } else {
            match token_result(status, body) {
                Ok(tokens) => (self.at(Phase::Exchanged), StepModel::Done(tokens)),
                Err(error) => (self.at(Phase::Failed), StepModel::Failed(error)),
            }
        }
    }

    /// Giving the attempt up, for a failure that the caller met on its own
    /// side. An attempt that is not over fails, and the slot is closed.
    pub open spec fn abort(self, slot: SlotModel) -> (AuthorizationModel, SlotModel) {
        if self.phase.is_final() {
            (self, slot)
        } else {
            (self.at(Phase::Failed), SlotModel::Closed)
        }
    }
}

/// One authentication attempt in progress.
#[derive(Debug)]
pub struct Authorization {
    flow: OAuthFlow,
    resource: String,
    phase: Phase,
}

impl View for Authorization {
    type V = AuthorizationModel;

    closed spec fn view(&self) -> AuthorizationModel {
        AuthorizationModel { flow: self.flow@, resource: self.resource@, phase: self.phase }
    }
}

impl Authorization {
    /// An attempt that has not been started.
    pub fn new(flow: OAuthFlow, resource: String) -> (r: Authorization)
        ensures
            r@ == (AuthorizationModel { flow: flow@, resource: resource@, phase: Phase::Created }),
    {
        Authorization { flow, resource, phase: Phase::Created }
    }

    /// Where the attempt stands.
    pub fn phase(&self) -> (r: Phase)
        ensures
            r == self@.phase,
    {
        self.phase
    }

    /// Whether the listener is to run now.
    pub fn serving(&self) -> (r: bool)
        ensures
            r == self@.phase.serving(),
    {
        match self.phase {
            Phase::Listening => true,
            _ => false,
        }
    }

    /// The secrets and endpoints of the attempt.
    pub fn flow(&self) -> (r: &OAuthFlow)
        ensures
            r@ == self@.flow,
    {
        &self.flow
    }

    /// Starts the attempt.
    pub fn begin(&mut self) -> (step: Step)
        ensures
            final(self)@ == old(self)@.begin().0,
            step@ == old(self)@.begin().1,
    {
        match self.phase {
            Phase::Created => {},
            _ => {
                return Step::Ignored;
            },
        }
        match read_url(self.flow.redirect_url()) {
            Some(redirect) => {
                let port = match redirect.port {
                    Some(port) => port,
                    None => DEFAULT_CALLBACK_PORT,
                };
                let authorization_url = self.flow.get_authorization_url(self.resource.as_str());
                self.phase = Phase::Listening;
                Step::Listen { port, authorization_url, timeout_secs: AUTHORIZATION_TIMEOUT_SECS }
            },
            None => {
                self.phase = Phase::Failed;
                Step::Failed(OAuthError::InvalidRedirectUri)
            },
        }
    }

    /// Reports the end of a wait: the listener signalled, or the bound has
    /// passed (`expired`).
    pub fn wait_ended(&mut self, slot: &mut CompletionSlot, expired: bool) -> (step: Step)
        ensures
            final(self)@ == old(self)@.wait_ended(old(slot)@, expired).0,
            final(slot)@ == old(self)@.wait_ended(old(slot)@, expired).1,
            step@ == old(self)@.wait_ended(old(slot)@, expired).2,
    {
        match self.phase {
            Phase::Listening => {},
            _ => {
                return Step::Ignored;
            },
        }
        match slot.collect(expired) {
            Some(code) => {
                let request = self.flow.token_request(code.as_str(), self.resource.as_str());
                self.phase = Phase::CodeReceived;
                Step::Exchange(request)
            },
            None => {
                if expired {
                    self.phase = Phase::TimedOut;
                    Step::Failed(OAuthError::AuthorizationTimeout)
                } else {
                    Step::Wait
                }
            },
        }
    }

    /// Reports the answer of the token endpoint.
    pub fn token_reply(&mut self, status: u16, body: &str) -> (step: Step)
        ensures
            final(self)@ == old(self)@.token_reply(status, body@).0,
            step@ == old(self)@.token_reply(status, body@).1,
    {
        match self.phase {
            Phase::CodeReceived => {},
            _ => {
                return Step::Ignored;
            },
        }
        match read_token_response(status, body) {
            Ok(tokens) => {
                self.phase = Phase::Exchanged;
                Step::Done(tokens)
            },
            Err(error) => {
                self.phase = Phase::Failed;
                Step::Failed(error)
            },
        }
    }

    /// Gives the attempt up after a failure on the caller's side: the
    /// listener could not be bound, or the token endpoint not be reached.
    pub fn abort(&mut self, slot: &mut CompletionSlot)
        ensures
            final(self)@ == old(self)@.abort(old(slot)@).0,
            final(slot)@ == old(self)@.abort(old(slot)@).1,
    {
        match self.phase {
            Phase::TimedOut | Phase::Exchanged | Phase::Failed => {},
            _ => {
                self.phase = Phase::Failed;
                slot.close();
            },
        }
    }
}

/// An attempt without a redirect times out and leaves nothing running. When
/// the bound passes while the attempt listens and the slot still waits, the
/// attempt fails with `AuthorizationTimeout`, the listener is no longer to
/// run, and the slot is closed, so that no later redirect is answered with
/// success or delivers a code.
pub proof fn law_timeout(m: AuthorizationModel, expected: Seq<char>, late: CallbackRequest)
    requires
        m.phase == Phase::Listening,
    ensures
        ({
            let (after, slot, step) = m.wait_ended(SlotModel::Waiting, true);
            &&& step == StepModel::Failed(OAuthErrorModel::AuthorizationTimeout)
            &&& after.phase == Phase::TimedOut
            &&& !after.phase.serving()
            &&& slot == SlotModel::Closed
            &&& receive(slot, expected, late).0 == SlotModel::Closed
            &&& receive(slot, expected, late).1 != CallbackReply::Success
        }),
{
}

/// The listener is stopped on every way out. Whatever is reported in
/// whatever phase, an attempt moves only along the order of the phases; the
/// listener is to run in `Listening` and in no other phase; only the start
/// of an attempt enters `Listening`; and a step that asks for the exchange,
/// reports success or reports failure leaves the attempt in a phase in which
/// the listener is not to run.
pub proof fn law_listener_is_scoped(
    m: AuthorizationModel,
    slot: SlotModel,
    expired: bool,
    status: u16,
    body: Seq<char>,
)
    ensures
        ({
            let begun = m.begin();
            let waited = m.wait_ended(slot, expired);
            let replied = m.token_reply(status, body);
            let aborted = m.abort(slot);
            &&& begun.0.phase == m.phase || m.phase.leads_to(begun.0.phase)
            &&& waited.0.phase == m.phase || m.phase.leads_to(waited.0.phase)
            &&& replied.0.phase == m.phase || m.phase.leads_to(replied.0.phase)
            &&& aborted.0.phase == m.phase || m.phase.leads_to(aborted.0.phase)
            &&& begun.0.phase.serving() ==> m.phase == Phase::Created || m.phase == Phase::Listening
            &&& waited.0.phase.serving() ==> m.phase == Phase::Listening && waited.2
                == StepModel::Wait
            &&& replied.0.phase.serving() ==> m.phase == Phase::Listening
            &&& !aborted.0.phase.serving()
            &&& begun.1 is Failed ==> !begun.0.phase.serving()
            &&& (waited.2 is Exchange || waited.2 is Failed) ==> !waited.0.phase.serving()
            &&& (replied.1 is Done || replied.1 is Failed) ==> !replied.0.phase.serving()
        }),
{
}

/// An attempt that is over stays as it is: every report is ignored.
pub proof fn law_final_phases_are_final(
    m: AuthorizationModel,
    slot: SlotModel,
    expired: bool,
    status: u16,
    body: Seq<char>,
)
    requires
        m.phase.is_final(),
    ensures
        m.begin() == (m, StepModel::Ignored),
        m.wait_ended(slot, expired) == (m, slot, StepModel::Ignored),
        m.token_reply(status, body) == (m, StepModel::Ignored),
        m.abort(slot) == (m, slot),
{
}

} // verus!
