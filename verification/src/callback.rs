//! Callback listener: judges each redirect that reaches the local endpoint
//! and hands the authorization code over exactly once.

use vstd::prelude::*;
use vstd::string::StringExecFns;
use crate::text::str_eq;

verus! {

#[derive(Debug)]
enum SlotState {
    Waiting,
    Delivered(String),
    Closed,
}

/// The one-shot slot through which the listener hands the authorization code
/// to the waiting orchestrator. It takes one code from one redirect and gives
/// it out once. Only a valid redirect fills it, and only the orchestrator
/// empties it.
#[derive(Debug)]
pub struct CompletionSlot {
    state: SlotState,
}

/// Mathematical value of a [`CompletionSlot`].
pub enum SlotModel {
    /// No code has arrived, and the orchestrator waits.
    Waiting,
    /// A code has arrived and has not been collected.
    Delivered(Seq<char>),
    /// The code has been collected, or the wait has been given up.
    Closed,
}

impl View for CompletionSlot {
    type V = SlotModel;

    closed spec fn view(&self) -> SlotModel {
        match self.state {
            SlotState::Waiting => SlotModel::Waiting,
            SlotState::Delivered(code) => SlotModel::Delivered(code@),
            SlotState::Closed => SlotModel::Closed,
        }
    }
}

/// What can be seen of a slot from outside.
#[derive(Clone, Copy, Debug, PartialEq, Eq, Structural)]
pub enum SlotStatus {
    /// No code has arrived, and the orchestrator waits.
    Waiting,
    /// A code has arrived and has not been collected.
    Delivered,
    /// The code has been collected, or the wait has been given up.
    Closed,
}

impl SlotModel {
    /// The status of a slot.
    pub open spec fn status(self) -> SlotStatus {
        match self {
            SlotModel::Waiting => SlotStatus::Waiting,
            SlotModel::Delivered(_) => SlotStatus::Delivered,
            SlotModel::Closed => SlotStatus::Closed,
        }
    }
}

/// What the listener answers to one redirect.
#[derive(Clone, Copy, Debug, PartialEq, Eq, Structural)]
pub enum CallbackReply {
    /// The code was handed over.
    Success,
    /// A code had been handed over before, or nobody waits any more; this one
    /// is dropped.
    AlreadyCompleted,
    /// The `state` is not the one of this attempt.
    StateMismatch,
    /// `code` or `state` is missing.
    MissingParameters,
}

impl CallbackReply {
    /// The page that the browser is shown.
    pub open spec fn page_text(self) -> Seq<char> {
        match self {
            CallbackReply::Success =>
                "<h2>Authentication Successful!</h2><p>You can close this window and return to the application.</p>"@,
            CallbackReply::AlreadyCompleted =>
                "<h2>Error</h2><p>Authentication already completed.</p>"@,
            CallbackReply::StateMismatch =>
                "<h2>Error</h2><p>State mismatch - possible security issue.</p>"@,
            CallbackReply::MissingParameters =>
                "<h2>Error</h2><p>Authentication failed - missing parameters.</p>"@,
        }
    }

    /// The page that the browser is shown.
    pub fn page(&self) -> (r: &'static str)
        ensures
            r@ == self.page_text(),
    {
        match self {
            CallbackReply::Success =>
                "<h2>Authentication Successful!</h2><p>You can close this window and return to the application.</p>",
            CallbackReply::AlreadyCompleted =>
                "<h2>Error</h2><p>Authentication already completed.</p>",
            CallbackReply::StateMismatch =>
                "<h2>Error</h2><p>State mismatch - possible security issue.</p>",
            CallbackReply::MissingParameters =>
                "<h2>Error</h2><p>Authentication failed - missing parameters.</p>",
        }
    }
}

/// The query parameters of one redirect that the listener reads.
pub struct CallbackRequest {
    pub code: Option<Seq<char>>,
    pub state: Option<Seq<char>>,
}

impl CallbackRequest {
    /// Whether the redirect carries a code and the expected state.
    pub open spec fn is_valid(self, expected: Seq<char>) -> bool {
        self.code is Some && self.state == Some(expected)
    }
}

/// The slot after one redirect, and the answer to it. A redirect without
/// `code` or `state`, or with another state than the expected one, leaves the
/// slot as it is. A valid redirect fills a waiting slot; at any other slot it
/// is answered as already completed and its code is dropped.
pub open spec fn receive(slot: SlotModel, expected: Seq<char>, request: CallbackRequest) -> (
    SlotModel,
    CallbackReply,
) {
    match (request.code, request.state) {
        (Some(code), Some(state)) => if state == expected {
            match slot {
                SlotModel::Waiting => (SlotModel::Delivered(code), CallbackReply::Success),
                _ => (slot, CallbackReply::AlreadyCompleted),
            }
        } else {
            (slot, CallbackReply::StateMismatch)
        },
        _ => (slot, CallbackReply::MissingParameters),
    }
}

/// The slot after the orchestrator has looked into it, and the code that it
/// found. A delivered code is taken and the slot closed. A waiting slot is
/// closed where the wait has expired, and left waiting otherwise.
pub open spec fn collect(slot: SlotModel, expired: bool) -> (SlotModel, Option<Seq<char>>) {
    match slot {
        SlotModel::Delivered(code) => (SlotModel::Closed, Some(code)),
        SlotModel::Waiting => if expired {
            (SlotModel::Closed, None)
        } else {
            (SlotModel::Waiting, None)
        },
        SlotModel::Closed => (SlotModel::Closed, None),
    }
}

impl CompletionSlot {
    /// A slot that waits for its code.
    pub fn new() -> (r: CompletionSlot)
        ensures
            r@ == SlotModel::Waiting,
    {
        CompletionSlot { state: SlotState::Waiting }
    }

    /// Whether the slot waits, holds a code, or is closed.
    pub fn status(&self) -> (r: SlotStatus)
        ensures
            r == self@.status(),
    {
        match &self.state {
            SlotState::Waiting => SlotStatus::Waiting,
            SlotState::Delivered(_) => SlotStatus::Delivered,
            SlotState::Closed => SlotStatus::Closed,
        }
    }

    /// Takes the code out of the slot, if one has arrived; gives up waiting
    /// where `expired` says that the bound has passed.
    pub fn collect(&mut self, expired: bool) -> (code: Option<String>)
        ensures
            final(self)@ == collect(old(self)@, expired).0,
            code.deep_view() == collect(old(self)@, expired).1,
    {
        let mut taken = SlotState::Closed;
        std::mem::swap(&mut self.state, &mut taken);
        match taken {
            SlotState::Delivered(code) => Some(code),
            SlotState::Waiting => {
                if !expired {
                    self.state = SlotState::Waiting;
                }
                None
            },
            SlotState::Closed => None,
        }
    }

    /// Closes the slot: a code that was not collected is dropped, and later
    /// redirects are answered as already completed.
    pub fn close(&mut self)
        ensures
            final(self)@ == SlotModel::Closed,
    {
        self.state = SlotState::Closed;
    }
}

/// Judges one redirect: `code` and `received_state` are its query
/// parameters, `expected_state` the state of this attempt.
pub fn handle_callback(
    slot: &mut CompletionSlot,
    expected_state: &str,
    code: Option<&str>,
    received_state: Option<&str>,
) -> (reply: CallbackReply)
    ensures
        (final(slot)@, reply) == receive(
            old(slot)@,
            expected_state@,
            CallbackRequest { code: code.deep_view(), state: received_state.deep_view() },
        ),
{
    match (code, received_state) {
        (Some(code), Some(state)) => {
            if str_eq(state, expected_state) {
                match &slot.state {
                    SlotState::Waiting => {
                        slot.state = SlotState::Delivered(String::from_str(code));
                        CallbackReply::Success
                    },
                    _ => CallbackReply::AlreadyCompleted,
                }
            } else {
                CallbackReply::StateMismatch
            }
        },
        _ => CallbackReply::MissingParameters,
    }
}

/// The value of the last pair with the given key, as a query string with a
/// repeated key is read.
pub open spec fn last_value(pairs: Seq<(Seq<char>, Seq<char>)>, key: Seq<char>) -> Option<
    Seq<char>,
>
    decreases pairs.len(),
{
    if pairs.len() == 0 {
        None
    } else if pairs.last().0 == key {
        Some(pairs.last().1)
    } else {
        last_value(pairs.drop_last(), key)
    }
}

/// Of a repeated key the last pair counts. Where the lookup finds a value,
/// it is that of a pair with the key after which no pair has the key; where
/// it finds none, no pair has the key.
pub proof fn law_last_pair_counts(pairs: Seq<(Seq<char>, Seq<char>)>, key: Seq<char>)
    ensures
        match last_value(pairs, key) {
            Some(value) => exists|i: int|
                0 <= i < pairs.len() && #[trigger] pairs[i] == (key, value) && forall|j: int|
                    i < j < pairs.len() ==> (#[trigger] pairs[j]).0 != key,
            None => forall|j: int| 0 <= j < pairs.len() ==> (#[trigger] pairs[j]).0 != key,
        },
    decreases pairs.len(),
{
    if pairs.len() > 0 {
        if pairs.last().0 == key {
            assert(pairs[pairs.len() - 1] == (key, pairs.last().1));
        } else {
            law_last_pair_counts(pairs.drop_last(), key);
            let before = pairs.drop_last();
            match last_value(before, key) {
                Some(value) => {
                    let i = choose|i: int|
                        0 <= i < before.len() && #[trigger] before[i] == (key, value) && forall|
                            j: int,
                        |
                            i < j < before.len() ==> (#[trigger] before[j]).0 != key;
                    assert(pairs[i] == before[i]);
                    assert forall|j: int| i < j < pairs.len() implies (#[trigger] pairs[j]).0
                        != key by {
                        if j < before.len() {
                            assert(pairs[j] == before[j]);
                        }
                    }
                },
                None => {
                    assert forall|j: int| 0 <= j < pairs.len() implies (#[trigger] pairs[j]).0
                        != key by {
                        if j < before.len() {
                            assert(pairs[j] == before[j]);
                        }
                    }
                },
            }
        }
    }
}

/// Looks a query parameter up in the decoded pairs of a query string.
pub fn query_param<'a>(pairs: &'a Vec<(String, String)>, key: &str) -> (r: Option<&'a str>)
    ensures
        r.deep_view() == last_value(pairs.deep_view(), key@),
{
    let mut i = pairs.len();
    assert(pairs.deep_view().take(i as int) == pairs.deep_view());
    while i > 0
        invariant
            i <= pairs.len(),
            last_value(pairs.deep_view(), key@) == last_value(
                pairs.deep_view().take(i as int),
                key@,
            ),
        decreases i,
    {
        let ghost prefix = pairs.deep_view().take(i as int);
        assert(prefix.last() == pairs.deep_view()[i - 1]);
        assert(prefix.drop_last() == pairs.deep_view().take(i - 1));
        if str_eq(pairs[i - 1].0.as_str(), key) {
            return Some(pairs[i - 1].1.as_str());
        }
        i -= 1;
    }
    None
}

/// Judges the redirect whose query string decoded to `pairs`.
pub fn handle_request(slot: &mut CompletionSlot, expected_state: &str, pairs: &Vec<(String, String)>) -> (reply: CallbackReply)
    ensures
        (final(slot)@, reply) == receive(
            old(slot)@,
            expected_state@,
            CallbackRequest {
                code: last_value(pairs.deep_view(), "code"@),
                state: last_value(pairs.deep_view(), "state"@),
            },
        ),
{
    let code = query_param(pairs, "code");
    let received_state = query_param(pairs, "state");
    handle_callback(slot, expected_state, code, received_state)
}

/// The slot after a run of redirects, and the answers to them, in order.
pub open spec fn receive_all(slot: SlotModel, expected: Seq<char>, requests: Seq<CallbackRequest>) -> (
    SlotModel,
    Seq<CallbackReply>,
)
    decreases requests.len(),
{
    if requests.len() == 0 {
        (slot, Seq::empty())
    } else {
        let before = receive_all(slot, expected, requests.drop_last());
        let last = receive(before.0, expected, requests.last());
        (last.0, before.1.push(last.1))
    }
}

/// A redirect with a wrong state does not complete the wait. Whatever
/// redirects without the expected state arrive, the slot keeps waiting and
/// none of them is answered with success; a redirect with the expected state
/// that follows them is answered with success, and its code is the one that
/// the orchestrator collects.
pub proof fn law_wrong_state_does_not_complete(
    expected: Seq<char>,
    stray: Seq<CallbackRequest>,
    code: Seq<char>,
    expired: bool,
)
    requires
        forall|i: int| 0 <= i < stray.len() ==> (#[trigger] stray[i]).state != Some(expected),
    ensures
        ({
            let (slot, replies) = receive_all(SlotModel::Waiting, expected, stray);
            let valid = CallbackRequest { code: Some(code), state: Some(expected) };
            &&& slot == SlotModel::Waiting
            &&& replies.len() == stray.len()
            &&& forall|i: int| 0 <= i < replies.len() ==> #[trigger] replies[i] != CallbackReply::Success
            &&& receive(slot, expected, valid) == (SlotModel::Delivered(code), CallbackReply::Success)
            &&& collect(SlotModel::Delivered(code), expired) == (SlotModel::Closed, Some(code))
        }),
    decreases stray.len(),
{
    if stray.len() > 0 {
        let earlier = stray.drop_last();
        assert forall|i: int| 0 <= i < earlier.len() implies (#[trigger] earlier[i]).state != Some(
            expected,
        ) by {
            assert(earlier[i] == stray[i]);
        }
        law_wrong_state_does_not_complete(expected, earlier, code, expired);
        assert(stray.last() == stray[stray.len() - 1]);
    }
}

/// Of any number of valid redirects exactly one delivers. Whatever the order
/// in which redirects with a code and the expected state reach a waiting
/// slot, the first is answered with success and every other one as already
/// completed, and the code that the orchestrator collects is that of the
/// first.
pub proof fn law_exactly_one_delivery(
    expected: Seq<char>,
    requests: Seq<CallbackRequest>,
    expired: bool,
)
    requires
        requests.len() >= 1,
        forall|i: int| 0 <= i < requests.len() ==> (#[trigger] requests[i]).is_valid(expected),
    ensures
        ({
            let (slot, replies) = receive_all(SlotModel::Waiting, expected, requests);
            &&& replies.len() == requests.len()
            &&& replies[0] == CallbackReply::Success
            &&& forall|i: int| 1 <= i < replies.len() ==> #[trigger] replies[i] == CallbackReply::AlreadyCompleted
            &&& slot == SlotModel::Delivered(requests[0].code->0)
            &&& collect(slot, expired) == (SlotModel::Closed, requests[0].code)
        }),
    decreases requests.len(),
{
    let earlier = requests.drop_last();
    assert(requests.last() == requests[requests.len() - 1]);
    assert(requests.last().is_valid(expected));
    if earlier.len() == 0 {
        assert(receive_all(SlotModel::Waiting, expected, earlier).0 == SlotModel::Waiting);
    } else {
        assert forall|i: int| 0 <= i < earlier.len() implies (#[trigger] earlier[i]).is_valid(
            expected,
        ) by {
            assert(earlier[i] == requests[i]);
        }
        law_exactly_one_delivery(expected, earlier, expired);
        assert(earlier[0] == requests[0]);
    }
}

/// A closed slot stays closed and delivers nothing: after the code has been
/// collected or the wait given up, no redirect is answered with success.
pub proof fn law_closed_slot_stays_closed(expected: Seq<char>, request: CallbackRequest, expired: bool)
    ensures
        receive(SlotModel::Closed, expected, request).0 == SlotModel::Closed,
        receive(SlotModel::Closed, expected, request).1 != CallbackReply::Success,
        collect(SlotModel::Closed, expired) == (SlotModel::Closed, None::<Seq<char>>),
{
}

} // verus!
