use mcp_oauth::callback::handle_callback;
use mcp_oauth::callback::handle_request;
use mcp_oauth::callback::query_param;
use mcp_oauth::callback::CallbackReply;
use mcp_oauth::callback::CompletionSlot;
use mcp_oauth::callback::SlotStatus;

const EXPECTED: &str = "STATE0123456789x";

fn pairs(items: &[(&str, &str)]) -> Vec<(String, String)> {
    items.iter().map(|(k, v)| (k.to_string(), v.to_string())).collect()
}

#[test]
fn new_slot_waits() {
    assert_eq!(CompletionSlot::new().status(), SlotStatus::Waiting);
}

#[test]
fn valid_redirect_delivers_its_code() {
    let mut slot = CompletionSlot::new();
    let reply = handle_callback(&mut slot, EXPECTED, Some("xyz"), Some(EXPECTED));
    assert_eq!(reply, CallbackReply::Success);
    assert_eq!(slot.status(), SlotStatus::Delivered);
    assert_eq!(slot.collect(false), Some("xyz".to_string()));
    assert_eq!(slot.status(), SlotStatus::Closed);
    assert_eq!(slot.collect(false), None);
}

#[test]
fn wrong_state_does_not_complete_and_a_later_right_one_does() {
    let mut slot = CompletionSlot::new();
    let reply = handle_callback(&mut slot, EXPECTED, Some("abc1"), Some("wrong"));
    assert_eq!(reply, CallbackReply::StateMismatch);
    assert_eq!(slot.status(), SlotStatus::Waiting);
    assert_eq!(slot.collect(false), None);
    assert_eq!(slot.status(), SlotStatus::Waiting);

    let reply = handle_callback(&mut slot, EXPECTED, Some("abc2"), Some(EXPECTED));
    assert_eq!(reply, CallbackReply::Success);
    assert_eq!(slot.collect(false), Some("abc2".to_string()));
}

#[test]
fn state_is_compared_exactly() {
    for state in ["", "state0123456789x", "STATE0123456789", "STATE0123456789x ", "STATE0123456789xx"] {
        let mut slot = CompletionSlot::new();
        let reply = handle_callback(&mut slot, EXPECTED, Some("xyz"), Some(state));
        assert_eq!(reply, CallbackReply::StateMismatch);
        assert_eq!(slot.status(), SlotStatus::Waiting);
    }
}

#[test]
fn missing_parameters_do_not_complete() {
    let mut slot = CompletionSlot::new();
    assert_eq!(
        handle_callback(&mut slot, EXPECTED, None, Some(EXPECTED)),
        CallbackReply::MissingParameters
    );
    assert_eq!(
        handle_callback(&mut slot, EXPECTED, Some("xyz"), None),
        CallbackReply::MissingParameters
    );
    assert_eq!(handle_callback(&mut slot, EXPECTED, None, None), CallbackReply::MissingParameters);
    assert_eq!(slot.status(), SlotStatus::Waiting);
}

#[test]
fn of_two_valid_redirects_one_delivers() {
    let mut slot = CompletionSlot::new();
    let first = handle_callback(&mut slot, EXPECTED, Some("code-a"), Some(EXPECTED));
    let second = handle_callback(&mut slot, EXPECTED, Some("code-b"), Some(EXPECTED));
    let replies = [first, second];
    assert_eq!(replies.iter().filter(|r| **r == CallbackReply::Success).count(), 1);
    assert_eq!(replies.iter().filter(|r| **r == CallbackReply::AlreadyCompleted).count(), 1);
    assert_eq!(first, CallbackReply::Success);
    assert_eq!(second, CallbackReply::AlreadyCompleted);
    assert_eq!(slot.collect(false), Some("code-a".to_string()));
    assert_eq!(slot.collect(false), None);
}

#[test]
fn redirect_after_collection_is_already_completed() {
    let mut slot = CompletionSlot::new();
    handle_callback(&mut slot, EXPECTED, Some("code-a"), Some(EXPECTED));
    assert_eq!(slot.collect(false), Some("code-a".to_string()));
    let late = handle_callback(&mut slot, EXPECTED, Some("code-b"), Some(EXPECTED));
    assert_eq!(late, CallbackReply::AlreadyCompleted);
    assert_eq!(slot.status(), SlotStatus::Closed);
    assert_eq!(slot.collect(true), None);
}

#[test]
fn expired_wait_closes_the_slot() {
    let mut slot = CompletionSlot::new();
    assert_eq!(slot.collect(true), None);
    assert_eq!(slot.status(), SlotStatus::Closed);
    let late = handle_callback(&mut slot, EXPECTED, Some("xyz"), Some(EXPECTED));
    assert_eq!(late, CallbackReply::AlreadyCompleted);
    assert_eq!(slot.collect(true), None);
}

#[test]
fn code_that_arrived_in_time_is_collected_even_at_expiry() {
    let mut slot = CompletionSlot::new();
    handle_callback(&mut slot, EXPECTED, Some("xyz"), Some(EXPECTED));
    assert_eq!(slot.collect(true), Some("xyz".to_string()));
    assert_eq!(slot.status(), SlotStatus::Closed);
}

#[test]
fn closing_drops_an_uncollected_code() {
    let mut slot = CompletionSlot::new();
    handle_callback(&mut slot, EXPECTED, Some("xyz"), Some(EXPECTED));
    slot.close();
    assert_eq!(slot.status(), SlotStatus::Closed);
    assert_eq!(slot.collect(false), None);
}

#[test]
fn pages_of_the_replies() {
    assert_eq!(
        CallbackReply::Success.page(),
        "<h2>Authentication Successful!</h2><p>You can close this window and return to the application.</p>"
    );
    assert_eq!(
        CallbackReply::AlreadyCompleted.page(),
        "<h2>Error</h2><p>Authentication already completed.</p>"
    );
    assert_eq!(
        CallbackReply::StateMismatch.page(),
        "<h2>Error</h2><p>State mismatch - possible security issue.</p>"
    );
    assert_eq!(
        CallbackReply::MissingParameters.page(),
        "<h2>Error</h2><p>Authentication failed - missing parameters.</p>"
    );
}

#[test]
fn query_parameter_lookup() {
    let query = pairs(&[("code", "xyz"), ("state", EXPECTED), ("iss", "https://auth.example.com")]);
    assert_eq!(query_param(&query, "code"), Some("xyz"));
    assert_eq!(query_param(&query, "state"), Some(EXPECTED));
    assert_eq!(query_param(&query, "error"), None);
    assert_eq!(query_param(&query, "Code"), None);
    assert_eq!(query_param(&Vec::new(), "code"), None);
}

#[test]
fn repeated_query_parameter_takes_the_last() {
    let query = pairs(&[("code", "first"), ("state", EXPECTED), ("code", "second")]);
    assert_eq!(query_param(&query, "code"), Some("second"));
}

#[test]
fn request_with_query_pairs() {
    let mut slot = CompletionSlot::new();
    let stray = pairs(&[("code", "abc1"), ("state", "wrong")]);
    assert_eq!(handle_request(&mut slot, EXPECTED, &stray), CallbackReply::StateMismatch);
    let partial = pairs(&[("state", EXPECTED)]);
    assert_eq!(handle_request(&mut slot, EXPECTED, &partial), CallbackReply::MissingParameters);
    let denied = pairs(&[("error", "access_denied"), ("state", EXPECTED)]);
    assert_eq!(handle_request(&mut slot, EXPECTED, &denied), CallbackReply::MissingParameters);
    assert_eq!(slot.status(), SlotStatus::Waiting);
    let valid = pairs(&[("state", EXPECTED), ("code", "abc2")]);
    assert_eq!(handle_request(&mut slot, EXPECTED, &valid), CallbackReply::Success);
    assert_eq!(handle_request(&mut slot, EXPECTED, &valid), CallbackReply::AlreadyCompleted);
    assert_eq!(slot.collect(false), Some("abc2".to_string()));
}
