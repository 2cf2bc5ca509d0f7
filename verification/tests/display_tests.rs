use clipboard_translator::display::{
    on_delivery, render, ContentState, Delivery, DisplayUpdate, TRUNCATION_NOTE,
};
use clipboard_translator::response::Outcome;

#[test]
fn success_is_shown_as_it_is() {
    assert_eq!(render(Outcome::Success("訳文".to_string())), Ok("訳文".to_string()));
    assert_eq!(render(Outcome::Success(String::new())), Ok(String::new()));
}

#[test]
fn truncated_text_is_shown_with_the_caveat() {
    assert_eq!(
        render(Outcome::Truncated("half an answer".to_string())),
        Ok("half an answer\n\n---\n[警告: 出力がトークン上限に達したため途中で切れています]".to_string())
    );
    assert_eq!(render(Outcome::Truncated(String::new())), Ok(TRUNCATION_NOTE.to_string()));
}

#[test]
fn blocked_message_lists_the_categories() {
    assert_eq!(
        render(Outcome::Blocked("SAFETY".to_string(), vec![])),
        Err("content blocked: SAFETY".to_string())
    );
    assert_eq!(
        render(Outcome::Blocked("safety filter".to_string(), vec!["A".to_string()])),
        Err("content blocked: safety filter (A)".to_string())
    );
    assert_eq!(
        render(Outcome::Blocked(
            "safety filter".to_string(),
            vec!["A".to_string(), "B".to_string(), "C".to_string()]
        )),
        Err("content blocked: safety filter (A, B, C)".to_string())
    );
}

#[test]
fn failure_message_is_the_error() {
    assert_eq!(
        render(Outcome::Failed("empty response".to_string())),
        Err("empty response".to_string())
    );
}

#[test]
fn empty_channel_keeps_waiting() {
    assert_eq!(
        on_delivery(Delivery::Empty),
        DisplayUpdate { state: None, notify: None, finished: false, release_guard: false, repaint: true }
    );
}

#[test]
fn arrived_text_is_ready() {
    assert_eq!(
        on_delivery(Delivery::Arrived(Ok("text".to_string()))),
        DisplayUpdate {
            state: Some(ContentState::Ready("text".to_string())),
            notify: None,
            finished: true,
            release_guard: false,
            repaint: false,
        }
    );
}

#[test]
fn arrived_error_is_shown_and_raised() {
    assert_eq!(
        on_delivery(Delivery::Arrived(Err("API Error 404: x".to_string()))),
        DisplayUpdate {
            state: Some(ContentState::Error("API Error 404: x".to_string())),
            notify: Some("API Error 404: x".to_string()),
            finished: true,
            release_guard: false,
            repaint: false,
        }
    );
}

#[test]
fn lost_worker_ends_the_request() {
    assert_eq!(
        on_delivery(Delivery::Disconnected),
        DisplayUpdate {
            state: Some(ContentState::Error("接続が切断されました".to_string())),
            notify: None,
            finished: true,
            release_guard: true,
            repaint: false,
        }
    );
}
