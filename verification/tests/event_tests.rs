use intend_hooks::event::{decode_event, Event, RawEvent, ServiceError};

fn raw(
    event_key: Option<&str>,
    goal_name: Option<&str>,
    username: Option<&str>,
    task_text: Option<&str>,
    task_id: Option<&str>,
    color: Option<&str>,
) -> RawEvent {
    RawEvent {
        event_key: event_key.map(|s| s.to_string()),
        goal_name: goal_name.map(|s| s.to_string()),
        username: username.map(|s| s.to_string()),
        task_text: task_text.map(|s| s.to_string()),
        task_id: task_id.map(|s| s.to_string()),
        color: color.map(|s| s.to_string()),
    }
}

#[test]
fn decode_unknown_key_yields_other() {
    let r = decode_event(raw(Some("unknown.thing"), None, None, None, None, None));
    assert!(matches!(r, Ok(Event::Other)));
}

#[test]
fn decode_unknown_key_ignores_extra_fields() {
    let r = decode_event(raw(Some("something.else"), Some("G"), Some("alice"), Some("t"), Some("x"), Some("#fff")));
    assert!(matches!(r, Ok(Event::Other)));
}

#[test]
fn decode_missing_key_is_malformed() {
    let r = decode_event(raw(None, Some("G"), Some("alice"), Some("t"), Some("x"), Some("#fff")));
    assert_eq!(r.unwrap_err(), ServiceError::MalformedEvent);
}

#[test]
fn decode_task_change_full() {
    let r = decode_event(raw(
        Some("nexa.change"), Some("G"), Some("alice"), Some("Write spec"), Some("x"), Some("#fff"),
    ));
    match r {
        Ok(Event::TaskChange { goal_name, username, nexa, colors }) => {
            assert_eq!(goal_name, "G");
            assert_eq!(username, "alice");
            assert_eq!(nexa.text, "Write spec");
            assert_eq!(nexa._id, "x");
            assert_eq!(colors.color, "#fff");
        },
        _ => panic!("expected a task-change event"),
    }
}

#[test]
fn decode_task_change_missing_payload_is_malformed() {
    let r = decode_event(raw(Some("nexa.change"), Some("G"), Some("alice"), None, Some("x"), Some("#fff")));
    assert_eq!(r.unwrap_err(), ServiceError::MalformedEvent);
    let r = decode_event(raw(Some("nexa.change"), None, Some("alice"), Some("t"), Some("x"), Some("#fff")));
    assert_eq!(r.unwrap_err(), ServiceError::MalformedEvent);
    let r = decode_event(raw(Some("nexa.change"), Some("G"), Some("alice"), Some("t"), Some("x"), None));
    assert_eq!(r.unwrap_err(), ServiceError::MalformedEvent);
}

#[test]
fn decode_timer_end() {
    let r = decode_event(raw(Some("timer.pomo.workcomplete"), None, Some("alice"), None, None, None));
    match r {
        Ok(Event::TimerEnd { username }) => assert_eq!(username, "alice"),
        _ => panic!("expected a timer-end event"),
    }
}

#[test]
fn error_status_mapping() {
    assert_eq!(ServiceError::MalformedEvent.http_status(), 400);
    assert_eq!(ServiceError::NotFound.http_status(), 404);
    assert_eq!(ServiceError::StoreReadFailed.http_status(), 500);
    assert_eq!(ServiceError::StoreWriteFailed.http_status(), 500);
    assert_eq!(ServiceError::StoreQueryFailed.http_status(), 500);
}

#[test]
fn decode_timer_end_missing_username_is_malformed() {
    let r = decode_event(raw(Some("timer.pomo.workcomplete"), None, None, None, None, None));
    assert_eq!(r.unwrap_err(), ServiceError::MalformedEvent);
}
