use intend_hooks::event::{decode_event, Event, RawEvent, ServiceError};
use intend_hooks::service::{
    build_task_change_task, build_task_change_user, current_task_ref, get_user_current_task,
    get_user_tasks, handle_task_change, handle_timer_end, next_pomodoro_count, process_event,
    update_message, update_speed_rating,
};
use intend_hooks::store::{FirestoreTask, Store, User};

fn task_change(goal: &str, user: &str, text: &str, color: &str) -> Event {
    let r = decode_event(RawEvent {
        event_key: Some("nexa.change".to_string()),
        goal_name: Some(goal.to_string()),
        username: Some(user.to_string()),
        task_text: Some(text.to_string()),
        task_id: Some("x".to_string()),
        color: Some(color.to_string()),
    });
    r.unwrap()
}

fn timer_end(user: &str) -> Event {
    let r = decode_event(RawEvent {
        event_key: Some("timer.pomo.workcomplete".to_string()),
        goal_name: None,
        username: Some(user.to_string()),
        task_text: None,
        task_id: None,
        color: None,
    });
    r.unwrap()
}

#[test]
fn webhook_task_change_end_to_end() {
    let mut store = Store::new();
    let event = task_change("G", "alice", "Write spec", "#fff");
    let resp = process_event(&mut store, event, 100);

    let task = resp.task.expect("task half populated");
    assert_eq!(task.task_name, "Write spec");
    assert_eq!(task.goal_name, "G");
    assert_eq!(task.username, "alice");
    assert_eq!(task.color, "#fff");
    assert_eq!(task.updated_at, 100);
    assert!(task.message.is_none());
    assert!(task.speed_rating.is_none());

    let user = resp.user.expect("user half populated");
    assert_eq!(user.id, "alice");
    assert_eq!(user.current_task_id, "Write spec");
    assert_eq!(user.pomodoro_spent, 0);

    // The task read back by name is the one the event wrote.
    let back = store.task_by_name(&"Write spec".to_string()).expect("task stored");
    assert_eq!(back.goal_name, "G");
    assert_eq!(back.username, "alice");
    assert_eq!(back.color, "#fff");
    assert_eq!(back.updated_at, 100);
}

#[test]
fn unknown_event_is_a_no_op() {
    let mut store = Store::new();
    let event = decode_event(RawEvent {
        event_key: Some("unknown.thing".to_string()),
        goal_name: None,
        username: None,
        task_text: None,
        task_id: None,
        color: None,
    })
    .unwrap();
    let resp = process_event(&mut store, event, 7);
    assert!(resp.task.is_none());
    assert!(resp.user.is_none());
    assert!(store.tasks.is_empty());
    assert!(store.users.is_empty());
}

#[test]
fn timer_end_counts_from_zero() {
    let mut store = Store::new();
    // A first-ever timer end for an unknown user yields 0, not 1.
    let u = handle_timer_end(&mut store, "bob".to_string());
    assert_eq!(u.pomodoro_spent, 0);
    assert_eq!(u.id, "bob");
    assert_eq!(u.current_task_id, "");
    // A known user's count is incremented.
    let u = handle_timer_end(&mut store, "bob".to_string());
    assert_eq!(u.pomodoro_spent, 1);
    let u = handle_timer_end(&mut store, "bob".to_string());
    assert_eq!(u.pomodoro_spent, 2);
}

#[test]
fn timer_end_keeps_current_task() {
    let mut store = Store::new();
    let (_t, u) = handle_task_change(
        &mut store,
        "G".to_string(),
        "alice".to_string(),
        intend_hooks::event::TaskData { text: "Write spec".to_string(), _id: "x".to_string() },
        intend_hooks::event::Colors { color: "#fff".to_string() },
        50,
    );
    assert_eq!(u.current_task_id, "Write spec");
    // The timer-end write lists only {id, pomodoro_spent}: the stored
    // current task stays untouched.
    let u = handle_timer_end(&mut store, "alice".to_string());
    assert_eq!(u.current_task_id, "Write spec");
    assert_eq!(u.pomodoro_spent, 1);
}

#[test]
fn task_change_resets_pomodoro() {
    let mut store = Store::new();
    let u = handle_timer_end(&mut store, "alice".to_string());
    assert_eq!(u.pomodoro_spent, 0);
    let u = handle_timer_end(&mut store, "alice".to_string());
    assert_eq!(u.pomodoro_spent, 1);
    let resp = process_event(&mut store, task_change("G", "alice", "T", "#abc"), 10);
    let user = resp.user.expect("user half populated");
    assert_eq!(user.pomodoro_spent, 0);
    assert_eq!(user.current_task_id, "T");
}

#[test]
fn task_change_merge_keeps_enrichment() {
    let mut store = Store::new();
    process_event(&mut store, task_change("G", "alice", "T", "#abc"), 10);
    update_message(&mut store, "alice".to_string(), "T".to_string(), "note".to_string(), 20)
        .unwrap();
    update_speed_rating(&mut store, "T".to_string(), 4, 30).unwrap();
    // A second change of the same task writes only the listed fields:
    // message and speed rating survive on the stored document.
    let resp = process_event(&mut store, task_change("G2", "alice", "T", "#def"), 40);
    let task = resp.task.expect("task half populated");
    assert_eq!(task.goal_name, "G2");
    assert_eq!(task.color, "#def");
    assert_eq!(task.updated_at, 40);
    assert_eq!(task.message.as_deref(), Some("note"));
    assert_eq!(task.speed_rating, Some(4));
}

#[test]
fn list_user_tasks_sorted_descending() {
    let mut store = Store::new();
    process_event(&mut store, task_change("G", "alice", "a", "#1"), 10);
    process_event(&mut store, task_change("G", "alice", "b", "#2"), 30);
    process_event(&mut store, task_change("G", "alice", "c", "#3"), 20);
    process_event(&mut store, task_change("G", "carol", "d", "#4"), 99);
    let listing = get_user_tasks(&store, &"alice".to_string());
    let names: Vec<&str> = listing.iter().map(|t| t.task_name.as_str()).collect();
    assert_eq!(names, vec!["b", "c", "a"]);
    let stamps: Vec<i64> = listing.iter().map(|t| t.updated_at).collect();
    assert_eq!(stamps, vec![30, 20, 10]);
    for t in &listing {
        assert_eq!(t.username, "alice");
    }
}

#[test]
fn list_user_tasks_never_returns_enrichment() {
    let mut store = Store::new();
    process_event(&mut store, task_change("G", "alice", "a", "#1"), 10);
    update_message(&mut store, "alice".to_string(), "a".to_string(), "note".to_string(), 20)
        .unwrap();
    update_speed_rating(&mut store, "a".to_string(), 5, 30).unwrap();
    let listing = get_user_tasks(&store, &"alice".to_string());
    assert_eq!(listing.len(), 1);
    // The listing selects only the base fields.
    assert!(listing[0].message.is_none());
    assert!(listing[0].speed_rating.is_none());
}

#[test]
fn list_user_tasks_empty_for_unknown_user() {
    let mut store = Store::new();
    process_event(&mut store, task_change("G", "alice", "a", "#1"), 10);
    let listing = get_user_tasks(&store, &"nobody".to_string());
    assert!(listing.is_empty());
}

#[test]
fn current_task_absent_for_unknown_user() {
    let store = Store::new();
    assert!(get_user_current_task(&store, &"alice".to_string()).is_none());
}

#[test]
fn current_task_absent_when_cleared() {
    let mut store = Store::new();
    // A timer end on a fresh user stores an empty current task id.
    handle_timer_end(&mut store, "alice".to_string());
    assert!(get_user_current_task(&store, &"alice".to_string()).is_none());
}

#[test]
fn current_task_absent_when_dangling() {
    // A user whose current task id references no stored task: the dangling
    // reference is tolerated, not an error.
    let store = Store {
        tasks: Vec::new(),
        users: vec![User {
            id: "alice".to_string(),
            current_task_id: "gone".to_string(),
            pomodoro_spent: 3,
        }],
    };
    assert!(get_user_current_task(&store, &"alice".to_string()).is_none());
}

#[test]
fn current_task_found() {
    let mut store = Store::new();
    process_event(&mut store, task_change("G", "alice", "Write spec", "#fff"), 10);
    let t = get_user_current_task(&store, &"alice".to_string()).expect("current task present");
    assert_eq!(t.task_name, "Write spec");
    assert_eq!(t.goal_name, "G");
}

#[test]
fn update_speed_rating_not_found() {
    let mut store = Store::new();
    let r = update_speed_rating(&mut store, "missing".to_string(), 5, 10);
    assert_eq!(r.unwrap_err(), ServiceError::NotFound);
}

#[test]
fn update_message_not_found() {
    let mut store = Store::new();
    let r = update_message(&mut store, "alice".to_string(), "missing".to_string(), "m".to_string(), 10);
    assert_eq!(r.unwrap_err(), ServiceError::NotFound);
}

#[test]
fn update_speed_rating_touches_only_its_fields() {
    let mut store = Store::new();
    process_event(&mut store, task_change("G", "alice", "abc", "#fff"), 10);
    update_message(&mut store, "alice".to_string(), "abc".to_string(), "keep me".to_string(), 20)
        .unwrap();
    let t = update_speed_rating(&mut store, "abc".to_string(), 5, 30).unwrap();
    assert_eq!(t.speed_rating, Some(5));
    assert_eq!(t.updated_at, 30);
    assert_eq!(t.message.as_deref(), Some("keep me"));
    assert_eq!(t.goal_name, "G");
    assert_eq!(t.username, "alice");
    assert_eq!(t.color, "#fff");
}

#[test]
fn update_message_touches_only_its_fields() {
    let mut store = Store::new();
    process_event(&mut store, task_change("G", "alice", "abc", "#fff"), 10);
    update_speed_rating(&mut store, "abc".to_string(), 2, 20).unwrap();
    let t = update_message(&mut store, "alice".to_string(), "abc".to_string(), "hello".to_string(), 30)
        .unwrap();
    assert_eq!(t.message.as_deref(), Some("hello"));
    assert_eq!(t.updated_at, 30);
    assert_eq!(t.speed_rating, Some(2));
    assert_eq!(t.goal_name, "G");
    assert_eq!(t.color, "#fff");
}

#[test]
fn decision_helpers() {
    assert_eq!(next_pomodoro_count(&None), 0);
    let u = User { id: "a".to_string(), current_task_id: "t".to_string(), pomodoro_spent: 7 };
    assert_eq!(next_pomodoro_count(&Some(u)), 8);

    assert!(current_task_ref(&None).is_none());
    let cleared = User { id: "a".to_string(), current_task_id: "".to_string(), pomodoro_spent: 0 };
    assert!(current_task_ref(&Some(cleared)).is_none());
    let set = User { id: "a".to_string(), current_task_id: "t".to_string(), pomodoro_spent: 0 };
    assert_eq!(current_task_ref(&Some(set)).unwrap().as_str(), "t");
}

#[test]
fn builders_build_the_written_documents() {
    let t: FirestoreTask = build_task_change_task(
        "G".to_string(), "alice".to_string(), "T".to_string(), "#fff".to_string(), 42,
    );
    assert_eq!(t.goal_name, "G");
    assert_eq!(t.username, "alice");
    assert_eq!(t.task_name, "T");
    assert_eq!(t.color, "#fff");
    assert_eq!(t.updated_at, 42);
    assert!(t.message.is_none());
    assert!(t.speed_rating.is_none());

    let u = build_task_change_user("alice".to_string(), "T".to_string());
    assert_eq!(u.id, "alice");
    assert_eq!(u.current_task_id, "T");
    assert_eq!(u.pomodoro_spent, 0);
}
