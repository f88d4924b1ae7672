//! The per-event business rules and the guarded read/update operations.
//!
//! Each operation is a single bounded request: at most one guard read and one
//! or two field-list writes against the store. `process_event` is the single
//! dispatch point: at most one handler runs per event, and an unrecognised
//! event is a no-op, not an error.

use vstd::prelude::*;
use crate::clock;
use crate::event::{Event, EventView, ServiceError};
use crate::store::{
    counted_user, find_task, find_user, lemma_find_user_located, merged_task_change, messaged_task,
    rated_task, task_change_user, task_views, FirestoreTask, Store, StoreView, TaskView, User,
    UserView,
};

verus! {

/// What an event mutated, and nothing else: a field is absent whenever the
/// triggering event did not touch the corresponding document.
pub struct UpdateResponse {
    pub task: Option<FirestoreTask>,
    pub user: Option<User>,
}

/// Mathematical image of `UpdateResponse`.
pub struct UpdateResponseView {
    pub task: Option<TaskView>,
    pub user: Option<UserView>,
}

impl View for UpdateResponse {
    type V = UpdateResponseView;

    open spec fn view(&self) -> UpdateResponseView {
        UpdateResponseView {
            task: match self.task {
                Some(ref t) => Some(t@),
                None => None,
            },
            user: match self.user {
                Some(ref u) => Some(u@),
                None => None,
            },
        }
    }
}

/// The user's stored pomodoro count leaves room for one more increment.
pub open spec fn timer_admissible(users: Seq<UserView>, username: Seq<char>) -> bool {
    match find_user(users, username) {
        Some(u) => u.pomodoro_spent < i32::MAX,
        None => true,
    }
}

/// The count a timer-end event writes: one more than the stored count, and 0
/// for a user the store does not know yet (a first-ever timer end yields 0,
/// not 1 — preserved observed behaviour).
pub open spec fn timer_end_count(pre_users: Seq<UserView>, username: Seq<char>) -> int {
    match find_user(pre_users, username) {
        Some(u) => u.pomodoro_spent + 1,
        None => 0,
    }
}

/// The user document a timer-end event leaves: the write field list is
/// `{id, pomodoro_spent}`, so the stored `current_task_id` stays untouched.
pub open spec fn timer_end_user(pre_users: Seq<UserView>, username: Seq<char>) -> UserView {
    counted_user(pre_users, username, timer_end_count(pre_users, username))
}

/// How a task-change event relates the store before and after: the task
/// document under the submitted text holds the submitted fields, the user's
/// current task points at it with the pomodoro count reset, and no other
/// document changes.
pub open spec fn task_change_post(
    pre: StoreView,
    post: StoreView,
    goal_name: Seq<char>,
    username: Seq<char>,
    task_text: Seq<char>,
    color: Seq<char>,
    now: int,
) -> bool {
    &&& find_task(post.tasks, task_text)
        == Some(merged_task_change(pre.tasks, goal_name, username, task_text, color, now))
    &&& forall|n: Seq<char>|
        n != task_text ==> find_task(post.tasks, n) == find_task(pre.tasks, n)
    &&& find_user(post.users, username) == Some(task_change_user(username, task_text))
    &&& forall|n: Seq<char>| n != username ==> find_user(post.users, n) == find_user(pre.users, n)
}

/// How a timer-end event relates the store before and after: only the one
/// user document changes, as `timer_end_user` says.
pub open spec fn timer_end_post(pre: StoreView, post: StoreView, username: Seq<char>) -> bool {
    &&& post.tasks == pre.tasks
    &&& find_user(post.users, username) == Some(timer_end_user(pre.users, username))
    &&& forall|n: Seq<char>| n != username ==> find_user(post.users, n) == find_user(pre.users, n)
}

/// The machine bound a handler needs of the store before it runs.
pub open spec fn event_admissible(pre: StoreView, ev: EventView) -> bool {
    match ev {
        EventView::TimerEnd { username } => timer_admissible(pre.users, username),
        _ => true,
    }
}

/// The whole effect of dispatching one event: which handler ran, what it
/// wrote, and which halves of the response are populated.
pub open spec fn process_post(
    pre: StoreView,
    post: StoreView,
    ev: EventView,
    now: int,
    resp: UpdateResponseView,
) -> bool {
    match ev {
        EventView::TaskChange { goal_name, username, nexa, colors } => {
            &&& task_change_post(pre, post, goal_name, username, nexa.text, colors.color, now)
            &&& resp.task == Some(
                merged_task_change(pre.tasks, goal_name, username, nexa.text, colors.color, now))
            &&& resp.user == Some(task_change_user(username, nexa.text))
        },
        EventView::TimerEnd { username } => {
            &&& timer_end_post(pre, post, username)
            &&& resp.task is None
            &&& resp.user == Some(timer_end_user(pre.users, username))
        },
        EventView::Other => post == pre && resp.task is None && resp.user is None,
    }
}

/// Handles a task-change event: writes the task document under the submitted
/// text, then points the user's current task at it, resetting the pomodoro
/// count to zero (preserved observed behaviour). The two writes are not
/// atomic as a pair; in this model both always succeed.
pub fn handle_task_change(
    store: &mut Store,
    goal_name: String,
    username: String,
    nexa: crate::event::TaskData,
    colors: crate::event::Colors,
    now: i64,
) -> (r: (FirestoreTask, User))
    requires
        old(store).wf(),
    ensures
        final(store).wf(),
        task_change_post(
            old(store)@, final(store)@, goal_name@, username@, nexa@.text, colors@.color,
            now as int),
        r.0@ == merged_task_change(
            old(store)@.tasks, goal_name@, username@, nexa@.text, colors@.color, now as int),
        r.1@ == task_change_user(username@, nexa@.text),
{
    let task_name = nexa.text;
    let color = colors.color;
    let task_updated = store.upsert_task_change_fields(
        &goal_name, &username, &task_name, &color, now);
    let user_updated = store.upsert_user_all_fields(&username, &task_name, 0);
    (task_updated, user_updated)
}

/// Handles a timer-end event: reads the user (an absent read is "no user
/// yet", not an error), computes the next count, and writes the fields
/// `{id, pomodoro_spent}` back, leaving `current_task_id` untouched.
pub fn handle_timer_end(store: &mut Store, username: String) -> (u: User)
    requires
        old(store).wf(),
        timer_admissible(old(store)@.users, username@),
    ensures
        final(store).wf(),
        u@ == timer_end_user(old(store)@.users, username@),
        timer_end_post(old(store)@, final(store)@, username@),
{
    let prior = store.user_by_id(&username);
    let new_count: i32 = match &prior {
        Some(u) => {
            proof {
                lemma_find_user_located(store@.users, username@);
                let i = choose|i: int|
                    0 <= i < store@.users.len() && store@.users[i] == u@;
                assert(store@.users[i].pomodoro_spent >= 0);
            }
            u.pomodoro_spent + 1
        },
        None => 0,
    };
    store.upsert_user_count_fields(&username, new_count)
}

/// Dispatches one decoded event: a task change runs `handle_task_change` and
/// populates both response halves, a timer end runs `handle_timer_end` and
/// populates only the user, and any other event leaves the store untouched
/// with an empty response. At most one handler runs per event.
pub fn process_event(store: &mut Store, event: Event, now: i64) -> (r: UpdateResponse)
    requires
        old(store).wf(),
        event_admissible(old(store)@, event@),
    ensures
        final(store).wf(),
        process_post(old(store)@, final(store)@, event@, now as int, r@),
{
    match event {
        Event::TaskChange { goal_name, username, nexa, colors } => {
            let (task, user) = handle_task_change(store, goal_name, username, nexa, colors, now);
            UpdateResponse { task: Some(task), user: Some(user) }
        },
        Event::TimerEnd { username } => {
            let user = handle_timer_end(store, username);
            UpdateResponse { task: None, user: Some(user) }
        },
        Event::Other => UpdateResponse { task: None, user: None },
    }
}

/// Dispatches one decoded event at the current wall-clock time. The clock's
/// value is not pinned, so the contract holds of every time it may return.
pub fn process_event_now(store: &mut Store, event: Event) -> (r: UpdateResponse)
    requires
        old(store).wf(),
        event_admissible(old(store)@, event@),
    ensures
        final(store).wf(),
        exists|now: int| process_post(old(store)@, final(store)@, event@, now, r@),
{
    let now = clock::now_millis();
    let ghost pre = old(store)@;
    let r = process_event(store, event, now);
    proof {
        assert(process_post(pre, store@, event@, now as int, r@));
    }
    r
}

/// The decision of a current-task lookup, over what the store returned:
/// absent when the user is unknown or has no current task, otherwise
/// whatever the task collection holds under the referenced id — possibly
/// nothing, since a dangling reference is tolerated, not repaired.
pub open spec fn spec_current_task(s: StoreView, user_id: Seq<char>) -> Option<TaskView> {
    match find_user(s.users, user_id) {
        None => None,
        Some(u) => if u.current_task_id.len() == 0 {
            None
        } else {
            find_task(s.tasks, u.current_task_id)
        },
    }
}

/// Fetches the user's current task by the two-step indirection of
/// `spec_current_task`.
pub fn get_user_current_task(store: &Store, user_id: &String) -> (r: Option<FirestoreTask>)
    requires
        store.wf(),
    ensures
        match r {
            Some(t) => spec_current_task(store@, user_id@) == Some(t@),
            None => spec_current_task(store@, user_id@) is None,
        },
{
    let user = store.user_by_id(user_id);
    match user {
        None => None,
        Some(u) => {
            if u.current_task_id.as_str().is_empty() {
                None
            } else {
                store.task_by_name(&u.current_task_id)
            }
        },
    }
}

/// Sets a task's speed rating: a guard read fails with `NotFound` when no
/// task carries the name; otherwise only `{updated_at, speed_rating}` are
/// written — in particular a stored message stays unchanged.
pub fn update_speed_rating(store: &mut Store, task_name: String, speed_rating: i32, now: i64) -> (r:
    Result<FirestoreTask, ServiceError>)
    requires
        old(store).wf(),
    ensures
        final(store).wf(),
        match find_task(old(store)@.tasks, task_name@) {
            None => r == Err::<FirestoreTask, ServiceError>(ServiceError::NotFound)
                && final(store)@ == old(store)@,
            Some(t0) => {
                &&& r matches Ok(t) && t@ == rated_task(t0, speed_rating as int, now as int)
                &&& find_task(final(store)@.tasks, task_name@)
                    == Some(rated_task(t0, speed_rating as int, now as int))
                &&& forall|n: Seq<char>|
                    n != task_name@ ==> find_task(final(store)@.tasks, n)
                        == find_task(old(store)@.tasks, n)
                &&& final(store)@.users == old(store)@.users
            },
        },
{
    match store.upsert_task_rating_fields(&task_name, speed_rating, now) {
        Some(t) => Ok(t),
        None => Err(ServiceError::NotFound),
    }
}

/// Sets a task's message: a guard read fails with `NotFound` when no task
/// carries the name; otherwise only `{updated_at, message}` are written —
/// the caller's user id is carried for documentation only and no other field
/// changes.
#[allow(unused_variables)]
pub fn update_message(store: &mut Store, user_id: String, task_name: String, message: String, now: i64) -> (r:
    Result<FirestoreTask, ServiceError>)
    requires
        old(store).wf(),
    ensures
        final(store).wf(),
        match find_task(old(store)@.tasks, task_name@) {
            None => r == Err::<FirestoreTask, ServiceError>(ServiceError::NotFound)
                && final(store)@ == old(store)@,
            Some(t0) => {
                &&& r matches Ok(t) && t@ == messaged_task(t0, message@, now as int)
                &&& find_task(final(store)@.tasks, task_name@)
                    == Some(messaged_task(t0, message@, now as int))
                &&& forall|n: Seq<char>|
                    n != task_name@ ==> find_task(final(store)@.tasks, n)
                        == find_task(old(store)@.tasks, n)
                &&& final(store)@.users == old(store)@.users
            },
        },
{
    match store.upsert_task_message_fields(&task_name, message, now) {
        Some(t) => Ok(t),
        None => Err(ServiceError::NotFound),
    }
}

/// A task as the listing returns it: the selected fields only — `message`
/// and `speed_rating` are never returned by this path.
pub open spec fn project_listing(t: TaskView) -> TaskView {
    TaskView {
        goal_name: t.goal_name,
        username: t.username,
        task_name: t.task_name,
        color: t.color,
        updated_at: t.updated_at,
        message: None,
        speed_rating: None,
    }
}

/// The user's tasks in store order, each projected to the selected fields.
pub open spec fn user_tasks(tasks: Seq<TaskView>, user: Seq<char>) -> Seq<TaskView>
    decreases tasks.len(),
{
    if tasks.len() == 0 {
        Seq::empty()
    } else {
        let rest = user_tasks(tasks.drop_last(), user);
        if tasks.last().username == user {
            rest.push(project_listing(tasks.last()))
        } else {
            rest
        }
    }
}

/// Timestamps never increase along the sequence.
pub open spec fn sorted_desc(ts: Seq<TaskView>) -> bool {
    forall|i: int, j: int| 0 <= i < j < ts.len() ==> ts[i].updated_at >= ts[j].updated_at
}

/// Inserts a task into a listing kept sorted by `updated_at` descending.
fn insert_task_sorted(out: &mut Vec<FirestoreTask>, t: FirestoreTask)
    requires
        sorted_desc(task_views(old(out)@)),
    ensures
        sorted_desc(task_views(final(out)@)),
        task_views(final(out)@).to_multiset() == task_views(old(out)@).to_multiset().insert(t@),
        final(out)@.len() == old(out)@.len() + 1,
        forall|m: int|
            0 <= m < final(out)@.len() ==> final(out)@[m] == t || old(out)@.contains(
                final(out)@[m]),
{
    broadcast use vstd::seq_lib::group_to_multiset_ensures;

    let mut k: usize = 0;
    while k < out.len() && out[k].updated_at >= t.updated_at
        invariant
            k <= out@.len(),
            forall|j: int| 0 <= j < k ==> task_views(out@)[j].updated_at >= t@.updated_at,
            out@ == old(out)@,
            sorted_desc(task_views(out@)),
        decreases out@.len() - k,
    {
        k += 1;
    }
    let ghost pre = out@;
    let ghost kk = k as int;
    out.insert(k, t);
    proof {
        pre.insert_ensures(kk, t);
        let prev = task_views(pre);
        let post = task_views(out@);
        assert(out@ == pre.insert(kk, t));
        assert forall|m: int| 0 <= m < post.len() implies post[m] == prev.insert(kk, t@)[m] by {
            prev.insert_ensures(kk, t@);
            if m < kk {
                assert(out@[m] == pre[m]);
            } else if m == kk {
                assert(out@[m] == t);
            } else {
                assert(out@[m] == pre[m - 1]);
            }
        }
        assert(post =~= prev.insert(kk, t@));
        assert(post.to_multiset() == prev.to_multiset().insert(t@));
        prev.insert_ensures(kk, t@);
        assert forall|i: int, j: int| 0 <= i < j < post.len() implies
            post[i].updated_at >= post[j].updated_at
        by {
            if kk < prev.len() {
                assert(prev[kk].updated_at < t@.updated_at);
            }
            if i < kk {
                assert(post[i] == prev[i]);
            } else if i == kk {
                assert(post[i] == t@);
            } else {
                assert(post[i] == prev[i - 1]);
            }
            if j < kk {
                assert(post[j] == prev[j]);
            } else if j == kk {
                assert(post[j] == t@);
            } else {
                assert(post[j] == prev[j - 1]);
            }
        }
    }
}

/// Lists the user's tasks, most recently touched first: every stored task of
/// the user, projected to the selected fields, sorted by `updated_at`
/// descending — and exactly those, as the multiset equality states. A user
/// with no tasks gets an empty listing, not an error.
pub fn get_user_tasks(store: &Store, user_id: &String) -> (r: Vec<FirestoreTask>)
    requires
        store.wf(),
    ensures
        sorted_desc(task_views(r@)),
        task_views(r@).to_multiset() == user_tasks(store@.tasks, user_id@).to_multiset(),
        forall|m: int|
            0 <= m < r@.len() ==> r@[m]@.username == user_id@ && r@[m]@.message is None
                && r@[m]@.speed_rating is None,
{
    broadcast use vstd::seq_lib::group_to_multiset_ensures;

    let mut out: Vec<FirestoreTask> = Vec::new();
    let mut i: usize = 0;
    proof {
        assert(store@.tasks.subrange(0, 0) =~= Seq::<TaskView>::empty());
    }
    while i < store.tasks.len()
        invariant
            store.wf(),
            i <= store@.tasks.len(),
            sorted_desc(task_views(out@)),
            task_views(out@).to_multiset() == user_tasks(
                store@.tasks.subrange(0, i as int), user_id@).to_multiset(),
            forall|m: int|
                0 <= m < out@.len() ==> out@[m]@.username == user_id@ && out@[m]@.message is None
                    && out@[m]@.speed_rating is None,
        decreases store@.tasks.len() - i,
    {
        let ghost pre_seq = store@.tasks.subrange(0, i as int);
        let ghost cur_seq = store@.tasks.subrange(0, i as int + 1);
        let ghost pre_out = out@;
        proof {
            assert(cur_seq.drop_last() =~= pre_seq);
            assert(cur_seq.last() == store@.tasks[i as int]);
        }
        if store.tasks[i].username == *user_id {
            let mut t = store.tasks[i].clone();
            t.message = None;
            t.speed_rating = None;
            proof {
                assert(store@.tasks[i as int] == store.tasks@[i as int]@);
                assert(t@ == project_listing(store@.tasks[i as int]));
            }
            insert_task_sorted(&mut out, t);
            proof {
                assert(user_tasks(cur_seq, user_id@)
                    == user_tasks(pre_seq, user_id@).push(project_listing(store@.tasks[i as int])));
                vstd::seq_lib::to_multiset_build(
                    user_tasks(pre_seq, user_id@), project_listing(store@.tasks[i as int]));
                assert(user_tasks(cur_seq, user_id@).to_multiset() == user_tasks(
                    pre_seq, user_id@).to_multiset().insert(project_listing(store@.tasks[i as int])));
                assert forall|m: int| 0 <= m < out@.len() implies out@[m]@.username == user_id@
                    && out@[m]@.message is None && out@[m]@.speed_rating is None
                by {
                    if out@[m] != t {
                        assert(pre_out.contains(out@[m]));
                        let j = choose|j: int| 0 <= j < pre_out.len() && pre_out[j] == out@[m];
                    }
                }
            }
        } else {
            proof {
                assert(store@.tasks[i as int].username != user_id@);
                assert(user_tasks(cur_seq, user_id@) == user_tasks(pre_seq, user_id@));
            }
        }
        i += 1;
    }
    proof {
        assert(store@.tasks.subrange(0, store@.tasks.len() as int) =~= store@.tasks);
    }
    out
}

/// The pomodoro count a timer-end event writes, decided from the user
/// document the store returned.
pub fn next_pomodoro_count(prior: &Option<User>) -> (n: i32)
    requires
        match prior {
            Some(u) => u.pomodoro_spent < i32::MAX,
            None => true,
        },
    ensures
        n as int == (match prior {
            Some(u) => u@.pomodoro_spent + 1,
            None => 0,
        }),
{
    match prior {
        Some(u) => u.pomodoro_spent + 1,
        None => 0,
    }
}

/// The task key a current-task lookup must follow, decided from the user
/// document the store returned: absent when the user is unknown or has no
/// current task.
pub fn current_task_ref(prior: &Option<User>) -> (r: Option<&String>)
    ensures
        match prior {
            None => r is None,
            Some(u) => if u@.current_task_id.len() == 0 {
                r is None
            } else {
                r matches Some(s) && s@ == u@.current_task_id
            },
        },
{
    match prior {
        None => None,
        Some(u) => {
            if u.current_task_id.as_str().is_empty() {
                None
            } else {
                Some(&u.current_task_id)
            }
        },
    }
}

/// The task document a task-change event writes (before merge with a stored
/// document): submitted fields, fresh timestamp, no message, no rating.
pub fn build_task_change_task(
    goal_name: String,
    username: String,
    task_text: String,
    color: String,
    now: i64,
) -> (t: FirestoreTask)
    ensures
        t@ == (TaskView {
            goal_name: goal_name@,
            username: username@,
            task_name: task_text@,
            color: color@,
            updated_at: now as int,
            message: None,
            speed_rating: None,
        }),
{
    FirestoreTask {
        goal_name,
        username,
        task_name: task_text,
        color,
        updated_at: now,
        message: None,
        speed_rating: None,
    }
}

/// The user document a task-change event writes: current task pointed at the
/// submitted text, pomodoro count reset to zero.
pub fn build_task_change_user(username: String, task_text: String) -> (u: User)
    ensures
        u@ == (UserView { id: username@, current_task_id: task_text@, pomodoro_spent: 0 }),
{
    User { id: username, current_task_id: task_text, pomodoro_spent: 0 }
}

} // verus!
