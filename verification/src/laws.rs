//! The library's laws: properties that relate several operations, stated
//! over the spec functions the operations' contracts use, and proved once
//! and for all.

use vstd::prelude::*;
use crate::event::{spec_decode, task_change_key, timer_end_key, EventView, RawEventView,
    ServiceError};
use crate::service::{process_post, sorted_desc, spec_current_task, task_change_post,
    timer_end_post, user_tasks, UpdateResponseView};
use crate::store::{find_task, find_user, messaged_task, rated_task, StoreView, TaskView,
    UserView};

verus! {

/// After a task-change event, the task read back under the submitted text
/// carries the submitted colour, goal and username, and its timestamp is the
/// write's timestamp — so no earlier than the time of the call.
pub proof fn lemma_task_change_task_read_back(
    pre: StoreView,
    post: StoreView,
    goal_name: Seq<char>,
    username: Seq<char>,
    task_text: Seq<char>,
    color: Seq<char>,
    now: int,
)
    requires
        task_change_post(pre, post, goal_name, username, task_text, color, now),
    ensures
        find_task(post.tasks, task_text) matches Some(t) && t.task_name == task_text
            && t.goal_name == goal_name && t.username == username && t.color == color
            && t.updated_at >= now,
{
}

/// After a task-change event, the user's current task is the submitted text
/// and the pomodoro count is 0 whatever it was before — the unconditional
/// reset is preserved observed behaviour.
pub proof fn lemma_task_change_resets_pomodoro(
    pre: StoreView,
    post: StoreView,
    goal_name: Seq<char>,
    username: Seq<char>,
    task_text: Seq<char>,
    color: Seq<char>,
    now: int,
)
    requires
        task_change_post(pre, post, goal_name, username, task_text, color, now),
    ensures
        find_user(post.users, username) == Some(
            UserView { id: username, current_task_id: task_text, pomodoro_spent: 0 },
        ),
{
}

/// After a timer-end event, an unknown user's count is 0 and a known user's
/// count is one more than it was.
pub proof fn lemma_timer_end_count(pre: StoreView, post: StoreView, username: Seq<char>)
    requires
        timer_end_post(pre, post, username),
    ensures
        find_user(post.users, username) matches Some(u) && u.pomodoro_spent == (
        match find_user(pre.users, username) {
            Some(u0) => u0.pomodoro_spent + 1,
            None => 0,
        }),
{
}

/// A listing whose timestamps never increase and are pairwise distinct is
/// strictly descending.
pub proof fn lemma_listing_strictly_descending(ts: Seq<TaskView>)
    requires
        sorted_desc(ts),
        forall|i: int, j: int| 0 <= i < j < ts.len() ==> ts[i].updated_at != ts[j].updated_at,
    ensures
        forall|i: int, j: int| 0 <= i < j < ts.len() ==> ts[i].updated_at > ts[j].updated_at,
{
}

/// A user none of whose stored tasks carries their name gets the empty
/// listing.
pub proof fn lemma_no_tasks_empty_listing(tasks: Seq<TaskView>, user: Seq<char>)
    requires
        forall|i: int| 0 <= i < tasks.len() ==> tasks[i].username != user,
    ensures
        user_tasks(tasks, user) == Seq::<TaskView>::empty(),
    decreases tasks.len(),
{
    if tasks.len() > 0 {
        assert(tasks.last() == tasks[tasks.len() - 1]);
        assert forall|i: int| 0 <= i < tasks.drop_last().len() implies
            tasks.drop_last()[i].username != user
        by {
            assert(tasks.drop_last()[i] == tasks[i]);
        }
        lemma_no_tasks_empty_listing(tasks.drop_last(), user);
    }
}

/// A current-task lookup is absent both when the user is unknown, when the
/// user has no current task, and when the referenced task is gone — a
/// dangling reference is tolerated, not an error.
pub proof fn lemma_current_task_absent(s: StoreView, user_id: Seq<char>)
    requires
        match find_user(s.users, user_id) {
            None => true,
            Some(u) => u.current_task_id.len() == 0 || find_task(
                s.tasks, u.current_task_id) is None,
        },
    ensures
        spec_current_task(s, user_id) is None,
{
}

/// A rating write touches only the timestamp and the rating: every other
/// field — the message in particular — keeps its stored value.
pub proof fn lemma_rating_preserves_rest(t0: TaskView, rating: int, now: int)
    ensures
        rated_task(t0, rating, now).message == t0.message,
        rated_task(t0, rating, now).goal_name == t0.goal_name,
        rated_task(t0, rating, now).username == t0.username,
        rated_task(t0, rating, now).task_name == t0.task_name,
        rated_task(t0, rating, now).color == t0.color,
        rated_task(t0, rating, now).speed_rating == Some(rating),
        rated_task(t0, rating, now).updated_at == now,
{
}

/// A message write touches only the timestamp and the message: every other
/// field — the rating in particular — keeps its stored value.
pub proof fn lemma_message_preserves_rest(t0: TaskView, message: Seq<char>, now: int)
    ensures
        messaged_task(t0, message, now).speed_rating == t0.speed_rating,
        messaged_task(t0, message, now).goal_name == t0.goal_name,
        messaged_task(t0, message, now).username == t0.username,
        messaged_task(t0, message, now).task_name == t0.task_name,
        messaged_task(t0, message, now).color == t0.color,
        messaged_task(t0, message, now).message == Some(message),
        messaged_task(t0, message, now).updated_at == now,
{
}

/// A body whose discriminant matches neither key decodes successfully to the
/// catch-all event, and dispatching that event changes nothing and answers
/// with both response halves absent.
pub proof fn lemma_unknown_event_ignored(
    raw: RawEventView,
    k: Seq<char>,
    pre: StoreView,
    post: StoreView,
    now: int,
    resp: UpdateResponseView,
)
    requires
        raw.event_key == Some(k),
        k != task_change_key(),
        k != timer_end_key(),
        process_post(pre, post, EventView::Other, now, resp),
    ensures
        spec_decode(raw) == Ok::<EventView, ServiceError>(EventView::Other),
        post == pre,
        resp.task is None,
        resp.user is None,
{
}

} // verus!
