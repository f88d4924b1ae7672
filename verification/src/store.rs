//! The persisted entities and an in-memory model of the document store.
//!
//! The store holds two keyed collections: task documents keyed by their
//! display text and user documents keyed by the username. Writes are
//! field-list scoped: an upsert names the fields it writes and must leave
//! every other field of an existing document untouched. The operations here
//! state that guarantee exactly, over a find-by-key abstraction.

use vstd::prelude::*;

verus! {

/// A persisted task document. The task's display text (`task_name`) is both
/// content and identity: it is the key of the document in the task
/// collection, so renaming a task creates a new document.
#[derive(Debug)]
pub struct FirestoreTask {
    pub goal_name: String,
    pub username: String,
    pub task_name: String,
    pub color: String,
    pub updated_at: i64,
    pub message: Option<String>,
    pub speed_rating: Option<i32>,
}

/// A persisted user document, keyed by the username (`id == username`).
/// An empty `current_task_id` means "no current task".
#[derive(Debug)]
pub struct User {
    pub id: String,
    pub current_task_id: String,
    pub pomodoro_spent: i32,
}

/// Mathematical image of a task document.
pub struct TaskView {
    pub goal_name: Seq<char>,
    pub username: Seq<char>,
    pub task_name: Seq<char>,
    pub color: Seq<char>,
    pub updated_at: int,
    pub message: Option<Seq<char>>,
    pub speed_rating: Option<int>,
}

/// Mathematical image of a user document.
pub struct UserView {
    pub id: Seq<char>,
    pub current_task_id: Seq<char>,
    pub pomodoro_spent: int,
}

impl View for FirestoreTask {
    type V = TaskView;

    open spec fn view(&self) -> TaskView {
        TaskView {
            goal_name: self.goal_name@,
            username: self.username@,
            task_name: self.task_name@,
            color: self.color@,
            updated_at: self.updated_at as int,
            message: match self.message {
                Some(ref m) => Some(m@),
                None => None,
            },
            speed_rating: match self.speed_rating {
                Some(r) => Some(r as int),
                None => None,
            },
        }
    }
}

impl View for User {
    type V = UserView;

    open spec fn view(&self) -> UserView {
        UserView {
            id: self.id@,
            current_task_id: self.current_task_id@,
            pomodoro_spent: self.pomodoro_spent as int,
        }
    }
}

impl Clone for FirestoreTask {
    fn clone(&self) -> (r: Self)
        ensures
            r == *self,
    {
        FirestoreTask {
            goal_name: self.goal_name.clone(),
            username: self.username.clone(),
            task_name: self.task_name.clone(),
            color: self.color.clone(),
            updated_at: self.updated_at,
            message: match &self.message {
                Some(m) => Some(m.clone()),
                None => None,
            },
            speed_rating: self.speed_rating,
        }
    }
}

impl Clone for User {
    fn clone(&self) -> (r: Self)
        ensures
            r == *self,
    {
        User {
            id: self.id.clone(),
            current_task_id: self.current_task_id.clone(),
            pomodoro_spent: self.pomodoro_spent,
        }
    }
}

/// The views of a sequence of task documents.
pub open spec fn task_views(s: Seq<FirestoreTask>) -> Seq<TaskView> {
    s.map_values(|t: FirestoreTask| t@)
}

/// The views of a sequence of user documents.
pub open spec fn user_views(s: Seq<User>) -> Seq<UserView> {
    s.map_values(|u: User| u@)
}

/// Task keys are unique across the collection.
pub open spec fn tasks_wf(tasks: Seq<TaskView>) -> bool {
    forall|i: int, j: int|
        0 <= i < j < tasks.len() ==> tasks[i].task_name != tasks[j].task_name
}

/// User keys are unique and pomodoro counts are never negative.
pub open spec fn users_wf(users: Seq<UserView>) -> bool {
    &&& forall|i: int, j: int| 0 <= i < j < users.len() ==> users[i].id != users[j].id
    &&& forall|i: int| 0 <= i < users.len() ==> users[i].pomodoro_spent >= 0
}

/// The task document stored under key `name`, if any.
pub open spec fn find_task(tasks: Seq<TaskView>, name: Seq<char>) -> Option<TaskView>
    decreases tasks.len(),
{
    if tasks.len() == 0 {
        None
    } else if tasks.last().task_name == name {
        Some(tasks.last())
    } else {
        find_task(tasks.drop_last(), name)
    }
}

/// The user document stored under key `id`, if any.
pub open spec fn find_user(users: Seq<UserView>, id: Seq<char>) -> Option<UserView>
    decreases users.len(),
{
    if users.len() == 0 {
        None
    } else if users.last().id == id {
        Some(users.last())
    } else {
        find_user(users.drop_last(), id)
    }
}

/// What `find_task` locates: a present result is a stored document under the
/// looked-up key; an absent result means no document carries that key.
pub proof fn lemma_find_task_located(tasks: Seq<TaskView>, name: Seq<char>)
    ensures
        match find_task(tasks, name) {
            Some(t) => t.task_name == name && exists|i: int|
                0 <= i < tasks.len() && tasks[i] == t,
            None => forall|i: int| 0 <= i < tasks.len() ==> tasks[i].task_name != name,
        },
    decreases tasks.len(),
{
    if tasks.len() > 0 {
        if tasks.last().task_name == name {
            assert(tasks[tasks.len() - 1] == tasks.last());
        } else {
            lemma_find_task_located(tasks.drop_last(), name);
            match find_task(tasks.drop_last(), name) {
                Some(t) => {
                    let i = choose|i: int|
                        0 <= i < tasks.drop_last().len() && tasks.drop_last()[i] == t;
                    assert(tasks[i] == t);
                },
                None => {
                    assert forall|i: int| 0 <= i < tasks.len() implies tasks[i].task_name != name
                    by {
                        if i < tasks.len() - 1 {
                            assert(tasks.drop_last()[i] == tasks[i]);
                        }
                    }
                },
            }
        }
    }
}

/// Under unique keys, the document at any position is the one `find_task`
/// locates for its key.
pub proof fn lemma_find_task_present(tasks: Seq<TaskView>, i: int)
    requires
        tasks_wf(tasks),
        0 <= i < tasks.len(),
    ensures
        find_task(tasks, tasks[i].task_name) == Some(tasks[i]),
    decreases tasks.len(),
{
    if i == tasks.len() - 1 {
        assert(tasks.last() == tasks[i]);
    } else {
        assert(tasks.last() == tasks[tasks.len() - 1]);
        assert(tasks.last().task_name != tasks[i].task_name);
        assert forall|k: int, l: int|
            0 <= k < l < tasks.drop_last().len() implies
            tasks.drop_last()[k].task_name != tasks.drop_last()[l].task_name
        by {
            assert(tasks.drop_last()[k] == tasks[k]);
            assert(tasks.drop_last()[l] == tasks[l]);
        }
        assert(tasks.drop_last()[i] == tasks[i]);
        lemma_find_task_present(tasks.drop_last(), i);
    }
}

/// What `find_user` locates, as for tasks.
pub proof fn lemma_find_user_located(users: Seq<UserView>, id: Seq<char>)
    ensures
        match find_user(users, id) {
            Some(u) => u.id == id && exists|i: int| 0 <= i < users.len() && users[i] == u,
            None => forall|i: int| 0 <= i < users.len() ==> users[i].id != id,
        },
    decreases users.len(),
{
    if users.len() > 0 {
        if users.last().id == id {
            assert(users[users.len() - 1] == users.last());
        } else {
            lemma_find_user_located(users.drop_last(), id);
            match find_user(users.drop_last(), id) {
                Some(u) => {
                    let i = choose|i: int|
                        0 <= i < users.drop_last().len() && users.drop_last()[i] == u;
                    assert(users[i] == u);
                },
                None => {
                    assert forall|i: int| 0 <= i < users.len() implies users[i].id != id by {
                        if i < users.len() - 1 {
                            assert(users.drop_last()[i] == users[i]);
                        }
                    }
                },
            }
        }
    }
}

/// Under unique keys, the user at any position is the one `find_user`
/// locates for its id.
pub proof fn lemma_find_user_present(users: Seq<UserView>, i: int)
    requires
        users_wf(users),
        0 <= i < users.len(),
    ensures
        find_user(users, users[i].id) == Some(users[i]),
    decreases users.len(),
{
    if i == users.len() - 1 {
        assert(users.last() == users[i]);
    } else {
        assert(users.last() == users[users.len() - 1]);
        assert(users.last().id != users[i].id);
        assert forall|k: int, l: int|
            0 <= k < l < users.drop_last().len() implies
            users.drop_last()[k].id != users.drop_last()[l].id
        by {
            assert(users.drop_last()[k] == users[k]);
            assert(users.drop_last()[l] == users[l]);
        }
        assert forall|k: int| 0 <= k < users.drop_last().len() implies
            users.drop_last()[k].pomodoro_spent >= 0
        by {
            assert(users.drop_last()[k] == users[k]);
        }
        assert(users.drop_last()[i] == users[i]);
        lemma_find_user_present(users.drop_last(), i);
    }
}

/// Replacing the document at a position with one that keeps its key moves
/// `find_task` to the new document there and nowhere else.
pub proof fn lemma_find_task_update(tasks: Seq<TaskView>, i: int, t: TaskView)
    requires
        tasks_wf(tasks),
        0 <= i < tasks.len(),
        t.task_name == tasks[i].task_name,
    ensures
        tasks_wf(tasks.update(i, t)),
        find_task(tasks.update(i, t), t.task_name) == Some(t),
        forall|n: Seq<char>|
            n != t.task_name ==> find_task(tasks.update(i, t), n) == find_task(tasks, n),
{
    let post = tasks.update(i, t);
    assert forall|k: int, l: int| 0 <= k < l < post.len() implies
        post[k].task_name != post[l].task_name
    by {
        assert(post[k].task_name == tasks[k].task_name);
        assert(post[l].task_name == tasks[l].task_name);
    }
    lemma_find_task_present(post, i);
    assert forall|n: Seq<char>| n != t.task_name implies
        find_task(post, n) == find_task(tasks, n)
    by {
        lemma_find_task_located(tasks, n);
        match find_task(tasks, n) {
            Some(t0) => {
                let j = choose|j: int| 0 <= j < tasks.len() && tasks[j] == t0;
                assert(j != i);
                assert(post[j] == t0);
                lemma_find_task_present(post, j);
            },
            None => {
                assert forall|k: int| 0 <= k < post.len() implies post[k].task_name != n by {
                    assert(post[k].task_name == tasks[k].task_name);
                }
                lemma_find_task_absent(post, n);
            },
        }
    }
}

/// No document carries the key, so `find_task` reports it absent.
pub proof fn lemma_find_task_absent(tasks: Seq<TaskView>, name: Seq<char>)
    requires
        forall|i: int| 0 <= i < tasks.len() ==> tasks[i].task_name != name,
    ensures
        find_task(tasks, name) is None,
    decreases tasks.len(),
{
    if tasks.len() > 0 {
        assert(tasks.last() == tasks[tasks.len() - 1]);
        assert forall|i: int| 0 <= i < tasks.drop_last().len() implies
            tasks.drop_last()[i].task_name != name
        by {
            assert(tasks.drop_last()[i] == tasks[i]);
        }
        lemma_find_task_absent(tasks.drop_last(), name);
    }
}

/// No user carries the id, so `find_user` reports it absent.
pub proof fn lemma_find_user_absent(users: Seq<UserView>, id: Seq<char>)
    requires
        forall|i: int| 0 <= i < users.len() ==> users[i].id != id,
    ensures
        find_user(users, id) is None,
    decreases users.len(),
{
    if users.len() > 0 {
        assert(users.last() == users[users.len() - 1]);
        assert forall|i: int| 0 <= i < users.drop_last().len() implies
            users.drop_last()[i].id != id
        by {
            assert(users.drop_last()[i] == users[i]);
        }
        lemma_find_user_absent(users.drop_last(), id);
    }
}

/// Appending a document under a fresh key makes `find_task` yield it for
/// that key and leaves every other lookup unchanged.
pub proof fn lemma_find_task_push(tasks: Seq<TaskView>, t: TaskView)
    requires
        tasks_wf(tasks),
        find_task(tasks, t.task_name) is None,
    ensures
        tasks_wf(tasks.push(t)),
        find_task(tasks.push(t), t.task_name) == Some(t),
        forall|n: Seq<char>|
            n != t.task_name ==> find_task(tasks.push(t), n) == find_task(tasks, n),
{
    let post = tasks.push(t);
    lemma_find_task_located(tasks, t.task_name);
    assert forall|k: int, l: int| 0 <= k < l < post.len() implies
        post[k].task_name != post[l].task_name
    by {
        if l < tasks.len() {
            assert(post[k] == tasks[k]);
            assert(post[l] == tasks[l]);
        } else {
            assert(post[k] == tasks[k]);
            assert(post[l] == t);
        }
    }
    assert(post.last() == t);
    assert(post.drop_last() =~= tasks);
    assert forall|n: Seq<char>| n != t.task_name implies
        find_task(post, n) == find_task(tasks, n)
    by {
        assert(find_task(post, n) == find_task(tasks, n));
    }
}

/// Appending a user under a fresh id, as for tasks.
pub proof fn lemma_find_user_push(users: Seq<UserView>, u: UserView)
    requires
        users_wf(users),
        u.pomodoro_spent >= 0,
        find_user(users, u.id) is None,
    ensures
        users_wf(users.push(u)),
        find_user(users.push(u), u.id) == Some(u),
        forall|n: Seq<char>| n != u.id ==> find_user(users.push(u), n) == find_user(users, n),
{
    let post = users.push(u);
    lemma_find_user_located(users, u.id);
    assert forall|k: int, l: int| 0 <= k < l < post.len() implies post[k].id != post[l].id by {
        if l < users.len() {
            assert(post[k] == users[k]);
            assert(post[l] == users[l]);
        } else {
            assert(post[k] == users[k]);
            assert(post[l] == u);
        }
    }
    assert forall|k: int| 0 <= k < post.len() implies post[k].pomodoro_spent >= 0 by {
        if k < users.len() {
            assert(post[k] == users[k]);
        } else {
            assert(post[k] == u);
        }
    }
    assert(post.last() == u);
    assert(post.drop_last() =~= users);
    assert forall|n: Seq<char>| n != u.id implies find_user(post, n) == find_user(users, n) by {
        assert(find_user(post, n) == find_user(users, n));
    }
}

/// Replacing the user at a position with one that keeps its id, as for
/// tasks.
pub proof fn lemma_find_user_update(users: Seq<UserView>, i: int, u: UserView)
    requires
        users_wf(users),
        0 <= i < users.len(),
        u.id == users[i].id,
        u.pomodoro_spent >= 0,
    ensures
        users_wf(users.update(i, u)),
        find_user(users.update(i, u), u.id) == Some(u),
        forall|n: Seq<char>| n != u.id ==> find_user(users.update(i, u), n) == find_user(users, n),
{
    let post = users.update(i, u);
    assert forall|k: int, l: int| 0 <= k < l < post.len() implies post[k].id != post[l].id by {
        assert(post[k].id == users[k].id);
        assert(post[l].id == users[l].id);
    }
    assert forall|k: int| 0 <= k < post.len() implies post[k].pomodoro_spent >= 0 by {
        if k != i {
            assert(post[k] == users[k]);
        }
    }
    lemma_find_user_present(post, i);
    assert forall|n: Seq<char>| n != u.id implies find_user(post, n) == find_user(users, n) by {
        lemma_find_user_located(users, n);
        match find_user(users, n) {
            Some(u0) => {
                let j = choose|j: int| 0 <= j < users.len() && users[j] == u0;
                assert(j != i);
                assert(post[j] == u0);
                lemma_find_user_present(post, j);
            },
            None => {
                assert forall|k: int| 0 <= k < post.len() implies post[k].id != n by {
                    assert(post[k].id == users[k].id);
                }
                lemma_find_user_absent(post, n);
            },
        }
    }
}

/// The task document a task-change write leaves under `task_text`: the
/// fields `{goal_name, username, task_name, color, updated_at}` are written,
/// while `message` and `speed_rating`, being outside the write field list,
/// keep whatever an existing document held (absent on a fresh document).
pub open spec fn merged_task_change(
    pre_tasks: Seq<TaskView>,
    goal_name: Seq<char>,
    username: Seq<char>,
    task_text: Seq<char>,
    color: Seq<char>,
    now: int,
) -> TaskView {
    TaskView {
        goal_name: goal_name,
        username: username,
        task_name: task_text,
        color: color,
        updated_at: now,
        message: match find_task(pre_tasks, task_text) {
            Some(t0) => t0.message,
            None => None,
        },
        speed_rating: match find_task(pre_tasks, task_text) {
            Some(t0) => t0.speed_rating,
            None => None,
        },
    }
}

/// The user document a task-change write leaves: the whole document
/// `{id, current_task_id, pomodoro_spent}` is in the write field list, so the
/// prior pomodoro count is discarded and reset to zero.
pub open spec fn task_change_user(username: Seq<char>, task_text: Seq<char>) -> UserView {
    UserView { id: username, current_task_id: task_text, pomodoro_spent: 0 }
}

/// The user document a count-only write leaves under `username`: the fields
/// `{id, pomodoro_spent}` are written; `current_task_id`, outside the write
/// field list, keeps its stored value (empty on a fresh document).
pub open spec fn counted_user(pre_users: Seq<UserView>, username: Seq<char>, count: int) -> UserView {
    UserView {
        id: username,
        current_task_id: match find_user(pre_users, username) {
            Some(u0) => u0.current_task_id,
            None => Seq::empty(),
        },
        pomodoro_spent: count,
    }
}

/// The task document a rating write leaves: only `{updated_at, speed_rating}`
/// are written, every other field keeps its stored value.
pub open spec fn rated_task(t0: TaskView, rating: int, now: int) -> TaskView {
    TaskView {
        goal_name: t0.goal_name,
        username: t0.username,
        task_name: t0.task_name,
        color: t0.color,
        updated_at: now,
        message: t0.message,
        speed_rating: Some(rating),
    }
}

/// The task document a message write leaves: only `{updated_at, message}`
/// are written, every other field keeps its stored value.
pub open spec fn messaged_task(t0: TaskView, message: Seq<char>, now: int) -> TaskView {
    TaskView {
        goal_name: t0.goal_name,
        username: t0.username,
        task_name: t0.task_name,
        color: t0.color,
        updated_at: now,
        message: Some(message),
        speed_rating: t0.speed_rating,
    }
}

/// The in-memory model of the document store: the two keyed collections.
pub struct Store {
    pub tasks: Vec<FirestoreTask>,
    pub users: Vec<User>,
}

/// Mathematical image of the store.
pub struct StoreView {
    pub tasks: Seq<TaskView>,
    pub users: Seq<UserView>,
}

impl View for Store {
    type V = StoreView;

    open spec fn view(&self) -> StoreView {
        StoreView { tasks: task_views(self.tasks@), users: user_views(self.users@) }
    }
}

impl Store {
    /// Both collections keep their keys unique and their counters in range.
    pub open spec fn wf(&self) -> bool {
        tasks_wf(self@.tasks) && users_wf(self@.users)
    }

    /// An empty store.
    pub fn new() -> (s: Store)
        ensures
            s.wf(),
            s@.tasks.len() == 0,
            s@.users.len() == 0,
    {
        Store { tasks: Vec::new(), users: Vec::new() }
    }

    /// Position of the task document keyed `name`, if any.
    fn task_index_of(&self, name: &String) -> (r: Option<usize>)
        requires
            self.wf(),
        ensures
            match r {
                Some(i) => i < self@.tasks.len() && self@.tasks[i as int].task_name == name@
                    && find_task(self@.tasks, name@) == Some(self@.tasks[i as int]),
                None => find_task(self@.tasks, name@) is None,
            },
    {
        let ghost tasks = self@.tasks;
        let mut i: usize = 0;
        while i < self.tasks.len()
            invariant
                self.wf(),
                tasks == self@.tasks,
                i <= tasks.len(),
                forall|j: int| 0 <= j < i ==> tasks[j].task_name != name@,
            decreases tasks.len() - i,
        {
            if self.tasks[i].task_name == *name {
                proof {
                    lemma_find_task_present(tasks, i as int);
                }
                return Some(i);
            }
            i += 1;
        }
        proof {
            lemma_find_task_absent(tasks, name@);
        }
        None
    }

    /// Position of the user document keyed `id`, if any.
    fn user_index_of(&self, id: &String) -> (r: Option<usize>)
        requires
            self.wf(),
        ensures
            match r {
                Some(i) => i < self@.users.len() && self@.users[i as int].id == id@
                    && find_user(self@.users, id@) == Some(self@.users[i as int]),
                None => find_user(self@.users, id@) is None,
            },
    {
        let ghost users = self@.users;
        let mut i: usize = 0;
        while i < self.users.len()
            invariant
                self.wf(),
                users == self@.users,
                i <= users.len(),
                forall|j: int| 0 <= j < i ==> users[j].id != id@,
            decreases users.len() - i,
        {
            if self.users[i].id == *id {
                proof {
                    lemma_find_user_present(users, i as int);
                }
                return Some(i);
            }
            i += 1;
        }
        proof {
            lemma_find_user_absent(users, id@);
        }
        None
    }

    /// The task document stored under key `name`, if any.
    pub fn task_by_name(&self, name: &String) -> (r: Option<FirestoreTask>)
        requires
            self.wf(),
        ensures
            match r {
                Some(t) => find_task(self@.tasks, name@) == Some(t@),
                None => find_task(self@.tasks, name@) is None,
            },
    {
        match self.task_index_of(name) {
            Some(i) => Some(self.tasks[i].clone()),
            None => None,
        }
    }

    /// The user document stored under key `id`, if any.
    pub fn user_by_id(&self, id: &String) -> (r: Option<User>)
        requires
            self.wf(),
        ensures
            match r {
                Some(u) => find_user(self@.users, id@) == Some(u@),
                None => find_user(self@.users, id@) is None,
            },
    {
        match self.user_index_of(id) {
            Some(i) => Some(self.users[i].clone()),
            None => None,
        }
    }

    /// Replaces the task at position `i` by one that keeps its key.
    fn replace_task_at(&mut self, i: usize, t: FirestoreTask)
        requires
            old(self).wf(),
            i < old(self)@.tasks.len(),
            t@.task_name == old(self)@.tasks[i as int].task_name,
        ensures
            final(self).wf(),
            find_task(final(self)@.tasks, t@.task_name) == Some(t@),
            forall|n: Seq<char>|
                n != t@.task_name ==> find_task(final(self)@.tasks, n)
                    == find_task(old(self)@.tasks, n),
            final(self)@.users == old(self)@.users,
    {
        let ghost pre = self@.tasks;
        let ghost tv = t@;
        self.tasks.remove(i);
        self.tasks.insert(i, t);
        proof {
            assert(self@.tasks =~= pre.update(i as int, tv));
            lemma_find_task_update(pre, i as int, tv);
        }
    }

    /// Appends a task document under a key not yet present.
    fn push_task(&mut self, t: FirestoreTask)
        requires
            old(self).wf(),
            find_task(old(self)@.tasks, t@.task_name) is None,
        ensures
            final(self).wf(),
            find_task(final(self)@.tasks, t@.task_name) == Some(t@),
            forall|n: Seq<char>|
                n != t@.task_name ==> find_task(final(self)@.tasks, n)
                    == find_task(old(self)@.tasks, n),
            final(self)@.users == old(self)@.users,
    {
        let ghost pre = self@.tasks;
        let ghost tv = t@;
        self.tasks.push(t);
        proof {
            assert(self@.tasks =~= pre.push(tv));
            lemma_find_task_push(pre, tv);
        }
    }

    /// Replaces the user at position `i` by one that keeps its id.
    fn replace_user_at(&mut self, i: usize, u: User)
        requires
            old(self).wf(),
            i < old(self)@.users.len(),
            u@.id == old(self)@.users[i as int].id,
            u@.pomodoro_spent >= 0,
        ensures
            final(self).wf(),
            find_user(final(self)@.users, u@.id) == Some(u@),
            forall|n: Seq<char>|
                n != u@.id ==> find_user(final(self)@.users, n) == find_user(old(self)@.users, n),
            final(self)@.tasks == old(self)@.tasks,
    {
        let ghost pre = self@.users;
        let ghost uv = u@;
        self.users.remove(i);
        self.users.insert(i, u);
        proof {
            assert(self@.users =~= pre.update(i as int, uv));
            lemma_find_user_update(pre, i as int, uv);
        }
    }

    /// Create-or-update the task document keyed `task_text` with the write
    /// field list `{goal_name, username, task_name, color, updated_at}`;
    /// returns the document as stored after the write.
    pub fn upsert_task_change_fields(
        &mut self,
        goal_name: &String,
        username: &String,
        task_text: &String,
        color: &String,
        now: i64,
    ) -> (t: FirestoreTask)
        requires
            old(self).wf(),
        ensures
            final(self).wf(),
            t@ == merged_task_change(
                old(self)@.tasks, goal_name@, username@, task_text@, color@, now as int),
            find_task(final(self)@.tasks, task_text@) == Some(t@),
            forall|n: Seq<char>|
                n != task_text@ ==> find_task(final(self)@.tasks, n)
                    == find_task(old(self)@.tasks, n),
            final(self)@.users == old(self)@.users,
    {
        match self.task_index_of(task_text) {
            Some(i) => {
                let prior = &self.tasks[i];
                let merged = FirestoreTask {
                    goal_name: goal_name.clone(),
                    username: username.clone(),
                    task_name: task_text.clone(),
                    color: color.clone(),
                    updated_at: now,
                    message: match &prior.message {
                        Some(m) => Some(m.clone()),
                        None => None,
                    },
                    speed_rating: prior.speed_rating,
                };
                let out = merged.clone();
                self.replace_task_at(i, merged);
                out
            },
            None => {
                let fresh = FirestoreTask {
                    goal_name: goal_name.clone(),
                    username: username.clone(),
                    task_name: task_text.clone(),
                    color: color.clone(),
                    updated_at: now,
                    message: None,
                    speed_rating: None,
                };
                let out = fresh.clone();
                self.push_task(fresh);
                out
            },
        }
    }

    /// Update the task document keyed `task_name` with the write field list
    /// `{updated_at, speed_rating}` only; absent documents are not created,
    /// and no other field is touched. Returns the stored document after the
    /// write, or nothing when no document carries the key.
    pub fn upsert_task_rating_fields(&mut self, task_name: &String, rating: i32, now: i64) -> (r:
        Option<FirestoreTask>)
        requires
            old(self).wf(),
        ensures
            final(self).wf(),
            match find_task(old(self)@.tasks, task_name@) {
                None => r is None && final(self)@ == old(self)@,
                Some(t0) => {
                    &&& r matches Some(t) && t@ == rated_task(t0, rating as int, now as int)
                    &&& find_task(final(self)@.tasks, task_name@)
                        == Some(rated_task(t0, rating as int, now as int))
                    &&& forall|n: Seq<char>|
                        n != task_name@ ==> find_task(final(self)@.tasks, n)
                            == find_task(old(self)@.tasks, n)
                    &&& final(self)@.users == old(self)@.users
                },
            },
    {
        match self.task_index_of(task_name) {
            None => None,
            Some(i) => {
                let prior = &self.tasks[i];
                let written = FirestoreTask {
                    goal_name: prior.goal_name.clone(),
                    username: prior.username.clone(),
                    task_name: prior.task_name.clone(),
                    color: prior.color.clone(),
                    updated_at: now,
                    message: match &prior.message {
                        Some(m) => Some(m.clone()),
                        None => None,
                    },
                    speed_rating: Some(rating),
                };
                let out = written.clone();
                self.replace_task_at(i, written);
                Some(out)
            },
        }
    }

    /// Update the task document keyed `task_name` with the write field list
    /// `{updated_at, message}` only; absent documents are not created, and no
    /// other field is touched. Returns the stored document after the write,
    /// or nothing when no document carries the key.
    pub fn upsert_task_message_fields(&mut self, task_name: &String, message: String, now: i64) -> (r:
        Option<FirestoreTask>)
        requires
            old(self).wf(),
        ensures
            final(self).wf(),
            match find_task(old(self)@.tasks, task_name@) {
                None => r is None && final(self)@ == old(self)@,
                Some(t0) => {
                    &&& r matches Some(t) && t@ == messaged_task(t0, message@, now as int)
                    &&& find_task(final(self)@.tasks, task_name@)
                        == Some(messaged_task(t0, message@, now as int))
                    &&& forall|n: Seq<char>|
                        n != task_name@ ==> find_task(final(self)@.tasks, n)
                            == find_task(old(self)@.tasks, n)
                    &&& final(self)@.users == old(self)@.users
                },
            },
    {
        match self.task_index_of(task_name) {
            None => None,
            Some(i) => {
                let prior = &self.tasks[i];
                let written = FirestoreTask {
                    goal_name: prior.goal_name.clone(),
                    username: prior.username.clone(),
                    task_name: prior.task_name.clone(),
                    color: prior.color.clone(),
                    updated_at: now,
                    message: Some(message),
                    speed_rating: prior.speed_rating,
                };
                let out = written.clone();
                self.replace_task_at(i, written);
                Some(out)
            },
        }
    }

    /// Create-or-replace the user document keyed `username` with the write
    /// field list `{id, current_task_id, pomodoro_spent}` — the whole
    /// document. Returns the document as stored after the write.
    pub fn upsert_user_all_fields(&mut self, username: &String, current_task_id: &String, count: i32) -> (u: User)
        requires
            old(self).wf(),
            count >= 0,
        ensures
            final(self).wf(),
            u@ == (UserView {
                id: username@,
                current_task_id: current_task_id@,
                pomodoro_spent: count as int,
            }),
            find_user(final(self)@.users, username@) == Some(u@),
            forall|n: Seq<char>|
                n != username@ ==> find_user(final(self)@.users, n)
                    == find_user(old(self)@.users, n),
            final(self)@.tasks == old(self)@.tasks,
    {
        let written = User {
            id: username.clone(),
            current_task_id: current_task_id.clone(),
            pomodoro_spent: count,
        };
        let out = written.clone();
        match self.user_index_of(username) {
            Some(i) => self.replace_user_at(i, written),
            None => self.push_user(written),
        }
        out
    }

    /// Create-or-update the user document keyed `username` with the write
    /// field list `{id, pomodoro_spent}` only: the stored `current_task_id`
    /// is outside the field list and stays untouched (empty on a fresh
    /// document). Returns the document as stored after the write.
    pub fn upsert_user_count_fields(&mut self, username: &String, count: i32) -> (u: User)
        requires
            old(self).wf(),
            count >= 0,
        ensures
            final(self).wf(),
            u@ == counted_user(old(self)@.users, username@, count as int),
            find_user(final(self)@.users, username@) == Some(u@),
            forall|n: Seq<char>|
                n != username@ ==> find_user(final(self)@.users, n)
                    == find_user(old(self)@.users, n),
            final(self)@.tasks == old(self)@.tasks,
    {
        match self.user_index_of(username) {
            Some(i) => {
                let written = User {
                    id: username.clone(),
                    current_task_id: self.users[i].current_task_id.clone(),
                    pomodoro_spent: count,
                };
                let out = written.clone();
                self.replace_user_at(i, written);
                out
            },
            None => {
                let written = User {
                    id: username.clone(),
                    current_task_id: String::new(),
                    pomodoro_spent: count,
                };
                let out = written.clone();
                self.push_user(written);
                out
            },
        }
    }

    /// Appends a user document under an id not yet present.
    fn push_user(&mut self, u: User)
        requires
            old(self).wf(),
            u@.pomodoro_spent >= 0,
            find_user(old(self)@.users, u@.id) is None,
        ensures
            final(self).wf(),
            find_user(final(self)@.users, u@.id) == Some(u@),
            forall|n: Seq<char>|
                n != u@.id ==> find_user(final(self)@.users, n) == find_user(old(self)@.users, n),
            final(self)@.tasks == old(self)@.tasks,
    {
        let ghost pre = self@.users;
        let ghost uv = u@;
        self.users.push(u);
        proof {
            assert(self@.users =~= pre.push(uv));
            lemma_find_user_push(pre, uv);
        }
    }
}

} // verus!
