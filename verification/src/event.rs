//! The inbound event model: a closed, discriminated union keyed by a string
//! discriminant, and the decoder that maps raw webhook fields onto it.

use vstd::prelude::*;

verus! {

/// Payload of a task-change event: the task's display text and its id.
#[derive(Debug)]
pub struct TaskData {
    pub text: String,
    pub _id: String,
}

/// Colour payload of a task-change event.
#[derive(Debug)]
pub struct Colors {
    pub color: String,
}

/// A decoded inbound event. Unrecognised discriminants decode to `Other`,
/// which downstream handlers silently ignore — it is never an error.
#[derive(Debug)]
pub enum Event {
    TaskChange { goal_name: String, username: String, nexa: TaskData, colors: Colors },
    TimerEnd { username: String },
    Other,
}

/// Mathematical image of `TaskData`.
pub struct TaskDataView {
    pub text: Seq<char>,
    pub id: Seq<char>,
}

/// Mathematical image of `Colors`.
pub struct ColorsView {
    pub color: Seq<char>,
}

/// Mathematical image of `Event`.
pub enum EventView {
    TaskChange { goal_name: Seq<char>, username: Seq<char>, nexa: TaskDataView, colors: ColorsView },
    TimerEnd { username: Seq<char> },
    Other,
}

impl View for TaskData {
    type V = TaskDataView;

    open spec fn view(&self) -> TaskDataView {
        TaskDataView { text: self.text@, id: self._id@ }
    }
}

impl View for Colors {
    type V = ColorsView;

    open spec fn view(&self) -> ColorsView {
        ColorsView { color: self.color@ }
    }
}

impl View for Event {
    type V = EventView;

    open spec fn view(&self) -> EventView {
        match self {
            Event::TaskChange { goal_name, username, nexa, colors } => EventView::TaskChange {
                goal_name: goal_name@,
                username: username@,
                nexa: nexa@,
                colors: colors@,
            },
            Event::TimerEnd { username } => EventView::TimerEnd { username: username@ },
            Event::Other => EventView::Other,
        }
    }
}

/// The failure taxonomy of the service. `MalformedEvent` is a decode failure
/// and `NotFound` a failed existence guard before an update. The store
/// variants complete the taxonomy for shells that talk to a remote document
/// store, whose reads, writes and queries can fail where the in-memory model
/// cannot.
#[derive(Clone, Copy, PartialEq, Eq, Structural, Debug)]
pub enum ServiceError {
    MalformedEvent,
    NotFound,
    StoreReadFailed,
    StoreWriteFailed,
    StoreQueryFailed,
}

impl ServiceError {
    /// The HTTP status a failure maps to: 400 for a malformed body, 404 for
    /// a failed existence guard, 500 for any store failure.
    pub fn http_status(&self) -> (s: u16)
        ensures
            s == (match self {
                ServiceError::MalformedEvent => 400u16,
                ServiceError::NotFound => 404u16,
                _ => 500u16,
            }),
    {
        match self {
            ServiceError::MalformedEvent => 400,
            ServiceError::NotFound => 404,
            ServiceError::StoreReadFailed => 500,
            ServiceError::StoreWriteFailed => 500,
            ServiceError::StoreQueryFailed => 500,
        }
    }
}

/// The discriminant value that selects a task-change event.
pub open spec fn task_change_key() -> Seq<char> {
    "nexa.change"@
}

/// The discriminant value that selects a timer-end event.
pub open spec fn timer_end_key() -> Seq<char> {
    "timer.pomo.workcomplete"@
}

/// The raw fields of an inbound webhook body, already stripped of JSON
/// syntax: each field is `Some` exactly when the body carries it as a string
/// (`event_key` is `None` when the discriminant is missing or not a string).
pub struct RawEvent {
    pub event_key: Option<String>,
    pub goal_name: Option<String>,
    pub username: Option<String>,
    pub task_text: Option<String>,
    pub task_id: Option<String>,
    pub color: Option<String>,
}

/// Mathematical image of `RawEvent`.
pub struct RawEventView {
    pub event_key: Option<Seq<char>>,
    pub goal_name: Option<Seq<char>>,
    pub username: Option<Seq<char>>,
    pub task_text: Option<Seq<char>>,
    pub task_id: Option<Seq<char>>,
    pub color: Option<Seq<char>>,
}

impl View for RawEvent {
    type V = RawEventView;

    open spec fn view(&self) -> RawEventView {
        RawEventView {
            event_key: match self.event_key {
                Some(ref k) => Some(k@),
                None => None,
            },
            goal_name: match self.goal_name {
                Some(ref k) => Some(k@),
                None => None,
            },
            username: match self.username {
                Some(ref k) => Some(k@),
                None => None,
            },
            task_text: match self.task_text {
                Some(ref k) => Some(k@),
                None => None,
            },
            task_id: match self.task_id {
                Some(ref k) => Some(k@),
                None => None,
            },
            color: match self.color {
                Some(ref k) => Some(k@),
                None => None,
            },
        }
    }
}

/// What decoding a raw body yields: the discriminant is looked up in the
/// fixed key table; on a match every payload field of that variant is
/// required, on no match the body decodes to `Other` whatever else it holds.
/// Only a missing/non-string discriminant or a missing payload field of a
/// matched variant is malformed.
pub open spec fn spec_decode(raw: RawEventView) -> Result<EventView, ServiceError> {
    match raw.event_key {
        None => Err(ServiceError::MalformedEvent),
        Some(k) => if k == task_change_key() {
            if raw.goal_name is Some && raw.username is Some && raw.task_text is Some
                && raw.task_id is Some && raw.color is Some {
                Ok(EventView::TaskChange {
                    goal_name: raw.goal_name->0,
                    username: raw.username->0,
                    nexa: TaskDataView { text: raw.task_text->0, id: raw.task_id->0 },
                    colors: ColorsView { color: raw.color->0 },
                })
            } else {
                Err(ServiceError::MalformedEvent)
            }
        } else if k == timer_end_key() {
            if raw.username is Some {
                Ok(EventView::TimerEnd { username: raw.username->0 })
            } else {
                Err(ServiceError::MalformedEvent)
            }
        } else {
            Ok(EventView::Other)
        },
    }
}

/// Decodes the raw fields of a webhook body into an `Event`.
pub fn decode_event(raw: RawEvent) -> (r: Result<Event, ServiceError>)
    ensures
        match r {
            Ok(e) => spec_decode(raw@) == Ok::<EventView, ServiceError>(e@),
            Err(err) => spec_decode(raw@) == Err::<EventView, ServiceError>(err),
        },
{
    let RawEvent { event_key, goal_name, username, task_text, task_id, color } = raw;
    match event_key {
        None => Err(ServiceError::MalformedEvent),
        Some(k) => {
            if k == "nexa.change".to_owned() {
                match (goal_name, username, task_text, task_id, color) {
                    (Some(g), Some(u), Some(t), Some(i), Some(c)) => Ok(Event::TaskChange {
                        goal_name: g,
                        username: u,
                        nexa: TaskData { text: t, _id: i },
                        colors: Colors { color: c },
                    }),
                    _ => Err(ServiceError::MalformedEvent),
                }
            } else if k == "timer.pomo.workcomplete".to_owned() {
                match username {
                    Some(u) => Ok(Event::TimerEnd { username: u }),
                    None => Err(ServiceError::MalformedEvent),
                }
            } else {
                Ok(Event::Other)
            }
        },
    }
}

} // verus!
