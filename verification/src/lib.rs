//! Webhook event interpretation and state-update logic for a task/pomodoro
//! tracking service.
//!
//! Inbound productivity-app events (task changes, pomodoro-timer completions)
//! are decoded into a closed event union and interpreted as updates of two
//! persisted entities, a Task and a User, held in a keyed document store.
//! The store itself is modelled here as an in-memory pair of collections with
//! field-list upsert semantics, so that every business rule — which event
//! writes which fields of which document — is stated and proved.

mod clock;
pub mod event;
pub mod laws;
pub mod service;
pub mod store;
