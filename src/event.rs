//! The records of one activity event, as the events endpoint sends them.
use vstd::prelude::*;

verus! {

/// The author of one commit of a push.
#[derive(Debug, Clone, PartialEq, Eq)]
pub struct Author {
    pub email: Option<String>,
    pub name: Option<String>,
}

/// One commit listed in a push payload.
#[derive(Debug, Clone, PartialEq, Eq)]
pub struct Commit {
    pub sha: Option<String>,
    pub author: Option<Author>,
    pub message: Option<String>,
    pub distinct: Option<bool>,
    pub url: Option<String>,
}

/// The kind-dependent part of an event; every field may be absent.
#[derive(Debug, Clone, PartialEq, Eq)]
pub struct Payload {
    pub ref_field: Option<String>,
    pub head: Option<String>,
    pub before: Option<String>,
    pub size: Option<u32>,
    pub distinct_size: Option<u32>,
    pub commits: Option<Vec<Commit>>,
}

/// The user who caused an event.
#[derive(Debug, Clone, PartialEq, Eq)]
pub struct Actor {
    pub id: u64,
    pub login: String,
    pub display_login: Option<String>,
    pub gravatar_id: Option<String>,
    pub url: String,
    pub avatar_url: String,
}

/// The repository an event happened in.
#[derive(Debug, Clone, PartialEq, Eq)]
pub struct Repo {
    pub id: u64,
    pub name: String,
    pub url: String,
}

/// One activity event. `event_type` is the open-ended kind tag, such as
/// `PushEvent`.
#[derive(Debug, Clone, PartialEq, Eq)]
pub struct ActivityEvent {
    pub id: String,
    pub event_type: String,
    pub actor: Actor,
    pub repo: Repo,
    pub payload: Option<Payload>,
    pub public: bool,
    pub created_at: String,
}

} // verus!
