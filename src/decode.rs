//! Decoding the event list from its JSON model.
//!
//! Members that the records do not name are ignored. A member of an optional
//! field may be absent or null; a required one must be present with the right
//! type. Any mismatch rejects the whole list.
use vstd::prelude::*;

use crate::event::{ActivityEvent, Actor, Author, Commit, Payload, Repo};
use crate::json::{
    field, get_field, opt_bool, opt_str, opt_u32, read_opt_bool, read_opt_str, read_opt_u32,
    read_req_bool, read_req_str, read_req_u64, req_bool, req_str, req_u64, Json,
};

verus! {

pub open spec fn author_of(j: Json) -> Option<Author> {
    match j {
        Json::Object(fs) => match (opt_str(fs@, "email"@), opt_str(fs@, "name"@)) {
            (Some(email), Some(name)) => Some(Author { email, name }),
            _ => None,
        },
        _ => None,
    }
}

/// An optional author member.
pub open spec fn opt_author(fields: Seq<(String, Json)>, key: Seq<char>) -> Option<Option<Author>> {
    match field(fields, key) {
        None => Some(None),
        Some(Json::Null) => Some(None),
        Some(j) => match author_of(j) {
            Some(a) => Some(Some(a)),
            None => None,
        },
    }
}

pub open spec fn commit_of(j: Json) -> Option<Commit> {
    match j {
        Json::Object(fs) => match (
            opt_str(fs@, "sha"@),
            opt_author(fs@, "author"@),
            opt_str(fs@, "message"@),
            opt_bool(fs@, "distinct"@),
            opt_str(fs@, "url"@),
        ) {
            (Some(sha), Some(author), Some(message), Some(distinct), Some(url)) => Some(
                Commit { sha, author, message, distinct, url },
            ),
            _ => None,
        },
        _ => None,
    }
}

/// `commits` is the element-wise decoding of `items`.
pub open spec fn commits_decode(items: Seq<Json>, commits: Seq<Commit>) -> bool {
    &&& items.len() == commits.len()
    &&& forall|i: int| 0 <= i < items.len() ==> commit_of(#[trigger] items[i]) == Some(commits[i])
}

pub open spec fn commits_valid(items: Seq<Json>) -> bool {
    forall|i: int| 0 <= i < items.len() ==> (#[trigger] commit_of(items[i])) is Some
}

pub open spec fn opt_commits_valid(fields: Seq<(String, Json)>, key: Seq<char>) -> bool {
    match field(fields, key) {
        None => true,
        Some(Json::Null) => true,
        Some(Json::Array(items)) => commits_valid(items@),
        _ => false,
    }
}

pub open spec fn opt_commits_decode(
    fields: Seq<(String, Json)>,
    key: Seq<char>,
    commits: Option<Vec<Commit>>,
) -> bool {
    match field(fields, key) {
        None => commits is None,
        Some(Json::Null) => commits is None,
        Some(Json::Array(items)) => commits matches Some(cs) && commits_decode(items@, cs@),
        _ => false,
    }
}

pub open spec fn payload_valid(j: Json) -> bool {
    match j {
        Json::Object(fs) => {
            &&& opt_str(fs@, "ref"@) is Some
            &&& opt_str(fs@, "head"@) is Some
            &&& opt_str(fs@, "before"@) is Some
            &&& opt_u32(fs@, "size"@) is Some
            &&& opt_u32(fs@, "distinct_size"@) is Some
            &&& opt_commits_valid(fs@, "commits"@)
        },
        _ => false,
    }
}

/// `p` is what the payload object `j` decodes to.
pub open spec fn payload_decodes(j: Json, p: Payload) -> bool {
    match j {
        Json::Object(fs) => {
            &&& opt_str(fs@, "ref"@) == Some(p.ref_field)
            &&& opt_str(fs@, "head"@) == Some(p.head)
            &&& opt_str(fs@, "before"@) == Some(p.before)
            &&& opt_u32(fs@, "size"@) == Some(p.size)
            &&& opt_u32(fs@, "distinct_size"@) == Some(p.distinct_size)
            &&& opt_commits_decode(fs@, "commits"@, p.commits)
        },
        _ => false,
    }
}

pub open spec fn actor_of(j: Json) -> Option<Actor> {
    match j {
        Json::Object(fs) => match (
            req_u64(fs@, "id"@),
            req_str(fs@, "login"@),
            opt_str(fs@, "display_login"@),
            opt_str(fs@, "gravatar_id"@),
            req_str(fs@, "url"@),
            req_str(fs@, "avatar_url"@),
        ) {
            (Some(id), Some(login), Some(display_login), Some(gravatar_id), Some(url), Some(avatar_url)) => Some(
                Actor { id, login, display_login, gravatar_id, url, avatar_url },
            ),
            _ => None,
        },
        _ => None,
    }
}

pub open spec fn repo_of(j: Json) -> Option<Repo> {
    match j {
        Json::Object(fs) => match (req_u64(fs@, "id"@), req_str(fs@, "name"@), req_str(fs@, "url"@)) {
            (Some(id), Some(name), Some(url)) => Some(Repo { id, name, url }),
            _ => None,
        },
        _ => None,
    }
}

pub open spec fn event_valid(j: Json) -> bool {
    match j {
        Json::Object(fs) => {
            &&& req_str(fs@, "id"@) is Some
            &&& req_str(fs@, "type"@) is Some
            &&& field(fs@, "actor"@) matches Some(a) && actor_of(a) is Some
            &&& field(fs@, "repo"@) matches Some(r) && repo_of(r) is Some
            &&& match field(fs@, "payload"@) {
                None => true,
                Some(Json::Null) => true,
                Some(p) => payload_valid(p),
            }
            &&& req_bool(fs@, "public"@) is Some
            &&& req_str(fs@, "created_at"@) is Some
        },
        _ => false,
    }
}

/// `e` is what the event object `j` decodes to; its kind tag is the member
/// named `type`.
pub open spec fn event_decodes(j: Json, e: ActivityEvent) -> bool {
    match j {
        Json::Object(fs) => {
            &&& req_str(fs@, "id"@) == Some(e.id)
            &&& req_str(fs@, "type"@) == Some(e.event_type)
            &&& field(fs@, "actor"@) matches Some(a) && actor_of(a) == Some(e.actor)
            &&& field(fs@, "repo"@) matches Some(r) && repo_of(r) == Some(e.repo)
            &&& match field(fs@, "payload"@) {
                None => e.payload is None,
                Some(Json::Null) => e.payload is None,
                Some(p) => e.payload matches Some(ep) && payload_decodes(p, ep),
            }
            &&& req_bool(fs@, "public"@) == Some(e.public)
            &&& req_str(fs@, "created_at"@) == Some(e.created_at)
        },
        _ => false,
    }
}

/// A JSON value that decodes to an event list: an array of event objects.
pub open spec fn events_valid(j: Json) -> bool {
    match j {
        Json::Array(items) => forall|i: int|
            0 <= i < items@.len() ==> event_valid(#[trigger] items@[i]),
        _ => false,
    }
}

/// `events` is the element-wise decoding of the array `j`, in its order.
pub open spec fn events_decode(j: Json, events: Seq<ActivityEvent>) -> bool {
    match j {
        Json::Array(items) => {
            &&& items@.len() == events.len()
            &&& forall|i: int|
                0 <= i < items@.len() ==> event_decodes(#[trigger] items@[i], events[i])
        },
        _ => false,
    }
}

pub fn decode_author(j: &Json) -> (r: Option<Author>)
    ensures
        r == author_of(*j),
{
    match j {
        Json::Object(fs) => {
            let email = match read_opt_str(fs, "email") {
                Some(v) => v,
                None => return None,
            };
            let name = match read_opt_str(fs, "name") {
                Some(v) => v,
                None => return None,
            };
            Some(Author { email, name })
        },
        _ => None,
    }
}

fn read_opt_author(fields: &Vec<(String, Json)>, key: &str) -> (r: Option<Option<Author>>)
    ensures
        r == opt_author(fields@, key@),
{
    match get_field(fields, key) {
        None => Some(None),
        Some(Json::Null) => Some(None),
        Some(j) => match decode_author(j) {
            Some(a) => Some(Some(a)),
            None => None,
        },
    }
}

pub fn decode_commit(j: &Json) -> (r: Option<Commit>)
    ensures
        r == commit_of(*j),
{
    match j {
        Json::Object(fs) => {
            let sha = match read_opt_str(fs, "sha") {
                Some(v) => v,
                None => return None,
            };
            let author = match read_opt_author(fs, "author") {
                Some(v) => v,
                None => return None,
            };
            let message = match read_opt_str(fs, "message") {
                Some(v) => v,
                None => return None,
            };
            let distinct = match read_opt_bool(fs, "distinct") {
                Some(v) => v,
                None => return None,
            };
            let url = match read_opt_str(fs, "url") {
                Some(v) => v,
                None => return None,
            };
            Some(Commit { sha, author, message, distinct, url })
        },
        _ => None,
    }
}

/// Decodes each element of `items` as a commit.
pub fn decode_commits(items: &Vec<Json>) -> (r: Option<Vec<Commit>>)
    ensures
        r is Some <==> commits_valid(items@),
        r matches Some(cs) ==> commits_decode(items@, cs@),
{
    let mut out: Vec<Commit> = Vec::new();
    let mut i: usize = 0;
    while i < items.len()
        invariant
            i <= items@.len(),
            commits_decode(items@.take(i as int), out@),
            commits_valid(items@.take(i as int)),
        decreases items@.len() - i,
    {
        match decode_commit(&items[i]) {
            Some(c) => out.push(c),
            None => {
                assert(commit_of(items@[i as int]) is None);
                return None;
            },
        }
        i = i + 1;
        assert(items@.take(i as int) =~= items@.take(i - 1).push(items@[i - 1]));
    }
    assert(items@.take(i as int) =~= items@);
    Some(out)
}

pub fn decode_payload(j: &Json) -> (r: Option<Payload>)
    ensures
        r is Some <==> payload_valid(*j),
        r matches Some(p) ==> payload_decodes(*j, p),
{
    match j {
        Json::Object(fs) => {
            let ref_field = match read_opt_str(fs, "ref") {
                Some(v) => v,
                None => return None,
            };
            let head = match read_opt_str(fs, "head") {
                Some(v) => v,
                None => return None,
            };
            let before = match read_opt_str(fs, "before") {
                Some(v) => v,
                None => return None,
            };
            let size = match read_opt_u32(fs, "size") {
                Some(v) => v,
                None => return None,
            };
            let distinct_size = match read_opt_u32(fs, "distinct_size") {
                Some(v) => v,
                None => return None,
            };
            let commits = match get_field(fs, "commits") {
                None => None,
                Some(Json::Null) => None,
                Some(Json::Array(items)) => match decode_commits(items) {
                    Some(cs) => Some(cs),
                    None => return None,
                },
                Some(_) => return None,
            };
            Some(Payload { ref_field, head, before, size, distinct_size, commits })
        },
        _ => None,
    }
}

pub fn decode_actor(j: &Json) -> (r: Option<Actor>)
    ensures
        r == actor_of(*j),
{
    match j {
        Json::Object(fs) => {
            let id = match read_req_u64(fs, "id") {
                Some(v) => v,
                None => return None,
            };
            let login = match read_req_str(fs, "login") {
                Some(v) => v,
                None => return None,
            };
            let display_login = match read_opt_str(fs, "display_login") {
                Some(v) => v,
                None => return None,
            };
            let gravatar_id = match read_opt_str(fs, "gravatar_id") {
                Some(v) => v,
                None => return None,
            };
            let url = match read_req_str(fs, "url") {
                Some(v) => v,
                None => return None,
            };
            let avatar_url = match read_req_str(fs, "avatar_url") {
                Some(v) => v,
                None => return None,
            };
            Some(Actor { id, login, display_login, gravatar_id, url, avatar_url })
        },
        _ => None,
    }
}

pub fn decode_repo(j: &Json) -> (r: Option<Repo>)
    ensures
        r == repo_of(*j),
{
    match j {
        Json::Object(fs) => {
            let id = match read_req_u64(fs, "id") {
                Some(v) => v,
                None => return None,
            };
            let name = match read_req_str(fs, "name") {
                Some(v) => v,
                None => return None,
            };
            let url = match read_req_str(fs, "url") {
                Some(v) => v,
                None => return None,
            };
            Some(Repo { id, name, url })
        },
        _ => None,
    }
}

pub fn decode_event(j: &Json) -> (r: Option<ActivityEvent>)
    ensures
        r is Some <==> event_valid(*j),
        r matches Some(e) ==> event_decodes(*j, e),
{
    match j {
        Json::Object(fs) => {
            let id = match read_req_str(fs, "id") {
                Some(v) => v,
                None => return None,
            };
            let event_type = match read_req_str(fs, "type") {
                Some(v) => v,
                None => return None,
            };
            let actor = match get_field(fs, "actor") {
                Some(a) => match decode_actor(a) {
                    Some(v) => v,
                    None => return None,
                },
                None => return None,
            };
            let repo = match get_field(fs, "repo") {
                Some(a) => match decode_repo(a) {
                    Some(v) => v,
                    None => return None,
                },
                None => return None,
            };
            let payload = match get_field(fs, "payload") {
                None => None,
                Some(Json::Null) => None,
                Some(p) => match decode_payload(p) {
                    Some(v) => Some(v),
                    None => return None,
                },
            };
            let public = match read_req_bool(fs, "public") {
                Some(v) => v,
                None => return None,
            };
            let created_at = match read_req_str(fs, "created_at") {
                Some(v) => v,
                None => return None,
            };
            Some(ActivityEvent { id, event_type, actor, repo, payload, public, created_at })
        },
        _ => None,
    }
}

/// Decodes a JSON array of event objects, keeping their order. Fails when
/// `j` is not an array or any element is not a well-formed event.
pub fn decode_events(j: &Json) -> (r: Option<Vec<ActivityEvent>>)
    ensures
        r is Some <==> events_valid(*j),
        r matches Some(es) ==> events_decode(*j, es@),
{
    match j {
        Json::Array(items) => {
            let mut out: Vec<ActivityEvent> = Vec::new();
            let mut i: usize = 0;
            while i < items.len()
                invariant
                    *j == Json::Array(*items),
                    i <= items@.len(),
                    out@.len() == i,
                    forall|k: int| 0 <= k < i ==> event_decodes(#[trigger] items@[k], out@[k]),
                    forall|k: int| 0 <= k < i ==> event_valid(#[trigger] items@[k]),
                decreases items@.len() - i,
            {
                match decode_event(&items[i]) {
                    Some(e) => out.push(e),
                    None => {
                        assert(!event_valid(items@[i as int]));
                        assert(j->Array_0 == *items);
                        return None;
                    },
                }
                i = i + 1;
            }
            Some(out)
        },
        _ => None,
    }
}

} // verus!
