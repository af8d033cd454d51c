use github_activity::decode::{decode_event, decode_events};
use github_activity::event::{ActivityEvent, Actor, Repo};
use github_activity::json::Json;
use github_activity::response::{
    events_url, is_success, on_parsed, on_response, Diagnostic, ResponseStep, SHAPE_MISMATCH,
    USER_AGENT,
};
use github_activity::summary::{classify, summarize, ActivitySummary, EventKind};
use github_activity::text::{decimal_string, greeting};

fn s(v: &str) -> String {
    v.to_string()
}

fn obj(members: Vec<(&str, Json)>) -> Json {
    Json::Object(members.into_iter().map(|(k, v)| (k.to_string(), v)).collect())
}

fn event_json(id: &str, kind: &str) -> Json {
    obj(vec![
        ("id", Json::Str(s(id))),
        ("type", Json::Str(s(kind))),
        (
            "actor",
            obj(vec![
                ("id", Json::Number(Some(7))),
                ("login", Json::Str(s("octocat"))),
                ("display_login", Json::Str(s("octocat"))),
                ("gravatar_id", Json::Str(s(""))),
                ("url", Json::Str(s("https://api.github.com/users/octocat"))),
                ("avatar_url", Json::Str(s("https://avatars.githubusercontent.com/u/7"))),
            ]),
        ),
        (
            "repo",
            obj(vec![
                ("id", Json::Number(Some(42))),
                ("name", Json::Str(s("octocat/hello"))),
                ("url", Json::Str(s("https://api.github.com/repos/octocat/hello"))),
            ]),
        ),
        ("public", Json::Bool(true)),
        ("created_at", Json::Str(s("2024-01-01T00:00:00Z"))),
    ])
}

fn event(kind: &str) -> ActivityEvent {
    ActivityEvent {
        id: s("1"),
        event_type: s(kind),
        actor: Actor {
            id: 1,
            login: s("a"),
            display_login: None,
            gravatar_id: None,
            url: s("u"),
            avatar_url: s("v"),
        },
        repo: Repo { id: 2, name: s("r"), url: s("w") },
        payload: None,
        public: true,
        created_at: s("2024-01-01T00:00:00Z"),
    }
}

fn events(kinds: &[&str]) -> Vec<ActivityEvent> {
    kinds.iter().map(|k| event(k)).collect()
}

#[test]
fn scenario_push_watch_fork() {
    let body = s("[...]");
    let list = Json::Array(vec![
        event_json("1", "PushEvent"),
        event_json("2", "WatchEvent"),
        event_json("3", "PushEvent"),
        event_json("4", "ForkEvent"),
    ]);
    assert!(matches!(on_response(200, &body), ResponseStep::Parse));
    let report = on_parsed(Ok(list), body);
    assert!(report.diagnostic.is_none());
    assert_eq!(report.summary.get("PushEvent"), Some(2));
    assert_eq!(report.summary.get("WatchEvent"), Some(1));
    assert_eq!(report.summary.get("ForkEvent"), None);
    assert_eq!(report.summary.get("IssuesEvent"), None);
    assert_eq!(report.summary.len(), 2);
    assert_eq!(report.summary.render(), "{\n    \"PushEvent\": 2,\n    \"WatchEvent\": 1,\n}");
}

#[test]
fn counts_match_multiplicities() {
    let list = events(&[
        "PushEvent", "WatchEvent", "IssuesEvent", "PushEvent", "WatchEvent", "PushEvent",
    ]);
    let summary = summarize(&list);
    assert_eq!(summary.count(EventKind::Push), 3);
    assert_eq!(summary.count(EventKind::Issues), 1);
    assert_eq!(summary.count(EventKind::Watch), 2);
    assert_eq!(summary.len(), 3);
    assert_eq!(
        summary.render(),
        "{\n    \"PushEvent\": 3,\n    \"IssuesEvent\": 1,\n    \"WatchEvent\": 2,\n}"
    );
}

#[test]
fn unrecognized_kinds_are_ignored() {
    let list = events(&["ForkEvent", "PushEvent", "CreateEvent", "pushevent", "PushEvent "]);
    let summary = summarize(&list);
    assert_eq!(summary.get("PushEvent"), Some(1));
    assert_eq!(summary.get("ForkEvent"), None);
    assert_eq!(summary.get("CreateEvent"), None);
    assert_eq!(summary.len(), 1);

    let only_other = summarize(&events(&["ForkEvent", "DeleteEvent"]));
    assert!(only_other.is_empty());
}

#[test]
fn empty_list_gives_empty_summary() {
    let summary = summarize(&Vec::new());
    assert!(summary.is_empty());
    assert_eq!(summary.len(), 0);
    assert_eq!(summary.render(), "{}");
    assert!(ActivitySummary::new().is_empty());

    let report = on_parsed(Ok(Json::Array(Vec::new())), s("[]"));
    assert!(report.diagnostic.is_none());
    assert!(report.summary.is_empty());
}

#[test]
fn order_does_not_matter() {
    let a = summarize(&events(&["PushEvent", "WatchEvent", "ForkEvent", "IssuesEvent", "PushEvent"]));
    let b = summarize(&events(&["IssuesEvent", "PushEvent", "PushEvent", "ForkEvent", "WatchEvent"]));
    for kind in [EventKind::Push, EventKind::Issues, EventKind::Watch] {
        assert_eq!(a.count(kind), b.count(kind));
    }
    assert_eq!(a.render(), b.render());
}

#[test]
fn failure_status_skips_parsing() {
    match on_response(404, &s("{\"message\":\"Not Found\"}")) {
        ResponseStep::Finished(report) => {
            assert!(report.summary.is_empty());
            match report.diagnostic {
                Some(Diagnostic::StatusFailure { status, body }) => {
                    assert_eq!(status, 404);
                    assert_eq!(body, "{\"message\":\"Not Found\"}");
                }
                _ => panic!("expected a status diagnostic"),
            }
        }
        ResponseStep::Parse => panic!("a failure status must not be parsed"),
    }
    assert!(matches!(on_response(199, &s("")), ResponseStep::Finished(_)));
    assert!(matches!(on_response(300, &s("")), ResponseStep::Finished(_)));
    assert!(matches!(on_response(500, &s("")), ResponseStep::Finished(_)));
    assert!(matches!(on_response(200, &s("")), ResponseStep::Parse));
    assert!(matches!(on_response(299, &s("")), ResponseStep::Parse));
}

#[test]
fn success_range() {
    assert!(is_success(200));
    assert!(is_success(204));
    assert!(is_success(299));
    assert!(!is_success(199));
    assert!(!is_success(300));
    assert!(!is_success(404));
}

#[test]
fn unparsable_body_gives_parse_diagnostic() {
    let report = on_parsed(Err(s("expected value at line 1 column 1")), s("not json"));
    assert!(report.summary.is_empty());
    match report.diagnostic {
        Some(Diagnostic::ParseFailure { message, body }) => {
            assert_eq!(message, "expected value at line 1 column 1");
            assert_eq!(body, "not json");
        }
        _ => panic!("expected a parse diagnostic"),
    }
}

#[test]
fn wrong_shape_gives_parse_diagnostic() {
    let top_object = obj(vec![("message", Json::Str(s("Not Found")))]);
    let report = on_parsed(Ok(top_object), s("{\"message\":\"Not Found\"}"));
    assert!(report.summary.is_empty());
    match report.diagnostic {
        Some(Diagnostic::ParseFailure { message, body }) => {
            assert_eq!(message, SHAPE_MISMATCH);
            assert_eq!(body, "{\"message\":\"Not Found\"}");
        }
        _ => panic!("expected a parse diagnostic"),
    }

    let bad_element = Json::Array(vec![event_json("1", "PushEvent"), Json::Number(Some(3))]);
    let report = on_parsed(Ok(bad_element), s("[...]"));
    assert!(report.summary.is_empty());
    assert!(matches!(report.diagnostic, Some(Diagnostic::ParseFailure { .. })));
}

#[test]
fn decoder_reads_all_fields() {
    let mut j = event_json("9", "PushEvent");
    if let Json::Object(members) = &mut j {
        members.push((s("unknown_member"), Json::Array(vec![Json::Null])));
        members.push((
            s("payload"),
            obj(vec![
                ("ref", Json::Str(s("refs/heads/main"))),
                ("head", Json::Null),
                ("size", Json::Number(Some(1))),
                (
                    "commits",
                    Json::Array(vec![obj(vec![
                        ("sha", Json::Str(s("abc"))),
                        ("author", obj(vec![("name", Json::Str(s("Mona")))])),
                        ("distinct", Json::Bool(true)),
                    ])]),
                ),
            ]),
        ));
    }
    let e = decode_event(&j).expect("well-formed event");
    assert_eq!(e.id, "9");
    assert_eq!(e.event_type, "PushEvent");
    assert_eq!(e.actor.id, 7);
    assert_eq!(e.actor.login, "octocat");
    assert_eq!(e.actor.display_login, Some(s("octocat")));
    assert_eq!(e.repo.id, 42);
    assert_eq!(e.repo.name, "octocat/hello");
    assert!(e.public);
    assert_eq!(e.created_at, "2024-01-01T00:00:00Z");
    let p = e.payload.expect("payload");
    assert_eq!(p.ref_field, Some(s("refs/heads/main")));
    assert_eq!(p.head, None);
    assert_eq!(p.before, None);
    assert_eq!(p.size, Some(1));
    assert_eq!(p.distinct_size, None);
    let commits = p.commits.expect("commits");
    assert_eq!(commits.len(), 1);
    assert_eq!(commits[0].sha, Some(s("abc")));
    assert_eq!(commits[0].distinct, Some(true));
    assert_eq!(commits[0].message, None);
    let author = commits[0].author.clone().expect("author");
    assert_eq!(author.name, Some(s("Mona")));
    assert_eq!(author.email, None);
}

#[test]
fn decoder_rejects_mismatches() {
    let without = |key: &str| {
        let mut j = event_json("1", "PushEvent");
        if let Json::Object(members) = &mut j {
            members.retain(|(k, _)| k != key);
        }
        j
    };
    for key in ["id", "type", "actor", "repo", "public", "created_at"] {
        assert!(decode_event(&without(key)).is_none(), "missing {key}");
    }
    assert!(decode_event(&without("payload")).is_some());

    let with = |key: &str, value: Json| {
        let mut j = without(key);
        if let Json::Object(members) = &mut j {
            members.push((s(key), value));
        }
        j
    };
    assert!(decode_event(&with("id", Json::Number(Some(1)))).is_none());
    assert!(decode_event(&with("type", Json::Null)).is_none());
    assert!(decode_event(&with("public", Json::Str(s("yes")))).is_none());
    assert!(decode_event(&with("actor", Json::Null)).is_none());
    assert!(decode_event(&with("payload", Json::Null)).is_some());
    assert!(decode_event(&with("payload", Json::Str(s("x")))).is_none());
    let big = obj(vec![("size", Json::Number(Some(4_294_967_296)))]);
    assert!(decode_event(&with("payload", big)).is_none());
    let fits = obj(vec![("size", Json::Number(Some(4_294_967_295)))]);
    assert!(decode_event(&with("payload", fits)).is_some());
    let negative_repo = obj(vec![
        ("id", Json::Number(None)),
        ("name", Json::Str(s("n"))),
        ("url", Json::Str(s("u"))),
    ]);
    assert!(decode_event(&with("repo", negative_repo)).is_none());

    assert!(decode_events(&obj(vec![])).is_none());
    assert_eq!(decode_events(&Json::Array(vec![])).map(|v| v.len()), Some(0));
}

#[test]
fn first_member_wins() {
    let mut j = event_json("1", "WatchEvent");
    if let Json::Object(members) = &mut j {
        members.push((s("type"), Json::Str(s("PushEvent"))));
    }
    assert_eq!(decode_event(&j).map(|e| e.event_type), Some(s("WatchEvent")));
}

#[test]
fn classify_is_exact() {
    assert_eq!(classify(&s("PushEvent")), Some(EventKind::Push));
    assert_eq!(classify(&s("IssuesEvent")), Some(EventKind::Issues));
    assert_eq!(classify(&s("WatchEvent")), Some(EventKind::Watch));
    assert_eq!(classify(&s("Push")), None);
    assert_eq!(classify(&s("")), None);
    assert_eq!(EventKind::Issues.name(), "IssuesEvent");
}

#[test]
fn text_rendering() {
    assert_eq!(decimal_string(0), "0");
    assert_eq!(decimal_string(7), "7");
    assert_eq!(decimal_string(10), "10");
    assert_eq!(decimal_string(1234567890), "1234567890");
    assert_eq!(decimal_string(u64::MAX), "18446744073709551615");
    assert_eq!(greeting("octocat"), "Hi, octocat");
    assert_eq!(events_url("octocat"), "https://api.github.com/users/octocat/events");
    assert_eq!(USER_AGENT, "Rust-Client");
}

#[test]
fn diagnostic_lines() {
    let status = Diagnostic::StatusFailure { status: 404, body: s("nope") };
    assert_eq!(status.lines(), vec![s("Request failed with status: 404"), s("Raw response body: nope")]);
    let parse = Diagnostic::ParseFailure { message: s("EOF"), body: s("[") };
    assert_eq!(parse.lines(), vec![s("Failed to parse JSON response: EOF"), s("Raw response body: [")]);
}
