//! What a fetched response leads to: the request to send, whether to parse
//! the body, and the report that ends the run.
use vstd::prelude::*;

use crate::decode::{decode_events, event_decodes, events_decode, events_valid};
use crate::json::Json;
use crate::summary::{count_type, summarize, summary_of, ActivitySummary};
use crate::text::{decimal, decimal_string};

verus! {

/// The client name sent in the `User-Agent` header.
pub const USER_AGENT: &'static str = "Rust-Client";

/// The diagnostic given when the body is JSON but not an event list.
pub const SHAPE_MISMATCH: &'static str = "the JSON value is not an array of events";

/// The address of a user's public events.
pub open spec fn events_url_text(username: Seq<char>) -> Seq<char> {
    "https://api.github.com/users/"@ + username + "/events"@
}

pub fn events_url(username: &str) -> (r: String)
    ensures
        r@ == events_url_text(username@),
{
    let mut s = String::from_str("https://api.github.com/users/");
    s.append(username);
    s.append("/events");
    s
}

/// A status in the success range 200 to 299.
pub open spec fn is_success_status(status: u16) -> bool {
    200 <= status <= 299
}

pub fn is_success(status: u16) -> (r: bool)
    ensures
        r == is_success_status(status),
{
    200 <= status && status <= 299
}

/// A recoverable failure: reported, then treated as no events.
pub enum Diagnostic {
    /// The server answered with a status outside the success range.
    StatusFailure { status: u16, body: String },
    /// The body is not JSON, or not an event list.
    ParseFailure { message: String, body: String },
}

/// The end of a run: the summary to print, and what went wrong, if anything.
pub struct Report {
    pub summary: ActivitySummary,
    pub diagnostic: Option<Diagnostic>,
}

/// What to do with a fetched response.
pub enum ResponseStep {
    /// Parse the body as JSON and hand the result to [`on_parsed`].
    Parse,
    /// Nothing is parsed; the run ends with this report.
    Finished(Report),
}

/// Decides on a response from its status: a success status asks for the body
/// to be parsed; any other ends the run with an empty summary and a status
/// diagnostic that carries the body.
pub fn on_response(status: u16, body: &String) -> (r: ResponseStep)
    ensures
        r is Parse <==> is_success_status(status),
        !is_success_status(status) ==> (r matches ResponseStep::Finished(rep) && {
            &&& rep.summary@ == Map::<Seq<char>, nat>::empty()
            &&& rep.diagnostic matches Some(Diagnostic::StatusFailure { status: s, body: b })
            &&& s == status
            &&& b@ == body@
        }),
{
    if is_success(status) {
        ResponseStep::Parse
    } else {
        ResponseStep::Finished(
            Report {
                summary: ActivitySummary::new(),
                diagnostic: Some(Diagnostic::StatusFailure { status, body: body.clone() }),
            },
        )
    }
}

/// Ends the run from the parsed body: `Err` holds the parser's message. An
/// event list is summarized; a parse failure or a value of another shape
/// gives an empty summary and a parse diagnostic that carries the body.
pub fn on_parsed(parsed: Result<Json, String>, body: String) -> (r: Report)
    ensures
        match parsed {
            Ok(j) => if events_valid(j) {
                r.diagnostic is None && exists|es: Seq<crate::event::ActivityEvent>|
                    events_decode(j, es) && r.summary@ == summary_of(es)
            } else {
                &&& r.summary@ == Map::<Seq<char>, nat>::empty()
                &&& r.diagnostic matches Some(Diagnostic::ParseFailure { message: m, body: b })
                &&& m@ == SHAPE_MISMATCH@
                &&& b@ == body@
            },
            Err(e) => {
                &&& r.summary@ == Map::<Seq<char>, nat>::empty()
                &&& r.diagnostic matches Some(Diagnostic::ParseFailure { message: m, body: b })
                &&& m@ == e@
                &&& b@ == body@
            },
        },
{
    match parsed {
        Ok(j) => match decode_events(&j) {
            Some(events) => Report { summary: summarize(&events), diagnostic: None },
            None => Report {
                summary: ActivitySummary::new(),
                diagnostic: Some(
                    Diagnostic::ParseFailure { message: String::from_str(SHAPE_MISMATCH), body },
                ),
            },
        },
        Err(message) => Report {
            summary: ActivitySummary::new(),
            diagnostic: Some(Diagnostic::ParseFailure { message, body }),
        },
    }
}

proof fn lemma_same_types_same_counts(
    a: Seq<crate::event::ActivityEvent>,
    b: Seq<crate::event::ActivityEvent>,
    name: Seq<char>,
)
    requires
        a.len() == b.len(),
        forall|i: int| 0 <= i < a.len() ==> (#[trigger] a[i]).event_type@ == b[i].event_type@,
    ensures
        count_type(a, name) == count_type(b, name),
    decreases a.len(),
{
    if a.len() > 0 {
        lemma_same_types_same_counts(a.drop_last(), b.drop_last(), name);
        assert(a.last().event_type@ == b[a.len() - 1].event_type@);
    }
}

/// Any two decodings of one JSON value have the same summary, so the summary
/// of a decodable value is determined by the value alone.
pub proof fn lemma_decoded_summary_unique(
    j: Json,
    a: Seq<crate::event::ActivityEvent>,
    b: Seq<crate::event::ActivityEvent>,
)
    requires
        events_decode(j, a),
        events_decode(j, b),
    ensures
        summary_of(a) == summary_of(b),
{
    let items = j->Array_0;
    assert forall|i: int| 0 <= i < a.len() implies (#[trigger] a[i]).event_type@
        == b[i].event_type@ by {
        assert(event_decodes(items@[i], a[i]));
        assert(event_decodes(items@[i], b[i]));
    }
    assert forall|name: Seq<char>| #[trigger] count_type(a, name) == count_type(b, name) by {
        lemma_same_types_same_counts(a, b, name);
    }
    assert(summary_of(a) =~= summary_of(b));
}

impl Diagnostic {
    /// The lines written to the error channel.
    pub open spec fn spec_lines(&self) -> Seq<Seq<char>> {
        match self {
            Diagnostic::StatusFailure { status, body } => seq![
                "Request failed with status: "@ + decimal(*status as nat),
                "Raw response body: "@ + body@,
            ],
            Diagnostic::ParseFailure { message, body } => seq![
                "Failed to parse JSON response: "@ + message@,
                "Raw response body: "@ + body@,
            ],
        }
    }

    pub fn lines(&self) -> (r: Vec<String>)
        ensures
            r@.len() == 2,
            r@[0]@ == self.spec_lines()[0],
            r@[1]@ == self.spec_lines()[1],
    {
        let (mut first, body) = match self {
            Diagnostic::StatusFailure { status, body } => {
                let mut s = String::from_str("Request failed with status: ");
                let digits = decimal_string(*status as u64);
                s.append(digits.as_str());
                (s, body)
            },
            Diagnostic::ParseFailure { message, body } => {
                let mut s = String::from_str("Failed to parse JSON response: ");
                s.append(message.as_str());
                (s, body)
            },
        };
        let mut second = String::from_str("Raw response body: ");
        second.append(body.as_str());
        let mut r: Vec<String> = Vec::new();
        r.push(first);
        r.push(second);
        r
    }
}

} // verus!
