use vstd::prelude::*;
use vstd::string::StringExecFns;
use crate::errors::Error;

verus! {

/// The fixed delay between two status polls, in milliseconds. The machine
/// has no retry bound or deadline: it suspends for this long and polls
/// again, until a terminal state or a fatal error.
pub const POLL_INTERVAL_MS: u64 = 1000;

/// The string value of a field of a JSON object: Some where the text parses
/// as JSON, the parsed value is an object with the field, and the field's
/// value is a string; None otherwise. As serde_json computes it from the
/// text and the key.
pub uninterp spec fn json_string_field(text: Seq<char>, key: Seq<char>) -> Option<Seq<char>>;

/// Relies on serde_json::from_str, Value::get and Value::as_str: parses the
/// text and takes the named field's string value. The outcome depends on the
/// text and the key alone.
#[verifier::external_body]
fn get_string_field(text: &str, key: &str) -> (r: Option<String>)
    ensures
        r matches Some(v) ==> json_string_field(text@, key@) == Some(v@),
        r is None ==> json_string_field(text@, key@) is None,
{
    let value: serde_json::Value = match serde_json::from_str(text) {
        Ok(v) => v,
        Err(_) => return None,
    };
    match value.get(key) {
        Some(field) => field.as_str().map(|s| s.to_string()),
        None => None,
    }
}

/// The state of a submission run. A run starts in Submitted once the relay
/// has returned a submission id, moves through Polling while the relay
/// reports non-terminal status values, and ends in Finalized on the exact
/// status string `Finalized`, or in Failed on a malformed report. The
/// machine itself has no retry bound: it stays in Polling until a terminal
/// state.
pub enum PollState {
    /// The relay accepted the submission under this id.
    Submitted(String),
    /// Waiting for the submission with this id to reach a terminal status.
    Polling(String),
    /// The submission is irreversibly included on-chain.
    Finalized,
    /// A status report could not be read; the run is aborted.
    Failed(String),
}

impl PollState {
    /// The submission id the machine polls for, in the states that carry
    /// one.
    pub open spec fn spec_id(&self) -> Seq<char> {
        match self {
            PollState::Submitted(id) => id@,
            PollState::Polling(id) => id@,
            _ => Seq::empty(),
        }
    }

    /// Whether the run is over, successfully or not.
    pub open spec fn spec_terminal(&self) -> bool {
        self is Finalized || self is Failed
    }

    /// Whether the run is over.
    pub fn is_terminal(&self) -> (r: bool)
        ensures
            r == self.spec_terminal(),
    {
        match self {
            PollState::Finalized => true,
            PollState::Failed(_) => true,
            _ => false,
        }
    }

    /// The submission id in the states that carry one.
    pub fn submission_id(&self) -> (r: Option<&String>)
        ensures
            (self is Submitted || self is Polling) <==> (r matches Some(id) && id@
                == self.spec_id()),
            self.spec_terminal() <==> r is None,
    {
        match self {
            PollState::Submitted(id) => Some(id),
            PollState::Polling(id) => Some(id),
            _ => None,
        }
    }
}

/// Reads the relay's answer to the submission POST. Only a JSON object with
/// a string `id` field starts a run, in Submitted under that id; a response
/// without one is a fatal error, never a silent continuation.
pub fn handle_post_response(response: &str) -> (r: Result<PollState, Error>)
    ensures
        r matches Ok(st) ==> (st matches PollState::Submitted(id) && json_string_field(
            response@,
            "id"@,
        ) == Some(id@)),
        r is Ok <==> json_string_field(response@, "id"@) is Some,
        r matches Err(e) ==> e is MalformedResponse,
{
    match get_string_field(response, "id") {
        Some(id) => Ok(PollState::Submitted(id)),
        None => Err(
            Error::MalformedResponse(String::from_str("no string `id` field in the POST response")),
        ),
    }
}

/// One observation of the relay's status report, taken from the initial
/// Submitted state or from Polling. Only the exact status string `Finalized`
/// ends the run successfully; any other string value keeps the machine in
/// Polling under the same id; a response without a string `status` field is
/// fatal, never a silent loop. Beside the next state, the observed status
/// value is returned for reporting.
pub fn poll_step(state: &PollState, response: &str) -> (r: (PollState, Option<String>))
    requires
        !state.spec_terminal(),
    ensures
        (r.1 matches Some(v) ==> json_string_field(response@, "status"@) == Some(v@)) && (
        r.1 is None ==> json_string_field(response@, "status"@) is None),
        json_string_field(response@, "status"@) is None ==> r.0 is Failed,
        (json_string_field(response@, "status"@) matches Some(s) && s == "Finalized"@) ==> r.0
            is Finalized,
        (json_string_field(response@, "status"@) matches Some(s) && s != "Finalized"@) ==> (r.0
            matches PollState::Polling(id) && id@ == state.spec_id()),
{
    let status = match get_string_field(response, "status") {
        Some(s) => s,
        None => {
            return (
                (
                    PollState::Failed(
                        String::from_str("no string `status` field in the GET response"),
                    ),
                    None,
                )
            );
        },
    };
    let finalized = String::from_str("Finalized");
    if status == finalized {
        (PollState::Finalized, Some(status))
    } else {
        let id = match state.submission_id() {
            Some(id) => id.clone(),
            None => vstd::pervasive::unreached(),
        };
        (PollState::Polling(id), Some(status))
    }
}

/// The relay path that creates a submission.
pub fn submission_path() -> (r: &'static str)
    ensures
        r@ == "/api/v1/submission"@,
{
    "/api/v1/submission"
}

/// The relay path that reports the status of the submission with an id.
pub fn status_path(id: &str) -> (r: String)
    ensures
        r@ == "/api/v1/submission/"@ + id@,
{
    let mut path = String::from_str("/api/v1/submission/");
    path.append(id);
    path
}

} // verus!
