//! The three outcomes of one synchronization run and the reply each one gets.
use vstd::prelude::*;
use vstd::string::StringExecFns;

use crate::text::{contains_marker, decode_lossy, has_marker, lossy_text, trim_text, trimmed};

verus! {

/// Status of a run that applied changes (OK).
pub const STATUS_SUCCESS: u16 = 200;

/// Status of a run that found nothing to apply (No Content).
pub const STATUS_NO_OP: u16 = 204;

/// Status of a run that exited unsuccessfully (Internal Server Error).
pub const STATUS_FAILURE: u16 = 500;

/// How one run of the synchronization tool ended.
#[derive(Clone, Copy, Debug, PartialEq, Eq, Structural)]
pub enum Outcome {
    /// The tool exited unsuccessfully.
    Failure,
    /// The tool succeeded and reported that nothing was new.
    NoOp,
    /// The tool succeeded and applied changes.
    Success,
}

/// The HTTP reply to one trigger request.
#[derive(Debug)]
pub struct Reply {
    /// HTTP status code.
    pub status: u16,
    /// Plain-text body.
    pub body: String,
    /// A line the server writes to its own standard output, if any.
    pub echo: Option<String>,
}

/// The mathematical content of a [`Reply`].
pub struct ReplyView {
    pub status: u16,
    pub body: Seq<char>,
    pub echo: Option<Seq<char>>,
}

impl View for Reply {
    type V = ReplyView;

    open spec fn view(&self) -> ReplyView {
        ReplyView {
            status: self.status,
            body: self.body@,
            echo: match self.echo {
                Some(e) => Some(e@),
                None => None,
            },
        }
    }
}

/// The outcome of a run, decided in this order: failure first, then the
/// no-change marker in its output, else success.
pub open spec fn outcome_of(succeeded: bool, out: Seq<char>) -> Outcome {
    if !succeeded {
        Outcome::Failure
    } else if has_marker(out) {
        Outcome::NoOp
    } else {
        Outcome::Success
    }
}

pub open spec fn status_of(o: Outcome) -> u16 {
    match o {
        Outcome::Failure => STATUS_FAILURE,
        Outcome::NoOp => STATUS_NO_OP,
        Outcome::Success => STATUS_SUCCESS,
    }
}

/// The body for an outcome, given the trimmed output and error text.
pub open spec fn body_of(o: Outcome, out: Seq<char>, err: Seq<char>) -> Seq<char> {
    match o {
        Outcome::Failure => "Error applying changes: "@ + err,
        Outcome::NoOp => "No changes to apply"@,
        Outcome::Success => "Changes applied: "@ + out,
    }
}

/// The reply for an outcome, given the trimmed output and error text.
pub open spec fn reply_of(o: Outcome, out: Seq<char>, err: Seq<char>) -> ReplyView {
    ReplyView {
        status: status_of(o),
        body: body_of(o, out, err),
        echo: if o == Outcome::Success {
            Some(out)
        } else {
            None
        },
    }
}

/// The reply to a run whose captured text is `out` and `err`, before trimming.
pub open spec fn reply_to_run(succeeded: bool, out: Seq<char>, err: Seq<char>) -> ReplyView {
    reply_of(outcome_of(succeeded, out), trimmed(out), trimmed(err))
}

/// Decides how a run ended from its exit status and its standard output.
pub fn classify(succeeded: bool, stdout: &str) -> (r: Outcome)
    ensures
        r == outcome_of(succeeded, stdout@),
{
    if !succeeded {
        Outcome::Failure
    } else if contains_marker(stdout) {
        Outcome::NoOp
    } else {
        Outcome::Success
    }
}

/// Builds the reply for `outcome` from the already trimmed output and error
/// text of the run.
pub fn compose_reply(outcome: Outcome, out_trimmed: &str, err_trimmed: &str) -> (r: Reply)
    ensures
        r@ == reply_of(outcome, out_trimmed@, err_trimmed@),
{
    match outcome {
        Outcome::Failure => {
            let mut body = String::from_str("Error applying changes: ");
            body.append(err_trimmed);
            Reply { status: STATUS_FAILURE, body, echo: None }
        },
        Outcome::NoOp => {
            Reply { status: STATUS_NO_OP, body: String::from_str("No changes to apply"), echo: None }
        },
        Outcome::Success => {
            let mut body = String::from_str("Changes applied: ");
            body.append(out_trimmed);
            Reply { status: STATUS_SUCCESS, body, echo: Some(String::from_str(out_trimmed)) }
        },
    }
}

/// The reply to a run whose standard output and error were decoded to text.
pub fn reply_for(succeeded: bool, stdout: &str, stderr: &str) -> (r: Reply)
    ensures
        r@ == reply_to_run(succeeded, stdout@, stderr@),
        !succeeded ==> r.status == STATUS_FAILURE && r.body@ == "Error applying changes: "@
            + trimmed(stderr@),
        succeeded && has_marker(stdout@) ==> r.status == STATUS_NO_OP && r.body@
            == "No changes to apply"@,
        succeeded && !has_marker(stdout@) ==> r.status == STATUS_SUCCESS && r.body@
            == "Changes applied: "@ + trimmed(stdout@),
{
    let outcome = classify(succeeded, stdout);
    compose_reply(outcome, trim_text(stdout), trim_text(stderr))
}

/// The reply to a run, from its exit status and its captured bytes; bytes
/// that are not valid UTF-8 are replaced, never rejected.
pub fn handle_output(succeeded: bool, stdout: &[u8], stderr: &[u8]) -> (r: Reply)
    ensures
        r@ == reply_to_run(succeeded, lossy_text(stdout@), lossy_text(stderr@)),
        !succeeded ==> r.status == STATUS_FAILURE && r.body@ == "Error applying changes: "@
            + trimmed(lossy_text(stderr@)),
        succeeded && has_marker(lossy_text(stdout@)) ==> r.status == STATUS_NO_OP && r.body@
            == "No changes to apply"@,
        succeeded && !has_marker(lossy_text(stdout@)) ==> r.status == STATUS_SUCCESS && r.body@
            == "Changes applied: "@ + trimmed(lossy_text(stdout@)),
{
    let out = decode_lossy(stdout);
    let err = decode_lossy(stderr);
    reply_for(succeeded, out.as_str(), err.as_str())
}

/// Two successful runs that both report the no-change marker get the same
/// no-change reply, whatever else they printed: triggering again while the
/// upstream has nothing new keeps answering "No changes to apply".
pub proof fn lemma_up_to_date_repeats(out1: Seq<char>, err1: Seq<char>, out2: Seq<char>, err2: Seq<char>)
    requires
        has_marker(out1),
        has_marker(out2),
    ensures
        reply_to_run(true, out1, err1) == reply_to_run(true, out2, err2),
        reply_to_run(true, out1, err1).status == STATUS_NO_OP,
        reply_to_run(true, out1, err1).body == "No changes to apply"@,
{
}

/// The reply to a failed run depends on its error text alone, not on what it
/// printed to standard output.
pub proof fn lemma_failure_ignores_output(out1: Seq<char>, out2: Seq<char>, err: Seq<char>)
    ensures
        reply_to_run(false, out1, err) == reply_to_run(false, out2, err),
        reply_to_run(false, out1, err).status == STATUS_FAILURE,
        reply_to_run(false, out1, err).body == "Error applying changes: "@ + trimmed(err),
{
}

} // verus!
