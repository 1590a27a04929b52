//! Classification of the formatting service's response.
//!
//! One invocation of the client performs exactly one HTTP exchange; the
//! status code and body of the answer are mapped to exactly one
//! [`FormatOutcome`].  The mapping is total over the integer domain: every
//! status code produces an outcome, with [`FormatOutcome::Unknown`] as the
//! catch-all.

use vstd::prelude::*;
use vstd::string::StringExecFns;

use crate::text::{i32_dec_string, int_chars};

verus! {

/// The five-way classification of a completed formatting request.
///
/// Exactly one variant is produced per invocation; it is the sole output of
/// the core and drives the process exit code.
pub enum FormatOutcome {
    /// Status 200: the service reformatted the input; `text` is the body of
    /// the response, i.e. the reformatted source.
    Reformatted { text: String },
    /// Status 204: the input was already well-formatted.  The service sends
    /// no body, so `original_text` echoes the original input verbatim.
    Unchanged { original_text: String },
    /// Status 400: the input could not be parsed; `details` is the body of
    /// the response, verbatim.
    SyntaxError { details: String },
    /// Status 500: the service failed to format the input; `details` is the
    /// body of the response, verbatim.
    FormattingError { details: String },
    /// Any other status: a forward-compatible catch-all preserving both the
    /// status code and the body, verbatim.
    Unknown { status_code: i32, body: String },
}

/// Maps an HTTP status code and response body to the outcome of the
/// invocation.
///
/// `original_input` is the text that was sent to the service; it is echoed
/// back on status 204, where the service returns no body.  No outcome is
/// ever synthesized from partial information: bodies are preserved verbatim.
pub fn classify(status_code: i32, body: String, original_input: String) -> (outcome: FormatOutcome)
    ensures
        status_code == 200 ==> (outcome matches FormatOutcome::Reformatted { text }
            && text@ == body@),
        status_code == 204 ==> (outcome matches FormatOutcome::Unchanged { original_text }
            && original_text@ == original_input@),
        status_code == 400 ==> (outcome matches FormatOutcome::SyntaxError { details }
            && details@ == body@),
        status_code == 500 ==> (outcome matches FormatOutcome::FormattingError { details }
            && details@ == body@),
        !(status_code == 200 || status_code == 204 || status_code == 400 || status_code == 500)
            ==> (outcome matches FormatOutcome::Unknown { status_code: c, body: b }
            && c == status_code && b@ == body@),
{
    match status_code {
        200 => FormatOutcome::Reformatted { text: body },
        204 => FormatOutcome::Unchanged { original_text: original_input },
        400 => FormatOutcome::SyntaxError { details: body },
        500 => FormatOutcome::FormattingError { details: body },
        _ => FormatOutcome::Unknown { status_code, body },
    }
}

/// True of the outcomes on which the process succeeds (exit code 0): the
/// input was reformatted or already well-formatted.
pub open spec fn spec_is_success(outcome: &FormatOutcome) -> bool {
    outcome is Reformatted || outcome is Unchanged
}

/// The human-readable message an error outcome surfaces on standard error.
pub open spec fn spec_error_message(outcome: &FormatOutcome) -> Seq<char>
    recommends
        !spec_is_success(outcome),
{
    match outcome {
        FormatOutcome::SyntaxError { details } => "Syntax Error: "@ + details@,
        FormatOutcome::FormattingError { details } => "Formatting Error: "@ + details@,
        FormatOutcome::Unknown { status_code, body } => "Unknown Error "@ + int_chars(
            *status_code as int,
        ) + ": "@ + body@,
        FormatOutcome::Reformatted { text } => text@,
        FormatOutcome::Unchanged { original_text } => original_text@,
    }
}

impl FormatOutcome {
    /// Whether this outcome is a success: its payload goes to stdout and the
    /// process exits with code 0.  On the other outcomes an error message
    /// goes to stderr and the process exits with code 1.
    pub fn is_success(&self) -> (r: bool)
        ensures
            r == spec_is_success(self),
    {
        match self {
            FormatOutcome::Reformatted { .. } => true,
            FormatOutcome::Unchanged { .. } => true,
            _ => false,
        }
    }

    /// The process exit code this outcome drives: 0 on success, 1 otherwise.
    pub fn exit_code(&self) -> (r: i32)
        ensures
            r == (if spec_is_success(self) { 0int } else { 1int }),
    {
        if self.is_success() { 0 } else { 1 }
    }

    /// The payload a success outcome sends to standard output: the
    /// reformatted text on a reformat, the original input verbatim when the
    /// input was already well-formatted.
    pub fn output_text(self) -> (r: String)
        requires
            spec_is_success(&self),
        ensures
            (self matches FormatOutcome::Reformatted { text } ==> r@ == text@),
            (self matches FormatOutcome::Unchanged { original_text } ==> r@ == original_text@),
    {
        match self {
            FormatOutcome::Reformatted { text } => text,
            FormatOutcome::Unchanged { original_text } => original_text,
            FormatOutcome::SyntaxError { details } => details,
            FormatOutcome::FormattingError { details } => details,
            FormatOutcome::Unknown { body, .. } => body,
        }
    }

    /// The message an error outcome surfaces: the syntax or formatting
    /// details prefixed with the kind of error, or, for an unrecognized
    /// status, the decimal code and the body.
    pub fn error_message(&self) -> (r: String)
        requires
            !spec_is_success(self),
        ensures
            r@ == spec_error_message(self),
    {
        match self {
            FormatOutcome::SyntaxError { details } => {
                let mut message = String::from_str("Syntax Error: ");
                message.append(details.as_str());
                message
            },
            FormatOutcome::FormattingError { details } => {
                let mut message = String::from_str("Formatting Error: ");
                message.append(details.as_str());
                message
            },
            FormatOutcome::Unknown { status_code, body } => {
                let mut message = String::from_str("Unknown Error ");
                let code = i32_dec_string(*status_code);
                message.append(code.as_str());
                message.append(": ");
                message.append(body.as_str());
                proof {
                    assert(message@ =~= spec_error_message(self));
                }
                message
            },
            FormatOutcome::Reformatted { .. } => String::from_str(""),
            FormatOutcome::Unchanged { .. } => String::from_str(""),
        }
    }
}

} // verus!
