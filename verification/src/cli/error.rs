//! Why a command fails.

use vstd::prelude::*;
use vstd::string::*;

use crate::text::{trim_start, trimmed_start};

verus! {

/// A failure, with its reason in words.
#[derive(Clone, Debug, PartialEq, Eq)]
pub enum CliError {
    /// The command or one of its files is wrong.
    Usage(String),
    /// What the command names is absent.
    NotFound(String),
    /// The relay has moved on or the identifier is taken.
    Conflict(String),
    /// The relay refused the event.
    Relay { status: u16, body: String },
    /// Anything else.
    Other(String),
}

/// What a failure says.
#[verifier::ext_equal]
pub enum CliFault {
    Usage(Seq<char>),
    NotFound(Seq<char>),
    Conflict(Seq<char>),
    Relay { status: u16, body: Seq<char> },
    Other(Seq<char>),
}

impl View for CliError {
    type V = CliFault;

    open spec fn view(&self) -> CliFault {
        match *self {
            CliError::Usage(text) => CliFault::Usage(text@),
            CliError::NotFound(text) => CliFault::NotFound(text@),
            CliError::Conflict(text) => CliFault::Conflict(text@),
            CliError::Relay { status, body } => CliFault::Relay { status, body: body@ },
            CliError::Other(text) => CliFault::Other(text@),
        }
    }
}

/// What a result failed with.
pub open spec fn cli_fault_of<T>(result: Result<T, CliError>) -> Option<CliFault> {
    match result {
        Ok(_) => None,
        Err(error) => Some(error@),
    }
}

/// Whether a relay's answer reports a conflict.
pub open spec fn reports_conflict(body: Seq<char>) -> bool {
    "conflict:"@.is_prefix_of(body)
}

/// What a relay's answer says beyond reporting a conflict.
pub open spec fn detail(body: Seq<char>) -> Seq<char> {
    trimmed_start(
        if reports_conflict(body) {
            body.skip("conflict:"@.len() as int)
        } else {
            body
        },
    )
}

/// What a failure to submit an event is reported as: conflicts have a failure of their own.
pub open spec fn reported(fault: CliFault) -> CliFault {
    match fault {
        CliFault::Relay { status, body } if reports_conflict(body) => CliFault::Conflict(
            detail(body),
        ),
        _ => fault,
    }
}

impl CliFault {
    /// The failure in words.
    pub open spec fn text(self) -> Seq<char> {
        match self {
            CliFault::Usage(text) => text,
            CliFault::NotFound(text) => text,
            CliFault::Conflict(text) => "conflict: "@ + text,
            CliFault::Relay { status, body } => body,
            CliFault::Other(text) => text,
        }
    }
}

/// What follows `prefix` in `body`, if `body` begins with it.
fn after_prefix<'a>(body: &'a str, prefix: &str) -> (result: Option<&'a str>)
    ensures
        result is Some <==> prefix@.is_prefix_of(body@),
        result is Some ==> result->Some_0@ == body@.skip(prefix@.len() as int),
{
    let length: usize = body.unicode_len();
    let start: usize = prefix.unicode_len();
    if length < start {
        return None;
    }
    let mut i: usize = 0;
    while i < start
        invariant
            i <= start <= length,
            start == prefix@.len(),
            length == body@.len(),
            forall|k: int| 0 <= k < i ==> #[trigger] body@[k] == prefix@[k],
        decreases start - i,
    {
        if body.get_char(i) != prefix.get_char(i) {
            return None;
        }
        i = i + 1;
    }
    assert(prefix@ =~= body@.take(start as int));
    assert(body@.subrange(start as int, length as int) =~= body@.skip(start as int));
    Some(body.substring_char(start, length))
}

/// What a relay's answer says beyond reporting a conflict.
pub fn conflict_detail(body: &str) -> (result: String)
    ensures
        result@ == detail(body@),
{
    let rest = match after_prefix(body, "conflict:") {
        Some(rest) => rest,
        None => body,
    };
    trim_start(rest).to_owned()
}

impl CliError {
    /// What a failure to submit an event is reported as: conflicts have a failure of their
    /// own.
    pub fn report(self) -> (result: CliError)
        ensures
            result@ == reported(self@),
    {
        match self {
            CliError::Relay { status, body } => if after_prefix(
                body.as_str(),
                "conflict:",
            ).is_some() {
                CliError::Conflict(conflict_detail(body.as_str()))
            } else {
                CliError::Relay { status, body }
            },
            other => other,
        }
    }

    /// The failure in words.
    pub fn message(&self) -> (result: String)
        ensures
            result@ == self@.text(),
    {
        match self {
            CliError::Usage(text) => text.clone(),
            CliError::NotFound(text) => text.clone(),
            CliError::Conflict(text) => "conflict: ".to_owned().concat(text.as_str()),
            CliError::Relay { status: _, body } => body.clone(),
            CliError::Other(text) => text.clone(),
        }
    }
}

} // verus!
