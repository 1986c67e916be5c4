use vstd::prelude::*;

verus! {

/// The status a finished span is closed with: `Succeeded` (the tracer's `Ok`), or
/// `Failed` with the error's text.
#[derive(Clone, Debug, PartialEq, Eq)]
pub enum SpanStatus {
    Succeeded,
    Failed(String),
}

/// A span that saw an error is closed with that error's text; any other as succeeded.
pub fn span_status(e: Option<String>) -> (s: SpanStatus)
    ensures
        match e {
            Some(text) => s matches SpanStatus::Failed(t) && t@ == text@,
            None => s is Succeeded,
        },
{
    match e {
        Some(text) => SpanStatus::Failed(text),
        None => SpanStatus::Succeeded,
    }
}

} // verus!
