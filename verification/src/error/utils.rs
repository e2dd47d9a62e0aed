//! Error handling utilities

use vstd::prelude::*;
use crate::error::{ContextualError, ErrorContext, HybridError, HybridResult};

verus! {

/// Wrap an error with context
pub fn with_context<T>(result: HybridResult<T>, operation: &str, component: &str) -> (r: Result<T, ContextualError>)
    ensures
        result matches Ok(v) ==> r == Ok::<T, ContextualError>(v),
        result matches Err(e) ==> (r matches Err(ce) && ce.error == e && ce.context.operation@ == operation@
            && ce.context.component@ == component@ && ce.context.context@.len() == 0),
{
    match result {
        Ok(v) => Ok(v),
        Err(error) => {
            let context = ErrorContext::new(operation.to_owned(), component.to_owned());
            Err(ContextualError::new(error, context))
        },
    }
}

/// Handle recoverable errors: true exactly for errors from which processing may continue.
pub fn handle_recoverable_error(error: &HybridError) -> (r: bool)
    ensures
        r == error.spec_is_recoverable(),
{
    error.is_recoverable()
}


/// The heading line reported for an error.
pub open spec fn heading_line(error: HybridError, context: ErrorContext) -> Seq<char> {
    "Hybrid strategy error in "@ + context.operation@ + " ("@ + context.component@ + "): "@ + error.display()
}

/// The line reported for one detail entry.
pub open spec fn detail_line(entry: (String, String)) -> Seq<char> {
    "  "@ + entry.0@ + ": "@ + entry.1@
}

/// Log error with context: the lines reported, a heading line,
/// then one line per detail entry.
pub fn log_error(error: &HybridError, context: &ErrorContext) -> (r: Vec<String>)
    ensures
        r@.len() == context.context@.len() + 1,
        r@[0]@ == heading_line(*error, *context),
        forall|i: int| 0 <= i < context.context@.len() ==> #[trigger] r@[i + 1]@ == detail_line(context.context@[i]),
{
    let mut lines: Vec<String> = Vec::new();
    let mut head = String::from_str("Hybrid strategy error in ");
    head.append(context.operation.as_str());
    head.append(" (");
    head.append(context.component.as_str());
    head.append("): ");
    let e = error.to_string();
    head.append(e.as_str());
    lines.push(head);
    let n = context.context.len();
    let mut i: usize = 0;
    while i < n
        invariant
            n == context.context@.len(),
            i <= n,
            lines@.len() == i + 1,
            lines@[0]@ == heading_line(*error, *context),
            forall|j: int| 0 <= j < i ==> #[trigger] lines@[j + 1]@ == detail_line(context.context@[j]),
        decreases n - i,
    {
        let mut line = String::from_str("  ");
        line.append(context.context[i].0.as_str());
        line.append(": ");
        line.append(context.context[i].1.as_str());
        lines.push(line);
        i = i + 1;
    }
    lines
}

} // verus!
