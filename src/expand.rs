use vstd::prelude::*;
use crate::diagnostics::Diagnostic;
use crate::directive::{directive_meaning, parse_directive, DirectiveError};
use crate::engine::{emitted, transform};
use crate::model::Interface;
use crate::render::{emit_text, render};
use crate::token::Tok;

verus! {

/// Expands the attribute: reads the directive, transforms the trait and writes the emitted
/// declarations as one token stream, with the diagnostics to report beside them. A malformed
/// directive emits nothing.
pub fn make(attr: &Vec<Tok>, item: &Interface) -> (r: Result<(Vec<Tok>, Vec<Diagnostic>), DirectiveError>)
    ensures
        match r {
            Ok((toks, diags)) => directive_meaning(attr.deep_view()) matches Some(m) && toks.deep_view()
                == emit_text(emitted(m, item@)) && diags@ == emitted(m, item@).diagnostics,
            Err(_) => directive_meaning(attr.deep_view()) is None,
        },
{
    let mode = parse_directive(attr)?;
    let e = transform(&mode, item);
    let toks = render(&e);
    Ok((toks, e.diagnostics))
}

} // verus!
