use vstd::prelude::*;

verus! {

/// What a diagnostic reports.
#[derive(Clone, Copy, Debug, PartialEq, Eq, Structural)]
pub enum DiagnosticKind {
    /// A trait member that is neither a constant, an associated type nor a method.
    UnsupportedMember,
    /// A parameter whose pattern is not a plain identifier, where the engine must name it.
    UnsupportedPattern,
}

/// An error for the compiler to report at `span`; the rest of the trait is still processed.
#[derive(Clone, Copy, Debug, PartialEq, Eq, Structural)]
pub struct Diagnostic {
    pub kind: DiagnosticKind,
    pub span: usize,
}

impl Diagnostic {
    pub fn message(&self) -> (r: &'static str)
        ensures
            r@ == match self.kind {
                DiagnosticKind::UnsupportedMember => "unsupported item type"@,
                DiagnosticKind::UnsupportedPattern => "patterns are not supported in arguments"@,
            },
    {
        match self.kind {
            DiagnosticKind::UnsupportedMember => "unsupported item type",
            DiagnosticKind::UnsupportedPattern => "patterns are not supported in arguments",
        }
    }
}

} // verus!
