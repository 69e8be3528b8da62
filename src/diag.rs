use vstd::prelude::*;

verus! {

/// What a diagnostic reports. None of them stops decoding.
#[derive(Clone, Copy, Debug, PartialEq, Eq, Structural)]
pub enum DiagnosticKind {
    /// A recognised key held a value of the wrong type; the subject is the key.
    WrongType,
    /// A key of the wrong type in a mapping; the subject names the mapping.
    WrongKeyType,
    /// A message key outside the schema; the subject is the key.
    UnknownMessageParameter,
    /// A signal key outside the schema; the subject is the key.
    UnknownSignalParameter,
    /// A language key other than `en`, `fr` and `de`; the subject is the key.
    UnsupportedLanguage,
    /// A periodicity text that could not be read; the subject is the text.
    UnparsablePeriodicity,
}

/// A non-fatal warning raised while decoding.
#[derive(Clone, Debug)]
pub struct Diagnostic {
    pub kind: DiagnosticKind,
    pub subject: String,
}

impl View for Diagnostic {
    type V = (DiagnosticKind, Seq<char>);

    open spec fn view(&self) -> (DiagnosticKind, Seq<char>) {
        (self.kind, self.subject@)
    }
}

/// The views of a list of diagnostics.
pub open spec fn diag_views(d: Seq<Diagnostic>) -> Seq<(DiagnosticKind, Seq<char>)> {
    d.map_values(|x: Diagnostic| x@)
}

/// Appends one diagnostic.
pub fn report(diags: &mut Vec<Diagnostic>, kind: DiagnosticKind, subject: &str)
    ensures
        diag_views(final(diags)@) == diag_views(old(diags)@).push((kind, subject@)),
{
    diags.push(Diagnostic { kind, subject: subject.to_owned() });
    assert(diag_views(diags@) =~= diag_views(old(diags)@).push((kind, subject@)));
}

} // verus!
