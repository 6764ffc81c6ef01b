//! What the rule reports.

use crate::ast::Span;
use vstd::prelude::*;

verus! {

/// How severe a diagnostic is. The rule only warns.
#[derive(Clone, Copy, Debug, PartialEq, Eq, Structural)]
pub enum Severity {
    Warning,
}

/// A useless length check. The span is always that of the comparison, the
/// part of the code that can be removed, never that of the call beside it.
#[derive(Clone, Copy, Debug, PartialEq, Eq, Structural)]
pub enum NoUselessLengthCheckDiagnostic {
    /// A check that the array is not empty, beside a call of `some`.
    NonEmptyCheck(Span),
    /// A check that the array is empty, beside a call of `every`.
    EmptyCheck(Span),
}

impl NoUselessLengthCheckDiagnostic {
    /// The span of the comparison.
    pub open spec fn spec_span(self) -> Span {
        match self {
            NoUselessLengthCheckDiagnostic::NonEmptyCheck(span) => span,
            NoUselessLengthCheckDiagnostic::EmptyCheck(span) => span,
        }
    }

    /// The name of the kind: the method that makes the check useless.
    pub open spec fn spec_kind(self) -> Seq<char> {
        match self {
            NoUselessLengthCheckDiagnostic::NonEmptyCheck(_) => "Some"@,
            NoUselessLengthCheckDiagnostic::EmptyCheck(_) => "Every"@,
        }
    }

    /// The headline, the same for both kinds.
    pub open spec fn spec_message(self) -> Seq<char> {
        "eslint-plugin-unicorn(no-useless-length-check)"@
    }

    /// The explanation.
    pub open spec fn spec_help(self) -> Seq<char> {
        match self {
            NoUselessLengthCheckDiagnostic::NonEmptyCheck(_) =>
                "The non-empty check is useless as `Array#some()` returns `false` for an empty array."@,
            NoUselessLengthCheckDiagnostic::EmptyCheck(_) =>
                "The empty check is useless as `Array#every()` returns `true` for an empty array."@,
        }
    }

    /// The span to underline: that of the comparison.
    pub fn span(&self) -> (span: Span)
        ensures
            span == self.spec_span(),
    {
        match self {
            NoUselessLengthCheckDiagnostic::NonEmptyCheck(span) => *span,
            NoUselessLengthCheckDiagnostic::EmptyCheck(span) => *span,
        }
    }

    /// `"Some"` or `"Every"`.
    pub fn kind(&self) -> (kind: &'static str)
        ensures
            kind@ == self.spec_kind(),
    {
        match self {
            NoUselessLengthCheckDiagnostic::NonEmptyCheck(_) => "Some",
            NoUselessLengthCheckDiagnostic::EmptyCheck(_) => "Every",
        }
    }

    /// Always a warning.
    pub fn severity(&self) -> (severity: Severity)
        ensures
            severity == Severity::Warning,
    {
        Severity::Warning
    }

    /// The headline of the diagnostic.
    pub fn message(&self) -> (message: &'static str)
        ensures
            message@ == self.spec_message(),
    {
        "eslint-plugin-unicorn(no-useless-length-check)"
    }

    /// Why the check is useless.
    pub fn help(&self) -> (help: &'static str)
        ensures
            help@ == self.spec_help(),
    {
        match self {
            NoUselessLengthCheckDiagnostic::NonEmptyCheck(_) => {
                "The non-empty check is useless as `Array#some()` returns `false` for an empty array."
            },
            NoUselessLengthCheckDiagnostic::EmptyCheck(_) => {
                "The empty check is useless as `Array#every()` returns `true` for an empty array."
            },
        }
    }
}

} // verus!
