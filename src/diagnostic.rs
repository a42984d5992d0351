use vstd::prelude::*;
use crate::hir::Span;

verus! {

/// Which boundary a violation crosses.
#[derive(Clone, Copy, Debug, PartialEq, Eq, Structural)]
pub enum ViolationKind {
    /// A normal function exposes the address of a restricted static.
    AccessStatic,
    /// A normal function calls a restricted function.
    CallFunction,
}

/// One crossing of the phase boundary found by a check.
#[derive(Clone, Copy, Debug, PartialEq, Eq, Structural)]
pub struct Violation {
    pub kind: ViolationKind,
    /// Where the offending expression stands.
    pub report_span: Span,
    /// Where the suggested marker would be inserted.
    pub fix_span: Span,
}


/// How severe a report is: every crossing fails the run.
#[derive(Clone, Copy, Debug, PartialEq, Eq, Structural)]
pub enum Severity {
    Deny,
}

/// Whether a suggested edit can be applied without a look.
#[derive(Clone, Copy, Debug, PartialEq, Eq, Structural)]
pub enum Applicability {
    /// The edit may be wrong and is never applied by itself.
    MaybeIncorrect,
}

/// An edit offered with a report.
#[derive(Debug)]
pub struct Suggestion {
    pub span: Span,
    pub message: String,
    pub text: String,
    pub applicability: Applicability,
}

/// A report, ready to be handed to the host.
#[derive(Debug)]
pub struct Diagnostic {
    pub lint: String,
    pub severity: Severity,
    pub span: Span,
    pub message: String,
    pub suggestion: Suggestion,
}

pub open spec fn lint_name(k: ViolationKind) -> Seq<char> {
    match k {
        ViolationKind::AccessStatic => "accessing_init_from_non_init"@,
        ViolationKind::CallFunction => "calling_init_from_non_init"@,
    }
}

pub open spec fn message_of(k: ViolationKind) -> Seq<char> {
    match k {
        ViolationKind::AccessStatic =>
            "accessing a static marked as `#[init]` from a non-`#[init]` function"@,
        ViolationKind::CallFunction =>
            "calling a function marked as `#[init]` from a non-`#[init]` function"@,
    }
}

pub open spec fn suggestion_message_of(k: ViolationKind) -> Seq<char> {
    match k {
        ViolationKind::AccessStatic => "consider marking the accessing function as `#[init]` too"@,
        ViolationKind::CallFunction => "consider marking the calling function as `#[init]` too"@,
    }
}

/// The text inserted before a function to place it in the restricted phase.
pub open spec fn fix_text() -> Seq<char> {
    "#[init]\n"@
}

/// Turns a violation into a deny-level report with one advisory edit: the
/// restricted marker inserted before the offending function.
pub fn emit(v: &Violation) -> (d: Diagnostic)
    ensures
        d.lint@ == lint_name(v.kind),
        d.severity == Severity::Deny,
        d.span == v.report_span,
        d.message@ == message_of(v.kind),
        d.suggestion.span == v.fix_span,
        d.suggestion.message@ == suggestion_message_of(v.kind),
        d.suggestion.text@ == fix_text(),
        d.suggestion.applicability == Applicability::MaybeIncorrect,
{
    let (lint, message, suggestion) = match v.kind {
        ViolationKind::AccessStatic => (
            "accessing_init_from_non_init",
            "accessing a static marked as `#[init]` from a non-`#[init]` function",
            "consider marking the accessing function as `#[init]` too",
        ),
        ViolationKind::CallFunction => (
            "calling_init_from_non_init",
            "calling a function marked as `#[init]` from a non-`#[init]` function",
            "consider marking the calling function as `#[init]` too",
        ),
    };
    Diagnostic {
        lint: lint.to_owned(),
        severity: Severity::Deny,
        span: v.report_span,
        message: message.to_owned(),
        suggestion: Suggestion {
            span: v.fix_span,
            message: suggestion.to_owned(),
            text: "#[init]\n".to_owned(),
            applicability: Applicability::MaybeIncorrect,
        },
    }
}

} // verus!
