//! Diagnostic records, their classification, and the sink they are appended to.
use vstd::prelude::*;

use crate::token::Loc;

pub mod builder;

verus! {

/// The category of a diagnostic.
#[derive(Clone, Copy, Debug, PartialEq, Eq, PartialOrd, Ord, Hash, Structural)]
pub enum ErrorKey {
    /// A construct used where the current scope cannot have it.
    Scopes,
    /// An identifier that no catalog knows.
    UnknownIdentifier,
    /// A field that no accessor consumed.
    UnknownField,
    /// A localization key that a construct needs is absent.
    MissingLocalization,
    /// A value that fails its expected form.
    Validation,
    /// A construct in a place where the grammar does not allow it.
    Structure,
    /// A second occurrence of a field that may occur once.
    DuplicateField,
    /// An item named by a construct is absent from its registry.
    MissingItem,
}

/// How serious a diagnostic is.
#[derive(Clone, Copy, Debug, PartialEq, Eq, PartialOrd, Ord, Hash, Structural)]
pub enum Severity {
    Tips,
    Untidy,
    Warning,
    Error,
    Fatal,
}

/// How sure the validator is that a flagged use is wrong.
#[derive(Clone, Copy, Debug, PartialEq, Eq, PartialOrd, Ord, Hash, Structural)]
pub enum Confidence {
    Weak,
    Reasonable,
    Strong,
}

/// One place that a diagnostic points at, with an optional note.
#[derive(Debug)]
pub struct PointedMessage {
    pub location: Loc,
    pub length: usize,
    pub msg: Option<String>,
}

/// A finished diagnostic.
#[derive(Debug)]
pub struct LogReport {
    pub key: ErrorKey,
    pub severity: Severity,
    pub confidence: Confidence,
    pub msg: String,
    pub info: Option<String>,
    pub pointers: Vec<PointedMessage>,
}

/// What a diagnostic says, in mathematical terms.
pub struct ReportView {
    pub key: ErrorKey,
    pub severity: Severity,
    pub confidence: Confidence,
    pub msg: Seq<char>,
    pub info: Option<Seq<char>>,
    pub pointers: Seq<PointedMessage>,
}

/// The view of an optional string.
pub open spec fn opt_view(s: Option<String>) -> Option<Seq<char>> {
    match s {
        Some(t) => Some(t@),
        None => None,
    }
}

impl View for LogReport {
    type V = ReportView;

    open spec fn view(&self) -> ReportView {
        ReportView {
            key: self.key,
            severity: self.severity,
            confidence: self.confidence,
            msg: self.msg@,
            info: opt_view(self.info),
            pointers: self.pointers@,
        }
    }
}

/// The diagnostics of one validation call tree, in the order they were made.
pub type Sink = Vec<LogReport>;

} // verus!
