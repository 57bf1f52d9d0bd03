//! What the analyzer reports.

use crate::parsing::Span;
use vstd::prelude::*;

verus! {

/// The ways in which a schema can be structurally wrong.
#[derive(Debug, Clone, Copy, PartialEq, Eq, Structural)]
pub enum ErrorKind {
    /// a name has no binding in scope
    UnresolvedReference,
    /// an attribute or a type stands where it has no meaning
    TypeMisuse,
    /// an array lacks the source of its length
    MissingLength,
    /// two variants of a format group share a discriminant
    DuplicateDiscriminant,
}

/// One finding of the analyzer.
#[derive(Debug, PartialEq, Eq)]
pub struct AnalysisError {
    pub kind: ErrorKind,
    /// the field or item that the finding is about
    pub name: String,
    pub span: Span,
    pub message: String,
}

pub struct AnalysisErrorView {
    pub kind: ErrorKind,
    pub name: Seq<char>,
    pub span: Span,
    pub message: Seq<char>,
}

impl View for AnalysisError {
    type V = AnalysisErrorView;

    open spec fn view(&self) -> AnalysisErrorView {
        AnalysisErrorView {
            kind: self.kind,
            name: self.name@,
            span: self.span,
            message: self.message@,
        }
    }
}

impl DeepView for AnalysisError {
    type V = AnalysisErrorView;

    open spec fn deep_view(&self) -> AnalysisErrorView {
        self@
    }
}

impl AnalysisError {
    pub fn new(kind: ErrorKind, name: &str, span: Span, message: &str) -> (e: AnalysisError)
        ensures
            e@ == (AnalysisErrorView { kind, name: name@, span, message: message@ }),
    {
        AnalysisError {
            kind,
            name: String::from_str(name),
            span,
            message: String::from_str(message),
        }
    }
}

} // verus!
