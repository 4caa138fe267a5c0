//! Compiler-shaped diagnostics.

use vstd::prelude::*;

verus! {

/// Identifies a syntax node of a source file, or no node at all.
#[derive(Clone, Copy, Debug, PartialEq, Eq, Structural)]
pub enum Span {
    /// Points into no source file.
    Detached,
    /// The node `number` of the source file `file`.
    Node { file: u16, number: u64 },
}

/// How severe a diagnostic is.
#[derive(Clone, Copy, Debug, PartialEq, Eq, Structural)]
pub enum Severity {
    Error,
    Warning,
}

/// What led to the place of a diagnostic.
#[derive(Debug)]
pub enum Tracepoint {
    /// A call of a function, by its name where it has one.
    Call(Option<String>),
    /// A show rule that was applied.
    Show(String),
    /// An import of a module.
    Import,
}

/// What a [`Tracepoint`] holds, as mathematical values.
pub enum TracepointView {
    Call(Option<Seq<char>>),
    Show(Seq<char>),
    Import,
}

impl View for Tracepoint {
    type V = TracepointView;

    open spec fn view(&self) -> TracepointView {
        match self {
            Tracepoint::Call(name) => TracepointView::Call(name.deep_view()),
            Tracepoint::Show(name) => TracepointView::Show(name@),
            Tracepoint::Import => TracepointView::Import,
        }
    }
}

impl Clone for Tracepoint {
    fn clone(&self) -> (copy: Self)
        ensures
            copy@ == self@,
    {
        match self {
            Tracepoint::Call(Some(name)) => Tracepoint::Call(Some(name.clone())),
            Tracepoint::Call(None) => Tracepoint::Call(None),
            Tracepoint::Show(name) => Tracepoint::Show(name.clone()),
            Tracepoint::Import => Tracepoint::Import,
        }
    }
}

/// One step of a trace: what happened, and where.
#[derive(Debug)]
pub struct TraceEntry {
    pub point: Tracepoint,
    pub span: Span,
}

/// What a [`TraceEntry`] holds, as mathematical values.
pub struct TraceEntryView {
    pub point: TracepointView,
    pub span: Span,
}

impl View for TraceEntry {
    type V = TraceEntryView;

    open spec fn view(&self) -> TraceEntryView {
        TraceEntryView { point: self.point@, span: self.span }
    }
}

impl DeepView for TraceEntry {
    type V = TraceEntryView;

    open spec fn deep_view(&self) -> TraceEntryView {
        self@
    }
}

impl Clone for TraceEntry {
    fn clone(&self) -> (copy: Self)
        ensures
            copy@ == self@,
    {
        TraceEntry { point: self.point.clone(), span: self.span }
    }
}

/// A message about a place in the source code.
#[derive(Debug)]
pub struct SourceDiagnostic {
    pub severity: Severity,
    pub span: Span,
    pub message: String,
    /// The calls, show rules and imports that led to the place.
    pub trace: Vec<TraceEntry>,
    pub hints: Vec<String>,
}

/// What a [`SourceDiagnostic`] holds, as mathematical values.
pub struct SourceDiagnosticView {
    pub severity: Severity,
    pub span: Span,
    pub message: Seq<char>,
    pub trace: Seq<TraceEntryView>,
    pub hints: Seq<Seq<char>>,
}

impl View for SourceDiagnostic {
    type V = SourceDiagnosticView;

    open spec fn view(&self) -> SourceDiagnosticView {
        SourceDiagnosticView {
            severity: self.severity,
            span: self.span,
            message: self.message@,
            trace: self.trace.deep_view(),
            hints: self.hints.deep_view(),
        }
    }
}

impl DeepView for SourceDiagnostic {
    type V = SourceDiagnosticView;

    open spec fn deep_view(&self) -> SourceDiagnosticView {
        self@
    }
}

/// Copies a list of strings.
pub fn clone_strings(items: &Vec<String>) -> (copy: Vec<String>)
    ensures
        copy.deep_view() == items.deep_view(),
{
    let mut copy: Vec<String> = Vec::new();
    let mut i: usize = 0;
    while i < items.len()
        invariant
            i <= items.len(),
            copy.len() == i,
            forall|j: int| 0 <= j < i ==> copy[j]@ == items[j]@,
        decreases items.len() - i,
    {
        copy.push(items[i].clone());
        i = i + 1;
    }
    assert(copy.deep_view() =~= items.deep_view());
    copy
}

/// Copies a trace.
pub fn clone_trace(trace: &Vec<TraceEntry>) -> (copy: Vec<TraceEntry>)
    ensures
        copy.deep_view() == trace.deep_view(),
{
    let mut copy: Vec<TraceEntry> = Vec::new();
    let mut i: usize = 0;
    while i < trace.len()
        invariant
            i <= trace.len(),
            copy.len() == i,
            forall|j: int| 0 <= j < i ==> copy[j]@ == trace[j]@,
        decreases trace.len() - i,
    {
        copy.push(trace[i].clone());
        i = i + 1;
    }
    assert(copy.deep_view() =~= trace.deep_view());
    copy
}

impl Clone for SourceDiagnostic {
    fn clone(&self) -> (copy: Self)
        ensures
            copy@ == self@,
    {
        SourceDiagnostic {
            severity: self.severity,
            span: self.span,
            message: self.message.clone(),
            trace: clone_trace(&self.trace),
            hints: clone_strings(&self.hints),
        }
    }
}

} // verus!
