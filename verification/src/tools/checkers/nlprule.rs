//! Suggestions of the natural-language rule engine.

use vstd::prelude::*;
use crate::diag::{clone_strings, Severity, SourceDiagnostic, SourceDiagnosticView, Span, TraceEntryView};
use crate::tools::checkers::text_export::MappedSpan;

verus! {

/// Suggestion for change in a text.
#[derive(Debug)]
pub struct Suggestion {
    /// The rule that made the suggestion.
    pub source: String,
    pub message: String,
    /// Where the text stands in the source, if that could be mapped.
    pub span: Option<MappedSpan>,
    pub replacements: Vec<String>,
}

/// What a [`Suggestion`] holds, as mathematical values.
pub struct SuggestionView {
    pub source: Seq<char>,
    pub message: Seq<char>,
    pub span: Option<MappedSpan>,
    pub replacements: Seq<Seq<char>>,
}

impl View for Suggestion {
    type V = SuggestionView;

    open spec fn view(&self) -> SuggestionView {
        SuggestionView {
            source: self.source@,
            message: self.message@,
            span: self.span,
            replacements: self.replacements.deep_view(),
        }
    }
}

impl DeepView for Suggestion {
    type V = SuggestionView;

    open spec fn deep_view(&self) -> SuggestionView {
        self@
    }
}

impl Clone for Suggestion {
    fn clone(&self) -> (copy: Self)
        ensures
            copy@ == self@,
    {
        Suggestion {
            source: self.source.clone(),
            message: self.message.clone(),
            span: self.span,
            replacements: clone_strings(&self.replacements),
        }
    }
}

/// The diagnostic that stands for `suggestion`.
pub open spec fn diag_of_suggestion(suggestion: SuggestionView) -> SourceDiagnosticView {
    SourceDiagnosticView {
        severity: Severity::Warning,
        span: match suggestion.span {
            Some(mapped) => mapped.span.span,
            None => Span::Detached,
        },
        message: suggestion.message,
        trace: Seq::empty(),
        hints: Seq::empty(),
    }
}

/// Turns a suggestion into a warning at the place the suggestion was mapped
/// to, or at no place when it could not be mapped. The message is the
/// suggestion's message; there is no trace and there are no hints.
pub fn diag_from_suggestion(suggestion: Suggestion) -> (diagnostic: SourceDiagnostic)
    ensures
        diagnostic@ == diag_of_suggestion(suggestion@),
{
    let span = match suggestion.span {
        Some(mapped) => mapped.span.span,
        None => Span::Detached,
    };
    let diagnostic = SourceDiagnostic {
        severity: Severity::Warning,
        span,
        message: suggestion.message,
        trace: Vec::new(),
        hints: Vec::new(),
    };
    assert(diagnostic.trace.deep_view() =~= Seq::<TraceEntryView>::empty());
    assert(diagnostic.hints.deep_view() =~= Seq::<Seq<char>>::empty());
    diagnostic
}

/// A range of the checked text, in characters: from `start` up to `end`.
#[derive(Clone, Copy, Debug, PartialEq, Eq, Structural)]
pub struct CharSpan {
    pub start: usize,
    pub end: usize,
}

/// What the rule engine reports for one place of the text it was given.
#[derive(Debug)]
pub struct EngineSuggestion {
    /// The rule that made the suggestion.
    pub source: String,
    pub message: String,
    /// Where in the checked text the suggestion applies.
    pub span: CharSpan,
    pub replacements: Vec<String>,
}

/// What an [`EngineSuggestion`] holds, as mathematical values.
pub struct EngineSuggestionView {
    pub source: Seq<char>,
    pub message: Seq<char>,
    pub span: CharSpan,
    pub replacements: Seq<Seq<char>>,
}

impl View for EngineSuggestion {
    type V = EngineSuggestionView;

    open spec fn view(&self) -> EngineSuggestionView {
        EngineSuggestionView {
            source: self.source@,
            message: self.message@,
            span: self.span,
            replacements: self.replacements.deep_view(),
        }
    }
}

impl DeepView for EngineSuggestion {
    type V = EngineSuggestionView;

    open spec fn deep_view(&self) -> EngineSuggestionView {
        self@
    }
}

/// The places in the checked text that the suggestions apply to, one for each
/// suggestion and in the same order. These are what the text extractor maps
/// back to the source.
pub fn char_spans(suggestions: &Vec<EngineSuggestion>) -> (spans: Vec<CharSpan>)
    ensures
        spans@ == suggestions.deep_view().map_values(
            |suggestion: EngineSuggestionView| suggestion.span,
        ),
{
    let mut spans: Vec<CharSpan> = Vec::new();
    let mut i: usize = 0;
    while i < suggestions.len()
        invariant
            i <= suggestions.len(),
            spans.len() == i,
            forall|j: int| 0 <= j < i ==> spans[j] == (#[trigger] suggestions[j]).span,
        decreases suggestions.len() - i,
    {
        spans.push(suggestions[i].span);
        i = i + 1;
    }
    assert(spans@ =~= suggestions.deep_view().map_values(
        |suggestion: EngineSuggestionView| suggestion.span,
    ));
    spans
}

/// What checking the text of one document gave: the engine's suggestions, and
/// for each of their places in the text where it stands in the source, if
/// that could be found.
#[derive(Debug)]
pub struct CheckedText {
    pub suggestions: Vec<EngineSuggestion>,
    pub spans: Vec<Option<MappedSpan>>,
}

/// The suggestion that the engine's report and the mapped place make.
pub open spec fn located_suggestion(
    suggestion: EngineSuggestionView,
    span: Option<MappedSpan>,
) -> SuggestionView {
    SuggestionView {
        source: suggestion.source,
        message: suggestion.message,
        span,
        replacements: suggestion.replacements,
    }
}

/// The engine's reports paired with the mapped places, first with first,
/// as far as both lists go.
pub open spec fn located_suggestions(
    suggestions: Seq<EngineSuggestionView>,
    spans: Seq<Option<MappedSpan>>,
) -> Seq<SuggestionView> {
    Seq::new(
        if suggestions.len() <= spans.len() {
            suggestions.len()
        } else {
            spans.len()
        },
        |i: int| located_suggestion(suggestions[i], spans[i]),
    )
}

/// Puts together the suggestions for one document. Without extracted text
/// (`checked` is `None`) there are none to give and the answer is `None`;
/// otherwise each report of the engine is given its place in the source:
/// see [`located_suggestions`].
pub fn nlp_check_docs(checked: Option<CheckedText>) -> (found: Option<Vec<Suggestion>>)
    ensures
        match checked {
            None => found is None,
            Some(text) => found is Some && found.unwrap().deep_view() == located_suggestions(
                text.suggestions.deep_view(),
                text.spans@,
            ),
        },
{
    let text = match checked {
        None => {
            return None;
        },
        Some(text) => text,
    };
    let CheckedText { suggestions, spans } = text;
    let ghost all = suggestions.deep_view();
    assert(all.len() == suggestions.len());
    let mut found: Vec<Suggestion> = Vec::new();
    let mut i: usize = 0;
    assert(found.deep_view() =~= located_suggestions(all.take(0), spans@));
    for suggestion in it: suggestions
        invariant
            all.len() == it.seq().len(),
            forall|j: int| 0 <= j < all.len() ==> all[j] == (#[trigger] it.seq()[j])@,
            i == it.index(),
            all.len() <= usize::MAX,
            found.deep_view() == located_suggestions(all.take(i as int), spans@),
    {
        let ghost before = found.deep_view();
        if i < spans.len() {
            let located = Suggestion {
                source: suggestion.source,
                message: suggestion.message,
                span: spans[i],
                replacements: suggestion.replacements,
            };
            found.push(located);
            assert(found.deep_view() =~= before.push(located@));
        }
        i = i + 1;
        assert(found.deep_view() =~= located_suggestions(all.take(i as int), spans@));
    }
    assert(all.take(all.len() as int) =~= all);
    Some(found)
}

} // verus!
