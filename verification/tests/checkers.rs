use tinymist::diag::{Severity, Span};
use tinymist::tools::checkers::nlprule::{
    char_spans, diag_from_suggestion, nlp_check_docs, CharSpan, CheckedText, EngineSuggestion,
    Suggestion,
};
use tinymist::tools::checkers::text_export::{MappedSpan, SourceSpanOffset};

fn mapped(file: u16, number: u64) -> MappedSpan {
    MappedSpan {
        span: SourceSpanOffset { span: Span::Node { file, number }, offset: 0 },
        span_end: None,
    }
}

fn report(source: &str, message: &str, start: usize, end: usize, fix: &str) -> EngineSuggestion {
    EngineSuggestion {
        source: source.to_string(),
        message: message.to_string(),
        span: CharSpan { start, end },
        replacements: vec![fix.to_string()],
    }
}

#[test]
fn suggestion_becomes_warning_with_its_text() {
    let suggestion = Suggestion {
        source: "TYPOS/TEH".to_string(),
        message: "Did you mean \"The\"?".to_string(),
        span: Some(mapped(3, 17)),
        replacements: vec!["The".to_string()],
    };
    let diagnostic = diag_from_suggestion(suggestion);
    assert_eq!(diagnostic.severity, Severity::Warning);
    assert_eq!(diagnostic.span, Span::Node { file: 3, number: 17 });
    assert_eq!(diagnostic.message, "Did you mean \"The\"?");
    assert!(diagnostic.trace.is_empty());
    assert!(diagnostic.hints.is_empty());
}

#[test]
fn message_is_the_text_itself() {
    let suggestion = Suggestion {
        source: "GRAMMAR/1".to_string(),
        message: "Use a comma".to_string(),
        span: None,
        replacements: vec![],
    };
    let diagnostic = diag_from_suggestion(suggestion);
    assert_eq!(diagnostic.message, "Use a comma");
    assert_ne!(diagnostic.message, "\"Use a comma\"");
}

#[test]
fn message_with_line_break_is_kept_as_it_is() {
    let suggestion = Suggestion {
        source: "GRAMMAR/2".to_string(),
        message: "first\nsecond\ttab\\".to_string(),
        span: None,
        replacements: vec![],
    };
    let diagnostic = diag_from_suggestion(suggestion);
    assert_eq!(diagnostic.message, "first\nsecond\ttab\\");
}

#[test]
fn unmapped_suggestion_has_no_location() {
    let suggestion = Suggestion {
        source: "GRAMMAR/3".to_string(),
        message: "x".to_string(),
        span: None,
        replacements: vec!["y".to_string()],
    };
    let diagnostic = diag_from_suggestion(suggestion);
    assert_eq!(diagnostic.span, Span::Detached);
    assert_eq!(diagnostic.severity, Severity::Warning);
}

#[test]
fn detached_mapped_span_stays_detached() {
    let suggestion = Suggestion {
        source: "GRAMMAR/4".to_string(),
        message: "x".to_string(),
        span: Some(MappedSpan {
            span: SourceSpanOffset { span: Span::Detached, offset: 4 },
            span_end: Some(SourceSpanOffset { span: Span::Node { file: 1, number: 2 }, offset: 0 }),
        }),
        replacements: vec![],
    };
    assert_eq!(diag_from_suggestion(suggestion).span, Span::Detached);
}

#[test]
fn char_spans_follow_the_reports() {
    let reports = vec![report("A", "a", 0, 3, "x"), report("B", "b", 8, 11, "y")];
    assert_eq!(
        char_spans(&reports),
        vec![CharSpan { start: 0, end: 3 }, CharSpan { start: 8, end: 11 }]
    );
    assert!(char_spans(&Vec::new()).is_empty());
}

#[test]
fn no_extracted_text_gives_no_suggestions() {
    assert!(nlp_check_docs(None).is_none());
}

#[test]
fn empty_check_gives_empty_list() {
    let found = nlp_check_docs(Some(CheckedText { suggestions: vec![], spans: vec![] }));
    assert_eq!(found.map(|list| list.len()), Some(0));
}

#[test]
fn reports_get_their_places() {
    let checked = CheckedText {
        suggestions: vec![report("TYPOS", "Did you mean The?", 8, 11, "The"), report("COMMA", "Add a comma", 20, 21, ",")],
        spans: vec![Some(mapped(1, 40)), None],
    };
    let found = nlp_check_docs(Some(checked)).expect("text was extracted");
    assert_eq!(found.len(), 2);
    assert_eq!(found[0].source, "TYPOS");
    assert_eq!(found[0].message, "Did you mean The?");
    assert_eq!(found[0].span, Some(mapped(1, 40)));
    assert_eq!(found[0].replacements, vec!["The".to_string()]);
    assert_eq!(found[1].source, "COMMA");
    assert_eq!(found[1].span, None);
    assert_eq!(found[1].replacements, vec![",".to_string()]);
}

#[test]
fn pairing_stops_at_the_shorter_list() {
    let more_reports = CheckedText {
        suggestions: vec![report("A", "a", 0, 1, "x"), report("B", "b", 2, 3, "y"), report("C", "c", 4, 5, "z")],
        spans: vec![Some(mapped(1, 2)), Some(mapped(1, 3))],
    };
    let found = nlp_check_docs(Some(more_reports)).unwrap();
    assert_eq!(found.len(), 2);
    assert_eq!(found[1].source, "B");
    assert_eq!(found[1].span, Some(mapped(1, 3)));

    let more_spans = CheckedText {
        suggestions: vec![report("A", "a", 0, 1, "x")],
        spans: vec![None, Some(mapped(1, 3)), None],
    };
    let found = nlp_check_docs(Some(more_spans)).unwrap();
    assert_eq!(found.len(), 1);
    assert_eq!(found[0].span, None);
}
