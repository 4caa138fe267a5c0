use tinymist::actor::formatting::{FormatterMode, FormattingRequest, PositionEncoding};
use tinymist::actor::grammar::{
    GrammarAction, GrammarEvent, GrammarPhase, SuggestionAction, VersionedSuggestions,
};
use tinymist::actor::render::{ExportMode, ExportPhase, Notification, RenderActorRequest};
use tinymist::actor::typ_server::{
    CompileOutcome, Emission, FileEdit, MemoryChangeSet,
};
use tinymist::actor::{
    CompileConfig, CompileServer, CompileUnit, OrchestratorEnd, TypstLanguageServer,
    DEFAULT_FORMAT_WIDTH, RENDER_CHANNEL_CAPACITY, SUGGESTION_QUEUE_CAPACITY,
};
use tinymist::actor::typ_client::CompileDriver;
use tinymist::diag::{Severity, SourceDiagnostic, Span};
use tinymist::entry::EntryState;
use tinymist::tools::checkers::nlprule::{
    char_spans, nlp_check_docs, CharSpan, CheckedText, EngineSuggestion,
};
use tinymist::tools::checkers::text_export::{MappedSpan, SourceSpanOffset};
use tokio::sync::broadcast::error::TryRecvError;
use tokio::sync::mpsc::error::TrySendError;

fn server() -> CompileServer {
    CompileServer {
        config: CompileConfig {
            output_path: "$root/target/$name".to_string(),
            export_pdf: ExportMode::Always,
            formatter: FormatterMode::Typstyle,
        },
    }
}

fn unit() -> CompileUnit<String> {
    server().server("primary".to_string(), EntryState::Active { main: "main.typ".to_string() })
}

/// Sends out what the orchestrator gave, in the order it gave it.
fn carry_out(end: &OrchestratorEnd<String>, emissions: Vec<Emission<String>>) {
    for emission in emissions {
        match emission {
            Emission::UpdateFeed(document) => {
                let _ = end.documents.send(Some(document));
            }
            Emission::Notify(request) => {
                let _ = end.requests.send(request);
            }
        }
    }
}

#[test]
fn capacities_are_ten() {
    assert_eq!(SUGGESTION_QUEUE_CAPACITY, 10);
    assert_eq!(RENDER_CHANNEL_CAPACITY, 10);
    assert_eq!(DEFAULT_FORMAT_WIDTH, 120);
}

#[test]
fn unit_starts_with_the_servers_settings() {
    let unit = unit();
    assert_eq!(unit.export.actor.config.substitute_pattern, "$root/target/$name");
    assert_eq!(unit.export.actor.config.mode, ExportMode::Always);
    assert!(matches!(&unit.export.actor.config.entry, EntryState::Active { main } if main == "main.typ"));
    assert_eq!(unit.export.actor.phase, ExportPhase::Listening);
    assert!(matches!(unit.grammar.actor.phase, GrammarPhase::Listening));
    assert_eq!(unit.orchestrator.actor.version, 0);
    assert_eq!(unit.orchestrator.actor.files.len(), 0);
    assert_eq!(unit.orchestrator.actor.driver.handler.diag_group, "primary");
    assert_eq!(unit.orchestrator.actor.driver.handler.group_count(), 0);
    assert!(matches!(&unit.orchestrator.actor.driver.entry, EntryState::Active { main } if main == "main.typ"));
    assert!(unit.orchestrator.snapshot.edits.is_empty());
}

#[test]
fn suggestions_queue_is_made_for_ten() {
    let unit = unit();
    assert_eq!(unit.grammar.suggestions.max_capacity(), 10);
    assert_eq!(unit.grammar.suggestions.capacity(), 10);
}

#[test]
fn feed_starts_without_a_document() {
    let unit = unit();
    assert!(unit.export.documents.borrow().is_none());
    assert!(unit.grammar.documents.borrow().is_none());
}

#[test]
fn nothing_waits_before_the_first_emission() {
    let mut unit = unit();
    assert!(matches!(unit.export.requests.try_recv(), Err(TryRecvError::Empty)));
    assert!(matches!(unit.grammar.requests.try_recv(), Err(TryRecvError::Empty)));
    assert!(unit.orchestrator.suggestions.try_recv().is_err());
}

#[test]
fn both_actors_observe_every_notification() {
    let mut unit = unit();
    assert_eq!(unit.orchestrator.requests.receiver_count(), 2);
    for version in 1..=3usize {
        let reached = unit.orchestrator.requests.send(RenderActorRequest::Rendered(version));
        assert_eq!(reached.ok(), Some(2));
    }
    for version in 1..=3usize {
        assert!(matches!(
            unit.export.requests.try_recv(),
            Ok(RenderActorRequest::Rendered(v)) if v == version
        ));
        assert!(matches!(
            unit.grammar.requests.try_recv(),
            Ok(RenderActorRequest::Rendered(v)) if v == version
        ));
    }
    assert!(matches!(unit.export.requests.try_recv(), Err(TryRecvError::Empty)));
    assert!(matches!(unit.grammar.requests.try_recv(), Err(TryRecvError::Empty)));
}

#[test]
fn late_subscriber_misses_the_past_but_reads_the_feed() {
    let mut unit = unit();
    let emissions = unit.orchestrator.actor.notify_compile(CompileOutcome::Success {
        document: "first".to_string(),
        warnings: vec![],
    });
    carry_out(&unit.orchestrator, emissions);
    let mut late = unit.orchestrator.requests.subscribe();
    assert!(matches!(late.try_recv(), Err(TryRecvError::Empty)));
    let late_feed = unit.export.documents.clone();
    assert_eq!(late_feed.borrow().as_ref().map(|d| d.version), Some(1));
    assert_eq!(late_feed.borrow().as_ref().map(|d| d.document.clone()), Some("first".to_string()));
    // The early subscribers did get it, and all get what follows.
    assert!(matches!(unit.export.requests.try_recv(), Ok(RenderActorRequest::Rendered(1))));
    let emissions = unit.orchestrator.actor.notify_compile(CompileOutcome::Success {
        document: "second".to_string(),
        warnings: vec![],
    });
    carry_out(&unit.orchestrator, emissions);
    assert!(matches!(late.try_recv(), Ok(RenderActorRequest::Rendered(2))));
    assert!(matches!(unit.export.requests.try_recv(), Ok(RenderActorRequest::Rendered(2))));
    assert!(matches!(unit.grammar.requests.try_recv(), Ok(RenderActorRequest::Rendered(1))));
    assert!(matches!(unit.grammar.requests.try_recv(), Ok(RenderActorRequest::Rendered(2))));
}

#[test]
fn feed_holds_only_the_latest_document() {
    let mut unit = unit();
    for text in ["a", "b", "c"] {
        let emissions = unit.orchestrator.actor.notify_compile(CompileOutcome::Success {
            document: text.to_string(),
            warnings: vec![],
        });
        carry_out(&unit.orchestrator, emissions);
    }
    let latest = unit.grammar.documents.borrow().as_ref().map(|d| (d.version, d.document.clone()));
    assert_eq!(latest, Some((3, "c".to_string())));
}

#[test]
fn notification_finds_its_document_in_the_feed() {
    let mut unit = unit();
    let emissions = unit.orchestrator.actor.notify_compile(CompileOutcome::Success {
        document: "doc".to_string(),
        warnings: vec![],
    });
    carry_out(&unit.orchestrator, emissions);
    let announced = match unit.grammar.requests.try_recv() {
        Ok(RenderActorRequest::Rendered(version)) => version,
        other => panic!("expected Rendered, got {:?}", other),
    };
    let in_feed = unit.grammar.documents.borrow().as_ref().map(|d| d.version).unwrap();
    assert!(in_feed >= announced);
}

#[test]
fn suggestions_queue_is_full_after_ten() {
    let mut unit = unit();
    for version in 0..10u64 {
        let sent = unit.grammar.suggestions.try_send(VersionedSuggestions { version, suggestions: None });
        assert!(sent.is_ok());
    }
    let eleventh = VersionedSuggestions { version: 10, suggestions: None };
    let back = match unit.grammar.suggestions.try_send(eleventh) {
        Err(TrySendError::Full(back)) => back,
        other => panic!("expected a full queue, got {:?}", other.map_err(|_| "another error")),
    };
    // The actor is told, and waits with what it was handed back.
    unit.grammar.actor.phase = GrammarPhase::Sending;
    assert!(matches!(
        unit.grammar.actor.step(GrammarEvent::QueueFull(back)),
        GrammarAction::AwaitRoom
    ));
    assert!(matches!(&unit.grammar.actor.phase, GrammarPhase::Suspended { pending } if pending.version == 10));
    // Draining one batch makes room.
    assert_eq!(unit.orchestrator.suggestions.try_recv().ok().map(|s| s.version), Some(0));
    let again = match unit.grammar.actor.step(GrammarEvent::RoomAvailable) {
        GrammarAction::Send(again) => again,
        other => panic!("expected Send, got {:?}", other),
    };
    assert!(unit.grammar.suggestions.try_send(again).is_ok());
    assert!(matches!(unit.grammar.actor.step(GrammarEvent::Sent), GrammarAction::Receive));
    // First in, first out; nothing was lost.
    for version in 1..=10u64 {
        assert_eq!(unit.orchestrator.suggestions.try_recv().ok().map(|s| s.version), Some(version));
    }
    assert!(unit.orchestrator.suggestions.try_recv().is_err());
}

#[test]
fn dropped_consumer_is_seen_by_the_sender() {
    let unit = unit();
    let CompileUnit { grammar, orchestrator, .. } = unit;
    drop(orchestrator);
    let sent = grammar.suggestions.try_send(VersionedSuggestions { version: 1, suggestions: None });
    assert!(matches!(sent, Err(TrySendError::Closed(_))));
}

#[test]
fn dropped_orchestrator_closes_the_fan_out() {
    let unit = unit();
    let CompileUnit { mut grammar, mut export, orchestrator } = unit;
    drop(orchestrator);
    assert!(matches!(grammar.requests.try_recv(), Err(TryRecvError::Closed)));
    assert!(matches!(
        grammar.actor.step(GrammarEvent::Notified(Notification::Closed)),
        GrammarAction::Stop
    ));
    assert!(matches!(export.requests.try_recv(), Err(TryRecvError::Closed)));
}

fn grammar_notification(unit: &mut CompileUnit<String>) -> GrammarEvent {
    match unit.grammar.requests.try_recv() {
        Ok(request) => GrammarEvent::Notified(Notification::Request(request)),
        Err(TryRecvError::Lagged(skipped)) => GrammarEvent::Notified(Notification::Lagged(skipped)),
        Err(TryRecvError::Closed) => GrammarEvent::Notified(Notification::Closed),
        Err(TryRecvError::Empty) => panic!("nothing was sent"),
    }
}

#[test]
fn misspelling_becomes_one_grammar_warning() {
    let mut unit = unit();
    let snapshot = std::mem::replace(&mut unit.orchestrator.snapshot, MemoryChangeSet::new());
    unit.orchestrator.actor.add_memory_changes(snapshot);

    // The edit is submitted and compiled.
    let change = MemoryChangeSet {
        edits: vec![FileEdit {
            path: "main.typ".to_string(),
            content: Some("= Title\nTeh cat sat.".to_string()),
        }],
    };
    let before = unit.orchestrator.actor.version;
    assert!(unit.orchestrator.actor.add_memory_changes(change));
    assert_eq!(
        unit.orchestrator.actor.file(&"main.typ".to_string()).map(|s| s.as_str()),
        Some("= Title\nTeh cat sat.")
    );
    let emissions = unit.orchestrator.actor.notify_compile(CompileOutcome::Success {
        document: "Title Teh cat sat.".to_string(),
        warnings: vec![],
    });
    assert_eq!(unit.orchestrator.actor.version, before + 1);
    carry_out(&unit.orchestrator, emissions);

    // The grammar actor wakes up, reads the feed and has the text checked.
    let event = grammar_notification(&mut unit);
    assert!(matches!(unit.grammar.actor.step(event), GrammarAction::ReadDocument));
    let read = unit.grammar.documents.borrow().as_ref().map(|d| d.version);
    let version = match unit.grammar.actor.step(GrammarEvent::DocumentRead(read)) {
        GrammarAction::Check { version } => version,
        other => panic!("expected Check, got {:?}", other),
    };
    assert_eq!(version, before + 1);
    let reports = vec![EngineSuggestion {
        source: "TYPOS/EN_SIMPLE_REPLACE".to_string(),
        message: "Did you mean \"The\"?".to_string(),
        span: CharSpan { start: 6, end: 9 },
        replacements: vec!["The".to_string()],
    }];
    assert_eq!(char_spans(&reports), vec![CharSpan { start: 6, end: 9 }]);
    let teh = MappedSpan {
        span: SourceSpanOffset { span: Span::Node { file: 1, number: 42 }, offset: 0 },
        span_end: Some(SourceSpanOffset { span: Span::Node { file: 1, number: 42 }, offset: 3 }),
    };
    let found = nlp_check_docs(Some(CheckedText { suggestions: reports, spans: vec![Some(teh)] }));
    let batch = match unit.grammar.actor.step(GrammarEvent::Checked(found)) {
        GrammarAction::Send(batch) => batch,
        other => panic!("expected Send, got {:?}", other),
    };
    assert_eq!(batch.version, (before + 1) as u64);
    assert_eq!(batch.suggestions.as_ref().map(|list| list.len()), Some(1));
    assert_eq!(batch.suggestions.as_ref().unwrap()[0].replacements, vec!["The".to_string()]);
    assert!(unit.grammar.suggestions.try_send(batch).is_ok());
    assert!(matches!(unit.grammar.actor.step(GrammarEvent::Sent), GrammarAction::Receive));

    // The consumer reports the suggestion as the grammar pass.
    let received = unit.orchestrator.suggestions.try_recv().ok();
    let suggestions = match unit.orchestrator.actor.receive_suggestions(received) {
        SuggestionAction::Notify(suggestions) => suggestions,
        other => panic!("expected Notify, got {:?}", other),
    };
    let diagnostics = CompileDriver::suggestion_diagnostics(suggestions);
    unit.orchestrator.actor.driver.notify_suggestions(Ok(diagnostics));
    let grammar = unit
        .orchestrator
        .actor
        .driver
        .handler
        .group_diagnostics(&"grammar".to_string())
        .expect("the grammar pass has contributed");
    assert_eq!(grammar.len(), 1);
    assert_eq!(grammar[0].severity, Severity::Warning);
    assert_eq!(grammar[0].span, Span::Node { file: 1, number: 42 });
    assert_eq!(grammar[0].message, "Did you mean \"The\"?");
}

#[test]
fn invalid_entry_reports_errors_and_keeps_the_document() {
    let mut unit = unit();
    unit.orchestrator.actor.add_memory_changes(MemoryChangeSet {
        edits: vec![FileEdit { path: "main.typ".to_string(), content: Some("= Title".to_string()) }],
    });
    let emissions = unit.orchestrator.actor.notify_compile(CompileOutcome::Success {
        document: "Title".to_string(),
        warnings: vec![],
    });
    carry_out(&unit.orchestrator, emissions);
    assert!(matches!(unit.export.requests.try_recv(), Ok(RenderActorRequest::Rendered(1))));
    assert!(matches!(unit.grammar.requests.try_recv(), Ok(RenderActorRequest::Rendered(1))));

    unit.orchestrator.actor.add_memory_changes(MemoryChangeSet {
        edits: vec![FileEdit { path: "main.typ".to_string(), content: Some("#let x = (".to_string()) }],
    });
    let emissions = unit.orchestrator.actor.notify_compile(CompileOutcome::Failure {
        errors: vec![SourceDiagnostic {
            severity: Severity::Error,
            span: Span::Node { file: 1, number: 9 },
            message: "unclosed delimiter".to_string(),
            trace: vec![],
            hints: vec![],
        }],
    });
    assert!(emissions.is_empty());
    carry_out(&unit.orchestrator, emissions);

    let compile = unit.orchestrator.actor.driver.handler.group_diagnostics(&"compile".to_string());
    assert_eq!(compile.map(|list| list.len()), Some(1));
    // The feed keeps the last good document.
    let latest = unit.export.documents.borrow().as_ref().map(|d| (d.version, d.document.clone()));
    assert_eq!(latest, Some((1, "Title".to_string())));
    // The export actor is told nothing, so it renders nothing.
    assert!(matches!(unit.export.requests.try_recv(), Err(TryRecvError::Empty)));
    assert!(matches!(unit.grammar.requests.try_recv(), Err(TryRecvError::Empty)));
    assert!(matches!(unit.export.actor.phase, ExportPhase::Listening));
}

#[test]
fn suggestions_go_from_the_grammar_actor_to_the_orchestrator() {
    let mut unit = unit();
    for version in [4u64, 5, 6] {
        assert!(unit
            .grammar
            .suggestions
            .try_send(VersionedSuggestions { version, suggestions: None })
            .is_ok());
    }
    for version in [4u64, 5, 6] {
        assert_eq!(unit.orchestrator.suggestions.try_recv().ok().map(|s| s.version), Some(version));
    }
}

#[test]
fn units_do_not_share_channels() {
    let mut first = unit();
    let mut second = unit();
    let _ = first.orchestrator.requests.send(RenderActorRequest::Rendered(1));
    assert!(matches!(first.export.requests.try_recv(), Ok(RenderActorRequest::Rendered(1))));
    assert!(matches!(first.grammar.requests.try_recv(), Ok(RenderActorRequest::Rendered(1))));
    assert!(matches!(second.export.requests.try_recv(), Err(TryRecvError::Empty)));
    assert!(matches!(second.grammar.requests.try_recv(), Err(TryRecvError::Empty)));
}

#[test]
fn language_server_wires_units_of_its_primary() {
    let language_server = TypstLanguageServer::new(server(), PositionEncoding::Utf16);
    let unit: CompileUnit<u8> = language_server.server("second".to_string(), EntryState::Inactive);
    assert_eq!(unit.orchestrator.actor.driver.handler.diag_group, "second");
    assert!(matches!(unit.export.actor.config.entry, EntryState::Inactive));
    assert_eq!(unit.export.actor.config.mode, ExportMode::Always);
    assert_eq!(unit.orchestrator.requests.receiver_count(), 2);
}

#[test]
fn format_thread_starts_once() {
    let mut language_server = TypstLanguageServer::new(server(), PositionEncoding::Utf16);
    assert!(language_server.format_thread.is_none());
    let started = language_server.run_format_thread().expect("the first start succeeds");
    assert_eq!(started.config.mode, FormatterMode::Typstyle);
    assert_eq!(started.config.width, 120);
    assert_eq!(started.position_encoding, PositionEncoding::Utf16);
    assert!(language_server.format_thread.is_some());

    // The second start is refused and the first worker keeps its queue.
    assert!(language_server.run_format_thread().is_none());
    assert!(language_server.run_format_thread().is_none());
    let sender = language_server.format_thread.as_ref().unwrap();
    for id in 1..=3u64 {
        sender
            .send(FormattingRequest {
                id,
                source: format!("text {}", id),
                width: 120,
                position_encoding: PositionEncoding::Utf16,
            })
            .expect("the worker's queue is open");
    }
    // First come, first served.
    for id in 1..=3u64 {
        let job = started.requests.try_recv().expect("a job waits");
        assert_eq!(job.id, id);
        assert_eq!(job.source, format!("text {}", id));
    }
    assert!(started.requests.try_recv().is_err());
}
