//! The actors of a compilation unit and how they are wired together.

pub mod formatting;
pub mod grammar;
pub mod render;
pub mod typ_client;
pub mod typ_server;

use vstd::prelude::*;
use crate::actor::formatting::{FormatterMode, FormattingConfig, FormattingRequest, PositionEncoding};
use crate::actor::grammar::{GrammarActor, GrammarPhaseView, VersionedSuggestions};
use crate::actor::render::{ExportActor, ExportActorView, ExportConfig, ExportConfigView, ExportMode, ExportPhase, RenderActorRequest};
use crate::actor::typ_client::{CompileDriver, CompileHandler};
use crate::actor::typ_server::{CompileServerActor, FileEditView, MemoryChangeSet, VersionedDocument};
use crate::diag::SourceDiagnosticView;
use crate::entry::EntryState;

verus! {

/// The sending half of tokio's latest-value channel. Nothing is known of
/// what it holds.
#[verifier::external_type_specification]
#[verifier::external_body]
#[verifier::reject_recursive_types(T)]
pub struct ExWatchSender<T>(tokio::sync::watch::Sender<T>);

/// The receiving half of tokio's latest-value channel. Nothing is known of
/// what it holds.
#[verifier::external_type_specification]
#[verifier::external_body]
#[verifier::reject_recursive_types(T)]
pub struct ExWatchReceiver<T>(tokio::sync::watch::Receiver<T>);

/// The sending half of tokio's fan-out channel. Nothing is known of what it
/// holds.
#[verifier::external_type_specification]
#[verifier::external_body]
#[verifier::reject_recursive_types(T)]
pub struct ExBroadcastSender<T>(tokio::sync::broadcast::Sender<T>);

/// A subscription to tokio's fan-out channel. Nothing is known of what it
/// holds.
#[verifier::external_type_specification]
#[verifier::external_body]
#[verifier::reject_recursive_types(T)]
pub struct ExBroadcastReceiver<T>(tokio::sync::broadcast::Receiver<T>);

/// The sending half of tokio's bounded queue. Nothing is known of what it
/// holds.
#[verifier::external_type_specification]
#[verifier::external_body]
#[verifier::reject_recursive_types(T)]
pub struct ExQueueSender<T>(tokio::sync::mpsc::Sender<T>);

/// The receiving half of tokio's bounded queue. Nothing is known of what it
/// holds.
#[verifier::external_type_specification]
#[verifier::external_body]
#[verifier::reject_recursive_types(T)]
pub struct ExQueueReceiver<T>(tokio::sync::mpsc::Receiver<T>);

/// The sending half of crossbeam's channel. Nothing is known of what it
/// holds.
#[verifier::external_type_specification]
#[verifier::external_body]
#[verifier::reject_recursive_types(T)]
pub struct ExJobSender<T>(crossbeam_channel::Sender<T>);

/// The receiving half of crossbeam's channel. Nothing is known of what it
/// holds.
#[verifier::external_type_specification]
#[verifier::external_body]
#[verifier::reject_recursive_types(T)]
pub struct ExJobReceiver<T>(crossbeam_channel::Receiver<T>);

/// `tokio::sync::watch::channel` makes a latest-value channel that holds
/// `init`. It does not panic. Nothing is claimed of the two halves.
pub assume_specification<T>[ tokio::sync::watch::channel::<T> ](init: T) -> (halves: (
    tokio::sync::watch::Sender<T>,
    tokio::sync::watch::Receiver<T>,
))
;

/// Cloning a `tokio::sync::watch::Receiver` gives another receiver of the
/// same channel. It does not panic. Nothing is claimed of the clone.
pub assume_specification<T>[ <tokio::sync::watch::Receiver<T> as Clone>::clone ](
    receiver: &tokio::sync::watch::Receiver<T>,
) -> (other: tokio::sync::watch::Receiver<T>)
;

/// `tokio::sync::broadcast::channel` makes a fan-out channel that keeps at
/// least `capacity` requests for a subscriber that lags. It panics when
/// `capacity` is 0 or more than `usize::MAX / 2`, which `requires` leaves
/// out, and when the memory for that many requests cannot be had. Nothing is
/// claimed of the two halves.
pub assume_specification<T: Clone>[ tokio::sync::broadcast::channel::<T> ](capacity: usize) -> (halves:
    (tokio::sync::broadcast::Sender<T>, tokio::sync::broadcast::Receiver<T>))
    requires
        0 < capacity <= usize::MAX / 2,
;

/// Whether `subscription` is a subscription to the fan-out channel that
/// `sender` sends on, so that it is handed what `sender` sends.
pub uninterp spec fn subscribed_to(
    subscription: tokio::sync::broadcast::Receiver<RenderActorRequest>,
    sender: tokio::sync::broadcast::Sender<RenderActorRequest>,
) -> bool;

/// Subscribes to the channel of `sender` with
/// `tokio::sync::broadcast::Sender::subscribe`. The subscription shares the
/// channel of `sender` and sees what is sent after this call. The call
/// panics when the channel already has `usize::MAX / 4` subscriptions;
/// nothing here can say how many a channel has, so `requires` cannot leave
/// that out. The one caller subscribes to a channel that it has just made.
#[verifier::external_body]
fn subscribe(sender: &tokio::sync::broadcast::Sender<RenderActorRequest>) -> (subscription:
    tokio::sync::broadcast::Receiver<RenderActorRequest>)
    ensures
        subscribed_to(subscription, *sender),
{
    sender.subscribe()
}

/// The number of batches that a suggestions queue was made to hold.
pub uninterp spec fn queue_capacity(
    sender: tokio::sync::mpsc::Sender<VersionedSuggestions>,
) -> nat;

/// Whether `sender` and `receiver` are the two halves of one suggestions
/// queue, so that what goes in at `sender` comes out at `receiver`.
pub uninterp spec fn queue_halves(
    sender: tokio::sync::mpsc::Sender<VersionedSuggestions>,
    receiver: tokio::sync::mpsc::Receiver<VersionedSuggestions>,
) -> bool;

/// Makes the suggestions queue with `tokio::sync::mpsc::channel`, which
/// panics when the bound is 0 or more than `usize::MAX / 8`; `requires`
/// leaves that out. The queue keeps the bound it was made with, which
/// `Sender::max_capacity` reports: that bound is `capacity`. The two values
/// returned are the halves of the one queue made. Nothing is claimed of what
/// the queue holds.
#[verifier::external_body]
fn suggestion_queue(capacity: usize) -> (halves: (
    tokio::sync::mpsc::Sender<VersionedSuggestions>,
    tokio::sync::mpsc::Receiver<VersionedSuggestions>,
))
    requires
        0 < capacity <= usize::MAX / 8,
    ensures
        queue_capacity(halves.0) == capacity,
        queue_halves(halves.0, halves.1),
{
    tokio::sync::mpsc::channel(capacity)
}

/// Whether `sender` and `receiver` are the two halves of one queue of
/// formatting jobs, so that what goes in at `sender` comes out at `receiver`.
pub uninterp spec fn job_queue_halves(
    sender: crossbeam_channel::Sender<FormattingRequest>,
    receiver: crossbeam_channel::Receiver<FormattingRequest>,
) -> bool;

/// Makes the queue of formatting jobs with `crossbeam_channel::unbounded`,
/// which does not panic. The two values returned are the halves of the one
/// queue made. Nothing is claimed of what the queue holds.
#[verifier::external_body]
fn job_queue() -> (halves: (
    crossbeam_channel::Sender<FormattingRequest>,
    crossbeam_channel::Receiver<FormattingRequest>,
))
    ensures
        job_queue_halves(halves.0, halves.1),
{
    crossbeam_channel::unbounded()
}

/// How many suggestion batches the queue between the grammar actor and the
/// orchestrator holds before the grammar actor has to wait.
pub const SUGGESTION_QUEUE_CAPACITY: usize = 10;

/// How many requests the fan-out channel keeps, at the least, for a
/// subscriber that lags.
pub const RENDER_CHANNEL_CAPACITY: usize = 10;

/// The line width that the formatting worker starts with.
pub const DEFAULT_FORMAT_WIDTH: u32 = 120;

/// What the export actor is started with.
#[verifier::reject_recursive_types(D)]
pub struct ExportEnd<D> {
    pub actor: ExportActor,
    pub requests: tokio::sync::broadcast::Receiver<RenderActorRequest>,
    pub documents: tokio::sync::watch::Receiver<Option<VersionedDocument<D>>>,
}

/// What the grammar actor is started with.
#[verifier::reject_recursive_types(D)]
pub struct GrammarEnd<D> {
    pub actor: GrammarActor,
    pub requests: tokio::sync::broadcast::Receiver<RenderActorRequest>,
    pub documents: tokio::sync::watch::Receiver<Option<VersionedDocument<D>>>,
    pub suggestions: tokio::sync::mpsc::Sender<VersionedSuggestions>,
}

/// What the orchestrator is started with.
#[verifier::reject_recursive_types(D)]
pub struct OrchestratorEnd<D> {
    pub actor: CompileServerActor,
    /// The first change set to apply: what is in memory when the unit starts.
    pub snapshot: MemoryChangeSet,
    pub documents: tokio::sync::watch::Sender<Option<VersionedDocument<D>>>,
    pub requests: tokio::sync::broadcast::Sender<RenderActorRequest>,
    /// What the grammar actor has queued for the diagnostics.
    pub suggestions: tokio::sync::mpsc::Receiver<VersionedSuggestions>,
}

/// The parts of one compilation unit, wired together and not yet running.
/// Both subscriptions to the fan-out channel exist, so whatever the
/// orchestrator sends once it runs reaches both actors.
#[verifier::reject_recursive_types(D)]
pub struct CompileUnit<D> {
    pub export: ExportEnd<D>,
    pub grammar: GrammarEnd<D>,
    pub orchestrator: OrchestratorEnd<D>,
}

/// The settings that every unit of a server shares.
#[derive(Debug)]
pub struct CompileConfig {
    /// The pattern from which the paths of exported artifacts are made.
    pub output_path: String,
    /// When artifacts are exported.
    pub export_pdf: ExportMode,
    /// Which formatter formats the sources.
    pub formatter: FormatterMode,
}

/// Makes compilation units.
#[derive(Debug)]
pub struct CompileServer {
    pub config: CompileConfig,
}

impl CompileServer {
    /// Wires up the unit `diag_group` that compiles `entry`.
    ///
    /// The export actor gets the server's path pattern and export mode and
    /// the entry; both actors wait for their first notification; the
    /// orchestrator has no files, no diagnostics and has compiled nothing;
    /// the first change set is empty. The channels are made before anything
    /// runs: the latest-document feed starts without a document, the
    /// suggestions queue is made for [`SUGGESTION_QUEUE_CAPACITY`] batches
    /// and leads from the grammar actor to the orchestrator, and both actors
    /// are subscribed to the orchestrator's fan-out channel before its sending
    /// half is handed out.
    pub fn server<D>(&self, diag_group: String, entry: EntryState) -> (unit: CompileUnit<D>)
        ensures
            unit.export.actor@ == (ExportActorView {
                config: ExportConfigView {
                    substitute_pattern: self.config.output_path@,
                    entry: entry@,
                    mode: self.config.export_pdf,
                },
                phase: ExportPhase::Listening,
            }),
            unit.grammar.actor@ == GrammarPhaseView::Listening,
            subscribed_to(unit.export.requests, unit.orchestrator.requests),
            subscribed_to(unit.grammar.requests, unit.orchestrator.requests),
            queue_capacity(unit.grammar.suggestions) == SUGGESTION_QUEUE_CAPACITY,
            queue_halves(unit.grammar.suggestions, unit.orchestrator.suggestions),
            unit.orchestrator.actor.driver.entry@ == entry@,
            unit.orchestrator.actor.driver.handler.diag_group@ == diag_group@,
            unit.orchestrator.actor.diagnostics() == Map::<
                Seq<char>,
                Seq<SourceDiagnosticView>,
            >::empty(),
            unit.orchestrator.actor.overlay() == Map::<Seq<char>, Seq<char>>::empty(),
            unit.orchestrator.actor.version == 0,
            unit.orchestrator.snapshot@ == Seq::<FileEditView>::empty(),
    {
        let (doc_tx, doc_rx) = tokio::sync::watch::channel::<Option<VersionedDocument<D>>>(None);
        let (suggestion_tx, suggestion_rx) = suggestion_queue(SUGGESTION_QUEUE_CAPACITY);
        let (render_tx, _) = tokio::sync::broadcast::channel::<RenderActorRequest>(
            RENDER_CHANNEL_CAPACITY,
        );

        // Subscribe the export actor before the orchestrator can send anything.
        let export = ExportEnd {
            actor: ExportActor::new(
                ExportConfig {
                    substitute_pattern: self.config.output_path.clone(),
                    entry: entry.clone(),
                    mode: self.config.export_pdf,
                },
            ),
            requests: subscribe(&render_tx),
            documents: doc_rx.clone(),
        };

        // And the grammar actor.
        let grammar = GrammarEnd {
            actor: GrammarActor::new(),
            requests: subscribe(&render_tx),
            documents: doc_rx,
            suggestions: suggestion_tx,
        };

        // What is in memory is sent as the first change set rather than given to
        // the compiler at its start, because the orchestrator records what it
        // has applied.
        let snapshot = MemoryChangeSet::new();

        let handler = CompileHandler::new(diag_group);
        let driver = CompileDriver::new(entry, handler);
        let orchestrator = OrchestratorEnd {
            actor: CompileServerActor::new(driver),
            snapshot,
            documents: doc_tx,
            requests: render_tx,
            suggestions: suggestion_rx,
        };

        CompileUnit { export, grammar, orchestrator }
    }
}

/// What the formatting worker is started with.
pub struct FormatThread {
    pub config: FormattingConfig,
    pub position_encoding: PositionEncoding,
    /// The jobs, first come first served.
    pub requests: crossbeam_channel::Receiver<FormattingRequest>,
}

/// A language server: its compile server and, once started, the way to its
/// formatting worker.
pub struct TypstLanguageServer {
    pub primary: CompileServer,
    pub position_encoding: PositionEncoding,
    /// Where formatting jobs are sent, once the worker has been started.
    pub format_thread: Option<crossbeam_channel::Sender<FormattingRequest>>,
}

impl TypstLanguageServer {
    /// A server whose formatting worker has not been started.
    pub fn new(primary: CompileServer, position_encoding: PositionEncoding) -> (server: Self)
        ensures
            server.primary == primary,
            server.position_encoding == position_encoding,
            server.format_thread is None,
    {
        TypstLanguageServer { primary, position_encoding, format_thread: None }
    }

    /// Wires up a unit of the primary compile server: see
    /// [`CompileServer::server`].
    pub fn server<D>(&self, diag_group: String, entry: EntryState) -> (unit: CompileUnit<D>)
        ensures
            unit.export.actor@ == (ExportActorView {
                config: ExportConfigView {
                    substitute_pattern: self.primary.config.output_path@,
                    entry: entry@,
                    mode: self.primary.config.export_pdf,
                },
                phase: ExportPhase::Listening,
            }),
            unit.grammar.actor@ == GrammarPhaseView::Listening,
            subscribed_to(unit.export.requests, unit.orchestrator.requests),
            subscribed_to(unit.grammar.requests, unit.orchestrator.requests),
            queue_capacity(unit.grammar.suggestions) == SUGGESTION_QUEUE_CAPACITY,
            queue_halves(unit.grammar.suggestions, unit.orchestrator.suggestions),
            unit.orchestrator.actor.driver.entry@ == entry@,
            unit.orchestrator.actor.driver.handler.diag_group@ == diag_group@,
            unit.orchestrator.actor.diagnostics() == Map::<
                Seq<char>,
                Seq<SourceDiagnosticView>,
            >::empty(),
            unit.orchestrator.actor.overlay() == Map::<Seq<char>, Seq<char>>::empty(),
            unit.orchestrator.actor.version == 0,
            unit.orchestrator.snapshot@ == Seq::<FileEditView>::empty(),
    {
        self.primary.server(diag_group, entry)
    }

    /// Gets the formatting worker going, unless it already is.
    ///
    /// The first call makes the job queue, keeps its sending half and gives
    /// what to start the worker with: the server's formatter, a width of
    /// [`DEFAULT_FORMAT_WIDTH`] and the receiving half of that same queue.
    /// Every later call gives `None` and changes nothing, so there is never a
    /// second worker.
    pub fn run_format_thread(&mut self) -> (started: Option<FormatThread>)
        ensures
            old(self).format_thread is Some ==> started is None && *final(self) == *old(self),
            old(self).format_thread is None ==> {
                &&& final(self).format_thread is Some
                &&& started is Some
                &&& started.unwrap().config == (FormattingConfig {
                    mode: old(self).primary.config.formatter,
                    width: DEFAULT_FORMAT_WIDTH,
                })
                &&& started.unwrap().position_encoding == old(self).position_encoding
                &&& job_queue_halves(
                    final(self).format_thread.unwrap(),
                    started.unwrap().requests,
                )
            },
            final(self).primary == old(self).primary,
            final(self).position_encoding == old(self).position_encoding,
    {
        if self.format_thread.is_some() {
            return None;
        }
        let (tx_req, rx_req) = job_queue();
        self.format_thread = Some(tx_req);
        Some(
            FormatThread {
                config: FormattingConfig {
                    mode: self.primary.config.formatter,
                    width: DEFAULT_FORMAT_WIDTH,
                },
                position_encoding: self.position_encoding,
                requests: rx_req,
            },
        )
    }
}

} // verus!
