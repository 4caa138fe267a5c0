//! The export actor: renders the current document when a new one is ready.

use vstd::prelude::*;
use crate::entry::{EntryState, EntryStateView};

verus! {

/// When the export actor writes an artifact.
#[derive(Clone, Copy, Debug, PartialEq, Eq, Structural)]
pub enum ExportMode {
    /// Never.
    Never,
    /// When the editor saves the file. A new document alone writes nothing.
    OnSave,
    /// Whenever a new document is ready.
    Always,
}

/// The settings of the export actor.
#[derive(Debug)]
pub struct ExportConfig {
    /// The pattern from which the artifact's path is made.
    pub substitute_pattern: String,
    /// The entry whose identity is substituted into the pattern.
    pub entry: EntryState,
    pub mode: ExportMode,
}

/// What an [`ExportConfig`] holds, as mathematical values.
pub struct ExportConfigView {
    pub substitute_pattern: Seq<char>,
    pub entry: EntryStateView,
    pub mode: ExportMode,
}

impl View for ExportConfig {
    type V = ExportConfigView;

    open spec fn view(&self) -> ExportConfigView {
        ExportConfigView {
            substitute_pattern: self.substitute_pattern@,
            entry: self.entry@,
            mode: self.mode,
        }
    }
}

impl Clone for ExportConfig {
    fn clone(&self) -> (copy: Self)
        ensures
            copy@ == self@,
    {
        ExportConfig {
            substitute_pattern: self.substitute_pattern.clone(),
            entry: self.entry.clone(),
            mode: self.mode,
        }
    }
}

/// What the orchestrator tells every render-class subscriber.
#[derive(Debug)]
pub enum RenderActorRequest {
    /// The document with this version is ready in the latest-document feed.
    Rendered(usize),
    /// The export settings are replaced.
    ChangeConfig(ExportConfig),
    /// The path pattern is replaced.
    ChangeExportPath(String),
}

/// What a [`RenderActorRequest`] holds, as mathematical values.
pub enum RenderActorRequestView {
    Rendered(usize),
    ChangeConfig(ExportConfigView),
    ChangeExportPath(Seq<char>),
}

impl View for RenderActorRequest {
    type V = RenderActorRequestView;

    open spec fn view(&self) -> RenderActorRequestView {
        match self {
            RenderActorRequest::Rendered(version) => RenderActorRequestView::Rendered(*version),
            RenderActorRequest::ChangeConfig(config) => RenderActorRequestView::ChangeConfig(
                config@,
            ),
            RenderActorRequest::ChangeExportPath(pattern) => {
                RenderActorRequestView::ChangeExportPath(pattern@)
            },
        }
    }
}

impl DeepView for RenderActorRequest {
    type V = RenderActorRequestView;

    open spec fn deep_view(&self) -> RenderActorRequestView {
        self@
    }
}

impl Clone for RenderActorRequest {
    fn clone(&self) -> (copy: Self)
        ensures
            copy@ == self@,
    {
        match self {
            RenderActorRequest::Rendered(version) => RenderActorRequest::Rendered(*version),
            RenderActorRequest::ChangeConfig(config) => RenderActorRequest::ChangeConfig(
                config.clone(),
            ),
            RenderActorRequest::ChangeExportPath(pattern) => RenderActorRequest::ChangeExportPath(
                pattern.clone(),
            ),
        }
    }
}

/// How a wait on the fan-out notification ended.
#[derive(Debug)]
pub enum Notification {
    /// A request arrived.
    Request(RenderActorRequest),
    /// The subscriber fell behind and this many requests were skipped.
    Lagged(u64),
    /// Every sender is gone.
    Closed,
}

/// What a [`Notification`] holds, as mathematical values.
pub enum NotificationView {
    Request(RenderActorRequestView),
    Lagged(u64),
    Closed,
}

impl View for Notification {
    type V = NotificationView;

    open spec fn view(&self) -> NotificationView {
        match self {
            Notification::Request(request) => NotificationView::Request(request@),
            Notification::Lagged(skipped) => NotificationView::Lagged(*skipped),
            Notification::Closed => NotificationView::Closed,
        }
    }
}

/// What the export actor is waiting for.
#[derive(Clone, Copy, Debug, PartialEq, Eq, Structural)]
pub enum ExportPhase {
    /// The next notification.
    Listening,
    /// The content of the latest-document feed.
    Reading,
    /// Nothing: the fan-out channel is closed.
    Stopped,
}

/// Something that happened for the export actor.
#[derive(Debug)]
pub enum ExportEvent {
    /// The wait on the fan-out notification ended.
    Notified(Notification),
    /// The latest-document feed was read; it held a document of this version,
    /// or none.
    DocumentRead(Option<usize>),
}

/// What an [`ExportEvent`] holds, as mathematical values.
pub enum ExportEventView {
    Notified(NotificationView),
    DocumentRead(Option<usize>),
}

impl View for ExportEvent {
    type V = ExportEventView;

    open spec fn view(&self) -> ExportEventView {
        match self {
            ExportEvent::Notified(notification) => ExportEventView::Notified(notification@),
            ExportEvent::DocumentRead(version) => ExportEventView::DocumentRead(*version),
        }
    }
}

impl DeepView for ExportEvent {
    type V = ExportEventView;

    open spec fn deep_view(&self) -> ExportEventView {
        self@
    }
}

/// What the export actor asks its scheduler to do next.
#[derive(Debug)]
pub enum ExportAction {
    /// Wait for the next notification.
    Receive,
    /// Read the latest-document feed.
    ReadDocument,
    /// Render the document of this version to the path that the pattern and
    /// the entry give, then wait for the next notification.
    Render { version: usize, substitute_pattern: String, entry: EntryState },
    /// End the task.
    Stop,
    /// Nothing: the event was not the one waited for.
    Ignored,
}

/// What an [`ExportAction`] holds, as mathematical values.
pub enum ExportActionView {
    Receive,
    ReadDocument,
    Render { version: usize, substitute_pattern: Seq<char>, entry: EntryStateView },
    Stop,
    Ignored,
}

impl View for ExportAction {
    type V = ExportActionView;

    open spec fn view(&self) -> ExportActionView {
        match self {
            ExportAction::Receive => ExportActionView::Receive,
            ExportAction::ReadDocument => ExportActionView::ReadDocument,
            ExportAction::Render { version, substitute_pattern, entry } => {
                ExportActionView::Render {
                    version: *version,
                    substitute_pattern: substitute_pattern@,
                    entry: entry@,
                }
            },
            ExportAction::Stop => ExportActionView::Stop,
            ExportAction::Ignored => ExportActionView::Ignored,
        }
    }
}

impl DeepView for ExportAction {
    type V = ExportActionView;

    open spec fn deep_view(&self) -> ExportActionView {
        self@
    }
}

/// The export actor. It owns no compiler state: only its settings and what it
/// is waiting for.
#[derive(Debug)]
pub struct ExportActor {
    pub config: ExportConfig,
    pub phase: ExportPhase,
}

/// What an [`ExportActor`] holds, as mathematical values.
pub struct ExportActorView {
    pub config: ExportConfigView,
    pub phase: ExportPhase,
}

impl View for ExportActor {
    type V = ExportActorView;

    open spec fn view(&self) -> ExportActorView {
        ExportActorView { config: self.config@, phase: self.phase }
    }
}

/// Whether a new document is rendered under `mode`.
pub open spec fn renders_new_document(mode: ExportMode) -> bool {
    mode == ExportMode::Always
}

/// The export actor's transition: its next state and the action it asks for.
///
/// - A request that changes the settings changes them and never renders.
/// - A new document is read from the feed if the mode renders new documents;
///   an empty feed renders nothing.
/// - A lag is skipped; a closed channel stops the actor.
/// - An event that the actor is not waiting for changes nothing.
pub open spec fn export_step(actor: ExportActorView, event: ExportEventView) -> (
    ExportActorView,
    ExportActionView,
) {
    match (actor.phase, event) {
        (ExportPhase::Listening, ExportEventView::Notified(NotificationView::Closed)) => (
            ExportActorView { phase: ExportPhase::Stopped, ..actor },
            ExportActionView::Stop,
        ),
        (ExportPhase::Listening, ExportEventView::Notified(NotificationView::Lagged(_))) => (
            actor,
            ExportActionView::Receive,
        ),
        (
            ExportPhase::Listening,
            ExportEventView::Notified(
                NotificationView::Request(RenderActorRequestView::ChangeConfig(config)),
            ),
        ) => (ExportActorView { config, ..actor }, ExportActionView::Receive),
        (
            ExportPhase::Listening,
            ExportEventView::Notified(
                NotificationView::Request(RenderActorRequestView::ChangeExportPath(pattern)),
            ),
        ) => (
            ExportActorView {
                config: ExportConfigView { substitute_pattern: pattern, ..actor.config },
                ..actor
            },
            ExportActionView::Receive,
        ),
        (
            ExportPhase::Listening,
            ExportEventView::Notified(
                NotificationView::Request(RenderActorRequestView::Rendered(_)),
            ),
        ) => if renders_new_document(actor.config.mode) {
            (ExportActorView { phase: ExportPhase::Reading, ..actor }, ExportActionView::ReadDocument)
        } else {
            (actor, ExportActionView::Receive)
        },
        (ExportPhase::Reading, ExportEventView::DocumentRead(Some(version))) => (
            ExportActorView { phase: ExportPhase::Listening, ..actor },
            ExportActionView::Render {
                version,
                substitute_pattern: actor.config.substitute_pattern,
                entry: actor.config.entry,
            },
        ),
        (ExportPhase::Reading, ExportEventView::DocumentRead(None)) => (
            ExportActorView { phase: ExportPhase::Listening, ..actor },
            ExportActionView::Receive,
        ),
        _ => (actor, ExportActionView::Ignored),
    }
}

/// A change of the settings, or of the path alone, never renders: the actor
/// takes the change in and goes on listening.
pub proof fn lemma_settings_never_render(actor: ExportActorView, request: RenderActorRequestView)
    requires
        actor.phase == ExportPhase::Listening,
        !(request is Rendered),
    ensures
        export_step(actor, ExportEventView::Notified(NotificationView::Request(request))).1
            == ExportActionView::Receive,
        export_step(actor, ExportEventView::Notified(NotificationView::Request(request))).0.phase
            == ExportPhase::Listening,
{
}

/// A stopped actor stays stopped and asks for nothing more.
pub proof fn lemma_stopped_export_actor_is_done(actor: ExportActorView, event: ExportEventView)
    requires
        actor.phase == ExportPhase::Stopped,
    ensures
        export_step(actor, event) == (actor, ExportActionView::Ignored),
{
}

impl ExportActor {
    /// An actor with the settings `config` that waits for its first
    /// notification.
    pub fn new(config: ExportConfig) -> (actor: Self)
        ensures
            actor@ == (ExportActorView { config: config@, phase: ExportPhase::Listening }),
    {
        ExportActor { config, phase: ExportPhase::Listening }
    }

    /// Handles one event: see [`export_step`].
    pub fn step(&mut self, event: ExportEvent) -> (action: ExportAction)
        ensures
            (final(self)@, action@) == export_step(old(self)@, event@),
    {
        match self.phase {
            ExportPhase::Listening => match event {
                ExportEvent::Notified(Notification::Closed) => {
                    self.phase = ExportPhase::Stopped;
                    ExportAction::Stop
                },
                ExportEvent::Notified(Notification::Lagged(_)) => ExportAction::Receive,
                ExportEvent::Notified(
                    Notification::Request(RenderActorRequest::ChangeConfig(config)),
                ) => {
                    self.config = config;
                    ExportAction::Receive
                },
                ExportEvent::Notified(
                    Notification::Request(RenderActorRequest::ChangeExportPath(pattern)),
                ) => {
                    self.config.substitute_pattern = pattern;
                    ExportAction::Receive
                },
                ExportEvent::Notified(Notification::Request(RenderActorRequest::Rendered(_))) => {
                    match self.config.mode {
                        ExportMode::Always => {
                            self.phase = ExportPhase::Reading;
                            ExportAction::ReadDocument
                        },
                        _ => ExportAction::Receive,
                    }
                },
                ExportEvent::DocumentRead(_) => ExportAction::Ignored,
            },
            ExportPhase::Reading => match event {
                ExportEvent::DocumentRead(Some(version)) => {
                    self.phase = ExportPhase::Listening;
                    ExportAction::Render {
                        version,
                        substitute_pattern: self.config.substitute_pattern.clone(),
                        entry: self.config.entry.clone(),
                    }
                },
                ExportEvent::DocumentRead(None) => {
                    self.phase = ExportPhase::Listening;
                    ExportAction::Receive
                },
                ExportEvent::Notified(_) => ExportAction::Ignored,
            },
            ExportPhase::Stopped => ExportAction::Ignored,
        }
    }
}

} // verus!
