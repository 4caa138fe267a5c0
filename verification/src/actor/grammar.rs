//! The grammar (checking) actor.

use vstd::prelude::*;
use crate::actor::render::{Notification, NotificationView, RenderActorRequest, RenderActorRequestView};
use crate::actor::typ_client::{grammar_group, merge_diagnostics, AnalysisError, CompileDriver};
use crate::actor::typ_server::CompileServerActor;
use crate::diag::{SourceDiagnostic, SourceDiagnosticView};
use crate::tools::checkers::nlprule::{diag_from_suggestion, diag_of_suggestion, Suggestion, SuggestionView};

verus! {

/// The suggestions for one version of the document.
#[derive(Debug)]
pub struct VersionedSuggestions {
    /// The version of the document that was checked.
    pub version: u64,
    /// What the checker found, or nothing when the text could not be
    /// extracted.
    pub suggestions: Option<Vec<Suggestion>>,
}

/// What a [`VersionedSuggestions`] holds, as mathematical values.
pub struct VersionedSuggestionsView {
    pub version: u64,
    pub suggestions: Option<Seq<SuggestionView>>,
}

impl View for VersionedSuggestions {
    type V = VersionedSuggestionsView;

    open spec fn view(&self) -> VersionedSuggestionsView {
        VersionedSuggestionsView {
            version: self.version,
            suggestions: self.suggestions.deep_view(),
        }
    }
}

impl DeepView for VersionedSuggestions {
    type V = VersionedSuggestionsView;

    open spec fn deep_view(&self) -> VersionedSuggestionsView {
        self@
    }
}

/// What the grammar actor is waiting for.
#[derive(Debug)]
pub enum GrammarPhase {
    /// The next notification.
    Listening,
    /// The content of the latest-document feed.
    Reading,
    /// The checker's answer for the document of this version.
    Checking { version: usize },
    /// The outcome of handing suggestions to the queue.
    Sending,
    /// Room in the queue, which was full when `pending` was offered.
    Suspended { pending: VersionedSuggestions },
    /// Nothing: the fan-out channel is closed.
    Stopped,
    /// Nothing: the receiving side of the queue is gone.
    Failed,
}

/// What a [`GrammarPhase`] holds, as mathematical values.
pub enum GrammarPhaseView {
    Listening,
    Reading,
    Checking { version: usize },
    Sending,
    Suspended { pending: VersionedSuggestionsView },
    Stopped,
    Failed,
}

impl View for GrammarPhase {
    type V = GrammarPhaseView;

    open spec fn view(&self) -> GrammarPhaseView {
        match self {
            GrammarPhase::Listening => GrammarPhaseView::Listening,
            GrammarPhase::Reading => GrammarPhaseView::Reading,
            GrammarPhase::Checking { version } => GrammarPhaseView::Checking { version: *version },
            GrammarPhase::Sending => GrammarPhaseView::Sending,
            GrammarPhase::Suspended { pending } => GrammarPhaseView::Suspended {
                pending: pending@,
            },
            GrammarPhase::Stopped => GrammarPhaseView::Stopped,
            GrammarPhase::Failed => GrammarPhaseView::Failed,
        }
    }
}

/// Something that happened for the grammar actor.
#[derive(Debug)]
pub enum GrammarEvent {
    /// The wait on the fan-out notification ended.
    Notified(Notification),
    /// The latest-document feed was read; it held a document of this version,
    /// or none.
    DocumentRead(Option<usize>),
    /// The checker answered.
    Checked(Option<Vec<Suggestion>>),
    /// The queue took the suggestions.
    Sent,
    /// The queue was full and handed the suggestions back.
    QueueFull(VersionedSuggestions),
    /// The queue has room again.
    RoomAvailable,
    /// The receiving side of the queue is gone.
    ReceiverGone,
}

/// What a [`GrammarEvent`] holds, as mathematical values.
pub enum GrammarEventView {
    Notified(NotificationView),
    DocumentRead(Option<usize>),
    Checked(Option<Seq<SuggestionView>>),
    Sent,
    QueueFull(VersionedSuggestionsView),
    RoomAvailable,
    ReceiverGone,
}

impl View for GrammarEvent {
    type V = GrammarEventView;

    open spec fn view(&self) -> GrammarEventView {
        match self {
            GrammarEvent::Notified(notification) => GrammarEventView::Notified(notification@),
            GrammarEvent::DocumentRead(version) => GrammarEventView::DocumentRead(*version),
            GrammarEvent::Checked(suggestions) => GrammarEventView::Checked(
                suggestions.deep_view(),
            ),
            GrammarEvent::Sent => GrammarEventView::Sent,
            GrammarEvent::QueueFull(pending) => GrammarEventView::QueueFull(pending@),
            GrammarEvent::RoomAvailable => GrammarEventView::RoomAvailable,
            GrammarEvent::ReceiverGone => GrammarEventView::ReceiverGone,
        }
    }
}

impl DeepView for GrammarEvent {
    type V = GrammarEventView;

    open spec fn deep_view(&self) -> GrammarEventView {
        self@
    }
}

/// What the grammar actor asks its scheduler to do next.
#[derive(Debug)]
pub enum GrammarAction {
    /// Wait for the next notification.
    Receive,
    /// Read the latest-document feed.
    ReadDocument,
    /// Extract the text of the document of this version and check it.
    Check { version: usize },
    /// Hand these suggestions to the queue.
    Send(VersionedSuggestions),
    /// Wait until the queue has room.
    AwaitRoom,
    /// End the task: there is nothing more to listen to.
    Stop,
    /// End the task: nobody takes the suggestions any more.
    Fail,
    /// Nothing: the event was not the one waited for.
    Ignored,
}

/// What a [`GrammarAction`] holds, as mathematical values.
pub enum GrammarActionView {
    Receive,
    ReadDocument,
    Check { version: usize },
    Send(VersionedSuggestionsView),
    AwaitRoom,
    Stop,
    Fail,
    Ignored,
}

impl View for GrammarAction {
    type V = GrammarActionView;

    open spec fn view(&self) -> GrammarActionView {
        match self {
            GrammarAction::Receive => GrammarActionView::Receive,
            GrammarAction::ReadDocument => GrammarActionView::ReadDocument,
            GrammarAction::Check { version } => GrammarActionView::Check { version: *version },
            GrammarAction::Send(suggestions) => GrammarActionView::Send(suggestions@),
            GrammarAction::AwaitRoom => GrammarActionView::AwaitRoom,
            GrammarAction::Stop => GrammarActionView::Stop,
            GrammarAction::Fail => GrammarActionView::Fail,
            GrammarAction::Ignored => GrammarActionView::Ignored,
        }
    }
}

impl DeepView for GrammarAction {
    type V = GrammarActionView;

    open spec fn deep_view(&self) -> GrammarActionView {
        self@
    }
}

/// The grammar actor: on every new document it has the text checked and
/// queues the suggestions, tagged with the document's version.
#[derive(Debug)]
pub struct GrammarActor {
    pub phase: GrammarPhase,
}

impl View for GrammarActor {
    type V = GrammarPhaseView;

    open spec fn view(&self) -> GrammarPhaseView {
        self.phase@
    }
}

/// The grammar actor's transition: its next phase and the action it asks for.
///
/// - A new document makes the actor read the feed; an empty feed sends it
///   back to listening. Requests that change export settings are skipped, and
///   so is a lag. A closed channel stops the actor.
/// - The checker's answer is queued under the version that was read.
/// - A full queue suspends the actor with the suggestions it was handed back;
///   when there is room it offers the same suggestions again.
/// - A queue without a receiver ends the actor.
/// - An event that the actor is not waiting for changes nothing.
pub open spec fn grammar_step(phase: GrammarPhaseView, event: GrammarEventView) -> (
    GrammarPhaseView,
    GrammarActionView,
) {
    match (phase, event) {
        (GrammarPhaseView::Listening, GrammarEventView::Notified(NotificationView::Closed)) => (
            GrammarPhaseView::Stopped,
            GrammarActionView::Stop,
        ),
        (GrammarPhaseView::Listening, GrammarEventView::Notified(NotificationView::Lagged(_))) => (
            GrammarPhaseView::Listening,
            GrammarActionView::Receive,
        ),
        (
            GrammarPhaseView::Listening,
            GrammarEventView::Notified(
                NotificationView::Request(RenderActorRequestView::Rendered(_)),
            ),
        ) => (GrammarPhaseView::Reading, GrammarActionView::ReadDocument),
        (GrammarPhaseView::Listening, GrammarEventView::Notified(NotificationView::Request(_))) => (
            GrammarPhaseView::Listening,
            GrammarActionView::Receive,
        ),
        (GrammarPhaseView::Reading, GrammarEventView::DocumentRead(None)) => (
            GrammarPhaseView::Listening,
            GrammarActionView::Receive,
        ),
        (GrammarPhaseView::Reading, GrammarEventView::DocumentRead(Some(version))) => (
            GrammarPhaseView::Checking { version },
            GrammarActionView::Check { version },
        ),
        (GrammarPhaseView::Checking { version }, GrammarEventView::Checked(suggestions)) => (
            GrammarPhaseView::Sending,
            GrammarActionView::Send(
                VersionedSuggestionsView { version: version as u64, suggestions },
            ),
        ),
        (GrammarPhaseView::Sending, GrammarEventView::Sent) => (
            GrammarPhaseView::Listening,
            GrammarActionView::Receive,
        ),
        (GrammarPhaseView::Sending, GrammarEventView::QueueFull(pending)) => (
            GrammarPhaseView::Suspended { pending },
            GrammarActionView::AwaitRoom,
        ),
        (GrammarPhaseView::Sending, GrammarEventView::ReceiverGone) => (
            GrammarPhaseView::Failed,
            GrammarActionView::Fail,
        ),
        (GrammarPhaseView::Suspended { pending }, GrammarEventView::RoomAvailable) => (
            GrammarPhaseView::Sending,
            GrammarActionView::Send(pending),
        ),
        (GrammarPhaseView::Suspended { .. }, GrammarEventView::ReceiverGone) => (
            GrammarPhaseView::Failed,
            GrammarActionView::Fail,
        ),
        _ => (phase, GrammarActionView::Ignored),
    }
}

/// The actor's phase after a run of events, and the actions it asked for, one
/// for each event.
pub open spec fn grammar_run(phase: GrammarPhaseView, events: Seq<GrammarEventView>) -> (
    GrammarPhaseView,
    Seq<GrammarActionView>,
)
    decreases events.len(),
{
    if events.len() == 0 {
        (phase, Seq::empty())
    } else {
        let (before, actions) = grammar_run(phase, events.drop_last());
        let (after, action) = grammar_step(before, events.last());
        (after, actions.push(action))
    }
}

/// An actor that has stopped, or failed, stays so and asks for nothing more,
/// whatever happens.
pub proof fn lemma_ended_grammar_actor_is_done(phase: GrammarPhaseView, event: GrammarEventView)
    requires
        phase is Stopped || phase is Failed,
    ensures
        grammar_step(phase, event) == (phase, GrammarActionView::Ignored),
{
}

/// The suggestions that the actor sends carry the version of the document
/// that it read from the feed, and are what the checker answered.
pub proof fn lemma_suggestions_carry_the_version_read(
    version: usize,
    suggestions: Option<Seq<SuggestionView>>,
)
    ensures
        ({
            let (reading, _) = grammar_step(
                GrammarPhaseView::Reading,
                GrammarEventView::DocumentRead(Some(version)),
            );
            grammar_step(reading, GrammarEventView::Checked(suggestions)) == (
                GrammarPhaseView::Sending,
                GrammarActionView::Send(
                    VersionedSuggestionsView { version: version as u64, suggestions },
                ),
            )
        }),
{
}

/// An actor that meets a full queue waits, and goes on when the queue has
/// room; the suggestions are neither dropped nor is anything reported as
/// failed.
///
/// Told that the queue was full, the actor suspends with the suggestions it
/// was handed back. While it is suspended it keeps them, whatever else
/// happens, as long as the receiver is there. Told that there is room, it
/// sends the same suggestions again, and once they are taken it is back to
/// listening.
pub proof fn lemma_full_queue_suspends_and_resumes(offered: VersionedSuggestionsView)
    ensures
        grammar_step(GrammarPhaseView::Sending, GrammarEventView::QueueFull(offered)) == (
            GrammarPhaseView::Suspended { pending: offered },
            GrammarActionView::AwaitRoom,
        ),
        forall|event: GrammarEventView|
            !(event is RoomAvailable) && !(event is ReceiverGone) ==> #[trigger] grammar_step(
                GrammarPhaseView::Suspended { pending: offered },
                event,
            ) == (GrammarPhaseView::Suspended { pending: offered }, GrammarActionView::Ignored),
        grammar_step(
            GrammarPhaseView::Suspended { pending: offered },
            GrammarEventView::RoomAvailable,
        ) == (GrammarPhaseView::Sending, GrammarActionView::Send(offered)),
        grammar_step(GrammarPhaseView::Sending, GrammarEventView::Sent) == (
            GrammarPhaseView::Listening,
            GrammarActionView::Receive,
        ),
{
}

impl GrammarActor {
    /// An actor that waits for its first notification.
    pub fn new() -> (actor: Self)
        ensures
            actor@ == GrammarPhaseView::Listening,
    {
        GrammarActor { phase: GrammarPhase::Listening }
    }

    /// Handles one event: see [`grammar_step`].
    pub fn step(&mut self, event: GrammarEvent) -> (action: GrammarAction)
        ensures
            (final(self)@, action@) == grammar_step(old(self)@, event@),
    {
        let mut phase = GrammarPhase::Listening;
        core::mem::swap(&mut self.phase, &mut phase);
        match (phase, event) {
            (GrammarPhase::Listening, GrammarEvent::Notified(Notification::Closed)) => {
                self.phase = GrammarPhase::Stopped;
                GrammarAction::Stop
            },
            (GrammarPhase::Listening, GrammarEvent::Notified(Notification::Lagged(_))) => {
                GrammarAction::Receive
            },
            (
                GrammarPhase::Listening,
                GrammarEvent::Notified(Notification::Request(RenderActorRequest::Rendered(_))),
            ) => {
                self.phase = GrammarPhase::Reading;
                GrammarAction::ReadDocument
            },
            (GrammarPhase::Listening, GrammarEvent::Notified(Notification::Request(_))) => {
                GrammarAction::Receive
            },
            (GrammarPhase::Reading, GrammarEvent::DocumentRead(None)) => GrammarAction::Receive,
            (GrammarPhase::Reading, GrammarEvent::DocumentRead(Some(version))) => {
                self.phase = GrammarPhase::Checking { version };
                GrammarAction::Check { version }
            },
            (GrammarPhase::Checking { version }, GrammarEvent::Checked(suggestions)) => {
                self.phase = GrammarPhase::Sending;
                GrammarAction::Send(VersionedSuggestions { version: version as u64, suggestions })
            },
            (GrammarPhase::Sending, GrammarEvent::Sent) => GrammarAction::Receive,
            (GrammarPhase::Sending, GrammarEvent::QueueFull(pending)) => {
                self.phase = GrammarPhase::Suspended { pending };
                GrammarAction::AwaitRoom
            },
            (GrammarPhase::Sending, GrammarEvent::ReceiverGone) => {
                self.phase = GrammarPhase::Failed;
                GrammarAction::Fail
            },
            (GrammarPhase::Suspended { pending }, GrammarEvent::RoomAvailable) => {
                self.phase = GrammarPhase::Sending;
                GrammarAction::Send(pending)
            },
            (GrammarPhase::Suspended { .. }, GrammarEvent::ReceiverGone) => {
                self.phase = GrammarPhase::Failed;
                GrammarAction::Fail
            },
            (phase, _) => {
                self.phase = phase;
                GrammarAction::Ignored
            },
        }
    }

    /// Handles a run of events in order and gives the action asked for after
    /// each: see [`grammar_run`].
    pub fn run(&mut self, events: Vec<GrammarEvent>) -> (actions: Vec<GrammarAction>)
        ensures
            (final(self)@, actions.deep_view()) == grammar_run(old(self)@, events.deep_view()),
            actions.len() == events.len(),
    {
        let ghost all = events.deep_view();
        let ghost start = self@;
        let mut actions: Vec<GrammarAction> = Vec::new();
        assert(actions.deep_view() =~= Seq::<GrammarActionView>::empty());
        assert(all.take(0) =~= Seq::<GrammarEventView>::empty());
        for event in it: events
            invariant
                all.len() == it.seq().len(),
                forall|i: int| 0 <= i < all.len() ==> all[i] == (#[trigger] it.seq()[i])@,
                (self@, actions.deep_view()) == grammar_run(start, all.take(it.index() as int)),
                actions.len() == it.index(),
        {
            let ghost before = actions.deep_view();
            let ghost index = it.index() as int;
            let action = self.step(event);
            actions.push(action);
            proof {
                assert(actions.deep_view() =~= before.push(action@));
                assert(all.take(index + 1).drop_last() =~= all.take(index));
                assert(all.take(index + 1).last() == all[index]);
            }
        }
        assert(all.take(all.len() as int) =~= all);
        actions
    }
}

/// The diagnostics that stand for the suggestions of one check.
pub open spec fn diags_of_suggestions(suggestions: Option<Seq<SuggestionView>>) -> Seq<
    SourceDiagnosticView,
> {
    match suggestions {
        Some(list) => list.map_values(|suggestion: SuggestionView| diag_of_suggestion(suggestion)),
        None => Seq::empty(),
    }
}

/// What to do with what came out of the suggestions queue.
#[derive(Debug)]
pub enum SuggestionAction {
    /// Report these suggestions as the diagnostics of the grammar pass.
    Notify(Option<Vec<Suggestion>>),
    /// Drop the suggestions: they were made for a document that a newer one
    /// has replaced.
    Discard,
    /// End the task: the queue is closed.
    Stop,
}

/// What a [`SuggestionAction`] holds, as mathematical values.
pub enum SuggestionActionView {
    Notify(Option<Seq<SuggestionView>>),
    Discard,
    Stop,
}

impl View for SuggestionAction {
    type V = SuggestionActionView;

    open spec fn view(&self) -> SuggestionActionView {
        match self {
            SuggestionAction::Notify(suggestions) => SuggestionActionView::Notify(
                suggestions.deep_view(),
            ),
            SuggestionAction::Discard => SuggestionActionView::Discard,
            SuggestionAction::Stop => SuggestionActionView::Stop,
        }
    }
}

/// What the consumer of the suggestions queue does with what it received,
/// while the last compiled document has the version `latest`: a closed queue
/// ends it, suggestions for an older document are dropped, all others are
/// reported.
pub open spec fn suggestion_action(
    latest: usize,
    received: Option<VersionedSuggestionsView>,
) -> SuggestionActionView {
    match received {
        None => SuggestionActionView::Stop,
        Some(versioned) => if versioned.version < latest {
            SuggestionActionView::Discard
        } else {
            SuggestionActionView::Notify(versioned.suggestions)
        },
    }
}

impl CompileServerActor {
    /// Decides what to do with what came out of the suggestions queue: see
    /// [`suggestion_action`].
    pub fn receive_suggestions(&self, received: Option<VersionedSuggestions>) -> (action:
        SuggestionAction)
        ensures
            action@ == suggestion_action(self.version, received.deep_view()),
    {
        match received {
            None => SuggestionAction::Stop,
            Some(versioned) => {
                if versioned.version < self.version as u64 {
                    SuggestionAction::Discard
                } else {
                    SuggestionAction::Notify(versioned.suggestions)
                }
            },
        }
    }
}

impl CompileDriver {
    /// Turns the suggestions of one check into warnings, one for each
    /// suggestion and in the same order; no suggestions give no warnings.
    pub fn suggestion_diagnostics(suggestions: Option<Vec<Suggestion>>) -> (diagnostics: Vec<
        SourceDiagnostic,
    >)
        ensures
            diagnostics.deep_view() == diags_of_suggestions(suggestions.deep_view()),
    {
        let mut diagnostics: Vec<SourceDiagnostic> = Vec::new();
        match suggestions {
            None => {
                assert(diagnostics.deep_view() =~= Seq::<SourceDiagnosticView>::empty());
            },
            Some(list) => {
                let ghost all = list.deep_view();
                assert(diagnostics.deep_view() =~= diags_of_suggestions(Some(all.take(0))));
                for suggestion in it: list
                    invariant
                        all.len() == it.seq().len(),
                        forall|i: int| 0 <= i < all.len() ==> all[i] == (#[trigger] it.seq()[i])@,
                        diagnostics.deep_view() == diags_of_suggestions(
                            Some(all.take(it.index() as int)),
                        ),
                {
                    let ghost before = diagnostics.deep_view();
                    let ghost index = it.index() as int;
                    let diagnostic = diag_from_suggestion(suggestion);
                    diagnostics.push(diagnostic);
                    assert(diagnostics.deep_view() =~= before.push(diagnostic@));
                    assert(diagnostics.deep_view() =~= diags_of_suggestions(
                        Some(all.take(index + 1)),
                    ));
                }
                assert(all.take(all.len() as int) =~= all);
            },
        }
        diagnostics
    }

    /// Reports what the grammar checker found, as the pass
    /// [`grammar_group`]. `located` is what locating the warnings of
    /// [`CompileDriver::suggestion_diagnostics`] in the sources gave; when
    /// that failed, the pass contributes nothing.
    pub fn notify_suggestions(&mut self, located: Result<Vec<SourceDiagnostic>, AnalysisError>)
        ensures
            final(self).diagnostics() == merge_diagnostics(
                !(old(self).entry@ is Inactive),
                old(self).diagnostics(),
                grammar_group(),
                match located {
                    Ok(diagnostics) => Some(diagnostics.deep_view()),
                    Err(_) => None,
                },
            ),
            final(self).entry == old(self).entry,
            final(self).handler.diag_group == old(self).handler.diag_group,
    {
        let group = "grammar".to_owned();
        match located {
            Ok(diagnostics) => {
                self.push_diagnostics(&group, Some(diagnostics));
            },
            Err(_) => {
                self.push_diagnostics(&group, None);
            },
        }
    }
}

} // verus!
