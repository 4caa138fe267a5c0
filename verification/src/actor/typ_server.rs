//! The compile orchestrator: applies edits to the in-memory files, and
//! publishes what the compiler made of them.

use vstd::prelude::*;
use crate::actor::render::{RenderActorRequest, RenderActorRequestView};
use crate::actor::typ_client::{merge_diagnostics, compile_group, CompileDriver, Diagnostics};
use crate::diag::SourceDiagnostic;
use crate::string_map::StringMap;

verus! {

/// One edit of the in-memory files: new content for a path, or its removal.
#[derive(Debug)]
pub struct FileEdit {
    pub path: String,
    /// The new content, or `None` to remove the file.
    pub content: Option<String>,
}

/// What a [`FileEdit`] holds, as mathematical values.
pub struct FileEditView {
    pub path: Seq<char>,
    pub content: Option<Seq<char>>,
}

impl View for FileEdit {
    type V = FileEditView;

    open spec fn view(&self) -> FileEditView {
        FileEditView { path: self.path@, content: self.content.deep_view() }
    }
}

impl DeepView for FileEdit {
    type V = FileEditView;

    open spec fn deep_view(&self) -> FileEditView {
        self@
    }
}

/// Edits to apply to the in-memory files, in order, before the next compile.
#[derive(Debug)]
pub struct MemoryChangeSet {
    pub edits: Vec<FileEdit>,
}

impl View for MemoryChangeSet {
    type V = Seq<FileEditView>;

    open spec fn view(&self) -> Seq<FileEditView> {
        self.edits.deep_view()
    }
}

impl DeepView for MemoryChangeSet {
    type V = Seq<FileEditView>;

    open spec fn deep_view(&self) -> Seq<FileEditView> {
        self@
    }
}

impl MemoryChangeSet {
    /// A change set without edits.
    pub fn new() -> (changes: Self)
        ensures
            changes@ == Seq::<FileEditView>::empty(),
    {
        let changes = MemoryChangeSet { edits: Vec::new() };
        assert(changes@ =~= Seq::<FileEditView>::empty());
        changes
    }
}

/// The in-memory files: the content of each path that has one.
pub type Overlay = Map<Seq<char>, Seq<char>>;

/// The files after one edit.
pub open spec fn apply_edit(files: Overlay, edit: FileEditView) -> Overlay {
    match edit.content {
        Some(content) => files.insert(edit.path, content),
        None => files.remove(edit.path),
    }
}

/// The files after the edits of one change set, applied first to last.
pub open spec fn apply_change_set(files: Overlay, edits: Seq<FileEditView>) -> Overlay
    decreases edits.len(),
{
    if edits.len() == 0 {
        files
    } else {
        apply_edit(apply_change_set(files, edits.drop_last()), edits.last())
    }
}

/// The files after a run of change sets, applied in the order in which they
/// were submitted.
pub open spec fn apply_all(files: Overlay, changes: Seq<Seq<FileEditView>>) -> Overlay
    decreases changes.len(),
{
    if changes.len() == 0 {
        files
    } else {
        apply_change_set(apply_all(files, changes.drop_last()), changes.last())
    }
}

/// Applying one change set and then another is applying the edits of both,
/// in that order, at once.
pub proof fn lemma_change_sets_concatenate(
    files: Overlay,
    first: Seq<FileEditView>,
    second: Seq<FileEditView>,
)
    ensures
        apply_change_set(apply_change_set(files, first), second) == apply_change_set(
            files,
            first + second,
        ),
    decreases second.len(),
{
    if second.len() == 0 {
        assert(first + second =~= first);
    } else {
        lemma_change_sets_concatenate(files, first, second.drop_last());
        assert((first + second).drop_last() =~= first + second.drop_last());
        assert((first + second).last() == second.last());
    }
}

/// Every edit of every change set, in the order of submission.
pub open spec fn all_edits(changes: Seq<Seq<FileEditView>>) -> Seq<FileEditView>
    decreases changes.len(),
{
    if changes.len() == 0 {
        Seq::empty()
    } else {
        all_edits(changes.drop_last()) + changes.last()
    }
}

/// After any run of change sets the files are what the edits of all of them
/// give when applied one by one in the order of submission: none is lost and
/// none overtakes another.
pub proof fn lemma_changes_accumulate(files: Overlay, changes: Seq<Seq<FileEditView>>)
    ensures
        apply_all(files, changes) == apply_change_set(files, all_edits(changes)),
    decreases changes.len(),
{
    if changes.len() > 0 {
        lemma_changes_accumulate(files, changes.drop_last());
        lemma_change_sets_concatenate(files, all_edits(changes.drop_last()), changes.last());
    }
}

/// Submitting more change sets later continues from where the earlier ones
/// left the files.
pub proof fn lemma_submissions_continue(
    files: Overlay,
    earlier: Seq<Seq<FileEditView>>,
    later: Seq<Seq<FileEditView>>,
)
    ensures
        apply_all(apply_all(files, earlier), later) == apply_all(files, earlier + later),
    decreases later.len(),
{
    if later.len() == 0 {
        assert(earlier + later =~= earlier);
    } else {
        lemma_submissions_continue(files, earlier, later.drop_last());
        assert((earlier + later).drop_last() =~= earlier + later.drop_last());
        assert((earlier + later).last() == later.last());
    }
}

/// A compiled document with the number of the compile that produced it.
#[derive(Debug)]
pub struct VersionedDocument<D> {
    pub version: usize,
    pub document: D,
}

/// What the compiler made of the current files.
#[derive(Debug)]
pub enum CompileOutcome<D> {
    /// A document, and the warnings that came with it.
    Success { document: D, warnings: Vec<SourceDiagnostic> },
    /// No document, and the errors that say why.
    Failure { errors: Vec<SourceDiagnostic> },
}

/// Something the orchestrator sends out after a compile.
#[derive(Debug)]
pub enum Emission<D> {
    /// Put this document into the latest-document feed, in place of the one
    /// that is there.
    UpdateFeed(VersionedDocument<D>),
    /// Send this request to every subscriber of the fan-out notification.
    Notify(RenderActorRequest),
}

/// What an [`Emission`] holds, as mathematical values.
pub enum EmissionView<D> {
    UpdateFeed(VersionedDocument<D>),
    Notify(RenderActorRequestView),
}

impl<D> View for Emission<D> {
    type V = EmissionView<D>;

    open spec fn view(&self) -> EmissionView<D> {
        match self {
            Emission::UpdateFeed(document) => EmissionView::UpdateFeed(*document),
            Emission::Notify(request) => EmissionView::Notify(request@),
        }
    }
}

impl<D> DeepView for Emission<D> {
    type V = EmissionView<D>;

    open spec fn deep_view(&self) -> EmissionView<D> {
        self@
    }
}

/// The version of the next document: one more than the last, and never less
/// (the count stays where it is once it cannot grow).
pub open spec fn next_version(version: usize) -> usize {
    if version < usize::MAX {
        (version + 1) as usize
    } else {
        version
    }
}

/// The version of the document in the latest-document feed, which only the
/// orchestrator writes, when `version` is the version of the last document
/// that a compile produced: nothing before the first document.
pub open spec fn feed_version(version: usize) -> Option<usize> {
    if version == 0 {
        None
    } else {
        Some(version)
    }
}

/// One successful compile moves the feed on by exactly one version.
///
/// While the feed holds the document of version `held`, below the top of
/// the count, a successful compile puts the document of version `held + 1`
/// into the feed and announces that version, in this order. The first
/// successful compile puts in version 1.
pub proof fn lemma_one_compile_adds_one<D>(version: usize, document: D)
    requires
        version < usize::MAX,
    ensures
        next_version(version) == version + 1,
        feed_version(next_version(version)) == Some((version + 1) as usize),
        feed_version(version) matches Some(held) ==> success_emissions(
            next_version(version),
            document,
        ) == seq![
            EmissionView::UpdateFeed(VersionedDocument { version: (held + 1) as usize, document }),
            EmissionView::Notify(RenderActorRequestView::Rendered((held + 1) as usize)),
        ],
        feed_version(version) is None ==> success_emissions(next_version(version), document)
            == seq![
            EmissionView::UpdateFeed(VersionedDocument { version: 1, document }),
            EmissionView::Notify(RenderActorRequestView::Rendered(1)),
        ],
{
}

/// What goes out after a successful compile that gave `document` as the
/// document number `version`: first the feed is updated, then the
/// subscribers are told, so that whoever wakes up on the notification finds
/// the new document in the feed.
pub open spec fn success_emissions<D>(version: usize, document: D) -> Seq<EmissionView<D>> {
    seq![
        EmissionView::UpdateFeed(VersionedDocument { version, document }),
        EmissionView::Notify(RenderActorRequestView::Rendered(version)),
    ]
}

/// The orchestrator of one compilation unit. It alone changes the in-memory
/// files, the version count and, through its driver, the diagnostics.
pub struct CompileServerActor {
    pub driver: CompileDriver,
    /// The in-memory files: content by path.
    pub files: StringMap<String>,
    /// The version of the last document that a compile produced.
    pub version: usize,
}

impl CompileServerActor {
    /// The in-memory files.
    pub open spec fn overlay(&self) -> Overlay {
        self.files@.map_values(|content: String| content@)
    }

    /// What each pass has contributed to the diagnostics.
    pub open spec fn diagnostics(&self) -> Diagnostics {
        self.driver.diagnostics()
    }

    /// Whether there is an entry to compile.
    pub open spec fn active(&self) -> bool {
        !(self.driver.entry@ is Inactive)
    }

    /// An orchestrator without files that has compiled nothing yet.
    pub fn new(driver: CompileDriver) -> (actor: Self)
        ensures
            actor.driver == driver,
            actor.overlay() == Map::<Seq<char>, Seq<char>>::empty(),
            actor.version == 0,
    {
        let actor = CompileServerActor { driver, files: StringMap::new(), version: 0 };
        assert(actor.overlay() =~= Map::<Seq<char>, Seq<char>>::empty());
        actor
    }

    /// Applies one change set to the in-memory files and says whether to
    /// compile next, which is so while there is an entry.
    pub fn add_memory_changes(&mut self, changes: MemoryChangeSet) -> (compile: bool)
        ensures
            final(self).overlay() == apply_change_set(old(self).overlay(), changes@),
            compile == old(self).active(),
            final(self).driver == old(self).driver,
            final(self).version == old(self).version,
    {
        let ghost all = changes@;
        let ghost start = self.overlay();
        assert(all.take(0) =~= Seq::<FileEditView>::empty());
        for edit in it: changes.edits
            invariant
                all.len() == it.seq().len(),
                forall|i: int| 0 <= i < all.len() ==> all[i] == (#[trigger] it.seq()[i])@,
                self.overlay() == apply_change_set(start, all.take(it.index() as int)),
                self.driver == old(self).driver,
                self.version == old(self).version,
        {
            let ghost before = self.overlay();
            let ghost index = it.index() as int;
            let ghost edit_view = edit@;
            match edit.content {
                Some(content) => {
                    self.files.insert(edit.path, content);
                    assert(self.overlay() =~= before.insert(edit_view.path, content@));
                },
                None => {
                    self.files.remove(&edit.path);
                    assert(self.overlay() =~= before.remove(edit_view.path));
                },
            }
            proof {
                assert(all.take(index + 1).drop_last() =~= all.take(index));
                assert(all.take(index + 1).last() == all[index]);
            }
        }
        assert(all.take(all.len() as int) =~= all);
        !self.driver.entry.is_inactive()
    }

    /// Applies the change sets that were submitted since the last compile, in
    /// the order of submission, and says whether to compile next.
    pub fn add_pending_changes(&mut self, pending: Vec<MemoryChangeSet>) -> (compile: bool)
        ensures
            final(self).overlay() == apply_all(old(self).overlay(), pending.deep_view()),
            compile == old(self).active(),
            final(self).driver == old(self).driver,
            final(self).version == old(self).version,
    {
        let ghost all = pending.deep_view();
        let ghost start = self.overlay();
        assert(all.take(0) =~= Seq::<Seq<FileEditView>>::empty());
        for changes in it: pending
            invariant
                all.len() == it.seq().len(),
                forall|i: int| 0 <= i < all.len() ==> all[i] == (#[trigger] it.seq()[i])@,
                self.overlay() == apply_all(start, all.take(it.index() as int)),
                self.driver == old(self).driver,
                self.version == old(self).version,
        {
            let ghost index = it.index() as int;
            self.add_memory_changes(changes);
            proof {
                assert(all.take(index + 1).drop_last() =~= all.take(index));
                assert(all.take(index + 1).last() == all[index]);
            }
        }
        assert(all.take(all.len() as int) =~= all);
        !self.driver.entry.is_inactive()
    }

    /// The content of the in-memory file `path`, if there is one.
    pub fn file(&self, path: &String) -> (content: Option<&String>)
        ensures
            match content {
                Some(found) => self.overlay().contains_key(path@) && self.overlay()[path@]
                    == found@,
                None => !self.overlay().contains_key(path@),
            },
    {
        self.files.get(path)
    }

    /// Takes in what the compiler made of the current files and gives what
    /// to send out, in the order in which to send it.
    ///
    /// A document gets the next version and goes out as
    /// [`success_emissions`]; its warnings become the compiler's
    /// diagnostics. A failure sends nothing out, so the feed keeps the last
    /// good document; its errors become the compiler's diagnostics. The
    /// in-memory files stay as they are.
    pub fn notify_compile<D>(&mut self, outcome: CompileOutcome<D>) -> (emissions: Vec<
        Emission<D>,
    >)
        ensures
            match outcome {
                CompileOutcome::Success { document, warnings } => {
                    &&& final(self).version == next_version(old(self).version)
                    &&& old(self).version < usize::MAX ==> final(self).version == old(
                        self,
                    ).version + 1
                    &&& emissions.deep_view() == success_emissions(final(self).version, document)
                    &&& final(self).diagnostics() == merge_diagnostics(
                        old(self).active(),
                        old(self).diagnostics(),
                        compile_group(),
                        Some(warnings.deep_view()),
                    )
                },
                CompileOutcome::Failure { errors } => {
                    &&& final(self).version == old(self).version
                    &&& emissions.deep_view() == Seq::<EmissionView<D>>::empty()
                    &&& final(self).diagnostics() == merge_diagnostics(
                        old(self).active(),
                        old(self).diagnostics(),
                        compile_group(),
                        Some(errors.deep_view()),
                    )
                },
            },
            old(self).version <= final(self).version,
            final(self).overlay() == old(self).overlay(),
            final(self).driver.entry == old(self).driver.entry,
            final(self).driver.handler.diag_group == old(self).driver.handler.diag_group,
    {
        let mut emissions: Vec<Emission<D>> = Vec::new();
        match outcome {
            CompileOutcome::Success { document, warnings } => {
                if self.version < usize::MAX {
                    self.version = self.version + 1;
                }
                self.driver.notify_diagnostics(warnings);
                emissions.push(
                    Emission::UpdateFeed(VersionedDocument { version: self.version, document }),
                );
                emissions.push(Emission::Notify(RenderActorRequest::Rendered(self.version)));
                assert(emissions.deep_view() =~= success_emissions(self.version, document));
            },
            CompileOutcome::Failure { errors } => {
                self.driver.notify_diagnostics(errors);
                assert(emissions.deep_view() =~= Seq::<EmissionView<D>>::empty());
            },
        }
        emissions
    }
}

} // verus!
