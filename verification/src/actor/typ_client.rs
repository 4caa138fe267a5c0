//! The compile driver and the diagnostics it keeps, one list for each pass.

use vstd::prelude::*;
use crate::diag::{SourceDiagnostic, SourceDiagnosticView};
use crate::entry::EntryState;
use crate::actor::typ_server::CompileServerActor;
use crate::string_map::StringMap;

verus! {

/// The diagnostics of a unit: for each pass that has contributed, its list.
pub type Diagnostics = Map<Seq<char>, Seq<SourceDiagnosticView>>;

/// The name of the pass that reports what the compiler found.
pub open spec fn compile_group() -> Seq<char> {
    "compile"@
}

/// The name of the pass that reports what the grammar checker found.
pub open spec fn grammar_group() -> Seq<char> {
    "grammar"@
}

/// The compiler and the grammar checker report under different names, so
/// neither takes the place of the other.
pub proof fn lemma_passes_have_distinct_names()
    ensures
        compile_group() != grammar_group(),
{
    reveal_strlit("compile");
    reveal_strlit("grammar");
    assert(compile_group()[0] == 'c');
    assert(grammar_group()[0] == 'g');
}

/// The diagnostics after one pass has pushed its own.
///
/// While the entry is inactive every push leaves nothing to show. Otherwise
/// the pushed list takes the place of what `group` had contributed, and
/// pushing nothing takes the contribution of `group` away. No other pass is
/// touched.
pub open spec fn merge_diagnostics(
    active: bool,
    current: Diagnostics,
    group: Seq<char>,
    pushed: Option<Seq<SourceDiagnosticView>>,
) -> Diagnostics {
    if !active {
        Map::empty()
    } else {
        match pushed {
            Some(diagnostics) => current.insert(group, diagnostics),
            None => current.remove(group),
        }
    }
}

/// Two passes do not clobber each other: after both have pushed, in either
/// order, each finds its own list; and a pass that then pushes nothing takes
/// away its own list only.
pub proof fn lemma_groups_are_independent(
    current: Diagnostics,
    first: Seq<char>,
    first_pushed: Seq<SourceDiagnosticView>,
    second: Seq<char>,
    second_pushed: Seq<SourceDiagnosticView>,
)
    requires
        first != second,
    ensures
        ({
            let both = merge_diagnostics(
                true,
                merge_diagnostics(true, current, first, Some(first_pushed)),
                second,
                Some(second_pushed),
            );
            let swapped = merge_diagnostics(
                true,
                merge_diagnostics(true, current, second, Some(second_pushed)),
                first,
                Some(first_pushed),
            );
            let cleared = merge_diagnostics(true, both, first, None);
            &&& both == swapped
            &&& both.contains_key(first) && both[first] == first_pushed
            &&& both.contains_key(second) && both[second] == second_pushed
            &&& !cleared.contains_key(first)
            &&& cleared.contains_key(second) && cleared[second] == second_pushed
            &&& forall|other: Seq<char>|
                other != first ==> cleared.contains_key(other) == both.contains_key(other)
                    && cleared[other] == both[other]
            &&& forall|other: Seq<char>|
                other != first && other != second ==> both.contains_key(other)
                    == current.contains_key(other) && both[other] == current[other]
        }),
{
    let both = merge_diagnostics(
        true,
        merge_diagnostics(true, current, first, Some(first_pushed)),
        second,
        Some(second_pushed),
    );
    let swapped = merge_diagnostics(
        true,
        merge_diagnostics(true, current, second, Some(second_pushed)),
        first,
        Some(first_pushed),
    );
    assert(both =~= swapped);
}

/// While the entry is inactive, whatever is pushed, by whichever pass, there
/// is nothing to show.
pub proof fn lemma_inactive_entry_shows_nothing(
    current: Diagnostics,
    group: Seq<char>,
    pushed: Option<Seq<SourceDiagnosticView>>,
)
    ensures
        merge_diagnostics(false, current, group, pushed) == Map::<
            Seq<char>,
            Seq<SourceDiagnosticView>,
        >::empty(),
{
}

/// Keeps what each pass has contributed to the diagnostics of one unit.
pub struct CompileHandler {
    /// The name of the unit.
    pub diag_group: String,
    /// The list of each pass, under the name of the pass.
    pub contributions: StringMap<Vec<SourceDiagnostic>>,
}

impl CompileHandler {
    /// What each pass has contributed.
    pub open spec fn diagnostics(&self) -> Diagnostics {
        self.contributions@.map_values(|list: Vec<SourceDiagnostic>| list.deep_view())
    }

    /// A handler for the unit `diag_group` to which nothing was contributed.
    pub fn new(diag_group: String) -> (handler: Self)
        ensures
            handler.diag_group@ == diag_group@,
            handler.diagnostics() == Map::<Seq<char>, Seq<SourceDiagnosticView>>::empty(),
    {
        let handler = CompileHandler { diag_group, contributions: StringMap::new() };
        assert(handler.diagnostics() =~= Map::<Seq<char>, Seq<SourceDiagnosticView>>::empty());
        handler
    }

    /// Puts `diagnostics` in the place of what `group` had contributed, or
    /// takes that contribution away when `diagnostics` is `None`.
    pub fn push_diagnostics(&mut self, diagnostics: Option<Vec<SourceDiagnostic>>, group: &String)
        ensures
            final(self).diagnostics() == merge_diagnostics(
                true,
                old(self).diagnostics(),
                group@,
                diagnostics.deep_view(),
            ),
            final(self).diag_group == old(self).diag_group,
    {
        match diagnostics {
            Some(list) => {
                self.contributions.insert(group.clone(), list);
                assert(self.diagnostics() =~= old(self).diagnostics().insert(
                    group@,
                    list.deep_view(),
                ));
            },
            None => {
                self.contributions.remove(group);
                assert(self.diagnostics() =~= old(self).diagnostics().remove(group@));
            },
        }
    }

    /// Takes every contribution away.
    pub fn clear_diagnostics(&mut self)
        ensures
            final(self).diagnostics() == Map::<Seq<char>, Seq<SourceDiagnosticView>>::empty(),
            final(self).diag_group == old(self).diag_group,
    {
        self.contributions.clear();
        assert(self.diagnostics() =~= Map::<Seq<char>, Seq<SourceDiagnosticView>>::empty());
    }

    /// What `group` has contributed, if anything.
    pub fn group_diagnostics(&self, group: &String) -> (list: Option<&Vec<SourceDiagnostic>>)
        ensures
            match list {
                Some(found) => self.diagnostics().contains_key(group@) && self.diagnostics()[group@]
                    == found.deep_view(),
                None => !self.diagnostics().contains_key(group@),
            },
    {
        self.contributions.get(group)
    }

    /// The number of passes that have contributed.
    pub fn group_count(&self) -> (count: usize)
        ensures
            count == self.diagnostics().len(),
            self.diagnostics().dom().finite(),
    {
        assert(self.diagnostics().dom() =~= self.contributions@.dom());
        self.contributions.len()
    }
}

/// Why the diagnostics of a pass could not be located in the sources.
#[derive(Debug)]
pub struct AnalysisError {
    pub message: String,
}

/// The compile driver: the state that only the orchestrator may change.
pub struct CompileDriver {
    /// What is compiled.
    pub entry: EntryState,
    /// Where diagnostics go.
    pub handler: CompileHandler,
}

impl CompileDriver {
    /// A driver for `entry` that reports through `handler`.
    pub fn new(entry: EntryState, handler: CompileHandler) -> (driver: Self)
        ensures
            driver.entry == entry,
            driver.handler == handler,
    {
        CompileDriver { entry, handler }
    }

    /// What each pass has contributed.
    pub open spec fn diagnostics(&self) -> Diagnostics {
        self.handler.diagnostics()
    }

    /// Merges what one pass has found into the diagnostics: see
    /// [`merge_diagnostics`].
    pub fn push_diagnostics(&mut self, group: &String, diagnostics: Option<Vec<SourceDiagnostic>>)
        ensures
            final(self).diagnostics() == merge_diagnostics(
                !(old(self).entry@ is Inactive),
                old(self).diagnostics(),
                group@,
                diagnostics.deep_view(),
            ),
            old(self).entry@ is Inactive ==> final(self).diagnostics() == Map::<
                Seq<char>,
                Seq<SourceDiagnosticView>,
            >::empty(),
            final(self).entry == old(self).entry,
            final(self).handler.diag_group == old(self).handler.diag_group,
    {
        if self.entry.is_inactive() {
            self.handler.clear_diagnostics();
        } else {
            self.handler.push_diagnostics(diagnostics, group);
        }
    }

    /// Reports what the compiler found, as the pass [`compile_group`].
    pub fn notify_diagnostics(&mut self, diagnostics: Vec<SourceDiagnostic>)
        ensures
            final(self).diagnostics() == merge_diagnostics(
                !(old(self).entry@ is Inactive),
                old(self).diagnostics(),
                compile_group(),
                Some(diagnostics.deep_view()),
            ),
            final(self).entry == old(self).entry,
            final(self).handler.diag_group == old(self).handler.diag_group,
    {
        let group = "compile".to_owned();
        self.push_diagnostics(&group, Some(diagnostics));
    }
}

/// Why a piece of work could not be run on the orchestrator: it has not been
/// built yet, or it has been torn down.
#[derive(Clone, Copy, Debug, PartialEq, Eq, Structural)]
pub struct DriverUnavailable;

/// The handle through which clients reach the orchestrator of a unit. It
/// may be there before the orchestrator is.
pub struct CompileClientActor {
    /// The orchestrator, while there is one.
    pub inner: Option<CompileServerActor>,
}

impl CompileClientActor {
    /// A handle to an orchestrator that has not been built yet.
    pub fn new() -> (client: Self)
        ensures
            client.inner is None,
    {
        CompileClientActor { inner: None }
    }

    /// Runs `work` on the orchestrator and gives what it returns. The work
    /// is handed the orchestrator and hands it back, so nobody else touches
    /// it meanwhile. Without an orchestrator the work is not run and the
    /// answer is [`DriverUnavailable`].
    pub fn steal<R, F>(&mut self, work: F) -> (outcome: Result<R, DriverUnavailable>) where
        F: FnOnce(CompileServerActor) -> (CompileServerActor, R),

        requires
            old(self).inner matches Some(actor) ==> work.requires((actor,)),
        ensures
            match old(self).inner {
                Some(actor) => {
                    &&& outcome is Ok
                    &&& final(self).inner is Some
                    &&& work.ensures((actor,), (final(self).inner.unwrap(), outcome.unwrap()))
                },
                None => {
                    &&& outcome == Err::<R, DriverUnavailable>(DriverUnavailable)
                    &&& final(self).inner is None
                },
            },
    {
        match self.inner.take() {
            Some(actor) => {
                let (actor, answer) = work(actor);
                self.inner = Some(actor);
                Ok(answer)
            },
            None => Err(DriverUnavailable),
        }
    }
}

} // verus!
