//! The reload sequencer: swaps the active module for a freshly loaded one
//! while the capability table survives.
use vstd::prelude::*;
use crate::module::{
    Application, EntryCall, EntryPoints, HandleView, LoadError, Lifecycle, calls_for,
};
use crate::table::{State, TableView};
use crate::watcher::{Timestamp, is_new_artifact, should_reload};

verus! {

/// The version after one reload attempt: one more if it succeeded.
pub open spec fn version_after_attempt(version: nat, succeeded: bool) -> nat {
    if succeeded {
        version + 1
    } else {
        version
    }
}

/// The "last observed" time after one reload attempt of the artifact
/// modified at `observed`: it moves only when the attempt succeeded.
pub open spec fn observed_after_attempt(
    last_observed: Option<Timestamp>,
    observed: Timestamp,
    succeeded: bool,
) -> Option<Timestamp> {
    if succeeded {
        Some(observed)
    } else {
        last_observed
    }
}

/// The version after a sequence of reload attempts, each marked by
/// whether it succeeded.
pub open spec fn version_after_attempts(version: nat, attempts: Seq<bool>) -> nat
    decreases attempts.len(),
{
    if attempts.len() == 0 {
        version
    } else {
        version_after_attempt(version_after_attempts(version, attempts.drop_last()), attempts.last())
    }
}

/// How many of the attempts succeeded.
pub open spec fn successes(attempts: Seq<bool>) -> nat
    decreases attempts.len(),
{
    if attempts.len() == 0 {
        0
    } else {
        successes(attempts.drop_last()) + if attempts.last() {
            1nat
        } else {
            0nat
        }
    }
}

/// Over any sequence of reload attempts the version grows by exactly one
/// per successful attempt and stays put on a failed one, so it never
/// decreases.
pub proof fn lemma_version_counts_successes(version: nat, attempts: Seq<bool>)
    ensures
        version_after_attempts(version, attempts) == version + successes(attempts),
        forall|i: int|
            0 <= i < attempts.len() ==> #[trigger] version_after_attempts(
                version,
                attempts.take(i + 1),
            ) == version_after_attempts(version, attempts.take(i)) + if attempts[i] {
                1nat
            } else {
                0nat
            },
        forall|i: int, j: int|
            0 <= i <= j <= attempts.len() ==> version_after_attempts(version, attempts.take(i))
                <= version_after_attempts(version, attempts.take(j)),
    decreases attempts.len(),
{
    if attempts.len() > 0 {
        lemma_version_counts_successes(version, attempts.drop_last());
    }
    assert forall|i: int| 0 <= i < attempts.len() implies #[trigger] version_after_attempts(
        version,
        attempts.take(i + 1),
    ) == version_after_attempts(version, attempts.take(i)) + if attempts[i] {
        1nat
    } else {
        0nat
    } by {
        assert(attempts.take(i + 1).drop_last() =~= attempts.take(i));
    }
    assert forall|i: int, j: int| 0 <= i <= j <= attempts.len() implies version_after_attempts(
        version,
        attempts.take(i),
    ) <= version_after_attempts(version, attempts.take(j)) by {
        lemma_versions_monotone(version, attempts, i, j);
    }
}

proof fn lemma_versions_monotone(version: nat, attempts: Seq<bool>, i: int, j: int)
    requires
        0 <= i <= j <= attempts.len(),
    ensures
        version_after_attempts(version, attempts.take(i)) <= version_after_attempts(
            version,
            attempts.take(j),
        ),
    decreases j - i,
{
    if i < j {
        lemma_versions_monotone(version, attempts, i, j - 1);
        assert(attempts.take(j).drop_last() =~= attempts.take(j - 1));
    }
}

/// A failed attempt leaves the last observed time alone, so the same
/// artifact still counts as new at the next poll and is tried again; once
/// an attempt on it succeeds, it no longer counts as new.
pub proof fn lemma_failed_attempt_retried(
    last_observed: Option<Timestamp>,
    modified: Timestamp,
)
    requires
        is_new_artifact(Some(modified), last_observed),
    ensures
        observed_after_attempt(last_observed, modified, false) == last_observed,
        is_new_artifact(Some(modified), observed_after_attempt(last_observed, modified, false)),
        !is_new_artifact(Some(modified), observed_after_attempt(last_observed, modified, true)),
{
}

/// The sequencer's state as the contracts see it.
pub struct ReloaderView<L> {
    pub active: Option<HandleView<L>>,
    pub last_observed: Option<Timestamp>,
}

/// Drives the reload cycle: holds the single active module handle and the
/// modification time of the artifact behind it.
///
/// A replacement is loaded before the active module is let go, so a failed
/// load leaves the active module serving frames.
pub struct Reloader<L> {
    active: Option<Application<L>>,
    last_observed: Option<Timestamp>,
}

impl<L> View for Reloader<L> {
    type V = ReloaderView<L>;

    closed spec fn view(&self) -> ReloaderView<L> {
        ReloaderView {
            active: match self.active {
                Some(a) => Some(a@),
                None => None,
            },
            last_observed: self.last_observed,
        }
    }
}

impl<L> Reloader<L> {
    /// A sequencer with no module loaded; the first artifact found will be
    /// loaded.
    pub fn new() -> (r: Reloader<L>)
        ensures
            r@ == (ReloaderView::<L> { active: None, last_observed: None }),
    {
        Reloader { active: None, last_observed: None }
    }

    /// The modification time of the artifact behind the active module.
    pub fn last_observed(&self) -> (r: Option<Timestamp>)
        ensures
            r == self@.last_observed,
    {
        self.last_observed
    }

    /// The active module handle, if any.
    pub fn active(&self) -> (r: Option<&Application<L>>)
        ensures
            match r {
                Some(a) => self@.active == Some(a@),
                None => self@.active is None,
            },
    {
        match &self.active {
            Some(a) => Some(a),
            None => None,
        }
    }

    /// Whether the artifact, last modified at `modified` (`None`: it is
    /// missing), is newer than the active module and should be loaded.
    pub fn should_reload(&self, modified: Option<Timestamp>) -> (r: bool)
        ensures
            r == is_new_artifact(modified, self@.last_observed),
    {
        should_reload(modified, self.last_observed)
    }

    /// Completes a reload attempt of the artifact modified at `observed`.
    ///
    /// On a loaded module: it becomes the active handle, awaiting `setup`;
    /// the version advances by one; the last observed time becomes
    /// `observed`; and the previous module instance is handed back to be
    /// unloaded. Nothing else in the table changes.
    ///
    /// On a failed load: nothing changes, and the error is handed back.
    pub fn reload<C>(
        &mut self,
        table: &mut State<C>,
        loaded: Result<(L, EntryPoints), LoadError>,
        observed: Timestamp,
    ) -> (r: Result<Option<L>, LoadError>)
        requires
            loaded is Ok ==> old(table)@.version < u32::MAX,
        ensures
            final(table)@ == (TableView {
                version: version_after_attempt(old(table)@.version, loaded is Ok),
                ..old(table)@
            }),
            final(self)@.last_observed == observed_after_attempt(
                old(self)@.last_observed,
                observed,
                loaded is Ok,
            ),
            match loaded {
                Ok((library, entry_points)) => {
                    &&& final(self)@.active == Some(
                        HandleView { library, entry_points, phase: Lifecycle::Loaded },
                    )
                    &&& r matches Ok(previous) && match old(self)@.active {
                        Some(h) => previous == Some(h.library),
                        None => previous is None,
                    }
                },
                Err(e) => final(self)@ == old(self)@ && r == Err::<Option<L>, LoadError>(e),
            },
    {
        match loaded {
            Ok((library, entry_points)) => {
                let fresh = Application::new(library, entry_points);
                let mut previous = Some(fresh);
                std::mem::swap(&mut self.active, &mut previous);
                self.last_observed = Some(observed);
                table.bump_version();
                match previous {
                    Some(handle) => Ok(Some(handle.unload())),
                    None => Ok(None),
                }
            },
            Err(e) => Err(e),
        }
    }

    /// The calls to make into the active module this frame, in order: none
    /// without a module, and `setup` first on a module that was just
    /// loaded.
    pub fn frame_calls(&mut self) -> (r: Vec<EntryCall>)
        ensures
            match old(self)@.active {
                None => r@ == Seq::<EntryCall>::empty() && final(self)@ == old(self)@,
                Some(h) => {
                    &&& r@ == calls_for(h.phase, h.entry_points.draw)
                    &&& final(self)@ == (ReloaderView {
                        active: Some(HandleView { phase: Lifecycle::Running, ..h }),
                        ..old(self)@
                    })
                },
            },
    {
        match &mut self.active {
            Some(handle) => handle.frame_calls(),
            None => Vec::new(),
        }
    }
}

} // verus!
