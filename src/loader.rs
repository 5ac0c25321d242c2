//! Staging and opening a build artifact, as a sequence of steps that the
//! host performs one at a time.
//!
//! The artifact is copied to an isolated active location before it is
//! opened, so that the build writing its output never collides with the
//! copy mapped into the process.
use vstd::prelude::*;
use crate::module::{EntryPoints, LoadError, SymbolScan, resolution, resolve_entry_points};

verus! {

/// What the host has learned so far in one load attempt; `None` marks a
/// step that has not been performed.
#[derive(Clone, Copy, Debug, PartialEq, Eq, Structural)]
pub struct LoadProgress {
    /// Whether the build artifact exists.
    pub artifact_present: Option<bool>,
    /// Whether the active directory exists.
    pub active_dir_present: Option<bool>,
    /// Whether creating the missing active directory succeeded.
    pub active_dir_created: Option<bool>,
    /// Whether copying the artifact into the active directory succeeded.
    pub copied: Option<bool>,
    /// Whether the dynamic loader accepted the staged copy.
    pub opened: Option<bool>,
    /// Which exports the opened module offers.
    pub symbols: Option<SymbolScan>,
}

impl LoadProgress {
    /// The start of an attempt: nothing performed yet.
    pub fn new() -> (r: LoadProgress)
        ensures
            r == (LoadProgress {
                artifact_present: None,
                active_dir_present: None,
                active_dir_created: None,
                copied: None,
                opened: None,
                symbols: None,
            }),
    {
        LoadProgress {
            artifact_present: None,
            active_dir_present: None,
            active_dir_created: None,
            copied: None,
            opened: None,
            symbols: None,
        }
    }
}

/// The next thing the host does in a load attempt.
#[derive(Clone, Copy, Debug, PartialEq, Eq, Structural)]
pub enum LoadAction {
    /// Check that the build artifact exists.
    ProbeArtifact,
    /// Check that the active directory exists.
    ProbeActiveDir,
    /// Create the active directory.
    CreateActiveDir,
    /// Copy the build artifact into the active directory.
    CopyArtifact,
    /// Open the staged copy with the dynamic loader.
    OpenStaged,
    /// Look up the module's exports.
    ResolveEntryPoints,
    /// The module is loaded, with these optional exports.
    Finish(EntryPoints),
    /// The attempt failed; the host keeps running and retries later.
    Fail(LoadError),
    /// The active directory cannot be created: the host cannot go on.
    Abort,
}

/// Whether the active directory is known to exist, found or created.
pub open spec fn active_dir_ready(p: LoadProgress) -> bool {
    p.active_dir_present == Some(true) || p.active_dir_created == Some(true)
}

/// The next step of a load attempt that has reached `p`.
///
/// The steps run in a fixed order: find the artifact, make sure the active
/// directory exists (creating it when missing), copy, open, resolve. The
/// first failing step decides the outcome.
pub open spec fn load_action(p: LoadProgress) -> LoadAction {
    if p.artifact_present is None {
        LoadAction::ProbeArtifact
    } else if p.artifact_present == Some(false) {
        LoadAction::Fail(LoadError::ArtifactMissing)
    } else if p.active_dir_present is None {
        LoadAction::ProbeActiveDir
    } else if !active_dir_ready(p) && p.active_dir_created is None {
        LoadAction::CreateActiveDir
    } else if !active_dir_ready(p) {
        LoadAction::Abort
    } else if p.copied is None {
        LoadAction::CopyArtifact
    } else if p.copied == Some(false) {
        LoadAction::Fail(LoadError::StageFailure)
    } else if p.opened is None {
        LoadAction::OpenStaged
    } else if p.opened == Some(false) {
        LoadAction::Fail(LoadError::OpenFailure)
    } else {
        match p.symbols {
            None => LoadAction::ResolveEntryPoints,
            Some(scan) => match resolution(scan) {
                Ok(entry_points) => LoadAction::Finish(entry_points),
                Err(e) => LoadAction::Fail(e),
            },
        }
    }
}

/// Decides the next step of a load attempt from what is known so far.
pub fn next_load_action(p: &LoadProgress) -> (r: LoadAction)
    ensures
        r == load_action(*p),
{
    match p.artifact_present {
        None => LoadAction::ProbeArtifact,
        Some(false) => LoadAction::Fail(LoadError::ArtifactMissing),
        Some(true) => {
            let dir_ready = match (p.active_dir_present, p.active_dir_created) {
                (Some(true), _) => true,
                (_, Some(true)) => true,
                _ => false,
            };
            if p.active_dir_present.is_none() {
                LoadAction::ProbeActiveDir
            } else if !dir_ready && p.active_dir_created.is_none() {
                LoadAction::CreateActiveDir
            } else if !dir_ready {
                LoadAction::Abort
            } else {
                match p.copied {
                    None => LoadAction::CopyArtifact,
                    Some(false) => LoadAction::Fail(LoadError::StageFailure),
                    Some(true) => match p.opened {
                        None => LoadAction::OpenStaged,
                        Some(false) => LoadAction::Fail(LoadError::OpenFailure),
                        Some(true) => match p.symbols {
                            None => LoadAction::ResolveEntryPoints,
                            Some(scan) => match resolve_entry_points(scan) {
                                Ok(entry_points) => LoadAction::Finish(entry_points),
                                Err(e) => LoadAction::Fail(e),
                            },
                        },
                    },
                }
            }
        },
    }
}

/// The staged copy is opened only after the artifact was found and copied
/// into an existing active directory, and a module is only reported loaded
/// once it was opened and its required exports resolved.
pub proof fn lemma_stage_before_open(p: LoadProgress)
    ensures
        load_action(p) == LoadAction::OpenStaged ==> p.artifact_present == Some(true)
            && active_dir_ready(p) && p.copied == Some(true),
        load_action(p) is Finish ==> p.opened == Some(true) && p.copied == Some(true)
            && p.symbols is Some && p.symbols.unwrap().setup && p.symbols.unwrap().update,
{
}

} // verus!
