//! The module handle: one loaded module, its resolved entry points and
//! where it stands in its lifecycle.
use vstd::prelude::*;

verus! {

/// An exported function of the module.
#[derive(Clone, Copy, Debug, PartialEq, Eq, Structural)]
pub enum EntryPoint {
    Setup,
    Update,
    Draw,
    GetMessage,
}

impl EntryPoint {
    /// The symbol name the module exports the entry point under.
    pub open spec fn symbol_spec(self) -> Seq<char> {
        match self {
            EntryPoint::Setup => "setup"@,
            EntryPoint::Update => "update"@,
            EntryPoint::Draw => "draw"@,
            EntryPoint::GetMessage => "get_message"@,
        }
    }

    /// The symbol name the module exports the entry point under.
    pub fn symbol(&self) -> (r: &'static str)
        ensures
            r@ == self.symbol_spec(),
    {
        match self {
            EntryPoint::Setup => "setup",
            EntryPoint::Update => "update",
            EntryPoint::Draw => "draw",
            EntryPoint::GetMessage => "get_message",
        }
    }

    /// Whether a module without this export is rejected at load time.
    pub open spec fn is_required_spec(self) -> bool {
        self == EntryPoint::Setup || self == EntryPoint::Update
    }

    /// Whether a module without this export is rejected at load time.
    pub fn is_required(&self) -> (r: bool)
        ensures
            r == self.is_required_spec(),
    {
        match self {
            EntryPoint::Setup => true,
            EntryPoint::Update => true,
            EntryPoint::Draw => false,
            EntryPoint::GetMessage => false,
        }
    }
}

/// Why an attempt to load the module failed. Every one of them is
/// recoverable: the next change of the artifact is tried again.
#[derive(Clone, Copy, Debug, PartialEq, Eq, Structural)]
pub enum LoadError {
    /// The build artifact does not exist.
    ArtifactMissing,
    /// Copying the artifact to the active location failed.
    StageFailure,
    /// The dynamic loader rejected the staged copy.
    OpenFailure,
    /// A required export is absent or has the wrong shape.
    EntryPointMissing(EntryPoint),
}

/// Which exports a symbol lookup in the opened module found.
#[derive(Clone, Copy, Debug, PartialEq, Eq, Structural)]
pub struct SymbolScan {
    pub setup: bool,
    pub update: bool,
    pub draw: bool,
    pub get_message: bool,
}

/// The optional exports a loaded module offers; `setup` and `update` are
/// always present in a loaded module.
#[derive(Clone, Copy, Debug, PartialEq, Eq, Structural)]
pub struct EntryPoints {
    pub draw: bool,
    pub get_message: bool,
}

/// The outcome of resolving the exports that `scan` found: the first
/// missing required export, in the order `setup`, `update`, is an error.
pub open spec fn resolution(scan: SymbolScan) -> Result<EntryPoints, LoadError> {
    if !scan.setup {
        Err(LoadError::EntryPointMissing(EntryPoint::Setup))
    } else if !scan.update {
        Err(LoadError::EntryPointMissing(EntryPoint::Update))
    } else {
        Ok(EntryPoints { draw: scan.draw, get_message: scan.get_message })
    }
}

/// Resolves the module's exports eagerly, so that a missing required one
/// fails the load instead of a later call.
pub fn resolve_entry_points(scan: SymbolScan) -> (r: Result<EntryPoints, LoadError>)
    ensures
        r == resolution(scan),
{
    if !scan.setup {
        Err(LoadError::EntryPointMissing(EntryPoint::Setup))
    } else if !scan.update {
        Err(LoadError::EntryPointMissing(EntryPoint::Update))
    } else {
        Ok(EntryPoints { draw: scan.draw, get_message: scan.get_message })
    }
}

/// A call the host makes into the active module.
#[derive(Clone, Copy, Debug, PartialEq, Eq, Structural)]
pub enum EntryCall {
    Setup,
    Update,
    Draw,
}

/// Where a module handle stands in its lifecycle.
#[derive(Clone, Copy, Debug, PartialEq, Eq, Structural)]
pub enum Lifecycle {
    /// Loaded; `setup` has not been called yet.
    Loaded,
    /// `setup` has been called; frames dispatch to the module.
    Running,
}

/// The calls one frame makes into a module in lifecycle state `phase`:
/// `setup` first on a fresh module, then `update`, then `draw` if the
/// module exports it.
pub open spec fn calls_for(phase: Lifecycle, has_draw: bool) -> Seq<EntryCall> {
    let frame = if has_draw {
        seq![EntryCall::Update, EntryCall::Draw]
    } else {
        seq![EntryCall::Update]
    };
    match phase {
        Lifecycle::Loaded => seq![EntryCall::Setup] + frame,
        Lifecycle::Running => frame,
    }
}

/// The calls a module handle receives over its first `frames` frames.
pub open spec fn lifetime_calls(has_draw: bool, frames: nat) -> Seq<EntryCall>
    decreases frames,
{
    if frames == 0 {
        Seq::empty()
    } else {
        let phase = if frames == 1 {
            Lifecycle::Loaded
        } else {
            Lifecycle::Running
        };
        lifetime_calls(has_draw, (frames - 1) as nat) + calls_for(phase, has_draw)
    }
}

/// A module handle receives `setup` exactly once over its lifetime, as its
/// very first call, so strictly before its first `update`.
pub proof fn lemma_setup_once_first(has_draw: bool, frames: nat)
    requires
        frames >= 1,
    ensures
        lifetime_calls(has_draw, frames)[0] == EntryCall::Setup,
        forall|i: int|
            0 < i < lifetime_calls(has_draw, frames).len() ==> #[trigger] lifetime_calls(
                has_draw,
                frames,
            )[i] != EntryCall::Setup,
    decreases frames,
{
    if frames == 1 {
        assert(lifetime_calls(has_draw, 0) =~= Seq::<EntryCall>::empty());
        assert(lifetime_calls(has_draw, 1) =~= calls_for(Lifecycle::Loaded, has_draw));
    } else {
        let prev = lifetime_calls(has_draw, (frames - 1) as nat);
        let frame = calls_for(Lifecycle::Running, has_draw);
        lemma_setup_once_first(has_draw, (frames - 1) as nat);
        assert(lifetime_calls(has_draw, frames) == prev + frame);
        assert forall|i: int| 0 < i < lifetime_calls(has_draw, frames).len() implies #[trigger] lifetime_calls(
            has_draw,
            frames,
        )[i] != EntryCall::Setup by {
            if i >= prev.len() {
                assert(frame[i - prev.len()] != EntryCall::Setup);
            }
        }
    }
}

/// The handle's state as the contracts see it.
pub struct HandleView<L> {
    pub library: L,
    pub entry_points: EntryPoints,
    pub phase: Lifecycle,
}

/// Owns one loaded module instance `L` and its resolved entry points.
///
/// Dropping the handle, or consuming it with `unload`, releases the module.
pub struct Application<L> {
    library: L,
    entry_points: EntryPoints,
    phase: Lifecycle,
}

impl<L> View for Application<L> {
    type V = HandleView<L>;

    closed spec fn view(&self) -> HandleView<L> {
        HandleView { library: self.library, entry_points: self.entry_points, phase: self.phase }
    }
}

impl<L> Application<L> {
    /// Wraps a freshly opened module whose exports were resolved.
    pub fn new(library: L, entry_points: EntryPoints) -> (r: Application<L>)
        ensures
            r@ == (HandleView { library, entry_points, phase: Lifecycle::Loaded }),
    {
        Application { library, entry_points, phase: Lifecycle::Loaded }
    }

    /// The loaded module instance.
    pub fn library(&self) -> (r: &L)
        ensures
            *r == self@.library,
    {
        &self.library
    }

    /// The optional exports the module offers.
    pub fn entry_points(&self) -> (r: EntryPoints)
        ensures
            r == self@.entry_points,
    {
        self.entry_points
    }

    /// Where the handle stands in its lifecycle.
    pub fn phase(&self) -> (r: Lifecycle)
        ensures
            r == self@.phase,
    {
        self.phase
    }

    /// The calls to make into the module this frame, in order; afterwards
    /// the module counts as set up.
    pub fn frame_calls(&mut self) -> (r: Vec<EntryCall>)
        ensures
            r@ == calls_for(old(self)@.phase, old(self)@.entry_points.draw),
            final(self)@ == (HandleView { phase: Lifecycle::Running, ..old(self)@ }),
    {
        let mut calls: Vec<EntryCall> = Vec::new();
        if self.phase == Lifecycle::Loaded {
            calls.push(EntryCall::Setup);
        }
        calls.push(EntryCall::Update);
        if self.entry_points.draw {
            calls.push(EntryCall::Draw);
        }
        self.phase = Lifecycle::Running;
        assert(calls@ =~= calls_for(old(self)@.phase, old(self)@.entry_points.draw));
        calls
    }

    /// Releases the handle, handing back the module instance to be closed.
    /// The handle cannot be used afterwards.
    pub fn unload(self) -> (r: L)
        ensures
            r == self@.library,
    {
        self.library
    }
}

} // verus!
