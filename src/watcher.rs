//! Change detection on the build artifact.
use vstd::prelude::*;

verus! {

/// A file modification time, in nanoseconds since the Unix epoch.
#[derive(Clone, Copy, Debug, PartialEq, Eq, Structural)]
pub struct Timestamp(pub u128);

impl Timestamp {
    /// Whether `self` is strictly later than `other`.
    pub fn is_newer_than(&self, other: &Timestamp) -> (r: bool)
        ensures
            r == (self.0 > other.0),
    {
        self.0 > other.0
    }
}

/// Whether an artifact whose modification time is `modified` is newer
/// than the one behind the active module (`last_observed`).
///
/// With no module loaded yet, any artifact present counts as new.
pub open spec fn is_new_artifact(modified: Option<Timestamp>, last_observed: Option<Timestamp>) -> bool {
    match modified {
        None => false,
        Some(m) => match last_observed {
            None => true,
            Some(l) => m.0 > l.0,
        },
    }
}

/// Reports whether a reload is due: the artifact exists and was modified
/// strictly after `last_observed`. A missing artifact (`None`) never
/// counts as new.
pub fn should_reload(modified: Option<Timestamp>, last_observed: Option<Timestamp>) -> (r: bool)
    ensures
        r == is_new_artifact(modified, last_observed),
{
    match modified {
        None => false,
        Some(m) => match last_observed {
            None => true,
            Some(l) => m.is_newer_than(&l),
        },
    }
}

} // verus!
