//! Platform dispatcher policy: one native backend is selected per target,
//! and any failure to initialize it (missing device, denied permission,
//! invalid handle) routes the whole read to the fallback terminal source
//! instead of surfacing an error — degraded functionality is preferred over
//! hard failure wherever a fallback path exists.

use vstd::prelude::*;

verus! {

/// Which source serves the read: the target's native backend, or the
/// portable terminal fallback.
#[derive(Clone, Copy, PartialEq, Eq, Structural, Debug)]
pub enum SourceChoice {
    Native,
    Fallback,
}

/// Decides the source from the native backend's initialization outcome: the
/// native backend exactly when it initialized, and the fallback otherwise,
/// with no caller-visible error from the failed native attempt.
pub fn select_source(native_ready: bool) -> (s: SourceChoice)
    ensures
        s == SourceChoice::Native <==> native_ready,
        s == SourceChoice::Fallback <==> !native_ready,
{
    if native_ready {
        SourceChoice::Native
    } else {
        SourceChoice::Fallback
    }
}

} // verus!
