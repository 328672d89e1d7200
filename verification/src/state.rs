use vstd::prelude::*;

verus! {

/// Byte size of the machine's full snapshot, validated for the host, which
/// requires a positive count: the engine-reported size is handed through
/// exactly when it is non-zero.
pub fn snapshot_size(reported: usize) -> (r: Option<usize>)
    ensures
        reported > 0 ==> r == Some(reported),
        reported == 0 ==> r is None,
{
    if reported > 0 {
        Some(reported)
    } else {
        None
    }
}

/// State restoration is all-or-nothing: a machine the engine reconstructed
/// from a snapshot replaces the session's machine wholesale, and a failed
/// reconstruction leaves the previous machine untouched — no torn state is
/// ever exposed. Returns the machine to keep and whether a restore happened.
pub fn apply_restore<M>(current: M, restored: Option<M>) -> (r: (M, bool))
    ensures
        restored is Some ==> r.1 && r.0 == restored.unwrap(),
        restored is None ==> !r.1 && r.0 == current,
{
    match restored {
        Some(machine) => (machine, true),
        None => (current, false),
    }
}

} // verus!
