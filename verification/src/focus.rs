//! Remembers the foreign window that had input focus, so that focus can be
//! handed back to it after the application took it away for a moment.

use vstd::prelude::*;
use crate::platform::Platform;

verus! {

/// The single slot that holds the handle of the last foreign window that
/// was in the foreground. A new capture overwrites the handle; a restore
/// reads it and leaves it in place. An empty slot is an ordinary state.
pub struct LastWindow {
    handle: Option<isize>,
}

impl View for LastWindow {
    type V = Option<isize>;

    closed spec fn view(&self) -> Option<isize> {
        self.handle
    }
}

impl LastWindow {
    /// The empty slot that the process starts with.
    pub fn new() -> (slot: LastWindow)
        ensures
            slot@ is None,
    {
        LastWindow { handle: None }
    }

    /// The handle in the slot, if there is one.
    pub fn handle(&self) -> (handle: Option<isize>)
        ensures
            handle == self@,
    {
        self.handle
    }
}

/// A raw handle names a window unless it is null.
pub open spec fn names_window(foreground: isize) -> bool {
    foreground != 0
}

/// The slot after a capture that read `foreground` from the system: a
/// handle that names a window replaces what the slot held, a null handle
/// leaves the slot as it was.
pub open spec fn captured(held: Option<isize>, foreground: isize) -> Option<isize> {
    if names_window(foreground) {
        Some(foreground)
    } else {
        held
    }
}

/// The slot after a capture on `platform`.
pub open spec fn stored(platform: Platform, held: Option<isize>, foreground: isize) -> Option<
    isize,
> {
    if platform.has_foreground_window() {
        captured(held, foreground)
    } else {
        held
    }
}

/// The window that a restore on `platform` hands the foreground to.
pub open spec fn refocus_target(platform: Platform, held: Option<isize>) -> Option<isize> {
    if platform.has_foreground_window() {
        held
    } else {
        None
    }
}

/// Captures the foreground window. `foreground` is the raw handle that the
/// system reported for its foreground window, null if it has none. On a
/// platform without a foreground window the call changes nothing. Returns
/// whether the handle was stored.
pub fn store_last_focused_window(
    slot: &mut LastWindow,
    platform: Platform,
    foreground: isize,
) -> (kept: bool)
    ensures
        final(slot)@ == stored(platform, old(slot)@, foreground),
        kept == (platform.has_foreground_window() && names_window(foreground)),
{
    if platform.tracks_foreground() {
        windows_store_last_focused_window(slot, foreground)
    } else {
        false
    }
}

/// The capture where the system has a foreground window. Returns whether
/// the handle was stored.
pub fn windows_store_last_focused_window(slot: &mut LastWindow, foreground: isize) -> (kept:
    bool)
    ensures
        final(slot)@ == captured(old(slot)@, foreground),
        kept == names_window(foreground),
{
    if foreground != 0 {
        slot.handle = Some(foreground);
        true
    } else {
        false
    }
}

/// Restores the foreground: returns the handle of the window that the host
/// has to make the foreground window, or `None` where there is nothing to
/// do, which is the case while the slot is empty and on a platform without
/// a foreground window. The slot keeps its handle.
pub fn refocus_last_window(slot: &LastWindow, platform: Platform) -> (target: Option<isize>)
    ensures
        target == refocus_target(platform, slot@),
{
    if platform.tracks_foreground() {
        windows_refocus_last_window(slot)
    } else {
        None
    }
}

/// The restore where the system has a foreground window.
pub fn windows_refocus_last_window(slot: &LastWindow) -> (target: Option<isize>)
    ensures
        target == slot@,
{
    match slot.handle {
        Some(handle) => Some(handle),
        None => None,
    }
}

/// A capture followed by a restore, with no capture in between, targets the
/// window that was in the foreground at the time of the capture, whatever
/// the slot held before. This is stated where the system has a foreground
/// window and reported one.
pub proof fn lemma_restore_targets_captured(
    platform: Platform,
    held: Option<isize>,
    foreground: isize,
)
    requires
        platform.has_foreground_window(),
        names_window(foreground),
    ensures
        refocus_target(platform, stored(platform, held, foreground)) == Some(foreground),
{
}

/// A restore without an earlier capture has no target, on every platform.
pub proof fn lemma_restore_without_capture(platform: Platform)
    ensures
        refocus_target(platform, None) is None,
{
}

/// Only the latest capture counts: the slot has no history.
pub proof fn lemma_capture_overwrites(
    platform: Platform,
    held: Option<isize>,
    first: isize,
    second: isize,
)
    requires
        names_window(second),
    ensures
        stored(platform, stored(platform, held, first), second) == stored(platform, held, second),
{
}

/// Where the platform has no foreground window, neither operation does
/// anything.
pub proof fn lemma_no_foreground_no_effect(
    platform: Platform,
    held: Option<isize>,
    foreground: isize,
)
    requires
        !platform.has_foreground_window(),
    ensures
        stored(platform, held, foreground) == held,
        refocus_target(platform, held) is None,
{
}

} // verus!
