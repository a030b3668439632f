use vstd::prelude::*;

verus! {

/// Number of file notifications that one atomic save (write of the temporary
/// file, then rename over the target) is expected to produce. Each save arms
/// the watcher to discard this many notifications as its own echo.
pub const ECHO_EVENTS_PER_SAVE: usize = 2;

/// The kind of a notification about the watched file.
#[derive(Clone, Copy, Debug, PartialEq, Eq, Structural)]
pub enum FsEventKind {
    /// The file was created, for example by a rename completing over it.
    Create,
    /// The file's contents changed.
    Modify,
    /// Access, metadata-only or other notifications.
    Other,
}

/// What the watcher does with one notification: the new count of echoes still
/// to discard, and whether the store must reload before its next operation.
#[derive(Clone, Copy, Debug, PartialEq, Eq, Structural)]
pub struct WatchStep {
    pub echoes_left: usize,
    pub mark_reload: bool,
}

pub open spec fn changes_content(kind: FsEventKind) -> bool {
    kind is Create || kind is Modify
}

/// A content notification is discarded as an echo while echoes are pending
/// (using one up), and flags a reload otherwise; other kinds are ignored.
pub open spec fn watch_step(echoes_pending: usize, kind: FsEventKind) -> WatchStep {
    if !changes_content(kind) {
        WatchStep { echoes_left: echoes_pending, mark_reload: false }
    } else if echoes_pending > 0 {
        WatchStep { echoes_left: (echoes_pending - 1) as usize, mark_reload: false }
    } else {
        WatchStep { echoes_left: 0, mark_reload: true }
    }
}

/// Handles one notification about the watched file, given the number of
/// echoes of the store's own saves still to discard.
pub fn on_fs_event(echoes_pending: usize, kind: FsEventKind) -> (r: WatchStep)
    ensures
        r == watch_step(echoes_pending, kind),
{
    match kind {
        FsEventKind::Create | FsEventKind::Modify => {
            if echoes_pending > 0 {
                WatchStep { echoes_left: echoes_pending.saturating_sub(1), mark_reload: false }
            } else {
                WatchStep { echoes_left: 0, mark_reload: true }
            }
        },
        FsEventKind::Other => WatchStep { echoes_left: echoes_pending, mark_reload: false },
    }
}

/// Echoes pending after the watcher has handled `kinds` in order, starting
/// from `echoes_pending`.
pub open spec fn echoes_after(echoes_pending: usize, kinds: Seq<FsEventKind>) -> usize
    decreases kinds.len(),
{
    if kinds.len() == 0 {
        echoes_pending
    } else {
        watch_step(echoes_after(echoes_pending, kinds.drop_last()), kinds.last()).echoes_left
    }
}

/// Whether any of `kinds`, handled in order from `echoes_pending`, flags a reload.
pub open spec fn reload_flagged(echoes_pending: usize, kinds: Seq<FsEventKind>) -> bool
    decreases kinds.len(),
{
    if kinds.len() == 0 {
        false
    } else {
        reload_flagged(echoes_pending, kinds.drop_last())
            || watch_step(echoes_after(echoes_pending, kinds.drop_last()), kinds.last()).mark_reload
    }
}

} // verus!
