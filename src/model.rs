//! The mathematical model of the tail state machine.
use vstd::prelude::*;
use vstd::utf8::{decode_utf8, valid_utf8};
use crate::meta::FileMeta;

verus! {

/// How long, in milliseconds, a file's size must have stood still before the
/// path is opened afresh to look for a rotation.
pub const THRESHOLD_MS: u64 = 5000;

/// Why a poll cycle failed.
#[derive(Clone, Copy, Debug, PartialEq, Eq, Structural)]
pub enum TailError {
    /// The bytes read are not valid UTF-8 text.
    Decode,
    /// The event reported is not the one the machine was waiting for.
    OutOfTurn,
}

/// What the comparison of a fresh metadata probe with the stored one decides.
#[derive(Clone, Copy, Debug, PartialEq, Eq, Structural)]
pub enum Check {
    /// Same file instance, other size: the file grew (or shrank).
    Updated,
    /// Size unchanged for longer than the threshold: open the path afresh.
    Probe,
    /// Nothing to do.
    Unchanged,
}

/// Where a poll cycle stands, with the bytes read in it.
pub enum CycleView {
    Ready,
    AwaitStat(Seq<u8>),
    AwaitProbe(Seq<u8>, u64),
    AwaitAdopt(Seq<u8>),
}

/// The model of an [`Event`](crate::tail::Event).
pub enum EventView {
    Read(Seq<u8>),
    Stat(FileMeta, u64),
    Probed(FileMeta),
    Adopted,
}

/// The model of an [`Action`](crate::tail::Action).
pub enum ActionView {
    Idle,
    Stat,
    Probe,
    Adopt,
    Emit(Seq<char>),
    Fail(TailError),
}

/// The abstract state of a tailed file.
pub struct TailView {
    pub path: Seq<char>,
    pub delay: u64,
    /// Metadata of the handle currently open, as last observed.
    pub meta: FileMeta,
    /// Host clock (milliseconds) of the last observed change.
    pub changed_at: u64,
    /// Next byte position to read from.
    pub pos: u64,
    pub cycle: CycleView,
}

impl TailView {
    pub open spec fn wf(self) -> bool {
        self.pos <= self.meta.len
    }

    pub open spec fn is_ready(self) -> bool {
        self.cycle is Ready
    }
}

/// The bytes held by a cycle in progress.
pub open spec fn pending(c: CycleView) -> Option<Seq<u8>> {
    match c {
        CycleView::Ready => None,
        CycleView::AwaitStat(p) => Some(p),
        CycleView::AwaitProbe(p, _) => Some(p),
        CycleView::AwaitAdopt(p) => Some(p),
    }
}

/// The state right after opening: reading starts at the current end.
pub open spec fn initial(path: Seq<char>, meta: FileMeta, now: u64) -> TailView {
    TailView { path, delay: 100, meta, changed_at: now, pos: meta.len, cycle: CycleView::Ready }
}

/// Classifies the metadata of the open handle against the stored snapshot.
pub open spec fn classify(stored: FileMeta, changed_at: u64, current: FileMeta, now: u64) -> Check {
    if current.len != stored.len && current.ino == stored.ino {
        Check::Updated
    } else if current.len == stored.len && now > changed_at + THRESHOLD_MS {
        Check::Probe
    } else {
        Check::Unchanged
    }
}

/// Ends a cycle: the bytes read are written out as text, or the cycle fails.
pub open spec fn finish(s: TailView, pending: Seq<u8>) -> (TailView, ActionView) {
    let done = TailView { cycle: CycleView::Ready, ..s };
    if valid_utf8(pending) {
        (done, ActionView::Emit(decode_utf8(pending)))
    } else {
        (done, ActionView::Fail(TailError::Decode))
    }
}

/// One step of the machine: the next state and the action the host performs.
pub open spec fn step(s: TailView, e: EventView) -> (TailView, ActionView) {
    match (s.cycle, e) {
        (CycleView::Ready, EventView::Read(data)) => {
            if data.len() == 0 {
                (s, ActionView::Idle)
            } else {
                (TailView { cycle: CycleView::AwaitStat(data), ..s }, ActionView::Stat)
            }
        },
        (CycleView::AwaitStat(pending), EventView::Stat(current, now)) => {
            match classify(s.meta, s.changed_at, current, now) {
                Check::Updated => finish(
                    TailView { meta: current, changed_at: now, pos: current.len, ..s },
                    pending,
                ),
                Check::Probe => (
                    TailView { cycle: CycleView::AwaitProbe(pending, now), ..s },
                    ActionView::Probe,
                ),
                Check::Unchanged => finish(s, pending),
            }
        },
        (CycleView::AwaitProbe(pending, now), EventView::Probed(fresh)) => {
            if fresh.ino != s.meta.ino {
                (
                    TailView {
                        meta: fresh,
                        changed_at: now,
                        pos: 0,
                        cycle: CycleView::AwaitAdopt(pending),
                        ..s
                    },
                    ActionView::Adopt,
                )
            } else {
                finish(s, pending)
            }
        },
        (CycleView::AwaitAdopt(pending), EventView::Adopted) => finish(s, pending),
        _ => (s, ActionView::Fail(TailError::OutOfTurn)),
    }
}

} // verus!
