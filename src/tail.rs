//! The tailed file: the executable state machine.
use vstd::prelude::*;
use crate::meta::FileMeta;
use crate::model::{
    classify, initial, step, ActionView, Check, CycleView, EventView, TailError, TailView,
    THRESHOLD_MS,
};
use crate::text::from_utf8;

verus! {

/// What the host reports back.
#[derive(Debug)]
pub enum Event {
    /// The bytes read from the open handle, from the offset to its end.
    Read(Vec<u8>),
    /// The metadata of the open handle, and the host clock in milliseconds.
    Stat { meta: FileMeta, now: u64 },
    /// The metadata of a fresh open of the path.
    Probed(FileMeta),
    /// The fresh handle has replaced the open one.
    Adopted,
}

impl View for Event {
    type V = EventView;

    open spec fn view(&self) -> EventView {
        match self {
            Event::Read(data) => EventView::Read(data@),
            Event::Stat { meta, now } => EventView::Stat(*meta, *now),
            Event::Probed(meta) => EventView::Probed(*meta),
            Event::Adopted => EventView::Adopted,
        }
    }
}

/// What the host is asked to do next.
#[derive(Debug, PartialEq, Eq)]
pub enum Action {
    /// Nothing new was read: the cycle is over.
    Idle,
    /// Report the metadata of the open handle and the clock.
    Stat,
    /// Open the path afresh and report the metadata of that handle.
    Probe,
    /// Replace the open handle with the fresh one, dropping the old.
    Adopt,
    /// Write the text out: the cycle is over.
    Emit(String),
    /// The cycle failed.
    Fail(TailError),
}

impl View for Action {
    type V = ActionView;

    open spec fn view(&self) -> ActionView {
        match self {
            Action::Idle => ActionView::Idle,
            Action::Stat => ActionView::Stat,
            Action::Probe => ActionView::Probe,
            Action::Adopt => ActionView::Adopt,
            Action::Emit(text) => ActionView::Emit(text@),
            Action::Fail(e) => ActionView::Fail(*e),
        }
    }
}

enum Cycle {
    Ready,
    AwaitStat(Vec<u8>),
    AwaitProbe(Vec<u8>, u64),
    AwaitAdopt(Vec<u8>),
}

impl View for Cycle {
    type V = CycleView;

    closed spec fn view(&self) -> CycleView {
        match self {
            Cycle::Ready => CycleView::Ready,
            Cycle::AwaitStat(p) => CycleView::AwaitStat(p@),
            Cycle::AwaitProbe(p, now) => CycleView::AwaitProbe(p@, *now),
            Cycle::AwaitAdopt(p) => CycleView::AwaitAdopt(p@),
        }
    }
}

/// A file followed as it grows and as it is rotated.
pub struct TailedFile {
    path: String,
    delay: u64,
    meta: FileMeta,
    changed_at: u64,
    pos: u64,
    cycle: Cycle,
}

impl View for TailedFile {
    type V = TailView;

    closed spec fn view(&self) -> TailView {
        TailView {
            path: self.path@,
            delay: self.delay,
            meta: self.meta,
            changed_at: self.changed_at,
            pos: self.pos,
            cycle: self.cycle@,
        }
    }
}

impl TailedFile {
    /// Starts following `path`, whose handle was just opened with metadata
    /// `meta` at host time `now`: only what is appended from here on is read.
    pub fn new(path: String, meta: FileMeta, now: u64) -> (r: TailedFile)
        ensures
            r@ == initial(path@, meta, now),
            r@.wf(),
    {
        TailedFile { path, delay: 100, meta, changed_at: now, pos: meta.len, cycle: Cycle::Ready }
    }

    /// The path that is opened afresh to look for a rotation.
    pub fn path(&self) -> (r: &str)
        ensures
            r@ == self@.path,
    {
        self.path.as_str()
    }

    /// The byte position from which the host reads the open handle.
    pub fn offset(&self) -> (r: u64)
        ensures
            r == self@.pos,
    {
        self.pos
    }

    /// The pause between two poll cycles, in milliseconds.
    pub fn delay(&self) -> (r: u64)
        ensures
            r == self@.delay,
    {
        self.delay
    }

    pub fn set_delay(&mut self, d: u64)
        ensures
            final(self)@ == (TailView { delay: d, ..old(self)@ }),
    {
        self.delay = d;
    }

    /// Compares the metadata of the open handle with the stored snapshot.
    pub fn check_updates(&self, current: FileMeta, now: u64) -> (r: Check)
        ensures
            r == classify(self@.meta, self@.changed_at, current, now),
    {
        if current.len != self.meta.len && current.ino == self.meta.ino {
            Check::Updated
        } else if current.len == self.meta.len && now > self.changed_at
            && now - self.changed_at > THRESHOLD_MS {
            Check::Probe
        } else {
            Check::Unchanged
        }
    }

    fn finish(&mut self, pending: Vec<u8>) -> (r: Action)
        ensures
            (final(self)@, r@) == crate::model::finish(old(self)@, pending@),
    {
        self.cycle = Cycle::Ready;
        match from_utf8(pending) {
            Some(text) => Action::Emit(text),
            None => Action::Fail(TailError::Decode),
        }
    }

    /// Takes what the host reports and answers with what it must do next.
    pub fn follow(&mut self, event: Event) -> (r: Action)
        requires
            old(self)@.wf(),
        ensures
            (final(self)@, r@) == step(old(self)@, event@),
            final(self)@.wf(),
    {
        let mut cycle = Cycle::Ready;
        std::mem::swap(&mut cycle, &mut self.cycle);
        match (cycle, event) {
            (Cycle::Ready, Event::Read(data)) => {
                if data.len() == 0 {
                    Action::Idle
                } else {
                    self.cycle = Cycle::AwaitStat(data);
                    Action::Stat
                }
            },
            (Cycle::AwaitStat(pending), Event::Stat { meta, now }) => {
                match self.check_updates(meta, now) {
                    Check::Updated => {
                        self.meta = meta;
                        self.changed_at = now;
                        self.pos = meta.len;
                        self.finish(pending)
                    },
                    Check::Probe => {
                        self.cycle = Cycle::AwaitProbe(pending, now);
                        Action::Probe
                    },
                    Check::Unchanged => self.finish(pending),
                }
            },
            (Cycle::AwaitProbe(pending, now), Event::Probed(fresh)) => {
                if fresh.ino != self.meta.ino {
                    self.meta = fresh;
                    self.changed_at = now;
                    self.pos = 0;
                    self.cycle = Cycle::AwaitAdopt(pending);
                    Action::Adopt
                } else {
                    self.finish(pending)
                }
            },
            (Cycle::AwaitAdopt(pending), Event::Adopted) => self.finish(pending),
            (cycle, _) => {
                self.cycle = cycle;
                Action::Fail(TailError::OutOfTurn)
            },
        }
    }
}

} // verus!
