//! Properties of the tail state machine over whole poll cycles.
use vstd::prelude::*;
use vstd::utf8::{decode_utf8_encode_utf8, encode_utf8, valid_utf8};
use crate::meta::FileMeta;
use crate::model::{
    classify, initial, pending, step, ActionView, Check, CycleView, EventView, TailError,
    TailView, THRESHOLD_MS,
};

verus! {

/// Appending text to the file instance that was open at construction: the
/// next cycle reads exactly the appended bytes, writes them out once as text,
/// and moves the offset to the new end, so that the cycle after reads nothing.
pub proof fn lemma_append_growth(
    path: Seq<char>,
    contents: Seq<u8>,
    ino: u64,
    t0: u64,
    appended: Seq<u8>,
    now: u64,
)
    requires
        appended.len() > 0,
        valid_utf8(appended),
        contents.len() + appended.len() <= u64::MAX,
    ensures
        ({
            let s0 = initial(path, FileMeta { len: contents.len() as u64, ino }, t0);
            let grown = contents + appended;
            let read1 = grown.subrange(s0.pos as int, grown.len() as int);
            let (s1, a1) = step(s0, EventView::Read(read1));
            let (s2, a2) = step(s1, EventView::Stat(FileMeta { len: grown.len() as u64, ino }, now));
            let read2 = grown.subrange(s2.pos as int, grown.len() as int);
            &&& read1 == appended
            &&& a1 == ActionView::Stat
            &&& a2 matches ActionView::Emit(text) && encode_utf8(text) == appended
            &&& s2.pos == contents.len() + appended.len()
            &&& s2.is_ready()
            &&& read2.len() == 0
            &&& step(s2, EventView::Read(read2)) == (s2, ActionView::Idle)
        }),
{
    let grown = contents + appended;
    assert(grown.subrange(contents.len() as int, grown.len() as int) =~= appended);
    decode_utf8_encode_utf8(appended);
}

/// With no change to the metadata, a cycle changes nothing, however long the
/// file has been quiet: an empty read ends the cycle at once, and a cycle that
/// did read something keeps size, identity, change time and offset, whether or
/// not the path is opened afresh.
pub proof fn lemma_quiescence(s: TailView, data: Seq<u8>, now: u64, fresh: FileMeta)
    requires
        s.is_ready(),
        fresh.ino == s.meta.ino,
    ensures
        step(s, EventView::Read(Seq::empty())) == (s, ActionView::Idle),
        classify(s.meta, s.changed_at, s.meta, now) != Check::Updated,
        data.len() > 0 ==> ({
            let (s1, _) = step(s, EventView::Read(data));
            let (s2, a2) = step(s1, EventView::Stat(s.meta, now));
            let (s3, _) = if a2 == ActionView::Probe {
                step(s2, EventView::Probed(fresh))
            } else {
                (s2, a2)
            };
            &&& s3.is_ready()
            &&& s3 == (TailView { cycle: CycleView::Ready, ..s })
        }),
{
}

/// A size that stood still past the threshold, with the path now naming
/// another file instance: the cycle asks to adopt the fresh handle, and the
/// offset goes back to 0, so that the next read starts at its beginning.
pub proof fn lemma_rotation(s: TailView, data: Seq<u8>, current: FileMeta, now: u64, fresh: FileMeta)
    requires
        s.is_ready(),
        data.len() > 0,
        current.len == s.meta.len,
        now > s.changed_at + THRESHOLD_MS,
        fresh.ino != s.meta.ino,
    ensures
        ({
            let (s1, a1) = step(s, EventView::Read(data));
            let (s2, a2) = step(s1, EventView::Stat(current, now));
            let (s3, a3) = step(s2, EventView::Probed(fresh));
            let (s4, _) = step(s3, EventView::Adopted);
            &&& a1 == ActionView::Stat
            &&& a2 == ActionView::Probe
            &&& a3 == ActionView::Adopt
            &&& s4.is_ready()
            &&& s4.meta == fresh
            &&& s4.changed_at == now
            &&& s4.pos == 0
        }),
{
}

/// The path is opened afresh only when the size stood still for longer than
/// the threshold, and a handle is adopted only after that: a change of size
/// within the threshold can never be taken for a rotation.
pub proof fn lemma_rotation_needs_quiescence(s: TailView, e: EventView)
    ensures
        step(s, e).1 == ActionView::Probe ==> (e matches EventView::Stat(current, now)
            && current.len == s.meta.len && now > s.changed_at + THRESHOLD_MS),
        step(s, e).1 == ActionView::Adopt ==> s.cycle is AwaitProbe,
        step(s, e).0.pos != s.pos ==> (step(s, e).1 == ActionView::Adopt || (e matches EventView::Stat(current, _)
            && current.ino == s.meta.ino && current.len != s.meta.len)),
{
}

/// The event reports, during a cycle, the open file instance shorter than it was.
pub open spec fn truncation(s: TailView, e: EventView) -> bool {
    &&& s.cycle is AwaitStat
    &&& e matches EventView::Stat(current, _)
    &&& current.ino == s.meta.ino
    &&& current.len < s.meta.len
}

/// The offset never decreases within one file instance; it goes back to 0
/// only when a fresh handle is adopted. (A file truncated in place, where the
/// offset follows the smaller size, is left out.)
pub proof fn lemma_offset_monotonic(s: TailView, e: EventView)
    requires
        s.wf(),
        !truncation(s, e),
    ensures
        step(s, e).0.wf(),
        step(s, e).1 == ActionView::Adopt ==> step(s, e).0.pos == 0,
        step(s, e).1 != ActionView::Adopt ==> step(s, e).0.pos >= s.pos,
{
}

/// Bytes that are not UTF-8 doom the cycle that read them: it never writes
/// them out, it holds them until it ends, and it can only end by failing.
pub proof fn lemma_decode_failure_fatal(s: TailView, e: EventView)
    requires
        pending(s.cycle) matches Some(p) && !valid_utf8(p),
    ensures
        step(s, e).1 !is Emit,
        step(s, e).0.is_ready() ==> step(s, e).1 == ActionView::Fail(TailError::Decode),
        !step(s, e).0.is_ready() ==> pending(step(s, e).0.cycle) == pending(s.cycle),
{
}

/// Reading nothing, as often as it happens, changes nothing and writes nothing.
pub proof fn lemma_empty_read_idempotent(s: TailView)
    requires
        s.is_ready(),
    ensures
        step(s, EventView::Read(Seq::empty())) == (s, ActionView::Idle),
        step(step(s, EventView::Read(Seq::empty())).0, EventView::Read(Seq::empty()))
            == (s, ActionView::Idle),
{
}

/// Invalid bytes read start a cycle that holds them.
pub proof fn lemma_invalid_read_is_held(s: TailView, data: Seq<u8>)
    requires
        s.is_ready(),
        data.len() > 0,
        !valid_utf8(data),
    ensures
        pending(step(s, EventView::Read(data)).0.cycle) == Some(data),
{
}

} // verus!
