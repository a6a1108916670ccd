use vstd::prelude::*;

verus! {

/// Events the engine delivers to its controller.
///
/// `Position` is rate-limited: one report roughly every
/// [`crate::timing::REPORT_INTERVAL_MS`] milliseconds of played audio, and
/// a report is silently skipped when the channel is momentarily full.
/// `EndOfFile` is delivered exactly once per stream, when the play-head
/// reaches the total sample count recorded at the end of decoding.
#[derive(Debug)]
pub enum PlaybackEvent {
    Position { path: String, position_ms: u64 },
    EndOfFile,
}

/// Ghost record of one delivered event. The decoder source keeps a ghost
/// sequence of these, so that contracts can state which events a call
/// delivered and in which order.
pub enum EventRecord {
    Position { millis: u64 },
    EndOfFile,
}

pub open spec fn is_eof_record(e: EventRecord) -> bool {
    e matches EventRecord::EndOfFile
}

/// How many end-of-file records a log holds.
pub open spec fn eof_count(log: Seq<EventRecord>) -> int
    decreases log.len(),
{
    if log.len() == 0 {
        0
    } else {
        eof_count(log.drop_last()) + if is_eof_record(log.last()) {
            1int
        } else {
            0int
        }
    }
}

/// True when every end-of-file record sits at the very end of the log:
/// nothing is ever delivered after the stream has been reported over.
pub open spec fn eof_is_last(log: Seq<EventRecord>) -> bool {
    forall|i: int| 0 <= i < log.len() - 1 ==> !is_eof_record(#[trigger] log[i])
}

pub proof fn lemma_eof_count_push(log: Seq<EventRecord>, e: EventRecord)
    ensures
        eof_count(log.push(e)) == eof_count(log) + if is_eof_record(e) {
            1int
        } else {
            0int
        },
{
    assert(log.push(e).drop_last() =~= log);
    assert(log.push(e).last() == e);
    assert(log.push(e).len() == log.len() + 1);
}

pub proof fn lemma_eof_count_nonneg(log: Seq<EventRecord>)
    ensures
        eof_count(log) >= 0,
    decreases log.len(),
{
    if log.len() > 0 {
        lemma_eof_count_nonneg(log.drop_last());
    }
}

/// A log without an end-of-file record is exactly one whose count is zero.
pub proof fn lemma_eof_count_zero(log: Seq<EventRecord>)
    ensures
        (eof_count(log) == 0) <==> (forall|i: int|
            0 <= i < log.len() ==> !is_eof_record(#[trigger] log[i])),
    decreases log.len(),
{
    if log.len() > 0 {
        lemma_eof_count_zero(log.drop_last());
        lemma_eof_count_nonneg(log.drop_last());
        assert(forall|i: int|
            0 <= i < log.len() - 1 ==> log.drop_last()[i] == #[trigger] log[i]);
        assert(log.last() == log[log.len() - 1]);
    }
}

} // verus!
