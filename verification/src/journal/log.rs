//! The computing half of a folded undo log: the history its payloads fold
//! to, the payload one record appends, and the payloads a compaction writes.
//! Reading and writing the file is the host's.

use vstd::prelude::*;

use crate::journal::compact::lemma_snapshot_round_trip;
use crate::journal::undo::{
    lemma_record_round_trip, record_bytes, record_fits, records_view, spec_apply, spec_decode, spec_fresh,
    spec_snapshot, tree_wf, History, HistoryView, Record, RecordView,
};
use crate::journal::{should_compact, DecodeError, Encoder, Error, FoldError, Folded};

verus! {

/// Why folding a log's payloads stopped.
pub enum LogFailure {
    /// A payload did not decode.
    Decode(DecodeError),
    /// A record decoded and the fold refused it.
    Fold(FoldError),
}

/// Folding payloads one after another: each must decode, and each decoded
/// record must fit; the first that does not stops the fold.
pub open spec fn spec_restore(h: HistoryView, payloads: Seq<Seq<u8>>) -> Result<HistoryView, LogFailure>
    decreases payloads.len(),
{
    if payloads.len() == 0 {
        Ok(h)
    } else {
        match spec_restore(h, payloads.drop_last()) {
            Err(e) => Err(e),
            Ok(g) => match spec_decode(payloads.last()) {
                Err(d) => Err(LogFailure::Decode(d)),
                Ok(r) => match spec_apply(g, r) {
                    Err(f) => Err(LogFailure::Fold(f)),
                    Ok(g2) => Ok(g2),
                },
            },
        }
    }
}

/// The payloads as values.
pub open spec fn payloads_view(payloads: Seq<Vec<u8>>) -> Seq<Seq<u8>> {
    payloads.map_values(|p: Vec<u8>| p@)
}

/// The history a log's intact payloads fold to, read from a fresh one; a
/// payload that does not decode, or a record the fold refuses, is an error
/// naming the file.
pub fn restore(path: &str, payloads: &Vec<Vec<u8>>) -> (r: Result<History, Error>)
    ensures
        match spec_restore(spec_fresh(), payloads_view(payloads@)) {
            Ok(v) => r matches Ok(h) && h@ == v,
            Err(LogFailure::Decode(d)) => r matches Err(Error::Decode { path: p, source }) && p@ == path@ && source == d,
            Err(LogFailure::Fold(f)) => r matches Err(Error::Fold { path: p, source }) && p@ == path@ && source == f,
        },
{
    let mut state = History::new();
    let ghost all = payloads_view(payloads@);
    assert(all.take(0) =~= Seq::<Seq<u8>>::empty());
    let mut i: usize = 0;
    while i < payloads.len()
        invariant
            i <= payloads@.len(),
            all == payloads_view(payloads@),
            spec_restore(spec_fresh(), all.take(i as int)) == Ok::<HistoryView, LogFailure>(state@),
            state.inv(),
        decreases payloads.len() - i,
    {
        assert(all.take(i + 1).drop_last() =~= all.take(i as int));
        assert(all.take(i + 1).last() == payloads@[i as int]@);
        let record = match History::decode(payloads[i].as_slice()) {
            Ok(record) => record,
            Err(source) => {
                proof {
                    lemma_restore_stops(spec_fresh(), all, i as int + 1);
                }
                return Err(Error::Decode { path: String::from_str(path), source });
            },
        };
        match state.apply(record) {
            Ok(()) => {},
            Err(source) => {
                proof {
                    lemma_restore_stops(spec_fresh(), all, i as int + 1);
                }
                return Err(Error::Fold { path: String::from_str(path), source });
            },
        }
        i = i + 1;
    }
    assert(all.take(i as int) =~= all);
    Ok(state)
}

/// Once a fold stops, it stays stopped with the same failure.
proof fn lemma_restore_stops(h: HistoryView, all: Seq<Seq<u8>>, k: int)
    requires
        0 <= k <= all.len(),
        spec_restore(h, all.take(k)) is Err,
    ensures
        spec_restore(h, all) == spec_restore(h, all.take(k)),
    decreases all.len() - k,
{
    if k < all.len() {
        assert(all.take(k + 1).drop_last() =~= all.take(k));
        lemma_restore_stops(h, all, k + 1);
    } else {
        assert(all.take(k) =~= all);
    }
}

/// The payload one record is written as.
pub fn payload(record: &Record) -> (r: Vec<u8>)
    ensures
        r@ == record_bytes(record@),
{
    let mut out = Encoder::new();
    History::encode(record, &mut out);
    out.finish()
}

/// Applies `record` to the history and answers the payload to append: a
/// record the history refuses changes nothing and is never written.
pub fn apply_then_payload(history: &mut History, record: Record, path: &str) -> (r: Result<Vec<u8>, Error>)
    requires
        tree_wf(old(history)@),
    ensures
        tree_wf(final(history)@),
        match spec_apply(old(history)@, record@) {
            Ok(g) => r matches Ok(b) && b@ == record_bytes(record@) && final(history)@ == g,
            Err(e) => r matches Err(Error::Fold { path: p, source }) && p@ == path@ && source == e
                && final(history)@ == old(history)@,
        },
{
    let bytes = payload(&record);
    proof {
        crate::journal::undo::lemma_apply_wf(history@, record@);
    }
    match history.apply(record) {
        Ok(()) => Ok(bytes),
        Err(source) => Err(Error::Fold { path: String::from_str(path), source }),
    }
}

/// The payloads a compaction writes: each record of the history's snapshot.
pub fn compaction(history: &History) -> (r: Vec<Vec<u8>>)
    ensures
        payloads_view(r@) == spec_snapshot(history@).map_values(|rec: RecordView| record_bytes(rec)),
{
    let records = history.snapshot();
    let ghost rs = records_view(records@);
    let mut out: Vec<Vec<u8>> = Vec::new();
    let mut i: usize = 0;
    while i < records.len()
        invariant
            i <= records@.len(),
            rs == records_view(records@),
            rs == spec_snapshot(history@),
            out@.len() == i,
            payloads_view(out@) == rs.take(i as int).map_values(|rec: RecordView| record_bytes(rec)),
        decreases records.len() - i,
    {
        let p = payload(&records[i]);
        assert(p@ == record_bytes(rs[i as int]));
        let ghost before = out@;
        out.push(p);
        assert forall|k: int| 0 <= k <= i implies payloads_view(out@)[k] == record_bytes(rs[k]) by {
            if k < i {
                assert(out@[k] == before[k]);
                assert(payloads_view(before)[k] == rs.take(i as int).map_values(|rec: RecordView| record_bytes(rec))[k]);
            }
        }
        i = i + 1;
        assert(payloads_view(out@) =~= rs.take(i as int).map_values(|rec: RecordView| record_bytes(rec)));
    }
    assert(rs.take(i as int) =~= rs);
    out
}

/// Whether a log holding `records` should be compacted, given what the last
/// snapshot held.
pub fn compact_due(records: u64, compacted_at: u64) -> (r: bool)
    ensures
        r == (records >= crate::journal::COMPACT_FLOOR && records >= 2 * (if compacted_at >= 1 { compacted_at as int } else { 1 })),
{
    should_compact(records, compacted_at)
}

proof fn lemma_restore_records(h: HistoryView, records: Seq<RecordView>)
    requires
        forall|i: int| 0 <= i < records.len() ==> record_fits(#[trigger] records[i]),
    ensures
        spec_restore(h, records.map_values(|rec: RecordView| record_bytes(rec))) == match crate::journal::undo::spec_fold(h, records) {
            Ok(g) => Ok::<HistoryView, LogFailure>(g),
            Err(f) => Err(LogFailure::Fold(f)),
        },
    decreases records.len(),
{
    let bytes = records.map_values(|rec: RecordView| record_bytes(rec));
    if records.len() > 0 {
        lemma_restore_records(h, records.drop_last());
        assert(bytes.drop_last() =~= records.drop_last().map_values(|rec: RecordView| record_bytes(rec)));
        lemma_record_round_trip(records.last());
    }
}

/// Compacting and reopening keeps the history: the payloads a compaction
/// writes fold, from a fresh log, back to the history they were taken from,
/// whenever every record of its snapshot fits the codec.
pub proof fn lemma_compaction_reopens(h: HistoryView)
    requires
        tree_wf(h),
        h.nodes.len() < u64::MAX,
        forall|i: int| 0 <= i < spec_snapshot(h).len() ==> record_fits(#[trigger] spec_snapshot(h)[i]),
    ensures
        spec_restore(spec_fresh(), spec_snapshot(h).map_values(|rec: RecordView| record_bytes(rec)))
            == Ok::<HistoryView, LogFailure>(h),
{
    lemma_snapshot_round_trip(h);
    lemma_restore_records(spec_fresh(), spec_snapshot(h));
}

} // verus!
