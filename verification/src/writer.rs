//! The append-only record file: how lines are numbered, bounded and named.

use vstd::prelude::*;
use vstd::string::StringExecFns;
use crate::types::OpenError;

verus! {

/// A serialized record must stay below this many bytes to be persisted.
pub const MAX_RECORD_BYTES: usize = 262144;

/// Sequence numbers of one record file: they start at 1 and advance only when
/// a record was actually written.
pub struct RecordSequence {
    next_sequence: u64,
    committed: Ghost<Seq<u64>>,
}

impl RecordSequence {
    pub closed spec fn next(&self) -> u64 {
        self.next_sequence
    }

    /// The numbers of the records written so far, in order.
    pub closed spec fn committed(&self) -> Seq<u64> {
        self.committed@
    }

    pub closed spec fn wf(&self) -> bool {
        &&& self.next_sequence == self.committed@.len() + 1
        &&& forall|i: int| 0 <= i < self.committed@.len() ==> #[trigger] self.committed@[i] == i + 1
    }

    /// A fresh file's numbering.
    pub fn new() -> (sequence: RecordSequence)
        ensures
            sequence.wf(),
            sequence.next() == 1,
            sequence.committed() == Seq::<u64>::empty(),
    {
        RecordSequence { next_sequence: 1, committed: Ghost(Seq::empty()) }
    }

    /// The number the next record gets, unless numbering is exhausted.
    pub fn reserve(&self) -> (sequence: Result<u64, OpenError>)
        ensures
            self.next() < u64::MAX ==> sequence == Ok::<u64, OpenError>(self.next()),
            self.next() == u64::MAX ==> sequence == Err::<u64, OpenError>(OpenError),
    {
        if self.next_sequence < u64::MAX {
            Ok(self.next_sequence)
        } else {
            Err(OpenError::unavailable())
        }
    }

    /// Records that the reserved number was written.
    pub fn commit(&mut self)
        requires
            old(self).wf(),
            old(self).next() < u64::MAX,
        ensures
            final(self).wf(),
            final(self).next() == old(self).next() + 1,
            final(self).committed() == old(self).committed().push(old(self).next()),
    {
        self.next_sequence = self.next_sequence + 1;
        self.committed = Ghost(self.committed@.push((self.next_sequence - 1) as u64));
    }
}

/// However many records were written, in whatever order appends failed in
/// between, the written records are numbered 1, 2, ..., k without gaps, and
/// the next record gets k + 1.
pub proof fn lemma_written_records_are_numbered_consecutively(sequence: RecordSequence)
    requires
        sequence.wf(),
    ensures
        forall|i: int| 0 <= i < sequence.committed().len() ==> #[trigger] sequence.committed()[i] == i + 1,
        sequence.next() == sequence.committed().len() + 1,
{
}

/// One record line as written to the file: the serialized record and a
/// newline, provided the record is below `MAX_RECORD_BYTES`.
pub fn record_line(serialized: Vec<u8>) -> (line: Result<Vec<u8>, OpenError>)
    ensures
        serialized@.len() < MAX_RECORD_BYTES ==> line is Ok && line.unwrap()@ == serialized@.push(10u8),
        serialized@.len() >= MAX_RECORD_BYTES ==> line is Err,
{
    if serialized.len() >= MAX_RECORD_BYTES {
        return Err(OpenError::unavailable());
    }
    let mut line = serialized;
    line.push(10u8);
    Ok(line)
}

/// The record file's name for a run: `run-`, the run identifier, `.jsonl`.
pub fn run_file_name(run_id: &str) -> (name: String)
    ensures
        name@ == "run-"@ + run_id@ + ".jsonl"@,
{
    let mut name = String::from_str("run-");
    name.append(run_id);
    name.append(".jsonl");
    name
}

} // verus!
