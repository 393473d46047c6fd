//! Records of live processes, and the snapshot that an enumeration yields.

use vstd::prelude::*;
use crate::platform::{Architecture, Platform, PointerWidth};

verus! {

/// What is known of one process at the moment it was looked at. The record
/// is a copy: it says nothing of the process a moment later.
#[derive(Debug, PartialEq, Eq)]
pub struct ProcessRecord {
    pub process_id: u32,
    pub name: String,
    pub architecture: Architecture,
    pub pointer_width: PointerWidth,
}

/// A process record as a mathematical value.
pub struct ProcessView {
    pub process_id: u32,
    pub name: Seq<char>,
    pub architecture: Architecture,
    pub pointer_width: PointerWidth,
}

impl ProcessView {
    /// The platform the process runs as.
    pub open spec fn platform(self) -> Platform {
        Platform { architecture: self.architecture, pointer_width: self.pointer_width }
    }
}

impl View for ProcessRecord {
    type V = ProcessView;

    open spec fn view(&self) -> ProcessView {
        ProcessView {
            process_id: self.process_id,
            name: self.name@,
            architecture: self.architecture,
            pointer_width: self.pointer_width,
        }
    }
}

impl Clone for ProcessRecord {
    fn clone(&self) -> (copy: Self)
        ensures
            copy == *self,
    {
        ProcessRecord {
            process_id: self.process_id,
            name: self.name.clone(),
            architecture: self.architecture,
            pointer_width: self.pointer_width,
        }
    }
}

impl ProcessRecord {
    /// A record of the process `process_id`, named `name`.
    pub fn new(
        process_id: u32,
        name: &str,
        architecture: Architecture,
        pointer_width: PointerWidth,
    ) -> (record: ProcessRecord)
        ensures
            record@ == (ProcessView { process_id, name: name@, architecture, pointer_width }),
    {
        ProcessRecord { process_id, name: name.to_owned(), architecture, pointer_width }
    }

    /// The platform the process runs as.
    pub fn platform(&self) -> (platform: Platform)
        ensures
            platform == self@.platform(),
    {
        Platform { architecture: self.architecture, pointer_width: self.pointer_width }
    }
}

/// The views of the records of a snapshot, in the snapshot's order.
pub open spec fn snapshot_view(records: Seq<ProcessRecord>) -> Seq<ProcessView> {
    Seq::new(records.len(), |i: int| records[i]@)
}

/// The processes that answered, in the order in which they were asked.
pub open spec fn survivors(observed: Seq<Option<ProcessRecord>>) -> Seq<ProcessRecord> {
    observed.filter_map(|seen: Option<ProcessRecord>| seen)
}

/// Builds the snapshot of an enumeration. `observed` holds, for each process
/// the enumeration came across, its record, or nothing where the process
/// was gone by the time it was asked for. The gone ones are left out; the
/// others keep their order.
pub fn list_processes(observed: &[Option<ProcessRecord>]) -> (live: Vec<ProcessRecord>)
    ensures
        live@ == survivors(observed@),
{
    let mut live: Vec<ProcessRecord> = Vec::new();
    let mut i: usize = 0;
    while i < observed.len()
        invariant
            i <= observed.len(),
            live@ == survivors(observed@.take(i as int)),
        decreases observed.len() - i,
    {
        proof {
            observed@.lemma_filter_map_take_succ(|seen: Option<ProcessRecord>| seen, i as int);
        }
        match &observed[i] {
            Some(record) => {
                live.push(record.clone());
            },
            None => {},
        }
        i += 1;
    }
    assert(observed@.take(observed.len() as int) == observed@);
    live
}

/// A snapshot holds the records of the processes that answered, and no
/// other record.
pub proof fn law_snapshot_holds_the_live_ones(
    observed: Seq<Option<ProcessRecord>>,
    record: ProcessRecord,
)
    ensures
        survivors(observed).contains(record) <==> observed.contains(Some(record)),
    decreases observed.len(),
{
    if observed.len() > 0 {
        let rest = observed.drop_last();
        let last = observed.last();
        law_snapshot_holds_the_live_ones(rest, record);
        assert(observed == rest.push(last));
        assert(survivors(observed) == match last {
            Some(live) => survivors(rest) + seq![live],
            None => survivors(rest),
        });
        if observed.contains(Some(record)) {
            let i = choose|i: int| 0 <= i < observed.len() && observed[i] == Some(record);
            if i < rest.len() {
                assert(rest[i] == Some(record));
                let j = choose|j: int|
                    0 <= j < survivors(rest).len() && survivors(rest)[j] == record;
                assert(survivors(observed)[j] == record);
            } else {
                assert(survivors(observed)[survivors(rest).len() as int] == record);
            }
        }
        if survivors(observed).contains(record) {
            let j = choose|j: int|
                0 <= j < survivors(observed).len() && survivors(observed)[j] == record;
            if j < survivors(rest).len() {
                assert(survivors(rest)[j] == record);
                let i = choose|i: int| 0 <= i < rest.len() && rest[i] == Some(record);
                assert(observed[i] == Some(record));
            } else {
                assert(observed[observed.len() - 1] == Some(record));
            }
        }
    }
}

/// A snapshot is never longer than the enumeration it was built from.
pub proof fn law_snapshot_is_no_longer(observed: Seq<Option<ProcessRecord>>)
    ensures
        survivors(observed).len() <= observed.len(),
    decreases observed.len(),
{
    if observed.len() > 0 {
        law_snapshot_is_no_longer(observed.drop_last());
    }
}

} // verus!
