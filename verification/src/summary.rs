use crate::record::{RecordView, ShiftRecord};
use crate::store::Store;
use vstd::prelude::*;

verus! {

/// The closed records among `records`, in their order.
pub open spec fn spec_closed(records: Seq<RecordView>) -> Seq<RecordView>
    decreases records.len(),
{
    if records.len() == 0 {
        Seq::<RecordView>::empty()
    } else if records.last().end.is_some() {
        spec_closed(records.drop_last()).push(records.last())
    } else {
        spec_closed(records.drop_last())
    }
}

/// The hours of `records` added up from the first to the last, in hundredths.
pub open spec fn spec_total(records: Seq<RecordView>) -> int
    decreases records.len(),
{
    if records.len() == 0 {
        0
    } else {
        spec_total(records.drop_last()) + records.last().hours
    }
}

/// What a summary shows: the finished shifts and the hours of all of them.
#[derive(Debug, PartialEq, Eq)]
pub struct Summary {
    /// The closed records, in the order of the store.
    pub shifts: Vec<ShiftRecord>,
    /// The sum of their hours, in hundredths of an hour.
    pub total: i128,
}

impl View for Summary {
    type V = Seq<RecordView>;

    open spec fn view(&self) -> Seq<RecordView> {
        self.shifts@.map_values(|r: ShiftRecord| r@)
    }
}

/// The hours of one record stay far below what a sum of them could overflow by.
proof fn lemma_hours_bounded(r: RecordView)
    requires
        r.wf(),
    ensures
        -0x100_0000_0000 < r.hours < 0x100_0000_0000,
{
}

impl Store {
    /// The summary of the store: its closed records in order, an open shift
    /// at the end left out, and the sum of the hours shown.
    pub fn summary(&self) -> (summary: Summary)
        ensures
            summary@ == spec_closed(self@),
            summary.total == spec_total(summary@),
    {
        let mut shifts: Vec<ShiftRecord> = Vec::new();
        let mut total: i128 = 0;
        let n = self.len();
        let mut i: usize = 0;
        assert(self@.take(0) =~= Seq::<RecordView>::empty());
        while i < n
            invariant
                i <= n,
                n == self@.len(),
                shifts@.map_values(|r: ShiftRecord| r@) == spec_closed(self@.take(i as int)),
                shifts@.len() <= i,
                total == spec_total(shifts@.map_values(|r: ShiftRecord| r@)),
                -0x100_0000_0000 * i <= total <= 0x100_0000_0000 * i,
            decreases n - i,
        {
            let record = self.get(i).unwrap();
            proof {
                use_type_invariant(&record);
                lemma_hours_bounded(record@);
                assert(self@.take(i + 1).drop_last() =~= self@.take(i as int));
                assert(self@.take(i + 1).last() == self@[i as int]);
            }
            if !record.is_open() {
                let ghost before = shifts@.map_values(|r: ShiftRecord| r@);
                shifts.push(record);
                total = total + record.hours() as i128;
                proof {
                    let after = shifts@.map_values(|r: ShiftRecord| r@);
                    assert(after =~= before.push(record@));
                    assert(after.drop_last() =~= before);
                }
            }
            i = i + 1;
        }
        assert(self@.take(n as int) =~= self@);
        Summary { shifts, total }
    }
}

} // verus!
