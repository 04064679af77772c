use crate::info::{PeripheralInfo, PeripheralInfoView};
use vstd::prelude::*;

verus! {

/// What a list of peripherals holds.
pub open spec fn info_views(peripherals: Seq<PeripheralInfo>) -> Seq<PeripheralInfoView> {
    peripherals.map_values(|p: PeripheralInfo| p@)
}

/// No two entries have the same address.
pub open spec fn distinct_addresses(set: Seq<PeripheralInfoView>) -> bool {
    forall|i: int, j: int|
        0 <= i < set.len() && 0 <= j < set.len() && i != j ==> (#[trigger] set[i]).address != (
        #[trigger] set[j]).address
}

/// Whether an entry has the address.
pub open spec fn knows(set: Seq<PeripheralInfoView>, address: Seq<char>) -> bool {
    exists|i: int| 0 <= i < set.len() && (#[trigger] set[i]).address == address
}

/// The place of an entry that has the address.
pub open spec fn place_of(set: Seq<PeripheralInfoView>, address: Seq<char>) -> int {
    choose|i: int| 0 <= i < set.len() && (#[trigger] set[i]).address == address
}

/// The entry that stands for `report`'s peripheral once the report is
/// taken in: the entry that was there, refreshed by the report, or else
/// the report itself.
pub open spec fn entry_for(set: Seq<PeripheralInfoView>, report: PeripheralInfoView)
    -> PeripheralInfoView {
    if knows(set, report.address) {
        set[place_of(set, report.address)].refreshed(report)
    } else {
        report
    }
}

/// The set after `report` is taken in: the entry of its address is
/// refreshed in place, and a peripheral that was not known comes last.
pub open spec fn taken_in(set: Seq<PeripheralInfoView>, report: PeripheralInfoView) -> Seq<
    PeripheralInfoView,
> {
    if knows(set, report.address) {
        set.update(place_of(set, report.address), entry_for(set, report))
    } else {
        set.push(report)
    }
}

/// Taking a report in keeps the addresses distinct, leaves an entry for
/// the report's address, and keeps every other entry as it was.
pub proof fn lemma_taken_in(set: Seq<PeripheralInfoView>, report: PeripheralInfoView)
    requires
        distinct_addresses(set),
    ensures
        distinct_addresses(taken_in(set, report)),
        knows(taken_in(set, report), report.address),
        taken_in(set, report)[place_of(taken_in(set, report), report.address)] == entry_for(
            set,
            report,
        ),
        forall|address: Seq<char>|
            address != report.address ==> (knows(taken_in(set, report), address) <==> knows(
                set,
                address,
            )),
        taken_in(set, report).len() == if knows(set, report.address) {
            set.len()
        } else {
            set.len() + 1
        },
{
    let after = taken_in(set, report);
    if knows(set, report.address) {
        let at = place_of(set, report.address);
        assert(after[at].address == report.address);
        assert forall|address: Seq<char>| address != report.address implies (knows(after, address)
            <==> knows(set, address)) by {
            if knows(set, address) {
                let k = place_of(set, address);
                assert(after[k].address == address);
            }
            if knows(after, address) {
                let k = place_of(after, address);
                assert(set[k].address == address);
            }
        }
    } else {
        assert(after[set.len() as int].address == report.address);
        assert forall|i: int, j: int|
            0 <= i < after.len() && 0 <= j < after.len() && i != j implies after[i].address
            != after[j].address by {
            if i < set.len() {
                assert(set[i].address != report.address);
            }
            if j < set.len() {
                assert(set[j].address != report.address);
            }
        }
        assert forall|address: Seq<char>| address != report.address implies (knows(after, address)
            <==> knows(set, address)) by {
            if knows(set, address) {
                let k = place_of(set, address);
                assert(after[k].address == address);
            }
            if knows(after, address) {
                let k = place_of(after, address);
                assert(set[k].address == address);
            }
        }
    }
    let at = place_of(after, report.address);
    assert(after[at].address == report.address);
}

/// A set of peripherals, at most one for each address, in the order in
/// which they first came.
pub struct PeripheralSet {
    entries: Vec<PeripheralInfo>,
}

impl View for PeripheralSet {
    type V = Seq<PeripheralInfoView>;

    closed spec fn view(&self) -> Seq<PeripheralInfoView> {
        info_views(self.entries@)
    }
}

impl PeripheralSet {
    /// No two entries have the same address.
    pub closed spec fn wf(&self) -> bool {
        distinct_addresses(self@)
    }

    /// What `wf` says of the view.
    pub proof fn lemma_wf(&self)
        ensures
            self.wf() <==> distinct_addresses(self@),
    {
    }

    /// The empty set.
    pub fn new() -> (set: Self)
        ensures
            set.wf(),
            set@ == Seq::<PeripheralInfoView>::empty(),
    {
        let set = PeripheralSet { entries: Vec::new() };
        assert(set@ =~= Seq::<PeripheralInfoView>::empty());
        set
    }

    /// Forgets every entry.
    pub fn clear(&mut self)
        ensures
            final(self).wf(),
            final(self)@ == Seq::<PeripheralInfoView>::empty(),
    {
        self.entries.clear();
        assert(self@ =~= Seq::<PeripheralInfoView>::empty());
    }

    fn find(&self, address: &String) -> (found: Option<usize>)
        ensures
            match found {
                Some(i) => i < self@.len() && self@[i as int].address == address@,
                None => !knows(self@, address@),
            },
    {
        let mut i: usize = 0;
        while i < self.entries.len()
            invariant
                i <= self.entries.len(),
                self@.len() == self.entries.len(),
                forall|k: int| 0 <= k < i ==> (#[trigger] self@[k]).address != address@,
            decreases self.entries.len() - i,
        {
            if self.entries[i].address == *address {
                return Some(i);
            }
            i += 1;
        }
        None
    }

    /// Takes `report` in: the entry of its address is refreshed in place,
    /// and a peripheral that was not known comes last. Returns a copy of
    /// the entry that now stands for the peripheral.
    pub fn take_in(&mut self, report: PeripheralInfo) -> (entry: PeripheralInfo)
        requires
            old(self).wf(),
        ensures
            final(self).wf(),
            final(self)@ == taken_in(old(self)@, report@),
            entry@ == entry_for(old(self)@, report@),
    {
        let ghost before = self@;
        proof {
            lemma_taken_in(before, report@);
        }
        match self.find(&report.address) {
            Some(i) => {
                assert(place_of(before, report@.address) == i);
                self.entries[i].refresh(report);
                assert(self@ =~= taken_in(before, report@));
                self.entries[i].clone()
            },
            None => {
                let entry = report.clone();
                self.entries.push(report);
                assert(self@ =~= taken_in(before, report@));
                entry
            },
        }
    }

    /// The entries, each a copy that its holder owns, in the order in
    /// which the peripherals first came.
    pub fn to_vec(&self) -> (entries: Vec<PeripheralInfo>)
        ensures
            info_views(entries@) == self@,
    {
        let mut entries: Vec<PeripheralInfo> = Vec::new();
        let mut i: usize = 0;
        while i < self.entries.len()
            invariant
                i <= self.entries.len(),
                entries.len() == i,
                forall|k: int| 0 <= k < i ==> entries[k]@ == self.entries[k]@,
            decreases self.entries.len() - i,
        {
            entries.push(self.entries[i].clone());
            i += 1;
        }
        assert(info_views(entries@) =~= self@);
        entries
    }
}

} // verus!
