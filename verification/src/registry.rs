//! The devices already reported in the current scan session.

use crate::model::{BeaconInfo, BeaconView};
use vstd::prelude::*;

verus! {

/// Whether a registry that has seen `seen` accepts a record of device `id`:
/// it does when the device has not been seen.
pub open spec fn accepts(seen: Set<Seq<char>>, id: Seq<char>) -> bool {
    !seen.contains(id)
}

/// The devices that a registry has seen after it was offered a record of
/// device `id`.
pub open spec fn after_accept(seen: Set<Seq<char>>, id: Seq<char>) -> Set<Seq<char>> {
    seen.insert(id)
}

/// What a registry has seen once it was cleared: nothing.
pub open spec fn cleared() -> Set<Seq<char>> {
    Set::empty()
}

/// A device is accepted at most once per session: of two records of the
/// same device offered one after the other, the first is accepted if the
/// device was not seen before, the second is turned down and leaves the
/// registry as it was. If the registry is cleared between the two, the
/// second is accepted again.
pub proof fn lemma_same_device_accepted_once(
    seen: Set<Seq<char>>,
    first: BeaconView,
    second: BeaconView,
)
    requires
        first.peripheral_id == second.peripheral_id,
    ensures
        accepts(seen, first.peripheral_id) <==> !seen.contains(first.peripheral_id),
        !accepts(after_accept(seen, first.peripheral_id), second.peripheral_id),
        after_accept(after_accept(seen, first.peripheral_id), second.peripheral_id) == after_accept(
            seen,
            first.peripheral_id,
        ),
        accepts(cleared(), second.peripheral_id),
{
    assert(seen.insert(first.peripheral_id).insert(first.peripheral_id) =~= seen.insert(
        first.peripheral_id,
    ));
}

/// What a registry has seen after the devices `ids` were offered to it one
/// after the other.
pub open spec fn after_offers(seen: Set<Seq<char>>, ids: Seq<Seq<char>>) -> Set<Seq<char>>
    decreases ids.len(),
{
    if ids.len() == 0 {
        seen
    } else {
        after_accept(after_offers(seen, ids.drop_last()), ids.last())
    }
}

/// Whether the offer at position `i` of the run `ids` is accepted by a
/// registry that had seen `seen` before the run.
pub open spec fn accepted_at(seen: Set<Seq<char>>, ids: Seq<Seq<char>>, i: int) -> bool {
    accepts(after_offers(seen, ids.take(i)), ids[i])
}

/// A run of offers leaves the registry with what it had seen before and
/// every device of the run.
pub proof fn lemma_after_offers(seen: Set<Seq<char>>, ids: Seq<Seq<char>>)
    ensures
        forall|id: Seq<char>|
            after_offers(seen, ids).contains(id) <==> seen.contains(id) || ids.contains(id),
    decreases ids.len(),
{
    if ids.len() > 0 {
        lemma_after_offers(seen, ids.drop_last());
        assert forall|id: Seq<char>|
            after_offers(seen, ids).contains(id) <==> seen.contains(id) || ids.contains(
                id,
            ) by {
            if ids.drop_last().contains(id) {
                let k = choose|k: int| 0 <= k < ids.drop_last().len() && ids.drop_last()[k] == id;
                assert(ids[k] == id);
            }
            if ids.contains(id) && id != ids.last() {
                let k = choose|k: int| 0 <= k < ids.len() && ids[k] == id;
                assert(ids.drop_last()[k] == id);
            }
            if id == ids.last() {
                assert(ids[ids.len() - 1] == id);
            }
        }
    }
}

/// At most once per session: whatever is offered and in whatever order, of
/// two offers of the same device the later one is never accepted, and an
/// offer of a device seen before the run is never accepted.
pub proof fn lemma_at_most_once_per_session(
    seen: Set<Seq<char>>,
    ids: Seq<Seq<char>>,
    i: int,
    j: int,
)
    requires
        0 <= i < j < ids.len(),
        ids[i] == ids[j],
    ensures
        !accepted_at(seen, ids, j),
        seen.contains(ids[i]) ==> !accepted_at(seen, ids, i),
{
    lemma_after_offers(seen, ids.take(j));
    assert(ids.take(j)[i] == ids[j]);
    assert(ids.take(j).contains(ids[j]));
    lemma_after_offers(seen, ids.take(i));
}

/// Records of other devices do not change whether a device is accepted.
pub proof fn lemma_other_devices_do_not_interfere(
    seen: Set<Seq<char>>,
    other: Seq<char>,
    id: Seq<char>,
)
    requires
        other != id,
    ensures
        accepts(after_accept(seen, other), id) == accepts(seen, id),
{
}

/// The identifiers of the devices reported so far in one scan session.
pub struct BeaconRegistry {
    ids: Vec<String>,
}

impl BeaconRegistry {
    /// The identifiers seen so far.
    pub closed spec fn seen(&self) -> Set<Seq<char>> {
        Set::new(|id: Seq<char>| exists|i: int| 0 <= i < self.ids@.len() && self.ids@[i]@ == id)
    }

    /// A registry that has seen no device.
    pub fn new() -> (r: Self)
        ensures
            r.seen() == cleared(),
    {
        let r = BeaconRegistry { ids: Vec::new() };
        assert(r.seen() =~= cleared());
        r
    }

    /// Tells whether the device `id` has been seen in this session.
    pub fn contains(&self, id: &String) -> (r: bool)
        ensures
            r == self.seen().contains(id@),
    {
        let mut i: usize = 0;
        while i < self.ids.len()
            invariant
                i <= self.ids@.len(),
                forall|j: int| 0 <= j < i ==> self.ids@[j]@ != id@,
            decreases self.ids@.len() - i,
        {
            if self.ids[i] == *id {
                return true;
            }
            i += 1;
        }
        false
    }

    /// Offers a record to the registry. A record of a device not yet seen
    /// is accepted and its device remembered; any other is turned down and
    /// the registry stays as it is.
    pub fn accept(&mut self, record: &BeaconInfo) -> (accepted: bool)
        ensures
            accepted == accepts(old(self).seen(), record.peripheral_id@),
            final(self).seen() == after_accept(old(self).seen(), record.peripheral_id@),
    {
        if self.contains(&record.peripheral_id) {
            assert(self.seen().insert(record.peripheral_id@) =~= self.seen());
            false
        } else {
            let ghost before = self.ids@;
            self.ids.push(record.peripheral_id.clone());
            assert(self.seen() =~= old(self).seen().insert(record.peripheral_id@)) by {
                assert(self.ids@ == before.push(self.ids@.last()));
                assert forall|id: Seq<char>| #[trigger]
                    old(self).seen().insert(record.peripheral_id@).contains(id) implies self.seen().contains(
                    id,
                ) by {
                    if id == record.peripheral_id@ {
                        assert(self.ids@[before.len() as int]@ == id);
                    } else {
                        let i = choose|i: int| 0 <= i < before.len() && before[i]@ == id;
                        assert(self.ids@[i]@ == id);
                    }
                }
            }
            true
        }
    }

    /// Forgets every device: the start of a new scan session.
    pub fn clear(&mut self)
        ensures
            final(self).seen() == cleared(),
    {
        self.ids.clear();
        assert(self.seen() =~= cleared());
    }
}

} // verus!
