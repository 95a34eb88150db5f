//! The store of discovered lights, keyed by device id.
//!
//! Inserting a device replaces any earlier one with the same id; nothing is
//! merged. The store is owned by its caller, who shares it as it sees fit.

use vstd::prelude::*;
use crate::device::{GoveeDevice, GoveeDeviceView};
use crate::parse::view_opt;

verus! {

/// The discovered lights, each id held once.
pub struct GoveeState {
    devices: Vec<GoveeDevice>,
    contents: Ghost<Map<Seq<char>, GoveeDeviceView>>,
}

/// `s` lists the entries of `m`, each once, in some order.
pub open spec fn is_snapshot(m: Map<Seq<char>, GoveeDeviceView>, s: Seq<GoveeDeviceView>) -> bool {
    &&& s.len() == m.dom().len()
    &&& forall|i: int| 0 <= i < s.len() ==> #[trigger] m.contains_key(s[i].id) && m[s[i].id] == s[i]
    &&& forall|i: int, j: int|
        0 <= i < s.len() && 0 <= j < s.len() && i != j ==> #[trigger] s[i].id != #[trigger] s[j].id
    &&& forall|k: Seq<char>| #[trigger] m.contains_key(k) ==> exists|i: int| 0 <= i < s.len() && s[i].id == k
}

/// The views of a list of devices.
pub open spec fn views(v: Seq<GoveeDevice>) -> Seq<GoveeDeviceView> {
    v.map_values(|d: GoveeDevice| d@)
}

impl View for GoveeState {
    type V = Map<Seq<char>, GoveeDeviceView>;

    closed spec fn view(&self) -> Map<Seq<char>, GoveeDeviceView> {
        self.contents@
    }
}

impl GoveeState {
    /// The id index agrees with the stored list, and each id is held once.
    pub closed spec fn wf(&self) -> bool {
        &&& self.contents@.dom().finite()
        &&& is_snapshot(self.contents@, views(self.devices@))
    }

    /// An empty store.
    pub fn new() -> (r: Self)
        ensures
            r.wf(),
            r@ == Map::<Seq<char>, GoveeDeviceView>::empty(),
    {
        GoveeState { devices: Vec::new(), contents: Ghost(Map::empty()) }
    }

    /// The position of the device with id `id`, if one is held.
    fn position(&self, id: &String) -> (r: Option<usize>)
        requires
            self.wf(),
        ensures
            match r {
                Some(i) => i < self.devices@.len() && self.devices@[i as int].id@ == id@,
                None => !self@.contains_key(id@),
            },
    {
        let mut i: usize = 0;
        while i < self.devices.len()
            invariant
                0 <= i <= self.devices@.len(),
                forall|j: int| 0 <= j < i ==> self.devices@[j].id@ != id@,
                is_snapshot(self.contents@, views(self.devices@)),
            decreases self.devices@.len() - i,
        {
            if self.devices[i].id == *id {
                return Some(i);
            }
            i = i + 1;
        }
        proof {
            if self@.contains_key(id@) {
                let j = choose|j: int| 0 <= j < views(self.devices@).len() && views(self.devices@)[j].id == id@;
                assert(self.devices@[j].id@ == id@);
            }
        }
        None
    }

    /// Stores `device`, replacing the device with the same id if one is held.
    pub fn insert(&mut self, device: GoveeDevice)
        requires
            old(self).wf(),
        ensures
            final(self).wf(),
            final(self)@ == old(self)@.insert(device.id@, device@),
    {
        let ghost d = device@;
        let ghost old_devices = views(self.devices@);
        match self.position(&device.id) {
            Some(i) => {
                self.devices.set(i, device);
                proof {
                    self.contents@ = self.contents@.insert(d.id, d);
                    let s = views(self.devices@);
                    assert(s =~= old_devices.update(i as int, d));
                    assert(old_devices[i as int].id == d.id);
                    assert(old(self).contents@.contains_key(d.id));
                    assert(self.contents@.dom() =~= old(self).contents@.dom());
                    assert forall|j: int| 0 <= j < s.len() implies #[trigger] s[j].id == old_devices[j].id by {}
                    assert forall|k: Seq<char>| #[trigger] self.contents@.contains_key(k) implies exists|j: int|
                        0 <= j < s.len() && s[j].id == k by {
                        if k != d.id {
                            let j = choose|j: int| 0 <= j < old_devices.len() && old_devices[j].id == k;
                            assert(s[j].id == k);
                        } else {
                            assert(s[i as int].id == k);
                        }
                    }
                }
            },
            None => {
                self.devices.push(device);
                proof {
                    self.contents@ = self.contents@.insert(d.id, d);
                    let s = views(self.devices@);
                    assert(s =~= old_devices.push(d));
                    assert forall|k: Seq<char>| #[trigger] self.contents@.contains_key(k) implies exists|j: int|
                        0 <= j < s.len() && s[j].id == k by {
                        if k != d.id {
                            let j = choose|j: int| 0 <= j < old_devices.len() && old_devices[j].id == k;
                            assert(s[j].id == k);
                        } else {
                            assert(s[s.len() - 1].id == k);
                        }
                    }
                }
            },
        }
    }

    /// A copy of the device with id `id`, if one is held.
    pub fn get(&self, id: &String) -> (r: Option<GoveeDevice>)
        requires
            self.wf(),
        ensures
            view_opt(r) == (if self@.contains_key(id@) {
                Some(self@[id@])
            } else {
                None
            }),
    {
        match self.position(id) {
            Some(i) => {
                proof {
                    assert(views(self.devices@)[i as int].id == id@);
                }
                Some(self.devices[i].clone())
            },
            None => None,
        }
    }

    /// A copy of every device held, each once, in no particular order.
    pub fn get_all(&self) -> (r: Vec<GoveeDevice>)
        requires
            self.wf(),
        ensures
            is_snapshot(self@, views(r@)),
    {
        let mut out: Vec<GoveeDevice> = Vec::new();
        let mut i: usize = 0;
        while i < self.devices.len()
            invariant
                0 <= i <= self.devices@.len(),
                out@ =~= self.devices@.take(i as int),
            decreases self.devices@.len() - i,
        {
            out.push(self.devices[i].clone());
            i = i + 1;
            assert(out@ =~= self.devices@.take(i as int));
        }
        assert(self.devices@.take(i as int) =~= self.devices@);
        out
    }

    /// Removes every device.
    pub fn clear(&mut self)
        requires
            old(self).wf(),
        ensures
            final(self).wf(),
            final(self)@ == Map::<Seq<char>, GoveeDeviceView>::empty(),
    {
        self.devices.clear();
        proof {
            self.contents@ = Map::empty();
            assert(views(self.devices@) =~= Seq::<GoveeDeviceView>::empty());
        }
    }
}

impl Default for GoveeState {
    fn default() -> (r: Self)
        ensures
            r.wf(),
            r@ == Map::<Seq<char>, GoveeDeviceView>::empty(),
    {
        GoveeState::new()
    }
}

/// Inserting the same device twice leaves the store as one insertion does,
/// and any listing of it then holds exactly one entry with that id.
pub proof fn lemma_insert_idempotent(
    m: Map<Seq<char>, GoveeDeviceView>,
    d: GoveeDeviceView,
    s: Seq<GoveeDeviceView>,
)
    requires
        is_snapshot(m.insert(d.id, d).insert(d.id, d), s),
    ensures
        m.insert(d.id, d).insert(d.id, d) == m.insert(d.id, d),
        exists|i: int|
            0 <= i < s.len() && s[i] == d && forall|j: int| 0 <= j < s.len() && s[j].id == d.id ==> j == i,
{
    let m2 = m.insert(d.id, d).insert(d.id, d);
    assert(m2 =~= m.insert(d.id, d));
    assert(m2.contains_key(d.id));
    let i = choose|i: int| 0 <= i < s.len() && s[i].id == d.id;
    assert(m2.contains_key(s[i].id) && m2[s[i].id] == s[i]);
    assert forall|j: int| 0 <= j < s.len() && s[j].id == d.id implies j == i by {
        if j != i {
            assert(s[i].id != s[j].id);
        }
    }
}

/// A listing of an emptied store is empty.
pub proof fn lemma_cleared_is_empty(s: Seq<GoveeDeviceView>)
    requires
        is_snapshot(Map::<Seq<char>, GoveeDeviceView>::empty(), s),
    ensures
        s.len() == 0,
{
}

} // verus!
