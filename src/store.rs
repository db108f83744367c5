use vstd::prelude::*;

use crate::device::{Device, DeviceView};

verus! {

/// The devices of a sequence that belong to the given user, in order.
pub open spec fn owned_by(s: Seq<DeviceView>, user_uuid: Seq<char>) -> Seq<DeviceView>
    decreases s.len(),
{
    if s.len() == 0 {
        Seq::empty()
    } else {
        let rest = owned_by(s.drop_last(), user_uuid);
        if s.last().user_uuid == user_uuid {
            rest.push(s.last())
        } else {
            rest
        }
    }
}

/// No two devices of the sequence share an id.
pub open spec fn ids_unique(s: Seq<DeviceView>) -> bool {
    forall|i: int, j: int| 0 <= i < j < s.len() ==> #[trigger] s[i].uuid != #[trigger] s[j].uuid
}

/// The device of the sequence with the given id, if there is one.
pub open spec fn record_of(s: Seq<DeviceView>, uuid: Seq<char>) -> Option<DeviceView> {
    if exists|i: int| 0 <= i < s.len() && #[trigger] s[i].uuid == uuid {
        let i = choose|i: int| 0 <= i < s.len() && #[trigger] s[i].uuid == uuid;
        Some(s[i])
    } else {
        None
    }
}

/// In a sequence of distinct ids, the record of an entry's id is that entry.
proof fn lemma_record_at(s: Seq<DeviceView>, i: int)
    requires
        ids_unique(s),
        0 <= i < s.len(),
    ensures
        record_of(s, s[i].uuid) == Some(s[i]),
{
    let j = choose|j: int| 0 <= j < s.len() && #[trigger] s[j].uuid == s[i].uuid;
    assert(0 <= j < s.len() && s[j].uuid == s[i].uuid);
    if j < i {
        assert(s[j].uuid != s[i].uuid);
    } else if i < j {
        assert(s[i].uuid != s[j].uuid);
    }
}

/// Two sequences of distinct ids that hold the same entries under `u` give
/// the same record for `u`.
proof fn lemma_record_frame(s1: Seq<DeviceView>, s2: Seq<DeviceView>, u: Seq<char>)
    requires
        ids_unique(s1),
        ids_unique(s2),
        forall|k: int|
            0 <= k < s1.len() && #[trigger] s1[k].uuid == u ==> exists|m: int|
                0 <= m < s2.len() && #[trigger] s2[m] == s1[k],
        forall|m: int|
            0 <= m < s2.len() && #[trigger] s2[m].uuid == u ==> exists|k: int|
                0 <= k < s1.len() && #[trigger] s1[k] == s2[m],
    ensures
        record_of(s1, u) == record_of(s2, u),
{
    if exists|k: int| 0 <= k < s1.len() && #[trigger] s1[k].uuid == u {
        let k = choose|k: int| 0 <= k < s1.len() && #[trigger] s1[k].uuid == u;
        let m = choose|m: int| 0 <= m < s2.len() && #[trigger] s2[m] == s1[k];
        lemma_record_at(s1, k);
        lemma_record_at(s2, m);
    } else if exists|m: int| 0 <= m < s2.len() && #[trigger] s2[m].uuid == u {
        let m = choose|m: int| 0 <= m < s2.len() && #[trigger] s2[m].uuid == u;
        let k = choose|k: int| 0 <= k < s1.len() && #[trigger] s1[k] == s2[m];
        assert(s1[k].uuid == u);
    }
}

/// Two entries with the same id are the same entry.
proof fn lemma_unique_index(s: Seq<DeviceView>, i: int, u: Seq<char>)
    requires
        ids_unique(s),
        0 <= i < s.len(),
        s[i].uuid == u,
    ensures
        (choose|j: int| 0 <= j < s.len() && #[trigger] s[j].uuid == u) == i,
{
    let j = choose|j: int| 0 <= j < s.len() && #[trigger] s[j].uuid == u;
    assert(0 <= j < s.len() && s[j].uuid == u);
    if j < i {
        assert(s[j].uuid != s[i].uuid);
    } else if i < j {
        assert(s[i].uuid != s[j].uuid);
    }
}

/// The sequence after saving `d`: the entry with its id is replaced, or `d`
/// is appended where there is none.
pub open spec fn stored(s: Seq<DeviceView>, d: DeviceView) -> Seq<DeviceView> {
    if exists|i: int| 0 <= i < s.len() && #[trigger] s[i].uuid == d.uuid {
        s.update(choose|i: int| 0 <= i < s.len() && #[trigger] s[i].uuid == d.uuid, d)
    } else {
        s.push(d)
    }
}

/// The sequence after deleting the entry with id `u`, if there is one.
pub open spec fn removed(s: Seq<DeviceView>, u: Seq<char>) -> Seq<DeviceView> {
    if exists|i: int| 0 <= i < s.len() && #[trigger] s[i].uuid == u {
        s.remove(choose|i: int| 0 <= i < s.len() && #[trigger] s[i].uuid == u)
    } else {
        s
    }
}

/// The view of an optional device.
pub open spec fn opt_view(o: Option<Device>) -> Option<DeviceView> {
    match o {
        Some(d) => Some(d@),
        None => None,
    }
}

/// Saving a device and then looking up its id yields exactly the saved
/// record, and the records of all other ids stay as they were.
pub proof fn lemma_save_then_find(s: Seq<DeviceView>, d: DeviceView)
    requires
        ids_unique(s),
    ensures
        ids_unique(stored(s, d)),
        record_of(stored(s, d), d.uuid) == Some(d),
        forall|u: Seq<char>| u != d.uuid ==> #[trigger] record_of(stored(s, d), u) == record_of(s, u),
{
    let s2 = stored(s, d);
    let pos = if exists|i: int| 0 <= i < s.len() && #[trigger] s[i].uuid == d.uuid {
        choose|i: int| 0 <= i < s.len() && #[trigger] s[i].uuid == d.uuid
    } else {
        s.len() as int
    };
    assert(s2[pos] == d);
    assert(forall|k: int| 0 <= k < s2.len() && k != pos ==> #[trigger] s2[k] == s[k]);
    assert(ids_unique(s2)) by {
        assert forall|i: int, j: int| 0 <= i < j < s2.len() implies #[trigger] s2[i].uuid
            != #[trigger] s2[j].uuid by {
            if i != pos && j != pos {
                assert(s[i].uuid != s[j].uuid);
            } else if i == pos {
                assert(s2[j] == s[j]);
            } else {
                assert(s2[i] == s[i]);
            }
        }
    }
    lemma_record_at(s2, pos);
    assert forall|u: Seq<char>| u != d.uuid implies #[trigger] record_of(s2, u) == record_of(s, u) by {
        assert forall|k: int| 0 <= k < s2.len() && #[trigger] s2[k].uuid == u implies exists|m: int|
            0 <= m < s.len() && #[trigger] s[m] == s2[k] by {
            assert(s[k] == s2[k]);
        }
        assert forall|m: int| 0 <= m < s.len() && #[trigger] s[m].uuid == u implies exists|k: int|
            0 <= k < s2.len() && #[trigger] s2[k] == s[m] by {
            assert(s2[m] == s[m]);
        }
        lemma_record_frame(s2, s, u);
    }
}

/// Deleting the record of an id and then looking that id up finds nothing,
/// and the records of all other ids stay as they were.
pub proof fn lemma_delete_then_find(s: Seq<DeviceView>, u: Seq<char>)
    requires
        ids_unique(s),
    ensures
        ids_unique(removed(s, u)),
        record_of(removed(s, u), u) is None,
        forall|v: Seq<char>| v != u ==> #[trigger] record_of(removed(s, u), v) == record_of(s, v),
{
    let s2 = removed(s, u);
    if exists|i: int| 0 <= i < s.len() && #[trigger] s[i].uuid == u {
        let pos = choose|i: int| 0 <= i < s.len() && #[trigger] s[i].uuid == u;
        assert(forall|k: int| 0 <= k < s2.len() ==> #[trigger] s2[k] == s[if k < pos { k } else { k + 1 }]);
        assert(ids_unique(s2)) by {
            assert forall|i: int, j: int| 0 <= i < j < s2.len() implies #[trigger] s2[i].uuid
                != #[trigger] s2[j].uuid by {
                let a = if i < pos { i } else { i + 1 };
                let b = if j < pos { j } else { j + 1 };
                assert(s[a].uuid != s[b].uuid);
            }
        }
        assert forall|k: int| 0 <= k < s2.len() implies #[trigger] s2[k].uuid != u by {
            let a = if k < pos { k } else { k + 1 };
            assert(s2[k] == s[a]);
            if a < pos {
                assert(s[a].uuid != s[pos].uuid);
            } else {
                assert(s[pos].uuid != s[a].uuid);
            }
        }
        assert forall|v: Seq<char>| v != u implies #[trigger] record_of(s2, v) == record_of(s, v) by {
            assert forall|k: int| 0 <= k < s2.len() && #[trigger] s2[k].uuid == v implies exists|
                m: int,
            | 0 <= m < s.len() && #[trigger] s[m] == s2[k] by {
                let a = if k < pos { k } else { k + 1 };
                assert(s[a] == s2[k]);
            }
            assert forall|m: int| 0 <= m < s.len() && #[trigger] s[m].uuid == v implies exists|
                k: int,
            | 0 <= k < s2.len() && #[trigger] s2[k] == s[m] by {
                assert(m != pos);
                let k = if m < pos { m } else { m - 1 };
                assert(s2[k] == s[m]);
            }
            lemma_record_frame(s2, s, v);
        }
    }
}

/// An in-memory device store: at most one record per device id, kept in
/// order of first insertion.
pub struct DeviceStore {
    devices: Vec<Device>,
}

impl View for DeviceStore {
    type V = Seq<DeviceView>;

    closed spec fn view(&self) -> Seq<DeviceView> {
        self.devices@.map_values(|d: Device| d@)
    }
}

impl DeviceStore {
    /// The record stored under `uuid`, if any.
    pub open spec fn record(self, uuid: Seq<char>) -> Option<DeviceView> {
        record_of(self@, uuid)
    }

    /// Each device id is stored at most once.
    pub open spec fn wf(self) -> bool {
        ids_unique(self@)
    }

    /// An empty store.
    pub fn new() -> (r: DeviceStore)
        ensures
            r@ == Seq::<DeviceView>::empty(),
            r.wf(),
    {
        let r = DeviceStore { devices: Vec::new() };
        assert(r@ =~= Seq::<DeviceView>::empty());
        r
    }

    /// Position of the record with the given id.
    fn position(&self, uuid: &String) -> (r: Option<usize>)
        ensures
            r matches Some(i) ==> i < self@.len() && self@[i as int].uuid == uuid@,
            r is None ==> forall|j: int| 0 <= j < self@.len() ==> #[trigger] self@[j].uuid != uuid@,
    {
        let mut i: usize = 0;
        while i < self.devices.len()
            invariant
                i <= self@.len(),
                self@.len() == self.devices@.len(),
                forall|j: int| 0 <= j < i ==> #[trigger] self@[j].uuid != uuid@,
            decreases self@.len() - i,
        {
            if self.devices[i].uuid == *uuid {
                return Some(i);
            }
            i += 1;
        }
        None
    }

    /// Inserts the device, or replaces the record with the same id; returns
    /// the number of records written.
    pub fn upsert(&mut self, device: &Device) -> (r: usize)
        requires
            old(self).wf(),
        ensures
            final(self)@ == stored(old(self)@, device@),
            final(self).wf(),
            r == 1,
    {
        let copy = device.clone();
        let ghost s1 = old(self)@;
        match self.position(&device.uuid) {
            Some(i) => {
                proof {
                    lemma_unique_index(s1, i as int, device@.uuid);
                }
                self.devices.set(i, copy);
                assert(self@ =~= s1.update(i as int, device@));
            },
            None => {
                self.devices.push(copy);
                assert(self@ =~= s1.push(device@));
            },
        }
        proof {
            lemma_save_then_find(s1, device@);
        }
        1
    }

    /// Removes the record with the given id; returns the number of records
    /// removed.
    pub fn remove(&mut self, uuid: &String) -> (r: usize)
        requires
            old(self).wf(),
        ensures
            final(self)@ == removed(old(self)@, uuid@),
            final(self).wf(),
            r == (if old(self).record(uuid@) is Some {
                1usize
            } else {
                0usize
            }),
    {
        let ghost s1 = old(self)@;
        match self.position(uuid) {
            Some(i) => {
                proof {
                    lemma_unique_index(s1, i as int, uuid@);
                    lemma_record_at(s1, i as int);
                }
                let _gone = self.devices.remove(i);
                assert(self@ =~= s1.remove(i as int));
                proof {
                    lemma_delete_then_find(s1, uuid@);
                }
                1
            },
            None => {
                proof {
                    lemma_delete_then_find(s1, uuid@);
                }
                0
            },
        }
    }

    /// A copy of the record with the given id.
    pub fn find_by_uuid(&self, uuid: &str) -> (r: Option<Device>)
        requires
            self.wf(),
        ensures
            opt_view(r) == self.record(uuid@),
    {
        let key = uuid.to_owned();
        match self.position(&key) {
            Some(i) => {
                proof {
                    lemma_record_at(self@, i as int);
                }
                Some(self.devices[i].clone())
            },
            None => None,
        }
    }

    /// A copy of the first record holding the given refresh token.
    pub fn find_by_refresh_token(&self, refresh_token: &str) -> (r: Option<Device>)
        ensures
            r matches Some(d) ==> exists|i: int|
                0 <= i < self@.len() && #[trigger] self@[i] == d@ && d@.refresh_token
                    == refresh_token@,
            r is None ==> forall|i: int|
                0 <= i < self@.len() ==> #[trigger] self@[i].refresh_token != refresh_token@,
    {
        let key = refresh_token.to_owned();
        let mut i: usize = 0;
        while i < self.devices.len()
            invariant
                i <= self@.len(),
                self@.len() == self.devices@.len(),
                key@ == refresh_token@,
                forall|j: int| 0 <= j < i ==> #[trigger] self@[j].refresh_token != refresh_token@,
            decreases self@.len() - i,
        {
            if self.devices[i].refresh_token == key {
                let d = self.devices[i].clone();
                assert(self@[i as int] == d@);
                return Some(d);
            }
            i += 1;
        }
        None
    }

    /// Copies of all records of the given user, in store order.
    pub fn find_by_user(&self, user_uuid: &str) -> (r: Vec<Device>)
        ensures
            r@.map_values(|d: Device| d@) == owned_by(self@, user_uuid@),
    {
        let key = user_uuid.to_owned();
        let mut r: Vec<Device> = Vec::new();
        let mut i: usize = 0;
        while i < self.devices.len()
            invariant
                i <= self@.len(),
                self@.len() == self.devices@.len(),
                key@ == user_uuid@,
                r@.map_values(|d: Device| d@) == owned_by(self@.subrange(0, i as int), user_uuid@),
            decreases self@.len() - i,
        {
            assert(self@.subrange(0, i as int + 1).drop_last() =~= self@.subrange(0, i as int));
            if self.devices[i].user_uuid == key {
                let d = self.devices[i].clone();
                let ghost before = r@.map_values(|d: Device| d@);
                r.push(d);
                assert(r@.map_values(|d: Device| d@) =~= before.push(self@[i as int]));
            }
            i += 1;
        }
        assert(self@.subrange(0, self@.len() as int) =~= self@);
        r
    }
}

} // verus!
