use vstd::prelude::*;

use crate::device::DeviceId;
use crate::events::{event_views, forward_batch_spec, forward_events, Event, RawEvent};
use crate::text::str_eq;

verus! {

/// The poll token of the control channel; device tokens come after it.
pub const CTRL: usize = 0;

/// A watched device: its poll token and its id.
#[derive(Debug)]
pub struct Slot {
    pub token: usize,
    pub id: DeviceId,
}

/// The multiplexer's table of watched devices. Each device gets a token of its own that no
/// later device reuses, so removing one device never disturbs another's token.
#[derive(Debug)]
pub struct DeviceTable {
    pub slots: Vec<Slot>,
    pub next_token: usize,
}

/// What reading a ready device gave.
#[derive(Debug)]
pub enum ReadOutcome {
    /// These events, in kernel order.
    Events(Vec<RawEvent>),
    /// Nothing more to read for now.
    WouldBlock,
    /// A read error: the device is gone.
    Failed,
}

impl DeviceTable {
    /// The tokens and ids of the watched devices.
    pub open spec fn entries(&self) -> Seq<(usize, Seq<char>)> {
        self.slots@.map_values(|s: Slot| (s.token, s.id@))
    }

    /// The ids of the watched devices.
    pub open spec fn watched_ids(&self) -> Set<Seq<char>> {
        Set::new(|id: Seq<char>| exists|i: int| 0 <= i < self.entries().len() && self.entries()[i].1 == id)
    }

    /// Tokens and ids are unique, and every token lies between the control token and the
    /// next free token.
    pub open spec fn wf(&self) -> bool {
        &&& forall|i: int, j: int|
            0 <= i < j < self.entries().len() ==> self.entries()[i].0 != self.entries()[j].0
                && self.entries()[i].1 != self.entries()[j].1
        &&& forall|i: int|
            0 <= i < self.entries().len() ==> CTRL < #[trigger] self.entries()[i].0 < self.next_token
        &&& CTRL < self.next_token
    }

    pub fn new() -> (r: DeviceTable)
        ensures
            r.wf(),
            r.entries().len() == 0,
    {
        let r = DeviceTable { slots: Vec::new(), next_token: CTRL + 1 };
        assert(r.entries() =~= Seq::empty());
        r
    }

    /// The index of the entry with this id, if any.
    pub fn position(&self, id: &str) -> (r: Option<usize>)
        ensures
            match r {
                Some(i) => i < self.entries().len() && self.entries()[i as int].1 == id@,
                None => forall|i: int| 0 <= i < self.entries().len() ==> self.entries()[i].1 != id@,
            },
    {
        let mut i: usize = 0;
        while i < self.slots.len()
            invariant
                i <= self.slots@.len(),
                forall|j: int| 0 <= j < i ==> self.entries()[j].1 != id@,
            decreases self.slots@.len() - i,
        {
            if str_eq(self.slots[i].id.as_str(), id) {
                return Some(i);
            }
            i = i + 1;
        }
        None
    }

    /// The index of the entry with this token, if any.
    pub fn position_of_token(&self, token: usize) -> (r: Option<usize>)
        ensures
            match r {
                Some(i) => i < self.entries().len() && self.entries()[i as int].0 == token,
                None => forall|i: int| 0 <= i < self.entries().len() ==> self.entries()[i].0 != token,
            },
    {
        let mut i: usize = 0;
        while i < self.slots.len()
            invariant
                i <= self.slots@.len(),
                forall|j: int| 0 <= j < i ==> self.entries()[j].0 != token,
            decreases self.slots@.len() - i,
        {
            if self.slots[i].token == token {
                return Some(i);
            }
            i = i + 1;
        }
        None
    }

    /// Watches a device under a fresh token. Nothing changes, and no token is given, when the
    /// id is already watched or the tokens are used up.
    pub fn add(&mut self, id: DeviceId) -> (r: Option<usize>)
        requires
            old(self).wf(),
        ensures
            final(self).wf(),
            match r {
                Some(t) => {
                    &&& !old(self).watched_ids().contains(id@)
                    &&& t == old(self).next_token
                    &&& final(self).entries() == old(self).entries().push((t, id@))
                    &&& final(self).next_token == old(self).next_token + 1
                    &&& final(self).watched_ids() == old(self).watched_ids().insert(id@)
                },
                None => {
                    &&& old(self).watched_ids().contains(id@) || old(self).next_token == usize::MAX
                    &&& final(self).entries() == old(self).entries()
                    &&& final(self).next_token == old(self).next_token
                },
            },
    {
        match self.position(id.as_str()) {
            Some(i) => {
                assert(old(self).entries()[i as int].1 == id@);
                return None;
            },
            None => {},
        }
        if self.next_token == usize::MAX {
            return None;
        }
        let t = self.next_token;
        let ghost before = self.entries();
        self.slots.push(Slot { token: t, id });
        self.next_token = t + 1;
        assert(self.entries() =~= before.push((t, id@)));
        proof {
            assert forall|x: Seq<char>| self.watched_ids().contains(x) <==> old(self).watched_ids().insert(id@).contains(x) by {
                if self.watched_ids().contains(x) {
                    let k = choose|k: int| 0 <= k < self.entries().len() && self.entries()[k].1 == x;
                    if k < before.len() {
                        assert(before[k].1 == x);
                    }
                }
                if old(self).watched_ids().contains(x) {
                    let k = choose|k: int| 0 <= k < before.len() && before[k].1 == x;
                    assert(self.entries()[k].1 == x);
                }
                if x == id@ {
                    assert(self.entries()[before.len() as int].1 == x);
                }
            }
            assert(self.watched_ids() =~= old(self).watched_ids().insert(id@));
        }
        Some(t)
    }

    /// Stops watching the device with this id, giving back its token.
    pub fn remove(&mut self, id: &str) -> (r: Option<usize>)
        requires
            old(self).wf(),
        ensures
            final(self).wf(),
            final(self).next_token == old(self).next_token,
            match r {
                Some(t) => final(self).watched_ids() == old(self).watched_ids().remove(id@) && exists|i: int|
                    0 <= i < old(self).entries().len() && old(self).entries()[i] == (t, id@)
                        && final(self).entries() == old(self).entries().remove(i),
                None => !old(self).watched_ids().contains(id@) && final(self).entries() == old(self).entries(),
            },
    {
        match self.position(id) {
            Some(i) => {
                let ghost before = *self;
                let slot = self.slots.remove(i);
                assert(self.entries() =~= before.entries().remove(i as int));
                proof {
                    before.lemma_remove_entry(i as int, *self);
                }
                Some(slot.token)
            },
            None => None,
        }
    }

    /// Stops watching the device with this token, giving back its id.
    pub fn remove_token(&mut self, token: usize) -> (r: Option<DeviceId>)
        requires
            old(self).wf(),
        ensures
            final(self).wf(),
            final(self).next_token == old(self).next_token,
            match r {
                Some(id) => final(self).watched_ids() == old(self).watched_ids().remove(id@) && exists|i: int|
                    0 <= i < old(self).entries().len() && old(self).entries()[i] == (token, id@)
                        && final(self).entries() == old(self).entries().remove(i),
                None => (forall|i: int| 0 <= i < old(self).entries().len() ==> old(self).entries()[i].0 != token)
                    && final(self).entries() == old(self).entries(),
            },
    {
        match self.position_of_token(token) {
            Some(i) => {
                let ghost before = *self;
                let slot = self.slots.remove(i);
                assert(self.entries() =~= before.entries().remove(i as int));
                proof {
                    before.lemma_remove_entry(i as int, *self);
                }
                Some(slot.id)
            },
            None => None,
        }
    }

    /// Handles what reading the device with this token gave: its events go on to the
    /// pipeline, and a failed read drops the device without any event.
    pub fn on_read(&mut self, token: usize, outcome: ReadOutcome) -> (r: Vec<Event>)
        requires
            old(self).wf(),
        ensures
            final(self).wf(),
            final(self).next_token == old(self).next_token,
            match outcome {
                ReadOutcome::Events(raws) => final(self).entries() == old(self).entries() && (
                match old(self).token_id(token) {
                    Some(id) => event_views(r@) == forward_batch_spec(id, raws@),
                    None => r@.len() == 0,
                }),
                ReadOutcome::WouldBlock => final(self).entries() == old(self).entries() && r@.len() == 0,
                ReadOutcome::Failed => r@.len() == 0 && match old(self).token_id(token) {
                    Some(id) => exists|i: int|
                        0 <= i < old(self).entries().len() && old(self).entries()[i] == (token, id)
                            && final(self).entries() == old(self).entries().remove(i),
                    None => final(self).entries() == old(self).entries(),
                },
            },
    {
        match outcome {
            ReadOutcome::Events(raws) => match self.position_of_token(token) {
                Some(i) => {
                    proof {
                        self.lemma_token_id(i as int);
                    }
                    forward_events(self.slots[i].id.as_str(), &raws)
                },
                None => Vec::new(),
            },
            ReadOutcome::WouldBlock => Vec::new(),
            ReadOutcome::Failed => {
                let ghost before = *self;
                match self.remove_token(token) {
                    Some(id) => {
                        proof {
                            let i = choose|i: int| 0 <= i < before.entries().len() && before.entries()[i] == (token, id@)
                                && self.entries() == before.entries().remove(i);
                            before.lemma_token_id(i);
                        }
                    },
                    None => {},
                }
                Vec::new()
            },
        }
    }

    /// The id watched under `token`, if any.
    pub open spec fn token_id(&self, token: usize) -> Option<Seq<char>> {
        if exists|i: int| 0 <= i < self.entries().len() && self.entries()[i].0 == token {
            Some(self.entries()[choose|i: int| 0 <= i < self.entries().len() && self.entries()[i].0 == token].1)
        } else {
            None
        }
    }

    /// Removing an entry of a well-formed table removes its id from the watched ids.
    proof fn lemma_remove_entry(&self, i: int, after: DeviceTable)
        requires
            self.wf(),
            0 <= i < self.entries().len(),
            after.entries() == self.entries().remove(i),
        ensures
            after.watched_ids() == self.watched_ids().remove(self.entries()[i].1),
    {
        let e = self.entries();
        let id = e[i].1;
        assert forall|x: Seq<char>| after.watched_ids().contains(x) <==> self.watched_ids().remove(id).contains(x) by {
            if after.watched_ids().contains(x) {
                let k = choose|k: int| 0 <= k < after.entries().len() && after.entries()[k].1 == x;
                let src = if k < i { k } else { k + 1 };
                assert(e[src].1 == x);
                if k < i {
                    assert(e[k].1 != e[i].1);
                } else {
                    assert(e[i].1 != e[k + 1].1);
                }
            }
            if self.watched_ids().contains(x) && x != id {
                let k = choose|k: int| 0 <= k < e.len() && e[k].1 == x;
                assert(k != i);
                if k < i {
                    assert(after.entries()[k].1 == x);
                } else {
                    assert(after.entries()[k - 1].1 == x);
                }
            }
        }
        assert(after.watched_ids() =~= self.watched_ids().remove(id));
    }

    proof fn lemma_token_id(&self, i: int)
        requires
            self.wf(),
            0 <= i < self.entries().len(),
        ensures
            self.token_id(self.entries()[i].0) == Some(self.entries()[i].1),
    {
        let t = self.entries()[i].0;
        let j = choose|j: int| 0 <= j < self.entries().len() && self.entries()[j].0 == t;
        if j != i {
            if j < i {
                assert(self.entries()[j].0 != self.entries()[i].0);
            } else {
                assert(self.entries()[i].0 != self.entries()[j].0);
            }
        }
    }
}

} // verus!
