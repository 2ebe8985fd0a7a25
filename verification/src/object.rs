//! Object identifiers and the registry that records which interface each live identifier
//! is bound to.

use vstd::prelude::*;

verus! {

/// Identifiers `1..=RESERVED_IDS` are handed out by the bootstrap itself; the registry
/// allocates above them.
pub const RESERVED_IDS: u32 = 8;

/// Identifies one live protocol object. Never zero.
#[derive(Clone, Copy, Debug, PartialEq, Eq, Structural)]
pub struct ObjectId {
    raw: u32,
}

impl View for ObjectId {
    type V = u32;

    closed spec fn view(&self) -> u32 {
        self.raw
    }
}

impl ObjectId {
    #[verifier::type_invariant]
    spec fn nonzero(self) -> bool {
        self.raw != 0
    }

    /// The identifier whose number is `raw`.
    pub closed spec fn of(raw: u32) -> ObjectId {
        ObjectId { raw }
    }

    /// The identifier with the given number, if the number can name an object.
    pub fn new(raw: u32) -> (id: Option<ObjectId>)
        ensures
            raw == 0 ==> id is None,
            raw != 0 ==> id == Some(ObjectId::of(raw)) && id->0@ == raw,
    {
        if raw == 0 {
            None
        } else {
            Some(ObjectId { raw })
        }
    }

    /// The identifier's number.
    #[must_use]
    pub fn get(&self) -> (raw: u32)
        ensures
            raw == self@,
            raw != 0,
    {
        proof {
            use_type_invariant(self);
        }
        self.raw
    }

    /// Two identifiers with the same number are the same identifier.
    pub proof fn lemma_same_number(a: ObjectId, b: ObjectId)
        ensures
            (a@ == b@) <==> (a == b),
            ObjectId::of(a@) == a,
    {
    }

    /// The identifier of a number has that number.
    pub proof fn lemma_number_of(raw: u32)
        ensures
            ObjectId::of(raw)@ == raw,
    {
    }
}

/// The interface an object speaks, which decides how its messages are decoded.
#[derive(Clone, Copy, Debug, PartialEq, Eq, Structural)]
pub enum WlDynObj {
    Display,
    Registry,
    Compositor,
    Shm,
    Viewporter,
    LayerShell,
    Callback,
    Output,
    FractionalScaleManager,
}

/// What a registry holds: each live identifier's number with its interface.
pub type Bindings = Map<u32, WlDynObj>;

/// `id` is free in `m`, lies above the reserved range, and every identifier between the
/// reserved range and `id` is taken.
pub open spec fn is_lowest_free(m: Bindings, id: u32) -> bool {
    &&& id > RESERVED_IDS
    &&& !m.dom().contains(id)
    &&& forall|j: u32| RESERVED_IDS < j < id ==> #[trigger] m.dom().contains(j)
}

/// Some identifier above the reserved range is free in `m`.
pub open spec fn has_room(m: Bindings) -> bool {
    exists|id: u32| id > RESERVED_IDS && !#[trigger] m.dom().contains(id)
}

/// Maps each live object identifier to the interface bound to it.
pub struct ObjectManager {
    /// Slot `i` belongs to identifier `i + 1`.
    slots: Vec<Option<WlDynObj>>,
    /// No slot of the allocated range below this index is empty.
    first_free: usize,
}

impl View for ObjectManager {
    type V = Bindings;

    closed spec fn view(&self) -> Bindings {
        Map::new(
            |id: u32| 1 <= id <= self.slots@.len() && self.slots@[id - 1] is Some,
            |id: u32| self.slots@[id - 1]->0,
        )
    }
}

impl Clone for ObjectManager {
    fn clone(&self) -> (copy: ObjectManager)
        ensures
            copy@ == self@,
            self.wf() ==> copy.wf(),
    {
        let mut slots: Vec<Option<WlDynObj>> = Vec::new();
        let mut i: usize = 0;
        while i < self.slots.len()
            invariant
                i <= self.slots@.len(),
                slots@ == self.slots@.take(i as int),
            decreases self.slots@.len() - i,
        {
            slots.push(self.slots[i]);
            i = i + 1;
            assert(slots@ =~= self.slots@.take(i as int));
        }
        assert(slots@ =~= self.slots@);
        let copy = ObjectManager { slots, first_free: self.first_free };
        assert(copy@ =~= self@);
        copy
    }
}

impl ObjectManager {
    /// The representation invariant.
    pub closed spec fn wf(&self) -> bool {
        &&& RESERVED_IDS <= self.slots@.len() <= u32::MAX
        &&& RESERVED_IDS <= self.first_free <= self.slots@.len()
        &&& forall|i: int| RESERVED_IDS <= i < self.first_free ==> (#[trigger] self.slots@[i]) is Some
    }

    /// A registry in which only the display and the registry object are bound.
    pub fn new() -> (m: ObjectManager)
        ensures
            m.wf(),
            m@ =~= map![1u32 => WlDynObj::Display, 2u32 => WlDynObj::Registry],
    {
        let mut slots: Vec<Option<WlDynObj>> = Vec::new();
        slots.push(Some(WlDynObj::Display));
        slots.push(Some(WlDynObj::Registry));
        while slots.len() < RESERVED_IDS as usize
            invariant
                2 <= slots@.len() <= RESERVED_IDS,
                slots@[0] == Some(WlDynObj::Display),
                slots@[1] == Some(WlDynObj::Registry),
                forall|i: int| 2 <= i < slots@.len() ==> (#[trigger] slots@[i]) is None,
            decreases RESERVED_IDS - slots@.len(),
        {
            slots.push(None);
        }
        ObjectManager { slots, first_free: RESERVED_IDS as usize }
    }

    /// Whether `id` is bound.
    pub fn contains(&self, id: ObjectId) -> (bound: bool)
        requires
            self.wf(),
        ensures
            bound == self@.dom().contains(id@),
    {
        let raw: u32 = id.get();
        let i: usize = (raw - 1) as usize;
        i < self.slots.len() && self.slots[i].is_some()
    }

    /// The interface bound to `id`.
    pub fn get(&self, id: ObjectId) -> (object: WlDynObj)
        requires
            self.wf(),
            self@.dom().contains(id@),
        ensures
            object == self@[id@],
    {
        let raw: u32 = id.get();
        self.slots[(raw - 1) as usize].unwrap()
    }

    /// Unbinds `id`, which may then be handed out again.
    pub fn remove(&mut self, id: ObjectId)
        requires
            old(self).wf(),
            old(self)@.dom().contains(id@),
        ensures
            final(self).wf(),
            final(self)@ =~= old(self)@.remove(id@),
    {
        let raw: u32 = id.get();
        let i: usize = (raw - 1) as usize;
        self.slots[i] = None;
        if i >= RESERVED_IDS as usize && i < self.first_free {
            self.first_free = i;
        }
    }

    /// Binds the reserved identifier `id` to `object`.
    pub fn bind(&mut self, id: ObjectId, object: WlDynObj)
        requires
            old(self).wf(),
            id@ <= RESERVED_IDS,
            !old(self)@.dom().contains(id@),
        ensures
            final(self).wf(),
            final(self)@ =~= old(self)@.insert(id@, object),
    {
        let raw: u32 = id.get();
        let i: usize = (raw - 1) as usize;
        self.slots[i] = Some(object);
    }

    /// Binds the lowest free identifier above the reserved range to `object` and
    /// returns it; `None`, with nothing changed, when no such identifier is free.
    pub fn try_create(&mut self, object: WlDynObj) -> (created: Option<ObjectId>)
        requires
            old(self).wf(),
        ensures
            final(self).wf(),
            created is Some <==> has_room(old(self)@),
            created matches Some(id) ==> is_lowest_free(old(self)@, id@) && final(self)@
                =~= old(self)@.insert(id@, object),
            created is None ==> final(self)@ =~= old(self)@,
    {
        let n: usize = self.slots.len();
        let mut i: usize = self.first_free;
        while i < n && self.slots[i].is_some()
            invariant
                self.wf(),
                *self == *old(self),
                n == self.slots@.len(),
                self.first_free <= i <= n,
                forall|k: int| RESERVED_IDS <= k < i ==> (#[trigger] self.slots@[k]) is Some,
            decreases n - i,
        {
            i = i + 1;
        }
        if i < n {
            self.slots[i] = Some(object);
            self.first_free = i + 1;
        } else if n < u32::MAX as usize {
            self.slots.push(Some(object));
            self.first_free = n + 1;
        } else {
            assert(!has_room(self@)) by {
                assert forall|id: u32| id > RESERVED_IDS implies self@.dom().contains(id) by {
                    assert(self.slots@[id - 1] is Some);
                }
            }
            return None;
        }
        let raw: u32 = (i + 1) as u32;
        assert(is_lowest_free(old(self)@, raw)) by {
            assert forall|j: u32| RESERVED_IDS < j < raw implies old(self)@.dom().contains(j) by {
                assert(old(self).slots@[j - 1] is Some);
            }
        }
        ObjectId::new(raw)
    }

    /// Binds the lowest free identifier above the reserved range to `object` and
    /// returns it.
    pub fn create(&mut self, object: WlDynObj) -> (id: ObjectId)
        requires
            old(self).wf(),
            has_room(old(self)@),
        ensures
            final(self).wf(),
            is_lowest_free(old(self)@, id@),
            final(self)@ =~= old(self)@.insert(id@, object),
    {
        self.try_create(object).unwrap()
    }
}

/// Only one identifier can be the lowest free one.
pub proof fn lemma_lowest_free_is_unique(m: Bindings, a: u32, b: u32)
    requires
        is_lowest_free(m, a),
        is_lowest_free(m, b),
    ensures
        a == b,
{
    if a < b {
        assert(m.dom().contains(a));
    } else if b < a {
        assert(m.dom().contains(b));
    }
}

/// Right after an identifier was created it is bound to the interface it was created
/// with. Once it is removed again it is bound to nothing, so that asking for its
/// interface is ruled out, and it is once more the identifier the next creation returns.
pub proof fn lemma_create_then_remove(before: Bindings, id: u32, object: WlDynObj)
    requires
        is_lowest_free(before, id),
    ensures
        before.insert(id, object).dom().contains(id),
        before.insert(id, object)[id] == object,
        !before.insert(id, object).remove(id).dom().contains(id),
        is_lowest_free(before.insert(id, object).remove(id), id),
{
    assert(before.insert(id, object).remove(id) =~= before);
}

/// Removing an identifier above the reserved range makes room, and the next creation
/// returns that identifier or a lower one.
pub proof fn lemma_removed_id_is_reusable(m: Bindings, id: u32, next: u32)
    requires
        id > RESERVED_IDS,
        is_lowest_free(m.remove(id), next),
    ensures
        has_room(m.remove(id)),
        next <= id,
{
    assert(!m.remove(id).dom().contains(id));
}

} // verus!
