//! The mathematical model of the runtime heap.
//!
//! A heap is a sequence of slots, one per object ever allocated.  Each slot
//! carries a strong-reference count and the object's data (its class and its
//! payload).  An object is *live* while its count is positive; once the count
//! reaches zero the object counts as reclaimed, and no operation ever raises
//! the count of a reclaimed object again.  Slots are never reused, so an
//! object's identity is simply its slot index.

use vstd::prelude::*;

verus! {

/// Which host-implemented function a runtime callable dispatches to.
#[derive(Clone, Copy, PartialEq, Eq, Structural, Debug)]
pub enum HostFunction {
    /// The construction hook of the weak-reference class.
    RefNew,
    /// The invocation hook of the weak-reference class.
    RefCall,
}

/// Model of a runtime object's payload: the tagged sum of everything an
/// object may carry.  Names are sequences of characters and object
/// references are slot indices.
pub enum PayloadModel {
    /// The runtime's canonical absent value.
    NoneValue,
    /// A plain object with no payload of interest.
    Instance,
    /// A weak handle: observes the slot `referent` without owning it.
    WeakRef { referent: int },
    /// A host-implemented callable.
    RustFunction { func: HostFunction },
    /// A class: its name, its base class, and its method table.
    Class { name: Seq<char>, base: int, dict: Seq<(Seq<char>, int)> },
    /// A module: its name and the names it publishes.
    Module { name: Seq<char>, dict: Seq<(Seq<char>, int)> },
}

/// Model of one heap object: its class and its payload.
pub struct ObjModel {
    pub typ: int,
    pub payload: PayloadModel,
}

/// Model of the runtime heap together with its two distinguished objects:
/// the absent-value sentinel and the root object class.
pub struct HeapModel {
    /// Strong-reference count of each slot, by slot index.
    pub counts: Seq<nat>,
    /// The object held by each slot, by slot index.
    pub objs: Seq<ObjModel>,
    /// Slot of the absent-value sentinel.
    pub none_id: int,
    /// Slot of the root object class.
    pub object_type: int,
}

impl HeapModel {
    /// Number of slots ever allocated.
    pub open spec fn len(self) -> int {
        self.counts.len() as int
    }

    /// `id` names a slot of this heap.
    pub open spec fn valid(self, id: int) -> bool {
        0 <= id < self.len()
    }

    /// Strong-reference count of slot `id`.
    pub open spec fn count(self, id: int) -> nat
        recommends
            self.valid(id),
    {
        self.counts[id]
    }

    /// Slot `id` holds an object that has not been reclaimed.
    pub open spec fn is_live(self, id: int) -> bool {
        self.valid(id) && self.counts[id] > 0
    }

    /// Class of the object in slot `id`.
    pub open spec fn typ(self, id: int) -> int
        recommends
            self.valid(id),
    {
        self.objs[id].typ
    }

    /// Payload of the object in slot `id`.
    pub open spec fn payload(self, id: int) -> PayloadModel
        recommends
            self.valid(id),
    {
        self.objs[id].payload
    }

    /// The names the object in slot `id` publishes: the method table of a
    /// class, the exported names of a module, nothing for anything else.
    pub open spec fn dict(self, id: int) -> Seq<(Seq<char>, int)>
        recommends
            self.valid(id),
    {
        match self.payload(id) {
            PayloadModel::Class { dict, .. } => dict,
            PayloadModel::Module { dict, .. } => dict,
            _ => Seq::empty(),
        }
    }

    /// The heap is well formed: counts and objects line up, and the two
    /// distinguished objects exist, are live, and have the expected shape.
    pub open spec fn wf(self) -> bool {
        &&& self.objs.len() == self.counts.len()
        &&& self.is_live(self.none_id)
        &&& self.payload(self.none_id) is NoneValue
        &&& self.is_live(self.object_type)
        &&& self.payload(self.object_type) is Class
    }

    /// Allocate a fresh object in a new slot with one strong reference.
    pub open spec fn allocate(self, typ: int, payload: PayloadModel) -> HeapModel {
        HeapModel {
            counts: self.counts.push(1),
            objs: self.objs.push(ObjModel { typ, payload }),
            none_id: self.none_id,
            object_type: self.object_type,
        }
    }

    /// Add one strong reference to slot `id`.  Reclaimed slots are left
    /// untouched: a dead object cannot be resurrected.
    pub open spec fn incref(self, id: int) -> HeapModel {
        if self.is_live(id) {
            HeapModel {
                counts: self.counts.update(id, (self.counts[id] + 1) as nat),
                objs: self.objs,
                none_id: self.none_id,
                object_type: self.object_type,
            }
        } else {
            self
        }
    }

    /// Drop one strong reference from slot `id`.  When the last one goes,
    /// the count reaches zero and the object counts as reclaimed.
    pub open spec fn decref(self, id: int) -> HeapModel {
        if self.is_live(id) {
            HeapModel {
                counts: self.counts.update(id, (self.counts[id] - 1) as nat),
                objs: self.objs,
                none_id: self.none_id,
                object_type: self.object_type,
            }
        } else {
            self
        }
    }

    /// The identity that dereferencing a weak observer of slot `id` yields:
    /// the referent itself while it is live, the absent-value sentinel once
    /// it is reclaimed.
    pub open spec fn deref_id(self, id: int) -> int {
        if self.is_live(id) {
            id
        } else {
            self.none_id
        }
    }
}

/// One primitive move of the runtime heap.  Every state change an operation
/// of this crate performs is one such move or a composition of them.
pub enum HeapAction {
    Alloc { typ: int, payload: PayloadModel },
    Incref { id: int },
    Decref { id: int },
}

/// The heap that one primitive move leads to.
pub open spec fn apply_action(h: HeapModel, a: HeapAction) -> HeapModel {
    match a {
        HeapAction::Alloc { typ, payload } => h.allocate(typ, payload),
        HeapAction::Incref { id } => h.incref(id),
        HeapAction::Decref { id } => h.decref(id),
    }
}

} // verus!
