//! The executable runtime-object representation.
//!
//! Objects live in slots of a [`PyContext`]: one vector holds each slot's
//! strong-reference count, a parallel vector holds each slot's object.  A
//! [`PyObjectRef`] is a strong handle: it names a slot and stands for one
//! unit of that slot's count, which callers account for explicitly through
//! [`PyContext::incref`] and [`PyContext::decref`].  A [`PyObjectWeakRef`]
//! names a slot without owning any of its count; promoting it back to a
//! strong handle ([`PyContext::upgrade`]) succeeds exactly while the slot is
//! live.  The view of a context is a [`HeapModel`], and every operation's
//! contract is stated as a transition of that model.

use vstd::prelude::*;

use crate::model::{HeapModel, HostFunction, ObjModel, PayloadModel};

verus! {

/// A strong handle: names a heap slot and stands for one unit of its
/// strong-reference count.
#[derive(Clone, Copy, PartialEq, Eq, Structural, Debug)]
pub struct PyObjectRef {
    pub id: usize,
}

/// A weak handle: names a heap slot without contributing to its count.
#[derive(Clone, Copy, PartialEq, Eq, Structural, Debug)]
pub struct PyObjectWeakRef {
    pub id: usize,
}

/// The tagged sum of payloads a runtime object may carry.
pub enum PyObjectPayload {
    /// The runtime's canonical absent value.
    NoneValue,
    /// A plain object with no payload of interest.
    Instance,
    /// A weak handle to another object, installed once at construction and
    /// never swapped.
    WeakRef { referent: PyObjectWeakRef },
    /// A host-implemented callable.
    RustFunction { func: HostFunction },
    /// A class: its name, its base class, and its method table.
    Class { name: String, base: PyObjectRef, dict: Vec<(String, PyObjectRef)> },
    /// A module: its name and the names it publishes.
    Module { name: String, dict: Vec<(String, PyObjectRef)> },
}

/// One runtime object: its class and its payload.
pub struct PyObject {
    pub typ: PyObjectRef,
    pub payload: PyObjectPayload,
}

/// The runtime's object store and its two distinguished objects.
pub struct PyContext {
    /// Strong-reference count of each slot, by slot index.
    pub counts: Vec<u64>,
    /// The object held by each slot, by slot index.
    pub objs: Vec<PyObject>,
    /// Slot of the absent-value sentinel.
    pub none_id: usize,
    /// Slot of the root object class.
    pub object_type_id: usize,
}

/// The runtime seen by host-implemented functions.
pub struct VirtualMachine {
    pub ctx: PyContext,
}

/// The positional arguments of a call from script code.
pub struct PyFuncArgs {
    pub args: Vec<PyObjectRef>,
}

/// An error surfaced to script code.
#[derive(Clone, Copy, PartialEq, Eq, Structural, Debug)]
pub enum PyError {
    /// Wrong number of arguments: `expected` were required, `given` arrived.
    Arity { expected: usize, given: usize },
}

/// What a host-implemented function hands back to script code.
pub type PyResult = Result<PyObjectRef, PyError>;

/// Model of a method or module dictionary: each name with the slot it is
/// bound to.
pub open spec fn dict_model(dict: Seq<(String, PyObjectRef)>) -> Seq<(Seq<char>, int)> {
    dict.map_values(|entry: (String, PyObjectRef)| (entry.0@, entry.1.id as int))
}

impl View for PyObjectPayload {
    type V = PayloadModel;

    open spec fn view(&self) -> PayloadModel {
        match self {
            PyObjectPayload::NoneValue => PayloadModel::NoneValue,
            PyObjectPayload::Instance => PayloadModel::Instance,
            PyObjectPayload::WeakRef { referent } => PayloadModel::WeakRef {
                referent: referent.id as int,
            },
            PyObjectPayload::RustFunction { func } => PayloadModel::RustFunction { func: *func },
            PyObjectPayload::Class { name, base, dict } => PayloadModel::Class {
                name: name@,
                base: base.id as int,
                dict: dict_model(dict@),
            },
            PyObjectPayload::Module { name, dict } => PayloadModel::Module {
                name: name@,
                dict: dict_model(dict@),
            },
        }
    }
}

impl View for PyObject {
    type V = ObjModel;

    open spec fn view(&self) -> ObjModel {
        ObjModel { typ: self.typ.id as int, payload: self.payload@ }
    }
}

impl View for PyContext {
    type V = HeapModel;

    open spec fn view(&self) -> HeapModel {
        HeapModel {
            counts: self.counts@.map_values(|c: u64| c as nat),
            objs: self.objs@.map_values(|o: PyObject| o@),
            none_id: self.none_id as int,
            object_type: self.object_type_id as int,
        }
    }
}

impl PyObject {
    /// Build an object of class `typ` carrying `payload`.
    pub fn new(payload: PyObjectPayload, typ: PyObjectRef) -> (obj: PyObject)
        ensures
            obj@ == (ObjModel { typ: typ.id as int, payload: payload@ }),
    {
        PyObject { typ, payload }
    }
}

/// Obtain a non-owning observer of the object a strong handle designates.
/// The observer never participates in the referent's reachability: the
/// context is not touched and no count changes.
pub fn downgrade(obj: &PyObjectRef) -> (w: PyObjectWeakRef)
    ensures
        w.id == obj.id,
{
    PyObjectWeakRef { id: obj.id }
}

impl PyContext {
    /// Build a context holding the two distinguished objects: the root
    /// object class and the absent-value sentinel, each owned by the
    /// context itself.
    pub fn new() -> (ctx: PyContext)
        ensures
            ctx@.wf(),
            ctx@.len() == 2,
            ctx@.count(ctx@.none_id) == 1,
            ctx@.count(ctx@.object_type) == 1,
            ctx@.none_id != ctx@.object_type,
    {
        let root = PyObjectRef { id: 0 };
        let mut counts: Vec<u64> = Vec::new();
        counts.push(1);
        counts.push(1);
        let mut objs: Vec<PyObject> = Vec::new();
        objs.push(
            PyObject::new(
                PyObjectPayload::Class { name: "object".to_owned(), base: root, dict: Vec::new() },
                root,
            ),
        );
        objs.push(PyObject::new(PyObjectPayload::NoneValue, root));
        let ctx = PyContext { counts, objs, none_id: 1, object_type_id: 0 };
        proof {
            assert(ctx@.counts =~= seq![1nat, 1nat]);
            assert(ctx@.objs.len() == 2);
        }
        ctx
    }

    /// The root object class.
    pub fn object(&self) -> (r: PyObjectRef)
        ensures
            r.id as int == self@.object_type,
    {
        PyObjectRef { id: self.object_type_id }
    }

    /// Place an object in a fresh slot with one strong reference and hand
    /// back that reference.
    pub fn allocate(&mut self, obj: PyObject) -> (r: PyObjectRef)
        ensures
            r.id as int == old(self)@.len(),
            final(self)@ == old(self)@.allocate(obj.typ.id as int, obj.payload@),
    {
        let id = self.counts.len();
        self.counts.push(1);
        self.objs.push(obj);
        proof {
            assert(self@.counts =~= old(self)@.counts.push(1));
            assert(self@.objs =~= old(self)@.objs.push(obj@));
        }
        PyObjectRef { id }
    }

    /// Add one strong reference to the object `obj` designates.
    pub fn incref(&mut self, obj: &PyObjectRef)
        requires
            old(self)@.is_live(obj.id as int),
            old(self)@.count(obj.id as int) < u64::MAX,
        ensures
            final(self)@ == old(self)@.incref(obj.id as int),
    {
        let c = self.counts[obj.id];
        self.counts.set(obj.id, c + 1);
        proof {
            assert(self@.counts =~= old(self)@.counts.update(
                obj.id as int,
                (old(self)@.count(obj.id as int) + 1) as nat,
            ));
        }
    }

    /// Drop one strong reference from the object `obj` designates.  When
    /// the last one goes, the object is reclaimed; weak observers of it
    /// then promote to nothing, and nothing resurrects it.
    pub fn decref(&mut self, obj: &PyObjectRef)
        requires
            old(self)@.is_live(obj.id as int),
        ensures
            final(self)@ == old(self)@.decref(obj.id as int),
    {
        let c = self.counts[obj.id];
        self.counts.set(obj.id, c - 1);
        proof {
            assert(self@.counts =~= old(self)@.counts.update(
                obj.id as int,
                (old(self)@.count(obj.id as int) - 1) as nat,
            ));
        }
    }

    /// Strong-reference count of the object `obj` designates.
    pub fn strong_count(&self, obj: &PyObjectRef) -> (r: u64)
        requires
            self@.valid(obj.id as int),
        ensures
            r as nat == self@.count(obj.id as int),
    {
        self.counts[obj.id]
    }

    /// Whether `obj` designates a live class object.
    pub fn is_class(&self, obj: &PyObjectRef) -> (r: bool)
        requires
            self@.wf(),
        ensures
            r == (self@.is_live(obj.id as int) && self@.payload(obj.id as int) is Class),
    {
        if obj.id < self.counts.len() && self.counts[obj.id] > 0 {
            match &self.objs[obj.id].payload {
                PyObjectPayload::Class { .. } => true,
                _ => false,
            }
        } else {
            false
        }
    }

    /// The name of the class or module `obj` designates.
    pub fn name_of(&self, obj: &PyObjectRef) -> (r: &String)
        requires
            self@.wf(),
            self@.is_live(obj.id as int),
            self@.payload(obj.id as int) is Class || self@.payload(obj.id as int) is Module,
        ensures
            self@.payload(obj.id as int) matches PayloadModel::Class { name, .. } ==> r@ == name,
            self@.payload(obj.id as int) matches PayloadModel::Module { name, .. } ==> r@ == name,
    {
        match &self.objs[obj.id].payload {
            PyObjectPayload::Class { name, .. } => name,
            PyObjectPayload::Module { name, .. } => name,
            _ => vstd::pervasive::unreached(),
        }
    }

    /// The base class of the class `obj` designates.
    pub fn class_base(&self, obj: &PyObjectRef) -> (r: PyObjectRef)
        requires
            self@.wf(),
            self@.is_live(obj.id as int),
            self@.payload(obj.id as int) is Class,
        ensures
            r.id as int == self@.payload(obj.id as int)->base,
    {
        match &self.objs[obj.id].payload {
            PyObjectPayload::Class { base, .. } => *base,
            _ => vstd::pervasive::unreached(),
        }
    }

    /// How many names the class or module `obj` publishes.
    pub fn attr_count(&self, obj: &PyObjectRef) -> (r: usize)
        requires
            self@.wf(),
            self@.is_live(obj.id as int),
        ensures
            r == self@.dict(obj.id as int).len(),
    {
        match &self.objs[obj.id].payload {
            PyObjectPayload::Class { dict, .. } => dict.len(),
            PyObjectPayload::Module { dict, .. } => dict.len(),
            _ => 0,
        }
    }

    /// The `i`-th name the class or module `obj` publishes.
    pub fn attr_name_at(&self, obj: &PyObjectRef, i: usize) -> (r: &String)
        requires
            self@.wf(),
            self@.is_live(obj.id as int),
            i < self@.dict(obj.id as int).len(),
        ensures
            r@ == self@.dict(obj.id as int)[i as int].0,
    {
        match &self.objs[obj.id].payload {
            PyObjectPayload::Class { dict, .. } => {
                let entry: &(String, PyObjectRef) = &dict[i];
                &entry.0
            },
            PyObjectPayload::Module { dict, .. } => {
                let entry: &(String, PyObjectRef) = &dict[i];
                &entry.0
            },
            _ => vstd::pervasive::unreached(),
        }
    }

    /// The object bound to the `i`-th name the class or module `obj`
    /// publishes.
    pub fn attr_value_at(&self, obj: &PyObjectRef, i: usize) -> (r: PyObjectRef)
        requires
            self@.wf(),
            self@.is_live(obj.id as int),
            i < self@.dict(obj.id as int).len(),
        ensures
            r.id as int == self@.dict(obj.id as int)[i as int].1,
    {
        match &self.objs[obj.id].payload {
            PyObjectPayload::Class { dict, .. } => {
                let entry: &(String, PyObjectRef) = &dict[i];
                entry.1
            },
            PyObjectPayload::Module { dict, .. } => {
                let entry: &(String, PyObjectRef) = &dict[i];
                entry.1
            },
            _ => vstd::pervasive::unreached(),
        }
    }

    /// Promote a weak observer to a strong handle.  The promotion succeeds,
    /// and takes one unit of the count, if and only if the observed object
    /// is still live; a reclaimed observee yields nothing and the heap is
    /// left untouched.
    pub fn upgrade(&mut self, w: &PyObjectWeakRef) -> (r: Option<PyObjectRef>)
        requires
            old(self)@.is_live(w.id as int) ==> old(self)@.count(w.id as int) < u64::MAX,
        ensures
            final(self)@ == old(self)@.incref(w.id as int),
            r == if old(self)@.is_live(w.id as int) {
                Some(PyObjectRef { id: w.id })
            } else {
                None::<PyObjectRef>
            },
    {
        if w.id < self.counts.len() {
            let c = self.counts[w.id];
            if c > 0 {
                self.counts.set(w.id, c + 1);
                proof {
                    assert(self@.counts =~= old(self)@.counts.update(
                        w.id as int,
                        (old(self)@.count(w.id as int) + 1) as nat,
                    ));
                }
                return Some(PyObjectRef { id: w.id });
            }
        }
        None
    }
}

impl VirtualMachine {
    /// Build a runtime around a fresh context.
    pub fn new() -> (vm: VirtualMachine)
        ensures
            vm.ctx@.wf(),
            vm.ctx@.len() == 2,
            vm.ctx@.count(vm.ctx@.none_id) == 1,
            vm.ctx@.count(vm.ctx@.object_type) == 1,
            vm.ctx@.none_id != vm.ctx@.object_type,
    {
        VirtualMachine { ctx: PyContext::new() }
    }

    /// A strong handle to the absent-value sentinel.
    pub fn get_none(&self) -> (r: PyObjectRef)
        ensures
            r.id as int == self.ctx@.none_id,
    {
        PyObjectRef { id: self.ctx.none_id }
    }
}

} // verus!
