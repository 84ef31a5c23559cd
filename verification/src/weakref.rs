//! The weak-reference primitive published to script code.
//!
//! [`mk_module`] registers a class `ref` — a direct descendant of the root
//! object class — inside a namespace `_weakref` that publishes exactly that
//! one name.  Constructing an instance ([`ref_new`]) installs a weak-handle
//! payload observing the referent; invoking the instance ([`ref_call`])
//! promotes the observer and yields either a strong handle to the referent
//! or, once the referent has been reclaimed, the absent-value sentinel.
//! Neither operation ever adds to the referent's strong-reference count on
//! behalf of the weak handle itself, so a weak handle never keeps its
//! referent alive.

use vstd::prelude::*;

use crate::model::{HeapModel, HostFunction, PayloadModel};
use crate::pyobject::{
    downgrade, PyContext, PyError, PyFuncArgs, PyObject, PyObjectPayload, PyObjectRef,
    PyObjectWeakRef, PyResult, VirtualMachine,
};

verus! {

/// The heap that building the `_weakref` module on top of `h` leads to:
/// two host callables, the `ref` class binding them as `__new__` and
/// `__call__`, and the module publishing the class under the name `ref`.
pub open spec fn mk_module_heap(h: HeapModel) -> HeapModel {
    let ot = h.object_type;
    h.allocate(ot, PayloadModel::RustFunction { func: HostFunction::RefNew }).allocate(
        ot,
        PayloadModel::RustFunction { func: HostFunction::RefCall },
    ).allocate(
        ot,
        PayloadModel::Class {
            name: "ref"@,
            base: ot,
            dict: seq![("__new__"@, h.len()), ("__call__"@, h.len() + 1)],
        },
    ).allocate(
        ot,
        PayloadModel::Module { name: "_weakref"@, dict: seq![("ref"@, h.len() + 2)] },
    )
}

/// Slot `c` of `h` holds the weak-reference class: a live class named
/// `ref`, a direct descendant of the root object class `object_type`,
/// whose two methods dispatch to the construction and invocation hooks.
pub open spec fn ref_class_shape(h: HeapModel, c: int, object_type: int) -> bool {
    &&& h.is_live(c)
    &&& h.payload(c) matches PayloadModel::Class { name, base, dict } && {
        &&& name == "ref"@
        &&& base == object_type
        &&& dict.len() == 2
        &&& dict[0].0 == "__new__"@
        &&& h.is_live(dict[0].1)
        &&& h.payload(dict[0].1) == (PayloadModel::RustFunction { func: HostFunction::RefNew })
        &&& dict[1].0 == "__call__"@
        &&& h.is_live(dict[1].1)
        &&& h.payload(dict[1].1) == (PayloadModel::RustFunction { func: HostFunction::RefCall })
    }
}

/// Slot `m` of `h` holds the `_weakref` namespace: a live module of that
/// name publishing exactly one name, `ref`, bound to the weak-reference
/// class.
pub open spec fn weakref_module_shape(h: HeapModel, m: int, object_type: int) -> bool {
    &&& h.is_live(m)
    &&& h.payload(m) matches PayloadModel::Module { name, dict } && {
        &&& name == "_weakref"@
        &&& dict.len() == 1
        &&& dict[0].0 == "ref"@
        &&& ref_class_shape(h, dict[0].1, object_type)
    }
}

/// Build the `_weakref` module: register the class `ref`, whose instances
/// are weak handles, with its construction and invocation hooks, and
/// publish it as the sole name of a fresh namespace.
pub fn mk_module(ctx: &mut PyContext) -> (r: PyObjectRef)
    requires
        old(ctx)@.wf(),
    ensures
        r.id as int == old(ctx)@.len() + 3,
        final(ctx)@ == mk_module_heap(old(ctx)@),
        weakref_module_shape(final(ctx)@, r.id as int, old(ctx)@.object_type),
        final(ctx)@.wf(),
{
    let ghost h0 = ctx@;
    let object_cls = ctx.object();
    let new_fn = ctx.allocate(
        PyObject::new(PyObjectPayload::RustFunction { func: HostFunction::RefNew }, object_cls),
    );
    let call_fn = ctx.allocate(
        PyObject::new(PyObjectPayload::RustFunction { func: HostFunction::RefCall }, object_cls),
    );
    let mut class_dict: Vec<(String, PyObjectRef)> = Vec::new();
    class_dict.push(("__new__".to_owned(), new_fn));
    class_dict.push(("__call__".to_owned(), call_fn));
    proof {
        assert(crate::pyobject::dict_model(class_dict@) =~= seq![
            ("__new__"@, h0.len()),
            ("__call__"@, h0.len() + 1),
        ]);
    }
    let py_ref_class = ctx.allocate(
        PyObject::new(
            PyObjectPayload::Class {
                name: "ref".to_owned(),
                base: object_cls,
                dict: class_dict,
            },
            object_cls,
        ),
    );
    let mut module_dict: Vec<(String, PyObjectRef)> = Vec::new();
    module_dict.push(("ref".to_owned(), py_ref_class));
    proof {
        assert(crate::pyobject::dict_model(module_dict@) =~= seq![("ref"@, h0.len() + 2)]);
    }
    let module_ref = ctx.allocate(
        PyObject::new(
            PyObjectPayload::Module { name: "_weakref".to_owned(), dict: module_dict },
            object_cls,
        ),
    );
    proof {
        let hf = ctx@;
        assert(hf == mk_module_heap(h0));
        assert(weakref_module_shape(hf, h0.len() + 3, h0.object_type));
        assert(hf.wf());
    }
    module_ref
}

/// The construction hook of the `ref` class.  It takes exactly two
/// positional arguments — the class to instantiate and the referent — and
/// allocates an instance of that class whose payload is a weak handle
/// observing the referent.  The referent is treated opaquely, and its
/// strong-reference count is not touched: the new handle does not own it.
/// Any other arity is rejected with an arity error and the heap is left
/// untouched.
pub fn ref_new(vm: &mut VirtualMachine, args: PyFuncArgs) -> (r: PyResult)
    ensures
        args.args@.len() == 2 ==> {
            &&& final(vm).ctx@ == old(vm).ctx@.allocate(
                args.args@[0].id as int,
                (PayloadModel::WeakRef { referent: args.args@[1].id as int }),
            )
            &&& r matches Ok(w) && w.id as int == old(vm).ctx@.len()
        },
        args.args@.len() != 2 ==> {
            &&& final(vm).ctx@ == old(vm).ctx@
            &&& r matches Err(e) && e == (PyError::Arity {
                expected: 2,
                given: args.args.len(),
            })
        },
{
    if args.args.len() != 2 {
        return Err(PyError::Arity { expected: 2, given: args.args.len() });
    }
    let cls = args.args[0];
    let referent = downgrade(&args.args[1]);
    Ok(vm.ctx.allocate(PyObject::new(PyObjectPayload::WeakRef { referent }, cls)))
}

/// The invocation hook of the `ref` class.  It takes exactly one positional
/// argument, the weak-handle instance itself; any further argument is
/// rejected with an arity error.  It promotes the observer stored in the
/// instance's payload: while the referent is live the result is a fresh
/// strong handle to it (the promotion takes one unit of its count); once
/// the referent has been reclaimed the result is the absent-value sentinel
/// and the heap is left untouched.  A reclaimed referent is a normal
/// outcome, never an error.
pub fn ref_call(vm: &mut VirtualMachine, args: PyFuncArgs) -> (r: PyResult)
    requires
        args.args@.len() == 1 ==> {
            let h = old(vm).ctx@;
            let recv = args.args@[0].id as int;
            &&& h.wf()
            &&& h.is_live(recv)
            &&& h.payload(recv) is WeakRef
            &&& h.is_live(h.payload(recv)->referent) ==> h.count(h.payload(recv)->referent)
                < u64::MAX
        },
    ensures
        args.args@.len() == 1 ==> {
            let h = old(vm).ctx@;
            let t = h.payload(args.args@[0].id as int)->referent;
            &&& final(vm).ctx@ == h.incref(t)
            &&& r matches Ok(res) && res.id as int == h.deref_id(t)
        },
        args.args@.len() != 1 ==> {
            &&& final(vm).ctx@ == old(vm).ctx@
            &&& r matches Err(e) && e == (PyError::Arity {
                expected: 1,
                given: args.args.len(),
            })
        },
{
    if args.args.len() != 1 {
        return Err(PyError::Arity { expected: 1, given: args.args.len() });
    }
    let cls = args.args[0];
    let referent = get_value(&vm.ctx, &cls);
    let py_obj = if let Some(obj) = vm.ctx.upgrade(&referent) {
        obj
    } else {
        vm.get_none()
    };
    Ok(py_obj)
}

/// The payload-extraction helper both hooks rely on: given a live object
/// whose payload is a weak handle, hand out the observer stored in it.  An
/// object of any other payload is a type-dispatch error inside the runtime
/// itself, unreachable through the public surface, and is excluded here
/// rather than handled.
pub fn get_value(ctx: &PyContext, obj: &PyObjectRef) -> (w: PyObjectWeakRef)
    requires
        ctx@.wf(),
        ctx@.is_live(obj.id as int),
        ctx@.payload(obj.id as int) is WeakRef,
    ensures
        w.id as int == ctx@.payload(obj.id as int)->referent,
{
    match &ctx.objs[obj.id].payload {
        PyObjectPayload::WeakRef { referent } => *referent,
        _ => vstd::pervasive::unreached(),
    }
}

} // verus!
