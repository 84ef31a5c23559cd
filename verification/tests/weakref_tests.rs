use pyweakref::pyobject::{
    downgrade, PyError, PyFuncArgs, PyObject, PyObjectPayload, PyObjectRef, VirtualMachine,
};
use pyweakref::weakref::{get_value, mk_module, ref_call, ref_new};

/// A runtime with the `_weakref` module registered; hands back the module
/// object and the `ref` class it publishes.
fn new_vm() -> (VirtualMachine, PyObjectRef, PyObjectRef) {
    let mut vm = VirtualMachine::new();
    let module = mk_module(&mut vm.ctx);
    let cls = vm.ctx.attr_value_at(&module, 0);
    (vm, module, cls)
}

/// Allocate a fresh plain object held by one strong handle.
fn alloc_instance(vm: &mut VirtualMachine) -> PyObjectRef {
    let root = vm.ctx.object();
    vm.ctx.allocate(PyObject::new(PyObjectPayload::Instance, root))
}

/// `w = ref(obj)`.
fn make_ref(vm: &mut VirtualMachine, cls: PyObjectRef, obj: PyObjectRef) -> PyObjectRef {
    ref_new(vm, PyFuncArgs { args: vec![cls, obj] }).unwrap()
}

/// `w()`.
fn call_ref(vm: &mut VirtualMachine, w: PyObjectRef) -> PyObjectRef {
    ref_call(vm, PyFuncArgs { args: vec![w] }).unwrap()
}

#[test]
fn scenario_basic_recovery() {
    let (mut vm, _module, cls) = new_vm();
    let obj = alloc_instance(&mut vm);
    let w = make_ref(&mut vm, cls, obj);
    let recovered = call_ref(&mut vm, w);
    assert_eq!(recovered, obj);
}

#[test]
fn scenario_collection() {
    let (mut vm, _module, cls) = new_vm();
    let obj = alloc_instance(&mut vm);
    let w = make_ref(&mut vm, cls, obj);
    // drop the only strong handle: the object is reclaimed at once
    vm.ctx.decref(&obj);
    let result = call_ref(&mut vm, w);
    assert_eq!(result, vm.get_none());
    assert_ne!(result, obj);
}

#[test]
fn scenario_multiple_weak_handles() {
    let (mut vm, _module, cls) = new_vm();
    let obj = alloc_instance(&mut vm);
    let w1 = make_ref(&mut vm, cls, obj);
    let w2 = make_ref(&mut vm, cls, obj);
    let r1 = call_ref(&mut vm, w1);
    let r2 = call_ref(&mut vm, w2);
    assert_eq!(r1, obj);
    assert_eq!(r2, obj);
    // drop the promoted handles, then the first one
    vm.ctx.decref(&r1);
    vm.ctx.decref(&r2);
    vm.ctx.decref(&obj);
    assert_eq!(call_ref(&mut vm, w1), vm.get_none());
    assert_eq!(call_ref(&mut vm, w2), vm.get_none());
}

#[test]
fn scenario_arity_on_construction() {
    let (mut vm, _module, cls) = new_vm();
    // script-level `ref()`: only the class arrives, no referent
    let r = ref_new(&mut vm, PyFuncArgs { args: vec![cls] });
    assert!(matches!(r, Err(PyError::Arity { expected: 2, given: 1 })));
    // no arguments at all
    let r = ref_new(&mut vm, PyFuncArgs { args: vec![] });
    assert!(matches!(r, Err(PyError::Arity { expected: 2, given: 0 })));
    // one argument too many
    let obj = alloc_instance(&mut vm);
    let extra = alloc_instance(&mut vm);
    let r = ref_new(&mut vm, PyFuncArgs { args: vec![cls, obj, extra] });
    assert!(matches!(r, Err(PyError::Arity { expected: 2, given: 3 })));
}

#[test]
fn scenario_arity_on_invocation() {
    let (mut vm, _module, cls) = new_vm();
    let obj = alloc_instance(&mut vm);
    let w = make_ref(&mut vm, cls, obj);
    // script-level `w(123)`: the receiver plus one extra argument
    let extra = alloc_instance(&mut vm);
    let r = ref_call(&mut vm, PyFuncArgs { args: vec![w, extra] });
    assert!(matches!(r, Err(PyError::Arity { expected: 1, given: 2 })));
    // the receiver is still live and still recovers the referent
    assert_eq!(call_ref(&mut vm, w), obj);
}

#[test]
fn scenario_module_surface() {
    let (vm, module, cls) = new_vm();
    // the namespace is `_weakref` and it publishes exactly one name, `ref`
    assert_eq!(vm.ctx.name_of(&module).as_str(), "_weakref");
    assert_eq!(vm.ctx.attr_count(&module), 1);
    assert_eq!(vm.ctx.attr_name_at(&module, 0).as_str(), "ref");
    assert_eq!(vm.ctx.attr_value_at(&module, 0), cls);
    // `ref` is a class descending directly from the root object class
    assert!(vm.ctx.is_class(&cls));
    assert_eq!(vm.ctx.name_of(&cls).as_str(), "ref");
    assert_eq!(vm.ctx.class_base(&cls), vm.ctx.object());
    // its two methods are the construction and invocation hooks
    assert_eq!(vm.ctx.attr_count(&cls), 2);
    assert_eq!(vm.ctx.attr_name_at(&cls, 0).as_str(), "__new__");
    assert_eq!(vm.ctx.attr_name_at(&cls, 1).as_str(), "__call__");
}

#[test]
fn liveness_while_strongly_held() {
    let (mut vm, _module, cls) = new_vm();
    let obj = alloc_instance(&mut vm);
    // a second strong path to the object
    vm.ctx.incref(&obj);
    let w = make_ref(&mut vm, cls, obj);
    // dropping one of the two strong handles leaves the object live
    vm.ctx.decref(&obj);
    let r = call_ref(&mut vm, w);
    assert_eq!(r, obj);
    vm.ctx.decref(&r);
    // dropping the last one reclaims it
    vm.ctx.decref(&obj);
    assert_eq!(call_ref(&mut vm, w), vm.get_none());
}

#[test]
fn monotonicity_once_dead_always_dead() {
    let (mut vm, _module, cls) = new_vm();
    let obj = alloc_instance(&mut vm);
    let w = make_ref(&mut vm, cls, obj);
    vm.ctx.decref(&obj);
    // every later dereference keeps yielding the sentinel, and other
    // allocations in between change nothing
    assert_eq!(call_ref(&mut vm, w), vm.get_none());
    let _other = alloc_instance(&mut vm);
    assert_eq!(call_ref(&mut vm, w), vm.get_none());
    assert_eq!(call_ref(&mut vm, w), vm.get_none());
}

#[test]
fn idempotence_while_live() {
    let (mut vm, _module, cls) = new_vm();
    let obj = alloc_instance(&mut vm);
    let w = make_ref(&mut vm, cls, obj);
    let r1 = call_ref(&mut vm, w);
    let r2 = call_ref(&mut vm, w);
    let r3 = call_ref(&mut vm, w);
    assert_eq!(r1, obj);
    assert_eq!(r2, obj);
    assert_eq!(r3, obj);
}

#[test]
fn independence_of_distinct_referents() {
    let (mut vm, _module, cls) = new_vm();
    let x = alloc_instance(&mut vm);
    let y = alloc_instance(&mut vm);
    let wx = make_ref(&mut vm, cls, x);
    let wy = make_ref(&mut vm, cls, y);
    // reclaiming y does not disturb the handle observing x
    vm.ctx.decref(&y);
    let rx = call_ref(&mut vm, wx);
    assert_eq!(rx, x);
    assert_eq!(call_ref(&mut vm, wy), vm.get_none());
    vm.ctx.decref(&rx);
    // and reclaiming x afterwards is observed by its own handle alone
    vm.ctx.decref(&x);
    assert_eq!(call_ref(&mut vm, wx), vm.get_none());
}

#[test]
fn promotion_takes_one_unit_of_the_count() {
    let (mut vm, _module, cls) = new_vm();
    let obj = alloc_instance(&mut vm);
    assert_eq!(vm.ctx.strong_count(&obj), 1);
    // constructing a weak handle adds nothing to the referent's count
    let w = make_ref(&mut vm, cls, obj);
    assert_eq!(vm.ctx.strong_count(&obj), 1);
    // each successful promotion adds exactly one strong reference
    let r = call_ref(&mut vm, w);
    assert_eq!(vm.ctx.strong_count(&obj), 2);
    vm.ctx.decref(&r);
    assert_eq!(vm.ctx.strong_count(&obj), 1);
    // a failed promotion leaves every count alone
    vm.ctx.decref(&obj);
    assert_eq!(vm.ctx.strong_count(&obj), 0);
    let none1 = call_ref(&mut vm, w);
    assert_eq!(none1, vm.get_none());
    assert_eq!(vm.ctx.strong_count(&obj), 0);
}

#[test]
fn get_value_hands_out_the_observer() {
    let (mut vm, _module, cls) = new_vm();
    let obj = alloc_instance(&mut vm);
    let w = make_ref(&mut vm, cls, obj);
    let observer = get_value(&vm.ctx, &w);
    assert_eq!(observer.id, obj.id);
    assert_eq!(observer, downgrade(&obj));
}

#[test]
fn referent_dead_at_construction() {
    let (mut vm, _module, cls) = new_vm();
    let obj = alloc_instance(&mut vm);
    vm.ctx.decref(&obj);
    // constructing against an already reclaimed referent is permitted: the
    // handle promotes straight to the sentinel
    let w = make_ref(&mut vm, cls, obj);
    assert_eq!(call_ref(&mut vm, w), vm.get_none());
}

#[test]
fn distinct_constructions_are_distinct_instances() {
    let (mut vm, _module, cls) = new_vm();
    let obj = alloc_instance(&mut vm);
    let w1 = make_ref(&mut vm, cls, obj);
    let w2 = make_ref(&mut vm, cls, obj);
    assert_ne!(w1, w2);
    // yet both observe the same referent
    assert_eq!(call_ref(&mut vm, w1), call_ref(&mut vm, w2));
}
