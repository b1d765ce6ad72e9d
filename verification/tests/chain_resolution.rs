//! Chained property resolution: shadowing, accessor delegation and the
//! inheritance-chain scenario.

use avm_core::class::Class;
use avm_core::heap::{Avm, ObjKind};
use avm_core::names::{Multiname, Namespace, QName};
use avm_core::storage::{GetOutcome, SetOutcome, TraitSource};
use avm_core::traits::Trait;
use avm_core::value::Value;

fn qn(name: &str) -> QName {
    QName::dynamic_name(String::from(name))
}

fn get_value(avm: &mut Avm, obj: usize, name: &str) -> Value {
    match avm.get_property(obj, obj, &qn(name)).unwrap() {
        GetOutcome::Value(v) => v,
        GetOutcome::CallGetter { .. } => panic!("unexpected getter"),
    }
}

#[test]
fn shadowing_on_write() {
    // An ancestor provides a data property; writing through the child
    // shadows it on the child and leaves the ancestor untouched.
    let mut avm = Avm::new(true, 6);
    let ancestor = avm.bare_object();
    avm.set_property(ancestor, ancestor, &qn("x"), Value::Integer(1))
        .unwrap();
    let child = avm.object(ancestor);
    assert!(matches!(
        get_value(&mut avm, child, "x"),
        Value::Integer(1)
    ));
    let out = avm
        .set_property(child, child, &qn("x"), Value::Integer(2))
        .unwrap();
    assert!(matches!(out, SetOutcome::Done));
    // The child now reads the new value...
    assert!(matches!(
        get_value(&mut avm, child, "x"),
        Value::Integer(2)
    ));
    // ...and the ancestor still reads the old one.
    assert!(matches!(
        get_value(&mut avm, ancestor, "x"),
        Value::Integer(1)
    ));
    assert!(avm.has_instantiated_property(child, &qn("x")));
}

#[test]
fn accessor_write_delegates_never_shadows() {
    // An ancestor owns a virtual getter/setter pair; a write through the
    // child resolves to the ancestor's setter with the child as receiver,
    // and the child gains no own property.
    let mut avm = Avm::new(true, 6);
    let getter = avm.alloc_object(
        ObjKind::Function {
            method: 10,
            scope: None,
            receiver: None,
        },
        None,
        TraitSource::NoClass,
    );
    let setter = avm.alloc_object(
        ObjKind::Function {
            method: 11,
            scope: None,
            receiver: None,
        },
        None,
        TraitSource::NoClass,
    );
    let ancestor = avm.bare_object();
    avm.install_getter(ancestor, qn("x"), 0, getter).unwrap();
    avm.install_setter(ancestor, qn("x"), 0, setter).unwrap();
    let child = avm.object(ancestor);
    let out = avm
        .set_property(child, child, &qn("x"), Value::Integer(9))
        .unwrap();
    match out {
        SetOutcome::CallSetter {
            setter: s,
            receiver,
            value,
            ..
        } => {
            assert_eq!(s, setter);
            assert_eq!(receiver, child);
            assert!(matches!(value, Value::Integer(9)));
        }
        SetOutcome::Done => panic!("the write must delegate to the setter"),
    }
    assert!(!avm.has_instantiated_property(child, &qn("x")));
    // The read likewise defers to the ancestor's getter, with the
    // original receiver.
    match avm.get_property(child, child, &qn("x")).unwrap() {
        GetOutcome::CallGetter {
            getter: g,
            receiver,
            ..
        } => {
            assert_eq!(g, getter);
            assert_eq!(receiver, child);
        }
        GetOutcome::Value(_) => panic!("the read must delegate to the getter"),
    }
}

#[test]
fn setter_only_name_falls_through_on_read() {
    // A name owned only through a setter-only virtual entry is not owned
    // for reads: the read falls through to the chain.
    let mut avm = Avm::new(true, 6);
    let setter = avm.alloc_object(
        ObjKind::Function {
            method: 3,
            scope: None,
            receiver: None,
        },
        None,
        TraitSource::NoClass,
    );
    let ancestor = avm.bare_object();
    avm.set_property(ancestor, ancestor, &qn("x"), Value::Integer(7))
        .unwrap();
    let child = avm.object(ancestor);
    avm.install_setter(child, qn("x"), 0, setter).unwrap();
    // The child owns "x" (the setter half), but reads reach the ancestor.
    assert!(matches!(
        get_value(&mut avm, child, "x"),
        Value::Integer(7)
    ));
}

#[test]
fn basic_inheritance_chain() {
    // A base class defines an instance slot with default zero; a derived
    // class defines a method reading it. An instance of the derived class
    // materializes both lazily.
    let mut avm = Avm::new(true, 6);
    let base = Class::new(qn("Base"), None, 100, 101);
    avm.classes.push(base);
    let base_id = 0;
    let derived = Class::new(
        qn("Derived"),
        Some(Multiname::from_qname(qn("Base"))),
        102,
        103,
    );
    avm.classes.push(derived);
    let derived_id = 1;
    avm.classes[base_id].define_instance_trait(Trait::from_slot(
        qn("x"),
        Multiname::any(),
        Some(Value::Integer(0)),
    ));
    avm.classes[derived_id].define_instance_trait(Trait::from_method(qn("getX"), 77));

    let object_proto = avm.bare_object();
    let base_proto = avm.prototype(object_proto, base_id, None);
    let derived_proto = avm.prototype(base_proto, derived_id, None);
    let d = avm.object(derived_proto);

    // Lazy instantiation: no own "x" before the first access.
    assert!(!avm.has_instantiated_property(d, &qn("x")));
    assert!(matches!(get_value(&mut avm, d, "x"), Value::Integer(0)));
    assert!(avm.has_instantiated_property(d, &qn("x")));

    avm.set_property(d, d, &qn("x"), Value::Integer(5)).unwrap();

    // Calling getX: the method materialized as a function bound to d;
    // its body reads this.x through the engine.
    let get_x = match get_value(&mut avm, d, "getX") {
        Value::Object(f) => f,
        other => panic!("getX must be a function object, got {:?}", other),
    };
    let (method, receiver) = avm.call(get_x, Some(d)).unwrap();
    assert_eq!(method, 77);
    assert_eq!(receiver, Some(d));
    let this = receiver.unwrap();
    assert!(matches!(get_value(&mut avm, this, "x"), Value::Integer(5)));
}

#[test]
fn multiname_prefers_declared_namespace() {
    // A declared non-wildcard candidate wins before the wildcard
    // fallback, even when a dynamic property also carries the local name.
    let mut avm = Avm::new(true, 6);
    let o = avm.bare_object();
    let package_name = QName::new(
        Namespace::package(String::from("demo")),
        String::from("x"),
    );
    avm.set_property(o, o, &package_name, Value::Integer(1))
        .unwrap();
    avm.set_property(o, o, &qn("x"), Value::Integer(2)).unwrap();
    let mn = Multiname {
        ns_set: vec![Namespace::package(String::from("demo")), Namespace::Any],
        name: Some(String::from("x")),
    };
    let resolved = avm.resolve_multiname(o, &mn).unwrap();
    assert!(resolved.qname_eq(&package_name));
}

#[test]
fn protoless_read_is_undefined() {
    let mut avm = Avm::new(true, 6);
    let o = avm.bare_object();
    assert!(matches!(get_value(&mut avm, o, "missing"), Value::Undefined));
}
