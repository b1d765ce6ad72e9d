//! Local storage behaviour: namespaces, enumeration, slots, deletion and
//! the idempotence of installation.

use avm_core::class::Class;
use avm_core::heap::{Avm, ObjKind};
use avm_core::names::Multiname;
use avm_core::storage::TraitSource;
use avm_core::traits::Trait;
use avm_core::names::{Namespace, QName};
use avm_core::storage::{GetOutcome, SetOutcome};
use avm_core::value::Value;

fn qn(name: &str) -> QName {
    QName::dynamic_name(String::from(name))
}

fn get_value(avm: &mut Avm, obj: usize, name: &QName) -> Value {
    match avm.get_property(obj, obj, name).unwrap() {
        GetOutcome::Value(v) => v,
        GetOutcome::CallGetter { .. } => panic!("unexpected getter"),
    }
}

#[test]
fn namespace_isolation() {
    // Two properties with the same local name in different namespaces are
    // independently gettable, settable and deletable.
    let mut avm = Avm::new(true, 6);
    let o = avm.bare_object();
    let public_x = qn("x");
    let package_x = QName::new(Namespace::package(String::from("p")), String::from("x"));
    avm.set_property(o, o, &public_x, Value::Integer(1)).unwrap();
    avm.set_property(o, o, &package_x, Value::Integer(2)).unwrap();
    assert!(matches!(get_value(&mut avm, o, &public_x), Value::Integer(1)));
    assert!(matches!(
        get_value(&mut avm, o, &package_x),
        Value::Integer(2)
    ));
    avm.set_property(o, o, &public_x, Value::Integer(10)).unwrap();
    assert!(matches!(
        get_value(&mut avm, o, &package_x),
        Value::Integer(2)
    ));
    assert!(avm.delete_property(o, &public_x));
    assert!(matches!(get_value(&mut avm, o, &public_x), Value::Undefined));
    assert!(matches!(
        get_value(&mut avm, o, &package_x),
        Value::Integer(2)
    ));
}

#[test]
fn enumeration_order_is_insertion_order() {
    // Sequential one-based enumeration lists exactly the enumerable
    // dynamic properties in insertion order, with no gaps; index zero is
    // the failure sentinel.
    let mut avm = Avm::new(true, 6);
    let o = avm.bare_object();
    avm.set_property(o, o, &qn("first"), Value::Integer(1)).unwrap();
    avm.set_property(o, o, &qn("second"), Value::Integer(2)).unwrap();
    avm.set_property(o, o, &qn("third"), Value::Integer(3)).unwrap();
    assert!(avm.get_enumerant_name(o, 0).is_none());
    let names: Vec<String> = (1..=3)
        .map(|i| avm.get_enumerant_name(o, i).unwrap().local_name().clone())
        .collect();
    assert_eq!(names, vec!["first", "second", "third"]);
    assert!(avm.get_enumerant_name(o, 4).is_none());
    assert!(avm.property_is_enumerable(o, &qn("second")));
    // Turning a name off removes it from the walk; deletion removes it too.
    avm.set_local_property_is_enumerable(o, &qn("second"), false)
        .unwrap();
    assert!(!avm.property_is_enumerable(o, &qn("second")));
    assert!(avm.delete_property(o, &qn("first")));
    let first = avm.get_enumerant_name(o, 1).unwrap();
    assert_eq!(first.local_name(), "third");
    assert!(avm.get_enumerant_name(o, 2).is_none());
}

#[test]
fn slot_round_trip() {
    // A freshly installed slot reads its default through the name; a
    // name-based write lands in the very slot cell, and the index-based
    // view stays consistent.
    let mut avm = Avm::new(true, 6);
    let o = avm.bare_object();
    avm.install_slot(o, qn("health"), 2, Value::Integer(40));
    assert!(matches!(
        get_value(&mut avm, o, &qn("health")),
        Value::Integer(40)
    ));
    assert!(matches!(avm.get_slot(o, 2).unwrap(), Value::Integer(40)));
    let out = avm
        .set_property(o, o, &qn("health"), Value::Integer(70))
        .unwrap();
    assert!(matches!(out, SetOutcome::Done));
    assert!(matches!(
        get_value(&mut avm, o, &qn("health")),
        Value::Integer(70)
    ));
    assert!(matches!(avm.get_slot(o, 2).unwrap(), Value::Integer(70)));
    // The index-based write shows through the name as well.
    avm.set_slot(o, 2, Value::Integer(90)).unwrap();
    assert!(matches!(
        get_value(&mut avm, o, &qn("health")),
        Value::Integer(90)
    ));
    // An unallocated index is a fatal error, not a silent Undefined.
    assert!(avm.get_slot(o, 9).is_err());
}

#[test]
fn const_refuses_assignment_in_strict_mode() {
    let mut avm = Avm::new(true, 6);
    let o = avm.bare_object();
    avm.install_const(o, qn("version"), 0, Value::Integer(3));
    assert!(avm.set_property(o, o, &qn("version"), Value::Integer(4)).is_err());
    assert!(matches!(
        get_value(&mut avm, o, &qn("version")),
        Value::Integer(3)
    ));
    // Under lenient semantics the same write is silently ignored.
    let mut lenient = Avm::new(false, 6);
    let p = lenient.bare_object();
    lenient.install_const(p, qn("version"), 0, Value::Integer(3));
    let out = lenient
        .set_property(p, p, &qn("version"), Value::Integer(4))
        .unwrap();
    assert!(matches!(out, SetOutcome::Done));
    assert!(matches!(
        get_value(&mut lenient, p, &qn("version")),
        Value::Integer(3)
    ));
}

#[test]
fn delete_only_removes_unrestricted_properties() {
    let mut avm = Avm::new(true, 6);
    let o = avm.bare_object();
    avm.set_property(o, o, &qn("plain"), Value::Integer(1)).unwrap();
    avm.install_const(o, qn("fixed"), 0, Value::Integer(2));
    assert!(avm.delete_property(o, &qn("plain")));
    assert!(!avm.delete_property(o, &qn("fixed")));
    assert!(!avm.delete_property(o, &qn("absent")));
    assert!(matches!(
        get_value(&mut avm, o, &qn("fixed")),
        Value::Integer(2)
    ));
}

#[test]
fn getter_and_setter_install_in_either_order() {
    let mut avm = Avm::new(true, 6);
    let g = avm.alloc_object(
        ObjKind::Function {
            method: 1,
            scope: None,
            receiver: None,
        },
        None,
        TraitSource::NoClass,
    );
    let s = avm.alloc_object(
        ObjKind::Function {
            method: 2,
            scope: None,
            receiver: None,
        },
        None,
        TraitSource::NoClass,
    );
    let o = avm.bare_object();
    // Setter first, then getter: the getter merge must not clobber it.
    avm.install_setter(o, qn("x"), 0, s).unwrap();
    avm.install_getter(o, qn("x"), 0, g).unwrap();
    assert!(avm.has_own_virtual_getter(o, &qn("x")));
    assert!(avm.has_own_virtual_setter(o, &qn("x")));
    // A non-executable accessor is refused.
    let plain = avm.bare_object();
    let o2 = avm.bare_object();
    assert!(avm.install_getter(o2, qn("y"), 0, plain).is_err());
}

#[test]
fn installation_is_idempotent() {
    // Reading a trait-provided name twice installs it once: the state
    // after the second read is the state after the first.
    let mut avm = Avm::new(true, 6);
    let mut class = Class::new(qn("Holder"), None, 0, 1);
    class.define_instance_trait(Trait::from_slot(
        qn("x"),
        Multiname::any(),
        Some(Value::Integer(8)),
    ));
    avm.classes.push(class);
    let proto = avm.bare_prototype(0, None);
    let o = avm.object(proto);
    assert!(matches!(get_value(&mut avm, o, &qn("x")), Value::Integer(8)));
    let objects_after_first = avm.objects.len();
    // Mutate the installed value, then touch the name again: no second
    // installation resets it.
    avm.set_property(o, o, &qn("x"), Value::Integer(12)).unwrap();
    assert!(matches!(
        get_value(&mut avm, o, &qn("x")),
        Value::Integer(12)
    ));
    assert_eq!(avm.objects.len(), objects_after_first);
}
