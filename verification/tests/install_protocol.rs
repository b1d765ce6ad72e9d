//! Trait materialization: methods bind their receiver, nested classes
//! resolve their superclass through the scope chain, and free functions
//! carry a fresh prototype.

use avm_core::class::Class;
use avm_core::error::EngineError;
use avm_core::globals::{event_class, object_class};
use avm_core::heap::{Avm, ObjKind};
use avm_core::names::{Multiname, QName};
use avm_core::storage::GetOutcome;
use avm_core::traits::Trait;
use avm_core::value::Value;

fn qn(name: &str) -> QName {
    QName::dynamic_name(String::from(name))
}

fn get_value(avm: &mut Avm, obj: usize, name: &str) -> Value {
    match avm.get_property(obj, obj, &qn(name)).unwrap() {
        GetOutcome::Value(v) => v,
        GetOutcome::CallGetter { .. } => panic!("unexpected getter"),
    }
}

#[test]
fn method_trait_binds_the_receiver() {
    let mut avm = Avm::new(true, 6);
    let holder = Class::new(qn("Holder"), None, 0, 1);
    let class_id = avm.classes.len();
    avm.classes.push(holder);
    avm.classes[class_id].define_instance_trait(Trait::from_method(qn("go"), 33));
    let proto = avm.bare_prototype(class_id, None);
    let o = avm.object(proto);
    let f = match get_value(&mut avm, o, "go") {
        Value::Object(f) => f,
        other => panic!("unexpected {:?}", other),
    };
    match &avm.objects[f].kind {
        ObjKind::Function {
            method, receiver, ..
        } => {
            assert_eq!(*method, 33);
            assert_eq!(*receiver, Some(o));
        }
        other => panic!("unexpected kind {:?}", other),
    }
    // Calling the bound function keeps the bound receiver even when the
    // caller supplies another.
    let stranger = avm.bare_object();
    let (method, this) = avm.call(f, Some(stranger)).unwrap();
    assert_eq!(method, 33);
    assert_eq!(this, Some(o));
    // A plain object is not callable.
    assert_eq!(avm.call(stranger, None), Err(EngineError::NotCallable));
}

#[test]
fn nested_class_trait_materializes_a_constructor() {
    let mut avm = Avm::new(true, 6);
    // The globals object exports the superclass value under "Base".
    let globals = avm.bare_object();
    let base_ctor = avm.alloc_object(
        ObjKind::Function {
            method: 7,
            scope: None,
            receiver: None,
        },
        None,
        avm_core::storage::TraitSource::NoClass,
    );
    avm.set_property(globals, globals, &qn("Base"), Value::Object(base_ctor))
        .unwrap();
    let scope = avm.push_scope(None, globals);

    // A class whose superclass reference names the export.
    let nested = Class::new(
        qn("Nested"),
        Some(Multiname::from_qname(qn("Base"))),
        11,
        12,
    );
    let nested_id = avm.classes.len();
    avm.classes.push(nested);

    // The script globals' class declares the nested class as a trait.
    let script_class = Class::new(qn("ScriptGlobals"), None, 13, 14);
    let script_class_id = avm.classes.len();
    avm.classes.push(script_class);
    avm.classes[script_class_id].define_instance_trait(Trait::from_class(
        qn("Nested"),
        nested_id,
    ));
    let proto = avm.prototype(globals, script_class_id, Some(scope));
    let o = avm.object(proto);

    // Touching the name materializes the class constructor, installed as
    // a constant under the class's own name.
    let ctor = match get_value(&mut avm, o, "Nested") {
        Value::Object(c) => c,
        other => panic!("unexpected {:?}", other),
    };
    match &avm.objects[ctor].data.trait_source {
        avm_core::storage::TraitSource::ClassConstructor(c, s) => {
            assert_eq!(*c, nested_id);
            assert_eq!(*s, Some(scope));
        }
        other => panic!("unexpected source {:?}", other),
    }
    // The constant refuses reassignment under strict semantics.
    assert!(avm
        .set_property(o, o, &qn("Nested"), Value::Integer(0))
        .is_err());
}

#[test]
fn unresolvable_superclass_is_an_error() {
    let mut avm = Avm::new(true, 6);
    let globals = avm.bare_object();
    let scope = avm.push_scope(None, globals);
    let nested = Class::new(
        qn("Orphan"),
        Some(Multiname::from_qname(qn("Nowhere"))),
        1,
        2,
    );
    let nested_id = avm.classes.len();
    avm.classes.push(nested);
    let script_class = Class::new(qn("ScriptGlobals"), None, 3, 4);
    let script_class_id = avm.classes.len();
    avm.classes.push(script_class);
    avm.classes[script_class_id].define_instance_trait(Trait::from_class(
        qn("Orphan"),
        nested_id,
    ));
    let proto = avm.prototype(globals, script_class_id, Some(scope));
    let o = avm.object(proto);
    match avm.get_property(o, o, &qn("Orphan")) {
        Err(e) => assert_eq!(e, EngineError::UnresolvedSuperclass),
        Ok(_) => panic!("an unresolvable superclass must be an error"),
    }
}

#[test]
fn function_trait_carries_a_fresh_prototype() {
    let mut avm = Avm::new(true, 6);
    let holder = Class::new(qn("Holder"), None, 0, 1);
    let class_id = avm.classes.len();
    avm.classes.push(holder);
    avm.classes[class_id].define_instance_trait(Trait::from_function(qn("helper"), 55));
    let proto = avm.bare_prototype(class_id, None);
    let o = avm.object(proto);
    let f = match get_value(&mut avm, o, "helper") {
        Value::Object(f) => f,
        other => panic!("unexpected {:?}", other),
    };
    match &avm.objects[f].kind {
        ObjKind::Function {
            method, receiver, ..
        } => {
            assert_eq!(*method, 55);
            assert_eq!(*receiver, None);
        }
        other => panic!("unexpected kind {:?}", other),
    }
    // The function object carries its own prototype object.
    match get_value(&mut avm, f, "prototype") {
        Value::Object(_) => {}
        other => panic!("unexpected {:?}", other),
    }
}

#[test]
fn prototype_builders() {
    let mut avm = Avm::new(true, 6);
    let globals = avm.bare_object();
    let (object_proto, _object_class) = object_class::create_proto(&mut avm, globals);
    let fn_proto = avm.object(object_proto);
    let constructor = object_class::fill_proto(&mut avm, object_proto, fn_proto);
    // The filled prototype serves its members to objects below it.
    let o = avm.object(object_proto);
    match get_value(&mut avm, o, "toString") {
        Value::Object(f) => match &avm.objects[f].kind {
            ObjKind::Function { method, .. } => {
                assert_eq!(*method, object_class::METHOD_TO_STRING)
            }
            other => panic!("unexpected kind {:?}", other),
        },
        other => panic!("unexpected {:?}", other),
    }
    // The constructor's prototype is the filled prototype.
    match get_value(&mut avm, constructor, "prototype") {
        Value::Object(p) => assert_eq!(p, object_proto),
        other => panic!("unexpected {:?}", other),
    }
}

#[test]
fn event_class_table() {
    let mut avm = Avm::new(true, 6);
    let class_id = event_class::create_class(&mut avm);
    // The event-name constants live on the class itself and materialize
    // on the class constructor.
    let ctor = avm.alloc_object(
        ObjKind::Script,
        None,
        avm_core::storage::TraitSource::ClassConstructor(class_id, None),
    );
    match get_value(&mut avm, ctor, "ACTIVATE") {
        Value::String(s) => assert_eq!(s, "activate"),
        other => panic!("unexpected {:?}", other),
    }
    match get_value(&mut avm, ctor, "REMOVED_FROM_STAGE") {
        Value::String(s) => assert_eq!(s, "removedFromStage"),
        other => panic!("unexpected {:?}", other),
    }
    // The instance traits come from prototypes of the class.
    let proto = avm.bare_prototype(class_id, None);
    let ev = avm.object(proto);
    match get_value(&mut avm, ev, "preventDefault") {
        Value::Object(_) => {}
        other => panic!("unexpected {:?}", other),
    }
}
