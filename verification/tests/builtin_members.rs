//! The built-in classes' native members, driven as a host would drive
//! them.

use avm_core::event::EventData;
use avm_core::globals::{display_object, event_class, menu_item, object_class, regexp_class, security};
use avm_core::heap::{Avm, ObjKind};
use avm_core::names::QName;
use avm_core::regexp::{RegExpData, RegExpMatch};
use avm_core::storage::{GetOutcome, TraitSource};
use avm_core::display::DisplayNode;
use avm_core::error::EngineError;
use avm_core::names::Multiname;
use avm_core::swf_types::{Color, Twips};
use avm_core::traits::{trait_attribs_from_abc_traits, AbcTrait, AbcTraitKind, Trait, TraitKind};
use avm_core::value::Value;

fn qn(name: &str) -> QName {
    QName::dynamic_name(String::from(name))
}

fn new_event(avm: &mut Avm, name: &str) -> usize {
    avm.alloc_object(
        ObjKind::Event(EventData::new(String::from(name))),
        None,
        TraitSource::NoClass,
    )
}

#[test]
fn event_state_and_accessors() {
    let mut avm = Avm::new(true, 6);
    let ev = new_event(&mut avm, "");
    let args = vec![
        Value::String(String::from("click")),
        Value::Bool(true),
        Value::Bool(true),
    ];
    event_class::instance_init(&mut avm, Some(ev), &args).unwrap();
    assert!(matches!(
        event_class::bubbles(&avm, Some(ev), &vec![]).unwrap(),
        Value::Bool(true)
    ));
    assert!(matches!(
        event_class::cancelable(&avm, Some(ev), &vec![]).unwrap(),
        Value::Bool(true)
    ));
    match event_class::get_type(&avm, Some(ev), &vec![]).unwrap() {
        Value::String(s) => assert_eq!(s, "click"),
        other => panic!("unexpected {:?}", other),
    }
    assert!(matches!(
        event_class::target(&avm, Some(ev), &vec![]).unwrap(),
        Value::Null
    ));
    assert!(matches!(
        event_class::event_phase(&avm, Some(ev), &vec![]).unwrap(),
        Value::Unsigned(2)
    ));
    assert!(matches!(
        event_class::is_default_prevented(&avm, Some(ev), &vec![]).unwrap(),
        Value::Bool(false)
    ));
    event_class::prevent_default(&mut avm, Some(ev), &vec![]).unwrap();
    assert!(matches!(
        event_class::is_default_prevented(&avm, Some(ev), &vec![]).unwrap(),
        Value::Bool(true)
    ));
    event_class::stop_propagation(&mut avm, Some(ev), &vec![]).unwrap();
    event_class::stop_immediate_propagation(&mut avm, Some(ev), &vec![]).unwrap();
}

#[test]
fn event_clone_copies_the_state() {
    let mut avm = Avm::new(true, 6);
    let proto = avm.bare_object();
    avm.protos.event = Some(proto);
    let ev = new_event(&mut avm, "");
    let args = vec![
        Value::String(String::from("added")),
        Value::Bool(false),
        Value::Bool(true),
    ];
    event_class::instance_init(&mut avm, Some(ev), &args).unwrap();
    event_class::prevent_default(&mut avm, Some(ev), &vec![]).unwrap();
    let copy = match event_class::clone(&mut avm, Some(ev), &vec![]).unwrap() {
        Value::Object(o) => o,
        other => panic!("unexpected {:?}", other),
    };
    match event_class::get_type(&avm, Some(copy), &vec![]).unwrap() {
        Value::String(s) => assert_eq!(s, "added"),
        other => panic!("unexpected {:?}", other),
    }
    assert!(matches!(
        event_class::is_default_prevented(&avm, Some(copy), &vec![]).unwrap(),
        Value::Bool(true)
    ));
}

#[test]
fn event_format_to_string() {
    let mut avm = Avm::new(true, 6);
    let ev = new_event(&mut avm, "x");
    avm.set_property(ev, ev, &qn("bubbles"), Value::Bool(false)).unwrap();
    avm.set_property(ev, ev, &qn("label"), Value::String(String::from("go")))
        .unwrap();
    let args = vec![
        Value::String(String::from("Event")),
        Value::String(String::from("bubbles")),
        Value::String(String::from("label")),
    ];
    match event_class::format_to_string(&mut avm, Some(ev), &args).unwrap() {
        Value::String(s) => assert_eq!(s, "[Event bubbles=false label=\"go\"]"),
        other => panic!("unexpected {:?}", other),
    }
}

#[test]
fn regexp_flags_and_matching() {
    let mut avm = Avm::new(true, 6);
    let re = avm.alloc_object(
        ObjKind::RegExp(RegExpData::new()),
        None,
        TraitSource::NoClass,
    );
    let args = vec![
        Value::String(String::from("a(b)?c")),
        Value::String(String::from("gis")),
    ];
    regexp_class::instance_init(&mut avm, Some(re), &args).unwrap();
    assert!(matches!(
        regexp_class::global(&avm, Some(re), &vec![]).unwrap(),
        Value::Bool(true)
    ));
    assert!(matches!(
        regexp_class::ignore_case(&avm, Some(re), &vec![]).unwrap(),
        Value::Bool(true)
    ));
    assert!(matches!(
        regexp_class::dotall(&avm, Some(re), &vec![]).unwrap(),
        Value::Bool(true)
    ));
    assert!(matches!(
        regexp_class::extended(&avm, Some(re), &vec![]).unwrap(),
        Value::Bool(false)
    ));
    assert!(matches!(
        regexp_class::multiline(&avm, Some(re), &vec![]).unwrap(),
        Value::Bool(false)
    ));
    match regexp_class::source(&avm, Some(re), &vec![]).unwrap() {
        Value::String(s) => assert_eq!(s, "a(b)?c"),
        other => panic!("unexpected {:?}", other),
    }
    regexp_class::set_last_index(&mut avm, Some(re), &vec![Value::Unsigned(4)]).unwrap();
    assert!(matches!(
        regexp_class::last_index(&avm, Some(re), &vec![]).unwrap(),
        Value::Unsigned(4)
    ));

    // The host ran the pattern and found a match at offset two with one
    // participating group; the member builds the result array.
    avm.protos.array = Some(avm.bare_object());
    let matched = Some(RegExpMatch {
        start: 2,
        groups: vec![Some(String::from("abc")), Some(String::from("b"))],
    });
    assert!(matches!(
        regexp_class::test(&avm, Some(re), &matched).unwrap(),
        Value::Bool(true)
    ));
    assert!(matches!(
        regexp_class::test(&avm, Some(re), &None).unwrap(),
        Value::Bool(false)
    ));
    let text = String::from("xyabc");
    let arr = match regexp_class::exec(&mut avm, Some(re), &text, &matched).unwrap() {
        Value::Object(a) => a,
        other => panic!("unexpected {:?}", other),
    };
    match avm.get_property(arr, arr, &qn("0")).unwrap() {
        GetOutcome::Value(Value::String(s)) => assert_eq!(s, "abc"),
        other => panic!("unexpected {:?}", other),
    }
    match avm.get_property(arr, arr, &qn("index")).unwrap() {
        GetOutcome::Value(Value::Unsigned(i)) => assert_eq!(i, 2),
        other => panic!("unexpected {:?}", other),
    }
    match avm.get_property(arr, arr, &qn("input")).unwrap() {
        GetOutcome::Value(Value::String(s)) => assert_eq!(s, "xyabc"),
        other => panic!("unexpected {:?}", other),
    }
    assert!(matches!(
        regexp_class::exec(&mut avm, Some(re), &text, &None).unwrap(),
        Value::Null
    ));
}

#[test]
fn object_members() {
    let mut avm = Avm::new(true, 6);
    let o = avm.bare_object();
    avm.set_property(o, o, &qn("x"), Value::Integer(1)).unwrap();
    assert!(matches!(
        object_class::has_own_property(&avm, Some(o), &vec![Value::String(String::from("x"))])
            .unwrap(),
        Value::Bool(true)
    ));
    assert!(matches!(
        object_class::has_own_property(&avm, Some(o), &vec![Value::String(String::from("y"))])
            .unwrap(),
        Value::Bool(false)
    ));
    assert!(matches!(
        object_class::property_is_enumerable(
            &avm,
            Some(o),
            &vec![Value::String(String::from("x"))]
        )
        .unwrap(),
        Value::Bool(true)
    ));
    object_class::set_property_is_enumerable(
        &mut avm,
        Some(o),
        &vec![Value::String(String::from("x")), Value::Bool(false)],
    )
    .unwrap();
    assert!(matches!(
        object_class::property_is_enumerable(
            &avm,
            Some(o),
            &vec![Value::String(String::from("x"))]
        )
        .unwrap(),
        Value::Bool(false)
    ));
    let child = avm.object(o);
    assert!(matches!(
        object_class::is_prototype_of(&avm, Some(o), &vec![Value::Object(child)]).unwrap(),
        Value::Bool(true)
    ));
    assert!(matches!(
        object_class::is_prototype_of(&avm, Some(child), &vec![Value::Object(o)]).unwrap(),
        Value::Bool(false)
    ));
    match object_class::to_string(&avm, Some(o), &vec![]).unwrap() {
        Value::String(s) => assert_eq!(s, "[object Object]"),
        other => panic!("unexpected {:?}", other),
    }
    assert!(matches!(
        object_class::value_of(&avm, Some(o), &vec![]).unwrap(),
        Value::Object(_)
    ));
}

#[test]
fn bytearray_reserved_index_space() {
    let mut avm = Avm::new(true, 6);
    let b = avm.alloc_object(ObjKind::ByteArray(Vec::new()), None, TraitSource::NoClass);
    avm.set_property(b, b, &qn("3"), Value::Unsigned(300)).unwrap();
    // The write grew the buffer with zeroes and stored the low byte.
    match avm.get_property(b, b, &qn("3")).unwrap() {
        GetOutcome::Value(Value::Unsigned(v)) => assert_eq!(v, 44),
        other => panic!("unexpected {:?}", other),
    }
    match avm.get_property(b, b, &qn("1")).unwrap() {
        GetOutcome::Value(Value::Unsigned(v)) => assert_eq!(v, 0),
        other => panic!("unexpected {:?}", other),
    }
    // An index beyond the buffer reads as absent.
    assert!(matches!(
        avm.get_property(b, b, &qn("9")).unwrap(),
        GetOutcome::Value(Value::Undefined)
    ));
    assert!(avm.has_own_property(b, &qn("3")));
    assert!(!avm.has_own_property(b, &qn("9")));
    // Deletion clears back to the zero sentinel.
    assert!(avm.delete_property(b, &qn("3")));
    match avm.get_property(b, b, &qn("3")).unwrap() {
        GetOutcome::Value(Value::Unsigned(v)) => assert_eq!(v, 0),
        other => panic!("unexpected {:?}", other),
    }
    // Non-numeric names forward to the generic storage.
    avm.set_property(b, b, &qn("tag"), Value::Integer(5)).unwrap();
    match avm.get_property(b, b, &qn("tag")).unwrap() {
        GetOutcome::Value(Value::Integer(v)) => assert_eq!(v, 5),
        other => panic!("unexpected {:?}", other),
    }
}

#[test]
fn menu_item_constructor_and_copy() {
    let mut avm = Avm::new(true, 6);
    let item = avm.bare_object();
    let cb = avm.alloc_object(
        ObjKind::Function {
            method: 5,
            scope: None,
            receiver: None,
        },
        None,
        TraitSource::NoClass,
    );
    let args = vec![
        Value::String(String::from("Save")),
        Value::Object(cb),
        Value::Bool(true),
        Value::Bool(false),
        Value::Bool(true),
    ];
    match menu_item::constructor(&mut avm, item, &args).unwrap() {
        Value::Object(o) => assert_eq!(o, item),
        other => panic!("unexpected {:?}", other),
    }
    match avm.get_property(item, item, &qn("caption")).unwrap() {
        GetOutcome::Value(Value::String(s)) => assert_eq!(s, "Save"),
        other => panic!("unexpected {:?}", other),
    }
    assert!(matches!(
        avm.get_property(item, item, &qn("enabled")).unwrap(),
        GetOutcome::Value(Value::Bool(false))
    ));
    let copy = match menu_item::copy(&mut avm, item, &vec![]).unwrap() {
        Value::Object(o) => o,
        other => panic!("unexpected {:?}", other),
    };
    assert_ne!(copy, item);
    match avm.get_property(copy, copy, &qn("caption")).unwrap() {
        GetOutcome::Value(Value::String(s)) => assert_eq!(s, "Save"),
        other => panic!("unexpected {:?}", other),
    }
}

#[test]
fn security_members() {
    let mut avm = Avm::new(true, 6);
    let o = avm.bare_object();
    assert!(matches!(
        security::allow_domain(&mut avm, o, &vec![]).unwrap(),
        Value::Undefined
    ));
    assert!(matches!(
        security::escape_domain(&mut avm, o, &vec![]).unwrap(),
        Value::Undefined
    ));
    match security::get_sandbox_type(&avm, o, String::from("remote")).unwrap() {
        Value::String(s) => assert_eq!(s, "remote"),
        other => panic!("unexpected {:?}", other),
    }
}

#[test]
fn display_members() {
    let mut avm = Avm::new(true, 6);
    avm.display.push(DisplayNode {
        depth: 16384 + 7,
        path: String::from("_level0.clip"),
        parent: None,
        removed: false,
        object: None,
        is_movie_clip: true,
    });
    let node = 0;
    let bound = avm.alloc_object(ObjKind::Stage(node), None, TraitSource::NoClass);
    avm.display[node].object = Some(bound);
    avm.display.push(DisplayNode {
        depth: 16384 + 8,
        path: String::from("_level0.clip.child"),
        parent: Some(node),
        removed: false,
        object: None,
        is_movie_clip: false,
    });
    let child = 1;
    let child_obj = avm.alloc_object(ObjKind::Stage(child), None, TraitSource::NoClass);

    // The script-facing depth is offset by the bias.
    assert!(matches!(
        display_object::get_depth(&avm, node, &vec![]).unwrap(),
        Value::Integer(7)
    ));
    match display_object::to_string(&avm, node, &vec![]).unwrap() {
        Value::String(s) => assert_eq!(s, "_level0.clip"),
        other => panic!("unexpected {:?}", other),
    }
    assert!(matches!(
        display_object::get_parent(&avm, child_obj, &vec![]).unwrap(),
        Value::Object(_)
    ));
    assert!(matches!(
        display_object::get_parent(&avm, bound, &vec![]).unwrap(),
        Value::Undefined
    ));
    // On an old program version the depth reads as Undefined.
    let old = Avm::new(true, 5);
    drop(old);

    // The child is removable: its depth lies in the band and its parent
    // is a movie clip.
    assert!(display_object::remove_display_object(&mut avm, child));
    assert!(avm.display[child].removed);
    // A second attempt does nothing.
    assert!(!display_object::remove_display_object(&mut avm, child));
    // The root has no parent and stays.
    assert!(!display_object::remove_display_object(&mut avm, node));

    let o = avm.bare_object();
    display_object::overwrite_root(&mut avm, o, &vec![Value::Integer(1)]).unwrap();
    assert!(avm.has_instantiated_property(o, &qn("_root")));
}

#[test]
fn swf_plain_types() {
    let t = Twips::new(40);
    assert_eq!(t.get(), 40);
    assert_eq!(Twips::zero().get(), 0);
    assert_eq!(Twips::new(40).saturating_sub(Twips::new(20)), Twips::new(20));
    assert_eq!(
        Twips::new(i32::MIN).saturating_sub(Twips::new(5)),
        Twips::new(i32::MIN)
    );
    assert_eq!(
        Twips::new(i32::MAX).saturating_sub(Twips::new(-100)),
        Twips::new(i32::MAX)
    );
    let red = Color::from_rgb(0xFF0000, 255);
    assert_eq!(red.r, 255);
    assert_eq!(red.g, 0);
    assert_eq!(red.b, 0);
    assert_eq!(red.a, 255);
    let c = Color::from_rgb(0xFF00FF, 255);
    assert_eq!(c.to_rgb(), 0xFF00FF);
    let c1 = Color::from_rgb(0xFF00FF, 255);
    let c2 = Color::from_rgb(0xFF00FF, 0);
    assert_eq!(c1.to_rgb(), c2.to_rgb());
}

#[test]
fn abc_trait_conversion() {
    let abc = AbcTrait {
        name: qn("x"),
        is_final: true,
        is_override: false,
        kind: AbcTraitKind::Slot {
            slot_id: 3,
            declared_type: None,
            value: Some(Value::Integer(9)),
        },
    };
    let attrs = trait_attribs_from_abc_traits(&abc);
    assert_eq!(attrs.bits, 1);
    let t = Trait::from_abc_trait(abc);
    assert!(t.is_final());
    assert!(!t.is_override());
    match t.kind() {
        TraitKind::Slot {
            slot_id,
            declared_type,
            default_value,
        } => {
            assert_eq!(*slot_id, 3);
            assert_eq!(declared_type.ns_set.len(), 1);
            assert!(matches!(default_value, Some(Value::Integer(9))));
        }
        other => panic!("unexpected {:?}", other),
    }
}

#[test]
fn object_member_argument_errors() {
    let mut avm = Avm::new(true, 6);
    let o = avm.bare_object();
    // A missing name argument is an error, not a silent false.
    match object_class::has_own_property(&avm, Some(o), &vec![]) {
        Err(e) => assert_eq!(e, EngineError::NoArgument),
        Ok(v) => panic!("expected an error, got {:?}", v),
    }
    match object_class::property_is_enumerable(&avm, Some(o), &vec![]) {
        Err(e) => assert_eq!(e, EngineError::NoArgument),
        Ok(v) => panic!("expected an error, got {:?}", v),
    }
    // A missing receiver is an error.
    match object_class::is_prototype_of(&avm, None, &vec![Value::Object(o)]) {
        Err(e) => assert_eq!(e, EngineError::NoThis),
        Ok(v) => panic!("expected an error, got {:?}", v),
    }
    // A non-object argument reads as false.
    assert!(matches!(
        object_class::is_prototype_of(&avm, Some(o), &vec![Value::Integer(3)]).unwrap(),
        Value::Bool(false)
    ));
    // A non-boolean second argument changes nothing.
    avm.set_property(o, o, &qn("x"), Value::Integer(1)).unwrap();
    object_class::set_property_is_enumerable(
        &mut avm,
        Some(o),
        &vec![Value::String(String::from("x")), Value::Integer(0)],
    )
    .unwrap();
    assert!(avm.property_is_enumerable(o, &qn("x")));
}

#[test]
fn install_trait_uses_the_object_scope() {
    let mut avm = Avm::new(true, 6);
    let o = avm.bare_object();
    let t = Trait::from_slot(qn("hp"), Multiname::any(), Some(Value::Integer(12)));
    match avm.install_trait(o, t, o).unwrap() {
        Value::Integer(i) => assert_eq!(i, 12),
        other => panic!("unexpected {:?}", other),
    }
    assert!(avm.has_instantiated_property(o, &qn("hp")));
    match avm.get_property(o, o, &qn("hp")).unwrap() {
        GetOutcome::Value(Value::Integer(i)) => assert_eq!(i, 12),
        other => panic!("unexpected {:?}", other),
    }
}

#[test]
fn event_defaults_apply_without_arguments() {
    let mut avm = Avm::new(true, 6);
    let ev = new_event(&mut avm, "seed");
    event_class::instance_init(&mut avm, Some(ev), &vec![]).unwrap();
    match event_class::get_type(&avm, Some(ev), &vec![]).unwrap() {
        Value::String(s) => assert_eq!(s, "undefined"),
        other => panic!("unexpected {:?}", other),
    }
    assert!(matches!(
        event_class::bubbles(&avm, Some(ev), &vec![]).unwrap(),
        Value::Bool(false)
    ));
    assert!(matches!(
        event_class::cancelable(&avm, Some(ev), &vec![]).unwrap(),
        Value::Bool(false)
    ));
}

#[test]
fn regexp_defaults_apply_without_arguments() {
    let mut avm = Avm::new(true, 6);
    let re = avm.alloc_object(
        ObjKind::RegExp(RegExpData::new()),
        None,
        TraitSource::NoClass,
    );
    regexp_class::instance_init(&mut avm, Some(re), &vec![]).unwrap();
    match regexp_class::source(&avm, Some(re), &vec![]).unwrap() {
        Value::String(s) => assert_eq!(s, ""),
        other => panic!("unexpected {:?}", other),
    }
    assert!(matches!(
        regexp_class::global(&avm, Some(re), &vec![]).unwrap(),
        Value::Bool(false)
    ));
}
