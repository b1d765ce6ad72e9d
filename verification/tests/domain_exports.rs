//! Domain export resolution and the redefinition rules.

use avm_core::domain::Domain;
use avm_core::error::EngineError;
use avm_core::heap::{Avm, Script};
use avm_core::names::{Multiname, Namespace, QName};
use avm_core::storage::GetOutcome;
use avm_core::value::Value;

fn qn(name: &str) -> QName {
    QName::dynamic_name(String::from(name))
}

fn setup() -> (Avm, Domain, usize, usize) {
    let mut avm = Avm::new(true, 6);
    let g1 = avm.bare_object();
    let g2 = avm.bare_object();
    avm.scripts.push(Script { globals: g1 });
    avm.scripts.push(Script { globals: g2 });
    let d1 = Domain::global_domain(&mut avm);
    (avm, d1, 0, 1)
}

#[test]
fn domain_redefinition_conflict() {
    // Exporting a name twice in one domain fails, and a child domain may
    // not shadow a parent's export either.
    let (mut avm, d1, s1, s2) = setup();
    d1.export_definition(&mut avm, qn("Foo"), s1).unwrap();
    assert_eq!(
        d1.export_definition(&mut avm, qn("Foo"), s2),
        Err(EngineError::Redefinition)
    );
    let d2 = Domain::movie_domain(&mut avm, d1);
    let g3 = avm.bare_object();
    avm.scripts.push(Script { globals: g3 });
    assert_eq!(
        d2.export_definition(&mut avm, qn("Foo"), 2),
        Err(EngineError::Redefinition)
    );
    // A genuinely fresh name is fine in the child.
    d2.export_definition(&mut avm, qn("Bar"), 2).unwrap();
    assert!(d2.has_definition(&avm, &qn("Bar")));
    // The parent does not see the child's export.
    assert!(!d1.has_definition(&avm, &qn("Bar")));
    // The child sees the parent's.
    assert!(d2.has_definition(&avm, &qn("Foo")));
}

#[test]
fn wildcard_lookup_takes_export_order() {
    // A wildcard candidate scans exports in export order: the first
    // export with the local name wins.
    let (mut avm, d1, s1, s2) = setup();
    let in_pkg = QName::new(Namespace::package(String::from("a")), String::from("Thing"));
    let in_pub = qn("Thing");
    d1.export_definition(&mut avm, in_pkg.clone(), s1).unwrap();
    d1.export_definition(&mut avm, in_pub.clone(), s2).unwrap();
    let mn = Multiname {
        ns_set: vec![Namespace::Any],
        name: Some(String::from("Thing")),
    };
    let (found, script) = d1.get_defining_script(&avm, &mn).unwrap();
    assert!(found.qname_eq(&in_pkg));
    assert_eq!(script, s1);
}

#[test]
fn parent_domain_is_consulted_once_after_the_whole_loop() {
    // The candidate loop is exhausted in the child before the parent is
    // consulted at all.
    let (mut avm, d1, s1, s2) = setup();
    let parent_name = QName::new(Namespace::package(String::from("p")), String::from("X"));
    d1.export_definition(&mut avm, parent_name.clone(), s1).unwrap();
    let d2 = Domain::movie_domain(&mut avm, d1);
    let child_name = QName::new(Namespace::package(String::from("q")), String::from("X"));
    d2.export_definition(&mut avm, child_name.clone(), s2).unwrap();
    // Both candidate namespaces are tried in the child first: the second
    // candidate matches the child's own export even though the first
    // would match in the parent.
    let mn = Multiname {
        ns_set: vec![
            Namespace::package(String::from("p")),
            Namespace::package(String::from("q")),
        ],
        name: Some(String::from("X")),
    };
    let (found, script) = d2.get_defining_script(&avm, &mn).unwrap();
    assert!(found.qname_eq(&child_name));
    assert_eq!(script, s2);
    // Only once the child has nothing does the parent answer.
    let mn_parent_only = Multiname {
        ns_set: vec![Namespace::package(String::from("p"))],
        name: Some(String::from("X")),
    };
    let (found2, script2) = d2.get_defining_script(&avm, &mn_parent_only).unwrap();
    assert!(found2.qname_eq(&parent_name));
    assert_eq!(script2, s1);
}

#[test]
fn get_defined_value_reads_the_script_globals() {
    let (mut avm, d1, s1, _s2) = setup();
    d1.export_definition(&mut avm, qn("Answer"), s1).unwrap();
    let globals = avm.scripts[s1].globals;
    avm.set_property(globals, globals, &qn("Answer"), Value::Integer(41))
        .unwrap();
    match d1.get_defined_value(&mut avm, qn("Answer")).unwrap() {
        GetOutcome::Value(Value::Integer(i)) => assert_eq!(i, 41),
        other => panic!("unexpected outcome {:?}", other),
    }
    match d1.get_defined_value(&mut avm, qn("Missing")) {
        Err(e) => assert_eq!(e, EngineError::MissingDefinition),
        Ok(_) => panic!("a missing definition must be an error"),
    }
}

#[test]
fn parent_accessor_returns_the_parent() {
    let (mut avm, d1, _s1, _s2) = setup();
    assert!(d1.parent_domain(&avm).is_none());
    let d2 = Domain::movie_domain(&mut avm, d1);
    assert_eq!(d2.parent_domain(&avm), Some(d1));
}
