//! The root object class's native members.

use vstd::prelude::*;

use crate::error::EngineError;
use crate::heap::{wf, Avm};
use crate::names::{QName, QNameView};
use crate::value::{spec_coerce_to_string, Value};

verus! {

/// The object class's instance initializer: nothing to set up.
pub fn instance_init(avm: &mut Avm, this: Option<usize>, args: &Vec<Value>) -> (r: Result<
    Value,
    EngineError,
>)
    requires
        wf(*old(avm)),
    ensures
        wf(*final(avm)),
        *final(avm) == *old(avm),
        r == Ok::<Value, EngineError>(Value::Undefined),
{
    Ok(Value::Undefined)
}

/// The object class's class initializer: nothing to set up.
pub fn class_init(avm: &mut Avm, this: Option<usize>, args: &Vec<Value>) -> (r: Result<
    Value,
    EngineError,
>)
    requires
        wf(*old(avm)),
    ensures
        wf(*final(avm)),
        *final(avm) == *old(avm),
        r == Ok::<Value, EngineError>(Value::Undefined),
{
    Ok(Value::Undefined)
}

/// The default `toString`: the `[object C]` text for a receiver, and
/// `Undefined` without one.
pub fn to_string(avm: &Avm, this: Option<usize>, args: &Vec<Value>) -> (r: Result<
    Value,
    EngineError,
>)
    requires
        wf(*avm),
    ensures
        this is None ==> r == Ok::<Value, EngineError>(Value::Undefined),
        (this matches Some(t) && t < avm.objects@.len()) ==> match r {
            Ok(Value::String(s)) => s@ == "[object "@ + (
            match crate::engine::spec_proto_class(*avm, this->Some_0 as int) {
                Some(c) => avm.classes@[c as int].name@.name,
                None => "Object"@,
            }) + "]"@,
            _ => false,
        },
{
    match this {
        Some(t) => {
            if t < avm.objects.len() {
                avm.to_string(t)
            } else {
                Err(EngineError::BadObjectRef)
            }
        },
        None => Ok(Value::Undefined),
    }
}

/// The default `toLocaleString`: the same text as `toString`.
pub fn to_locale_string(avm: &Avm, this: Option<usize>, args: &Vec<Value>) -> (r: Result<
    Value,
    EngineError,
>)
    requires
        wf(*avm),
    ensures
        this is None ==> r == Ok::<Value, EngineError>(Value::Undefined),
        (this matches Some(t) && t < avm.objects@.len()) ==> match r {
            Ok(Value::String(s)) => s@ == "[object "@ + (
            match crate::engine::spec_proto_class(*avm, this->Some_0 as int) {
                Some(c) => avm.classes@[c as int].name@.name,
                None => "Object"@,
            }) + "]"@,
            _ => false,
        },
{
    match this {
        Some(t) => {
            if t < avm.objects.len() {
                avm.to_locale_string(t)
            } else {
                Err(EngineError::BadObjectRef)
            }
        },
        None => Ok(Value::Undefined),
    }
}

/// The default `valueOf`: the receiver's primitive form, `Undefined`
/// without a receiver.
pub fn value_of(avm: &Avm, this: Option<usize>, args: &Vec<Value>) -> (r: Result<
    Value,
    EngineError,
>)
    ensures
        this is None ==> r == Ok::<Value, EngineError>(Value::Undefined),
        (this matches Some(t) && t < avm.objects@.len()) ==> r == (
        match avm.objects@[this->Some_0 as int].kind {
            crate::heap::ObjKind::Primitive(v) => Ok::<Value, EngineError>(v),
            _ => Ok::<Value, EngineError>(Value::Object(this->Some_0)),
        }),
{
    match this {
        Some(t) => {
            if t < avm.objects.len() {
                avm.value_of(t)
            } else {
                Err(EngineError::BadObjectRef)
            }
        },
        None => Ok(Value::Undefined),
    }
}

/// `hasOwnProperty`: whether the receiver itself owns the named property
/// in some non-private namespace. A missing receiver or name argument is
/// an error; a name that resolves only privately — or not at all — reads
/// as false.
pub fn has_own_property(avm: &Avm, this: Option<usize>, args: &Vec<Value>) -> (r: Result<
    Value,
    EngineError,
>)
    requires
        wf(*avm),
    ensures
        this is None ==> r == Err::<Value, EngineError>(EngineError::NoThis),
        (this matches Some(t) && t < avm.objects@.len() && args@.len() == 0) ==> r == Err::<
            Value,
            EngineError,
        >(EngineError::NoArgument),
        (this matches Some(t) && t < avm.objects@.len() && args@.len() > 0
            && spec_coerce_to_string(args@[0]) is Some) ==> r == ({
            let text = spec_coerce_to_string(args@[0])->Some_0;
            match crate::engine::spec_resolve_any_full(*avm, this->Some_0 as int, text) {
                Some(ns) => if !(ns@ is Private) {
                    Ok::<Value, EngineError>(
                        Value::Bool(
                            crate::engine::spec_has_own(
                                *avm,
                                this->Some_0 as int,
                                QNameView { ns: ns@, name: text },
                            ),
                        ),
                    )
                } else {
                    Ok::<Value, EngineError>(Value::Bool(false))
                },
                None => Ok::<Value, EngineError>(Value::Bool(false)),
            }
        }),
{
    let t = match this {
        Some(t) => t,
        None => {
            return Err(EngineError::NoThis);
        },
    };
    if t >= avm.objects.len() {
        return Err(EngineError::BadObjectRef);
    }
    if args.len() == 0 {
        return Err(EngineError::NoArgument);
    }
    let name = match args[0].coerce_to_string() {
        Ok(s) => s,
        Err(e) => {
            return Err(e);
        },
    };
    match avm.resolve_any(t, &name) {
        Some(ns) => {
            if !ns.is_private() {
                let qname = QName::new(ns, name);
                Ok(Value::Bool(avm.has_own_property(t, &qname)))
            } else {
                Ok(Value::Bool(false))
            }
        },
        None => Ok(Value::Bool(false)),
    }
}

/// `isPrototypeOf`: whether the receiver occurs in the prototype chain of
/// the argument object.
pub fn is_prototype_of(avm: &Avm, this: Option<usize>, args: &Vec<Value>) -> (r: Result<
    Value,
    EngineError,
>)
    requires
        wf(*avm),
    ensures
        this is None ==> r == Err::<Value, EngineError>(EngineError::NoThis),
        this matches Some(o) ==> r == (match (if args@.len() > 0 {
            args@[0]
        } else {
            Value::Undefined
        }) {
            Value::Object(p) => if p < avm.objects@.len() {
                Ok::<Value, EngineError>(
                    Value::Bool(
                        p == o || crate::engine::spec_chain_contains(*avm, p as int, o, false),
                    ),
                )
            } else {
                Err::<Value, EngineError>(EngineError::BadObjectRef)
            },
            _ => Ok::<Value, EngineError>(Value::Bool(false)),
        }),
{
    let search_proto = match this {
        Some(t) => t,
        None => {
            return Err(EngineError::NoThis);
        },
    };
    let first = match args.len() {
        0 => Value::Undefined,
        _ => args[0].clone(),
    };
    let mut p = match first {
        Value::Object(p) => p,
        _ => {
            return Ok(Value::Bool(false));
        },
    };
    if p >= avm.objects.len() {
        return Err(EngineError::BadObjectRef);
    }
    let ghost p0 = p;
    loop
        invariant
            wf(*avm),
            this == Some(search_proto),
            (if args@.len() > 0 {
                args@[0]
            } else {
                Value::Undefined
            }) == Value::Object(p0),
            p < avm.objects@.len(),
            p0 < avm.objects@.len(),
            (p0 == search_proto || crate::engine::spec_chain_contains(
                *avm,
                p0 as int,
                search_proto,
                false,
            )) == (p == search_proto || crate::engine::spec_chain_contains(
                *avm,
                p as int,
                search_proto,
                false,
            )),
        decreases p,
    {
        if crate::heap::Avm::ptr_eq(search_proto, p) {
            return Ok(Value::Bool(true));
        }
        proof {
            assert(crate::heap::wf_obj(
                avm.objects@[p as int],
                p as int,
                avm.objects@.len() as int,
                avm.classes@.len() as int,
                avm.scopes@.len() as int,
            ));
        }
        match avm.proto_of(p) {
            Some(q) => {
                p = q;
            },
            None => {
                return Ok(Value::Bool(false));
            },
        }
    }
}

/// `propertyIsEnumerable`: whether the named property is currently
/// enumerable on the receiver itself.
pub fn property_is_enumerable(avm: &Avm, this: Option<usize>, args: &Vec<Value>) -> (r: Result<
    Value,
    EngineError,
>)
    requires
        wf(*avm),
    ensures
        this is None ==> r == Err::<Value, EngineError>(EngineError::NoThis),
        (this matches Some(t) && t < avm.objects@.len() && args@.len() == 0) ==> r == Err::<
            Value,
            EngineError,
        >(EngineError::NoArgument),
        (this matches Some(t) && t < avm.objects@.len() && args@.len() > 0
            && spec_coerce_to_string(args@[0]) is Some) ==> r == ({
            let text = spec_coerce_to_string(args@[0])->Some_0;
            match crate::engine::spec_resolve_any_full(*avm, this->Some_0 as int, text) {
                Some(ns) => if !(ns@ is Private) {
                    Ok::<Value, EngineError>(
                        Value::Bool(
                            crate::storage::spec_enum_contains(
                                avm.objects@[this->Some_0 as int].data.enumerants@,
                                QNameView { ns: ns@, name: text },
                            ),
                        ),
                    )
                } else {
                    Ok::<Value, EngineError>(Value::Bool(false))
                },
                None => Ok::<Value, EngineError>(Value::Bool(false)),
            }
        }),
{
    let t = match this {
        Some(t) => t,
        None => {
            return Err(EngineError::NoThis);
        },
    };
    if t >= avm.objects.len() {
        return Err(EngineError::BadObjectRef);
    }
    if args.len() == 0 {
        return Err(EngineError::NoArgument);
    }
    let name = match args[0].coerce_to_string() {
        Ok(s) => s,
        Err(e) => {
            return Err(e);
        },
    };
    match avm.resolve_any(t, &name) {
        Some(ns) => {
            if !ns.is_private() {
                let qname = QName::new(ns, name);
                Ok(Value::Bool(avm.property_is_enumerable(t, &qname)))
            } else {
                Ok(Value::Bool(false))
            }
        },
        None => Ok(Value::Bool(false)),
    }
}

/// `setPropertyIsEnumerable`: marks the named property enumerable or not
/// on the receiver, when the second argument is a boolean; anything else
/// changes nothing.
pub fn set_property_is_enumerable(avm: &mut Avm, this: Option<usize>, args: &Vec<Value>) -> (r:
    Result<Value, EngineError>)
    requires
        wf(*old(avm)),
    ensures
        wf(*final(avm)),
        this is None ==> r == Err::<Value, EngineError>(EngineError::NoThis) && *final(avm)
            == *old(avm),
        (this matches Some(t) && t < old(avm).objects@.len() && args@.len() == 0) ==> r
            == Err::<Value, EngineError>(EngineError::NoArgument) && *final(avm) == *old(avm),
        (this matches Some(t) && t < old(avm).objects@.len() && args@.len() > 0
            && spec_coerce_to_string(args@[0]) is Some) ==> {
            let t = this->Some_0;
            let text = spec_coerce_to_string(args@[0])->Some_0;
            match (if args@.len() > 1 {
                args@[1]
            } else {
                Value::Undefined
            }) {
                Value::Bool(b) => match crate::engine::spec_resolve_any_full(
                    *old(avm),
                    t as int,
                    text,
                ) {
                    Some(ns) => if !(ns@ is Private) {
                        let qv = QNameView { ns: ns@, name: text };
                        &&& r == Ok::<Value, EngineError>(Value::Undefined)
                        &&& crate::resolve::spec_only_obj_changed(
                            *old(avm),
                            *final(avm),
                            t as int,
                        )
                        &&& final(avm).objects@[t as int].kind == old(avm).objects@[t
                            as int].kind
                        &&& final(avm).objects@[t as int].data.props == old(avm).objects@[t
                            as int].data.props
                        &&& final(avm).objects@[t as int].data.slots == old(avm).objects@[t
                            as int].data.slots
                        &&& crate::resolve::spec_enum_update(
                            old(avm).objects@[t as int].data.enumerants@,
                            final(avm).objects@[t as int].data.enumerants@,
                            qv,
                            b,
                            crate::storage::spec_has_prop(
                                old(avm).objects@[t as int].data.props@,
                                qv,
                            ),
                            crate::engine::spec_has_trait(*old(avm), t as int, qv),
                        )
                    } else {
                        r == Ok::<Value, EngineError>(Value::Undefined) && *final(avm) == *old(
                            avm,
                        )
                    },
                    None => r == Ok::<Value, EngineError>(Value::Undefined) && *final(avm)
                        == *old(avm),
                },
                _ => r == Ok::<Value, EngineError>(Value::Undefined) && *final(avm) == *old(
                    avm,
                ),
            }
        },
{
    let t = match this {
        Some(t) => t,
        None => {
            return Err(EngineError::NoThis);
        },
    };
    if t >= avm.objects.len() {
        return Err(EngineError::BadObjectRef);
    }
    if args.len() == 0 {
        return Err(EngineError::NoArgument);
    }
    let name = match args[0].coerce_to_string() {
        Ok(s) => s,
        Err(e) => {
            return Err(e);
        },
    };
    let is_enum = if args.len() > 1 {
        match &args[1] {
            Value::Bool(b) => Some(*b),
            _ => None,
        }
    } else {
        None
    };
    match is_enum {
        Some(b) => {
            match avm.resolve_any(t, &name) {
                Some(ns) => {
                    if !ns.is_private() {
                        let qname = QName::new(ns, name);
                        match avm.set_local_property_is_enumerable(t, &qname, b) {
                            Ok(()) => {},
                            Err(e) => {
                                return Err(e);
                            },
                        }
                    }
                },
                None => {},
            }
        },
        None => {},
    }
    Ok(Value::Undefined)
}

/// The opaque handle this module assigns to `toString`.
pub const METHOD_TO_STRING: u32 = 1;

/// The opaque handle this module assigns to `toLocaleString`.
pub const METHOD_TO_LOCALE_STRING: u32 = 2;

/// The opaque handle this module assigns to `valueOf`.
pub const METHOD_VALUE_OF: u32 = 3;

/// The opaque handle this module assigns to `hasOwnProperty`.
pub const METHOD_HAS_OWN_PROPERTY: u32 = 4;

/// The opaque handle this module assigns to `isPrototypeOf`.
pub const METHOD_IS_PROTOTYPE_OF: u32 = 5;

/// The opaque handle this module assigns to `propertyIsEnumerable`.
pub const METHOD_PROPERTY_IS_ENUMERABLE: u32 = 6;

/// The opaque handle this module assigns to `setPropertyIsEnumerable`.
pub const METHOD_SET_PROPERTY_IS_ENUMERABLE: u32 = 7;

/// The opaque handle this module assigns to the instance initializer.
pub const METHOD_INSTANCE_INIT: u32 = 8;

/// The opaque handle this module assigns to the class initializer.
pub const METHOD_CLASS_INIT: u32 = 9;

/// Creates the root object class and a bare prototype attached to it,
/// closed over a scope holding the globals object. The prototype's
/// members are filled in separately, once a function prototype exists.
pub fn create_proto(avm: &mut Avm, globals: usize) -> (r: (usize, usize))
    requires
        wf(*old(avm)),
        globals < old(avm).objects@.len(),
    ensures
        wf(*final(avm)),
        r.0 < final(avm).objects@.len(),
        r.1 < final(avm).classes@.len(),
        final(avm).objects@[r.0 as int].data.trait_source
            == crate::storage::TraitSource::InstancePrototype(
            r.1,
            Some(old(avm).scopes@.len() as usize),
        ),
{
    let object_class = crate::class::Class::new(
        QName::dynamic_name(String::from_str("Object")),
        None,
        METHOD_INSTANCE_INIT,
        METHOD_CLASS_INIT,
    );
    let class_id = avm.push_class(object_class);
    let parent = avm.get_scope(globals);
    let scope = avm.push_scope(parent, globals);
    let proto = avm.bare_prototype(class_id, Some(scope));
    (proto, class_id)
}

/// Installs one built-in member on a prototype: a fresh unbound function
/// object below the function prototype, under the given name.
fn install_builtin(
    avm: &mut Avm,
    proto: usize,
    fn_proto: usize,
    name: QName,
    method: u32,
) -> (r: usize)
    requires
        wf(*old(avm)),
        proto < old(avm).objects@.len(),
        fn_proto < old(avm).objects@.len(),
    ensures
        wf(*final(avm)),
        final(avm).objects@.len() > old(avm).objects@.len(),
        final(avm).classes == old(avm).classes,
        final(avm).scopes == old(avm).scopes,
        final(avm).protos == old(avm).protos,
        r < final(avm).objects@.len(),
{
    let f = avm.alloc_object(
        crate::heap::ObjKind::Function { method, scope: None, receiver: None },
        Some(fn_proto),
        crate::storage::TraitSource::NoClass,
    );
    avm.install_method(proto, name, 0, f);
    f
}

/// Fills the root object prototype with its built-in members and builds
/// the root constructor, whose `prototype` is the filled prototype.
/// Cross-linked properties such as the prototype's own back link are the
/// caller's to define.
pub fn fill_proto(avm: &mut Avm, object_proto: usize, fn_proto: usize) -> (r: usize)
    requires
        wf(*old(avm)),
        object_proto < old(avm).objects@.len(),
        fn_proto < old(avm).objects@.len(),
    ensures
        wf(*final(avm)),
        r < final(avm).objects@.len(),
{
    install_builtin(
        avm,
        object_proto,
        fn_proto,
        QName::dynamic_name(String::from_str("toString")),
        METHOD_TO_STRING,
    );
    install_builtin(
        avm,
        object_proto,
        fn_proto,
        QName::dynamic_name(String::from_str("toLocaleString")),
        METHOD_TO_LOCALE_STRING,
    );
    install_builtin(
        avm,
        object_proto,
        fn_proto,
        QName::dynamic_name(String::from_str("valueOf")),
        METHOD_VALUE_OF,
    );
    install_builtin(
        avm,
        object_proto,
        fn_proto,
        QName::new(
            crate::names::Namespace::as3_namespace(),
            String::from_str("hasOwnProperty"),
        ),
        METHOD_HAS_OWN_PROPERTY,
    );
    install_builtin(
        avm,
        object_proto,
        fn_proto,
        QName::new(
            crate::names::Namespace::as3_namespace(),
            String::from_str("isPrototypeOf"),
        ),
        METHOD_IS_PROTOTYPE_OF,
    );
    install_builtin(
        avm,
        object_proto,
        fn_proto,
        QName::new(
            crate::names::Namespace::as3_namespace(),
            String::from_str("propertyIsEnumerable"),
        ),
        METHOD_PROPERTY_IS_ENUMERABLE,
    );
    install_builtin(
        avm,
        object_proto,
        fn_proto,
        QName::dynamic_name(String::from_str("setPropertyIsEnumerable")),
        METHOD_SET_PROPERTY_IS_ENUMERABLE,
    );
    let constructor = avm.alloc_object(
        crate::heap::ObjKind::Function {
            method: METHOD_INSTANCE_INIT,
            scope: None,
            receiver: None,
        },
        Some(fn_proto),
        crate::storage::TraitSource::NoClass,
    );
    avm.install_slot(
        constructor,
        QName::dynamic_name(String::from_str("prototype")),
        0,
        crate::value::Value::Object(object_proto),
    );
    constructor
}

} // verus!
