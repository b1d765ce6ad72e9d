//! The event class's native members.
//!
//! Every accessor here reads or writes the event state carried by the
//! receiver. A receiver is always required: the members are installed as
//! bound methods and a host never dispatches them without one.

use vstd::prelude::*;
use vstd::string::StringExecFns;

use crate::error::EngineError;
use crate::event::{spec_phase_number, EventData, PropagationMode};
use crate::heap::{wf, Avm, ObjKind};
use crate::names::QName;
use crate::storage::{GetOutcome, TraitSource};
use crate::value::{spec_coerce_to_string, spec_truthy, Value};

verus! {

/// The event's instance initializer: the type name, bubbling and
/// cancelability arrive as the first three arguments, with the usual
/// defaults. The superclass initializer chain is the host's work.
pub fn instance_init(avm: &mut Avm, this: Option<usize>, args: &Vec<Value>) -> (r: Result<
    Value,
    EngineError,
>)
    requires
        wf(*old(avm)),
        this matches Some(t) ==> t < old(avm).objects@.len(),
    ensures
        wf(*final(avm)),
        this is None ==> r == Ok::<Value, EngineError>(Value::Undefined) && *final(avm) == *old(
            avm,
        ),
        (this matches Some(t) && !(old(avm).objects@[t as int].kind is Event)) ==> r == Ok::<
            Value,
            EngineError,
        >(Value::Undefined) && *final(avm) == *old(avm),
        (this matches Some(t) && old(avm).objects@[t as int].kind is Event
            && spec_coerce_to_string(
            if args@.len() > 0 {
                args@[0]
            } else {
                Value::Undefined
            },
        ) is Some) ==> {
            let t = this->Some_0;
            let text = spec_coerce_to_string(
                if args@.len() > 0 {
                    args@[0]
                } else {
                    Value::Undefined
                },
            )->Some_0;
            &&& r == Ok::<Value, EngineError>(Value::Undefined)
            &&& crate::resolve::spec_only_obj_changed(*old(avm), *final(avm), t as int)
            &&& final(avm).objects@[t as int].data == old(avm).objects@[t as int].data
            &&& match (old(avm).objects@[t as int].kind, final(avm).objects@[t as int].kind) {
                (ObjKind::Event(pre_e), ObjKind::Event(e)) => {
                    &&& e.event_type@ == text
                    &&& e.bubbles == (if args@.len() > 1 {
                        spec_truthy(args@[1])
                    } else {
                        false
                    })
                    &&& e.cancelable == (if args@.len() > 2 {
                        spec_truthy(args@[2])
                    } else {
                        false
                    })
                    &&& e.cancelled == pre_e.cancelled
                    &&& e.phase == pre_e.phase
                    &&& e.target == pre_e.target
                    &&& e.current_target == pre_e.current_target
                    &&& e.propagation == pre_e.propagation
                },
                _ => false,
            }
        },
{
    let t = match this {
        Some(t) => t,
        None => {
            return Ok(Value::Undefined);
        },
    };
    let is_event = matches!(&avm.objects[t].kind, ObjKind::Event(_));
    if !is_event {
        return Ok(Value::Undefined);
    }
    let type_arg = if args.len() > 0 {
        args[0].clone()
    } else {
        Value::Undefined
    };
    let event_type = match type_arg.coerce_to_string() {
        Ok(s) => s,
        Err(e) => {
            return Err(e);
        },
    };
    let bubbles = if args.len() > 1 {
        args[1].coerce_to_boolean()
    } else {
        false
    };
    let cancelable = if args.len() > 2 {
        args[2].coerce_to_boolean()
    } else {
        false
    };
    proof {
        assert(crate::heap::wf_obj(
            avm.objects@[t as int],
            t as int,
            avm.objects@.len() as int,
            avm.classes@.len() as int,
            avm.scopes@.len() as int,
        ));
    }
    match &mut avm.objects[t].kind {
        ObjKind::Event(e) => {
            e.event_type = event_type;
            e.bubbles = bubbles;
            e.cancelable = cancelable;
            Ok(Value::Undefined)
        },
        _ => Err(EngineError::BadObjectRef),
    }
}

/// The event class's class initializer: nothing to set up.
pub fn class_init(avm: &mut Avm, this: Option<usize>, args: &Vec<Value>) -> (r: Result<
    Value,
    EngineError,
>)
    ensures
        *final(avm) == *old(avm),
        r == Ok::<Value, EngineError>(Value::Undefined),
{
    Ok(Value::Undefined)
}

/// The `bubbles` getter.
pub fn bubbles(avm: &Avm, this: Option<usize>, args: &Vec<Value>) -> (r: Result<
    Value,
    EngineError,
>)
    requires
        this is Some,
        this matches Some(t) ==> t < avm.objects@.len(),
    ensures
        r == match avm.objects@[this->Some_0 as int].kind {
            ObjKind::Event(e) => Ok::<Value, EngineError>(Value::Bool(e.bubbles)),
            _ => Ok::<Value, EngineError>(Value::Undefined),
        },
{
    let t = this.unwrap();
    match &avm.objects[t].kind {
        ObjKind::Event(e) => Ok(Value::Bool(e.bubbles)),
        _ => Ok(Value::Undefined),
    }
}

/// The `cancelable` getter.
pub fn cancelable(avm: &Avm, this: Option<usize>, args: &Vec<Value>) -> (r: Result<
    Value,
    EngineError,
>)
    requires
        this is Some,
        this matches Some(t) ==> t < avm.objects@.len(),
    ensures
        r == match avm.objects@[this->Some_0 as int].kind {
            ObjKind::Event(e) => Ok::<Value, EngineError>(Value::Bool(e.cancelable)),
            _ => Ok::<Value, EngineError>(Value::Undefined),
        },
{
    let t = this.unwrap();
    match &avm.objects[t].kind {
        ObjKind::Event(e) => Ok(Value::Bool(e.cancelable)),
        _ => Ok(Value::Undefined),
    }
}

/// The `type` getter.
pub fn get_type(avm: &Avm, this: Option<usize>, args: &Vec<Value>) -> (r: Result<
    Value,
    EngineError,
>)
    requires
        this is Some,
        this matches Some(t) ==> t < avm.objects@.len(),
    ensures
        match avm.objects@[this->Some_0 as int].kind {
            ObjKind::Event(e) => r matches Ok(Value::String(s)) && s@ == e.event_type@,
            _ => r == Ok::<Value, EngineError>(Value::Undefined),
        },
{
    let t = this.unwrap();
    match &avm.objects[t].kind {
        ObjKind::Event(e) => Ok(Value::String(e.event_type.clone())),
        _ => Ok(Value::Undefined),
    }
}

/// The `target` getter: the object the event was dispatched at, `Null`
/// before dispatch.
pub fn target(avm: &Avm, this: Option<usize>, args: &Vec<Value>) -> (r: Result<
    Value,
    EngineError,
>)
    requires
        this is Some,
        this matches Some(t) ==> t < avm.objects@.len(),
    ensures
        r == match avm.objects@[this->Some_0 as int].kind {
            ObjKind::Event(e) => match e.target {
                Some(o) => Ok::<Value, EngineError>(Value::Object(o)),
                None => Ok::<Value, EngineError>(Value::Null),
            },
            _ => Ok::<Value, EngineError>(Value::Undefined),
        },
{
    let t = this.unwrap();
    match &avm.objects[t].kind {
        ObjKind::Event(e) => match e.target {
            Some(o) => Ok(Value::Object(o)),
            None => Ok(Value::Null),
        },
        _ => Ok(Value::Undefined),
    }
}

/// The `currentTarget` getter: the object whose handlers are running,
/// `Null` outside dispatch.
pub fn current_target(avm: &Avm, this: Option<usize>, args: &Vec<Value>) -> (r: Result<
    Value,
    EngineError,
>)
    requires
        this is Some,
        this matches Some(t) ==> t < avm.objects@.len(),
    ensures
        r == match avm.objects@[this->Some_0 as int].kind {
            ObjKind::Event(e) => match e.current_target {
                Some(o) => Ok::<Value, EngineError>(Value::Object(o)),
                None => Ok::<Value, EngineError>(Value::Null),
            },
            _ => Ok::<Value, EngineError>(Value::Undefined),
        },
{
    let t = this.unwrap();
    match &avm.objects[t].kind {
        ObjKind::Event(e) => match e.current_target {
            Some(o) => Ok(Value::Object(o)),
            None => Ok(Value::Null),
        },
        _ => Ok(Value::Undefined),
    }
}

/// The `eventPhase` getter: the numeric phase encoding.
pub fn event_phase(avm: &Avm, this: Option<usize>, args: &Vec<Value>) -> (r: Result<
    Value,
    EngineError,
>)
    requires
        this is Some,
        this matches Some(t) ==> t < avm.objects@.len(),
    ensures
        r == match avm.objects@[this->Some_0 as int].kind {
            ObjKind::Event(e) => Ok::<Value, EngineError>(
                Value::Unsigned(spec_phase_number(e.phase)),
            ),
            _ => Ok::<Value, EngineError>(Value::Undefined),
        },
{
    let t = this.unwrap();
    match &avm.objects[t].kind {
        ObjKind::Event(e) => Ok(Value::Unsigned(e.phase.phase_number())),
        _ => Ok(Value::Undefined),
    }
}

/// `clone`: a fresh event object below the event prototype, carrying a
/// copy of the receiver's event state.
pub fn clone(avm: &mut Avm, this: Option<usize>, args: &Vec<Value>) -> (r: Result<
    Value,
    EngineError,
>)
    requires
        wf(*old(avm)),
        this is Some,
        this matches Some(t) ==> t < old(avm).objects@.len(),
        old(avm).protos.event is Some,
    ensures
        wf(*final(avm)),
        match old(avm).objects@[this->Some_0 as int].kind {
            ObjKind::Event(e) => {
                let f = old(avm).objects@.len() as usize;
                &&& r == Ok::<Value, EngineError>(Value::Object(f))
                &&& crate::resolve::spec_alloc_rel(*old(avm), *final(avm), f)
                &&& final(avm).objects@[f as int].kind == ObjKind::Event(e)
                &&& final(avm).objects@[f as int].data.proto == Some(
                    old(avm).protos.event->Some_0,
                )
                &&& final(avm).objects@[f as int].data.trait_source is NoClass
            },
            _ => r == Ok::<Value, EngineError>(Value::Undefined) && *final(avm) == *old(avm),
        },
{
    let t = this.unwrap();
    let evt = match &avm.objects[t].kind {
        ObjKind::Event(e) => e.clone(),
        _ => {
            return Ok(Value::Undefined);
        },
    };
    let proto = avm.protos.event.unwrap();
    let f = avm.alloc_object(ObjKind::Event(evt), Some(proto), TraitSource::NoClass);
    Ok(Value::Object(f))
}

/// `isDefaultPrevented`: whether the default behaviour was cancelled.
pub fn is_default_prevented(avm: &Avm, this: Option<usize>, args: &Vec<Value>) -> (r: Result<
    Value,
    EngineError,
>)
    requires
        this is Some,
        this matches Some(t) ==> t < avm.objects@.len(),
    ensures
        r == match avm.objects@[this->Some_0 as int].kind {
            ObjKind::Event(e) => Ok::<Value, EngineError>(Value::Bool(e.cancelled)),
            _ => Ok::<Value, EngineError>(Value::Undefined),
        },
{
    let t = this.unwrap();
    match &avm.objects[t].kind {
        ObjKind::Event(e) => Ok(Value::Bool(e.cancelled)),
        _ => Ok(Value::Undefined),
    }
}

/// `preventDefault`: cancels the default behaviour, when the event is
/// cancelable at all.
pub fn prevent_default(avm: &mut Avm, this: Option<usize>, args: &Vec<Value>) -> (r: Result<
    Value,
    EngineError,
>)
    requires
        wf(*old(avm)),
        this is Some,
        this matches Some(t) ==> t < old(avm).objects@.len(),
    ensures
        wf(*final(avm)),
        r == Ok::<Value, EngineError>(Value::Undefined),
        crate::resolve::spec_only_obj_changed(*old(avm), *final(avm), this->Some_0 as int),
        match old(avm).objects@[this->Some_0 as int].kind {
            ObjKind::Event(e) => final(avm).objects@[this->Some_0 as int].kind
                == ObjKind::Event(
                EventData { cancelled: e.cancelled || e.cancelable, ..e },
            ),
            _ => final(avm).objects@[this->Some_0 as int] == old(avm).objects@[this->Some_0
                as int],
        },
{
    let t = this.unwrap();
    proof {
        assert(crate::heap::wf_obj(
            avm.objects@[t as int],
            t as int,
            avm.objects@.len() as int,
            avm.classes@.len() as int,
            avm.scopes@.len() as int,
        ));
    }
    match &mut avm.objects[t].kind {
        ObjKind::Event(e) => {
            e.cancel();
        },
        _ => {},
    }
    Ok(Value::Undefined)
}

/// `stopPropagation`: the event visits no further objects.
pub fn stop_propagation(avm: &mut Avm, this: Option<usize>, args: &Vec<Value>) -> (r: Result<
    Value,
    EngineError,
>)
    requires
        wf(*old(avm)),
        this is Some,
        this matches Some(t) ==> t < old(avm).objects@.len(),
    ensures
        wf(*final(avm)),
        r == Ok::<Value, EngineError>(Value::Undefined),
        crate::resolve::spec_only_obj_changed(*old(avm), *final(avm), this->Some_0 as int),
        match old(avm).objects@[this->Some_0 as int].kind {
            ObjKind::Event(e) => final(avm).objects@[this->Some_0 as int].kind
                == ObjKind::Event(
                EventData { propagation: PropagationMode::Stop, ..e },
            ),
            _ => final(avm).objects@[this->Some_0 as int] == old(avm).objects@[this->Some_0
                as int],
        },
{
    let t = this.unwrap();
    proof {
        assert(crate::heap::wf_obj(
            avm.objects@[t as int],
            t as int,
            avm.objects@.len() as int,
            avm.classes@.len() as int,
            avm.scopes@.len() as int,
        ));
    }
    match &mut avm.objects[t].kind {
        ObjKind::Event(e) => {
            e.stop_propagation();
        },
        _ => {},
    }
    Ok(Value::Undefined)
}

/// `stopImmediatePropagation`: the event visits no further objects and no
/// further handlers on the current one.
pub fn stop_immediate_propagation(avm: &mut Avm, this: Option<usize>, args: &Vec<Value>) -> (r:
    Result<Value, EngineError>)
    requires
        wf(*old(avm)),
        this is Some,
        this matches Some(t) ==> t < old(avm).objects@.len(),
    ensures
        wf(*final(avm)),
        r == Ok::<Value, EngineError>(Value::Undefined),
        crate::resolve::spec_only_obj_changed(*old(avm), *final(avm), this->Some_0 as int),
        match old(avm).objects@[this->Some_0 as int].kind {
            ObjKind::Event(e) => final(avm).objects@[this->Some_0 as int].kind
                == ObjKind::Event(
                EventData { propagation: PropagationMode::StopImmediate, ..e },
            ),
            _ => final(avm).objects@[this->Some_0 as int] == old(avm).objects@[this->Some_0
                as int],
        },
{
    let t = this.unwrap();
    proof {
        assert(crate::heap::wf_obj(
            avm.objects@[t as int],
            t as int,
            avm.objects@.len() as int,
            avm.classes@.len() as int,
            avm.scopes@.len() as int,
        ));
    }
    match &mut avm.objects[t].kind {
        ObjKind::Event(e) => {
            e.stop_immediate_propagation();
        },
        _ => {},
    }
    Ok(Value::Undefined)
}

/// `toString`: an event coerces through its primitive form.
pub fn to_string(avm: &Avm, this: Option<usize>, args: &Vec<Value>) -> (r: Result<
    Value,
    EngineError,
>)
    ensures
        this is None ==> r == Ok::<Value, EngineError>(Value::Undefined),
        (this matches Some(t) && t < avm.objects@.len()) ==> r == (
        match avm.objects@[this->Some_0 as int].kind {
            ObjKind::Primitive(v) => Ok::<Value, EngineError>(v),
            _ => Ok::<Value, EngineError>(Value::Object(this->Some_0)),
        }),
{
    match this {
        Some(t) => {
            if t < avm.objects.len() {
                avm.value_of(t)
            } else {
                Err(EngineError::BadObjectRef)
            }
        },
        None => Ok(Value::Undefined),
    }
}

/// `formatToString`: the `[ClassName name=value ...]` debug text. The
/// first argument names the class; each further argument names a property
/// whose current value is read off the receiver and rendered — a string
/// value in quotes. A property whose read or rendering needs the host is
/// reported as such.
pub fn format_to_string(avm: &mut Avm, this: Option<usize>, args: &Vec<Value>) -> (r: Result<
    Value,
    EngineError,
>)
    requires
        wf(*old(avm)),
    ensures
        wf(*final(avm)),
        crate::resolve::spec_installs_only(*old(avm), *final(avm)),
        this is None ==> r == Ok::<Value, EngineError>(Value::Undefined) && *final(avm) == *old(
            avm,
        ),
        r is Ok && this is Some ==> r->Ok_0 is String,
{
    let t = match this {
        Some(t) => t,
        None => {
            return Ok(Value::Undefined);
        },
    };
    if t >= avm.objects.len() {
        return Err(EngineError::BadObjectRef);
    }
    let class_arg = if args.len() > 0 {
        args[0].clone()
    } else {
        Value::Undefined
    };
    let class_name = match class_arg.coerce_to_string() {
        Ok(s) => s,
        Err(e) => {
            return Err(e);
        },
    };
    let mut out = String::from_str("[");
    out.append(class_name.as_str());
    let ghost pre = *avm;
    let mut i: usize = 1;
    while i < args.len()
        invariant
            pre == *old(avm),
            wf(*avm),
            crate::resolve::spec_installs_only(pre, *avm),
            t < avm.objects@.len(),
            this is Some,
        decreases args@.len() - i,
    {
        let param_arg = args[i].clone();
        let param_name = match &param_arg {
            Value::Undefined => String::from_str("null"),
            Value::Null => String::from_str("null"),
            other => match other.coerce_to_string() {
                Ok(s) => s,
                Err(e) => {
                    return Err(e);
                },
            },
        };
        let qname = QName::dynamic_name(param_name.clone());
        let ghost mid = *avm;
        let out_prop = avm.get_property(t, t, &qname);
        proof {
            crate::resolve::lemma_installs_only_trans(pre, mid, *avm);
        }
        let value = match out_prop {
            Ok(GetOutcome::Value(v)) => v,
            Ok(GetOutcome::CallGetter { .. }) => {
                return Err(EngineError::HostCoercionRequired);
            },
            Err(e) => {
                return Err(e);
            },
        };
        let rendered = match &value {
            Value::String(s) => {
                let mut q = String::from_str("\"");
                q.append(s.as_str());
                q.append("\"");
                q
            },
            other => match other.coerce_to_string() {
                Ok(s) => s,
                Err(e) => {
                    return Err(e);
                },
            },
        };
        out.append(" ");
        out.append(param_name.as_str());
        out.append("=");
        out.append(rendered.as_str());
        i += 1;
    }
    out.append("]");
    Ok(Value::String(out))
}


/// The opaque handles this module assigns to the event members.
/// The opaque handle this module assigns to one event member.
pub const METHOD_INSTANCE_INIT: u32 = 20;
/// The opaque handle this module assigns to one event member.
pub const METHOD_CLASS_INIT: u32 = 21;
/// The opaque handle this module assigns to one event member.
pub const METHOD_BUBBLES: u32 = 22;
/// The opaque handle this module assigns to one event member.
pub const METHOD_CANCELABLE: u32 = 23;
/// The opaque handle this module assigns to one event member.
pub const METHOD_GET_TYPE: u32 = 24;
/// The opaque handle this module assigns to one event member.
pub const METHOD_TARGET: u32 = 25;
/// The opaque handle this module assigns to one event member.
pub const METHOD_CURRENT_TARGET: u32 = 26;
/// The opaque handle this module assigns to one event member.
pub const METHOD_EVENT_PHASE: u32 = 27;
/// The opaque handle this module assigns to one event member.
pub const METHOD_CLONE: u32 = 28;
/// The opaque handle this module assigns to one event member.
pub const METHOD_FORMAT_TO_STRING: u32 = 29;
/// The opaque handle this module assigns to one event member.
pub const METHOD_IS_DEFAULT_PREVENTED: u32 = 30;
/// The opaque handle this module assigns to one event member.
pub const METHOD_PREVENT_DEFAULT: u32 = 31;
/// The opaque handle this module assigns to one event member.
pub const METHOD_STOP_PROPAGATION: u32 = 32;
/// The opaque handle this module assigns to one event member.
pub const METHOD_STOP_IMMEDIATE_PROPAGATION: u32 = 33;
/// The opaque handle this module assigns to one event member.
pub const METHOD_TO_STRING: u32 = 34;

/// One of the event class's string constants.
fn string_const(name: &str, value: &str) -> crate::traits::Trait {
    crate::traits::Trait::from_const(
        QName::dynamic_name(String::from_str(name)),
        crate::names::Multiname::from_qname(
            QName::dynamic_name(String::from_str("String")),
        ),
        Some(Value::String(String::from_str(value))),
    )
}

/// Builds the event class: a sealed subclass of the root class, with its
/// accessor and method traits on instances and its event-name string
/// constants on the class itself.
pub fn create_class(avm: &mut Avm) -> (r: usize)
    requires
        wf(*old(avm)),
    ensures
        wf(*final(avm)),
        r < final(avm).classes@.len(),
        final(avm).classes@.len() == old(avm).classes@.len() + 1,
        final(avm).objects == old(avm).objects,
{
    let mut class = crate::class::Class::new(
        QName::new(
            crate::names::Namespace::package(String::from_str("flash.events")),
            String::from_str("Event"),
        ),
        Some(
            crate::names::Multiname::from_qname(
                QName::dynamic_name(String::from_str("Object")),
            ),
        ),
        METHOD_INSTANCE_INIT,
        METHOD_CLASS_INIT,
    );
    class.set_attributes(
        crate::class::ClassAttributes::with_bits(crate::class::CLASS_SEALED),
    );
    class.define_instance_trait(
        crate::traits::Trait::from_getter(
            QName::dynamic_name(String::from_str("bubbles")),
            METHOD_BUBBLES,
        ),
    );
    class.define_instance_trait(
        crate::traits::Trait::from_getter(
            QName::dynamic_name(String::from_str("cancelable")),
            METHOD_CANCELABLE,
        ),
    );
    class.define_instance_trait(
        crate::traits::Trait::from_getter(
            QName::dynamic_name(String::from_str("type")),
            METHOD_GET_TYPE,
        ),
    );
    class.define_instance_trait(
        crate::traits::Trait::from_getter(
            QName::dynamic_name(String::from_str("target")),
            METHOD_TARGET,
        ),
    );
    class.define_instance_trait(
        crate::traits::Trait::from_getter(
            QName::dynamic_name(String::from_str("currentTarget")),
            METHOD_CURRENT_TARGET,
        ),
    );
    class.define_instance_trait(
        crate::traits::Trait::from_getter(
            QName::dynamic_name(String::from_str("eventPhase")),
            METHOD_EVENT_PHASE,
        ),
    );
    class.define_instance_trait(
        crate::traits::Trait::from_method(
            QName::dynamic_name(String::from_str("clone")),
            METHOD_CLONE,
        ),
    );
    class.define_instance_trait(
        crate::traits::Trait::from_method(
            QName::dynamic_name(String::from_str("formatToString")),
            METHOD_FORMAT_TO_STRING,
        ),
    );
    class.define_instance_trait(
        crate::traits::Trait::from_method(
            QName::dynamic_name(String::from_str("isDefaultPrevented")),
            METHOD_IS_DEFAULT_PREVENTED,
        ),
    );
    class.define_instance_trait(
        crate::traits::Trait::from_method(
            QName::dynamic_name(String::from_str("preventDefault")),
            METHOD_PREVENT_DEFAULT,
        ),
    );
    class.define_instance_trait(
        crate::traits::Trait::from_method(
            QName::dynamic_name(String::from_str("stopPropagation")),
            METHOD_STOP_PROPAGATION,
        ),
    );
    class.define_instance_trait(
        crate::traits::Trait::from_method(
            QName::dynamic_name(String::from_str("stopImmediatePropagation")),
            METHOD_STOP_IMMEDIATE_PROPAGATION,
        ),
    );
    class.define_instance_trait(
        crate::traits::Trait::from_method(
            QName::dynamic_name(String::from_str("toString")),
            METHOD_TO_STRING,
        ),
    );
    class.define_class_trait(string_const("ACTIVATE", "activate"));
    class.define_class_trait(string_const("ADDED", "added"));
    class.define_class_trait(string_const("ADDED_TO_STAGE", "addedToStage"));
    class.define_class_trait(string_const("BROWSER_ZOOM_CHANGE", "browserZoomChange"));
    class.define_class_trait(string_const("CANCEL", "cancel"));
    class.define_class_trait(string_const("CHANGE", "change"));
    class.define_class_trait(string_const("CHANNEL_MESSAGE", "channelMessage"));
    class.define_class_trait(string_const("CHANNEL_STATE", "channelState"));
    class.define_class_trait(string_const("CLEAR", "clear"));
    class.define_class_trait(string_const("CLOSE", "close"));
    class.define_class_trait(string_const("CLOSING", "closing"));
    class.define_class_trait(string_const("COMPLETE", "complete"));
    class.define_class_trait(string_const("CONNECT", "connect"));
    class.define_class_trait(string_const("CONTEXT3D_CREATE", "context3DCreate"));
    class.define_class_trait(string_const("COPY", "copy"));
    class.define_class_trait(string_const("CUT", "cut"));
    class.define_class_trait(string_const("DEACTIVATE", "deactivate"));
    class.define_class_trait(string_const("DISPLAYING", "displaying"));
    class.define_class_trait(string_const("ENTER_FRAME", "enterFrame"));
    class.define_class_trait(string_const("EXIT_FRAME", "exitFrame"));
    class.define_class_trait(string_const("EXITING", "exiting"));
    class.define_class_trait(string_const("FRAME_CONSTRUCTED", "frameConstructed"));
    class.define_class_trait(string_const("FRAME_LABEL", "frameLabel"));
    class.define_class_trait(string_const("FULLSCREEN", "fullScreen"));
    class.define_class_trait(string_const("HTML_BOUNDS_CHANGE", "htmlBoundsChange"));
    class.define_class_trait(string_const("HTML_DOM_INITIALIZE", "htmlDOMInitialize"));
    class.define_class_trait(string_const("HTML_RENDER", "htmlRender"));
    class.define_class_trait(string_const("ID3", "id3"));
    class.define_class_trait(string_const("INIT", "init"));
    class.define_class_trait(string_const("LOCATION_CHANGE", "locationChange"));
    class.define_class_trait(string_const("MOUSE_LEAVE", "mouseLeave"));
    class.define_class_trait(string_const("NETWORK_CHANGE", "networkChange"));
    class.define_class_trait(string_const("OPEN", "open"));
    class.define_class_trait(string_const("PASTE", "paste"));
    class.define_class_trait(string_const("PREPARING", "preparing"));
    class.define_class_trait(string_const("REMOVED", "removed"));
    class.define_class_trait(string_const("REMOVED_FROM_STAGE", "removedFromStage"));
    class.define_class_trait(string_const("RENDER", "render"));
    class.define_class_trait(string_const("RESIZE", "resize"));
    class.define_class_trait(string_const("SCROLL", "scroll"));
    class.define_class_trait(string_const("SELECT", "select"));
    class.define_class_trait(string_const("SELECT_ALL", "selectAll"));
    class.define_class_trait(string_const("SOUND_COMPLETE", "soundComplete"));
    class.define_class_trait(string_const("STANDARD_ERROR_CLOSE", "standardErrorClose"));
    class.define_class_trait(string_const("STANDARD_INPUT_CLOSE", "standardInputClose"));
    class.define_class_trait(string_const("STANDARD_OUTPUT_CLOSE", "standardOutputClose"));
    class.define_class_trait(string_const("SUSPEND", "suspend"));
    class.define_class_trait(string_const("TAB_CHILDREN_CHANGE", "tabChildrenChange"));
    class.define_class_trait(string_const("TAB_ENABLED_CHANGE", "tabEnabledChange"));
    class.define_class_trait(string_const("TAB_INDEX_CHANGE", "tabIndexChange"));
    class.define_class_trait(string_const("TEXT_INTERACTION_MODE_CHANGE", "textInteractionModeChange"));
    class.define_class_trait(string_const("TEXTURE_READY", "textureReady"));
    class.define_class_trait(string_const("UNLOAD", "unload"));
    class.define_class_trait(string_const("USER_IDLE", "userIdle"));
    class.define_class_trait(string_const("USER_PRESENT", "userPresent"));
    class.define_class_trait(string_const("VIDEO_FRAME", "videoFrame"));
    class.define_class_trait(string_const("WORKER_STATE", "workerState"));
    avm.push_class(class)
}

} // verus!
