//! The display-object prototype's native members.
//!
//! A script object may be bound to a display entity; what these members
//! read of that entity — depth, path, parent — is the engine's plain-value
//! view of it. The scene graph itself lives outside the engine.

use vstd::prelude::*;
use vstd::string::StringExecFns;

use crate::display::{AVM_DEPTH_BIAS, AVM_MAX_REMOVE_DEPTH};
use crate::error::EngineError;
use crate::heap::{wf, Avm, ObjKind};
use crate::value::Value;

verus! {

/// The display entity bound to the object, if any.
pub fn as_display_object(avm: &Avm, obj: usize) -> (r: Option<usize>)
    requires
        obj < avm.objects@.len(),
    ensures
        r == match avm.objects@[obj as int].kind {
            ObjKind::Stage(n) => Some(n),
            _ => None::<usize>,
        },
{
    match &avm.objects[obj].kind {
        ObjKind::Stage(n) => Some(*n),
        _ => None,
    }
}

/// The `_parent` getter: the script object of the bound entity's parent,
/// `Undefined` where there is no entity, no parent or no object yet.
pub fn get_parent(avm: &Avm, this: usize, args: &Vec<Value>) -> (r: Result<Value, EngineError>)
    requires
        wf(*avm),
        this < avm.objects@.len(),
    ensures
        r == match avm.objects@[this as int].kind {
            ObjKind::Stage(n) => if n < avm.display@.len() {
                match avm.display@[n as int].parent {
                    Some(p) => if p < avm.display@.len() {
                        match avm.display@[p as int].object {
                            Some(o) => Ok::<Value, EngineError>(Value::Object(o)),
                            None => Ok::<Value, EngineError>(Value::Undefined),
                        }
                    } else {
                        Ok::<Value, EngineError>(Value::Undefined)
                    },
                    None => Ok::<Value, EngineError>(Value::Undefined),
                }
            } else {
                Ok::<Value, EngineError>(Value::Undefined)
            },
            _ => Ok::<Value, EngineError>(Value::Undefined),
        },
{
    match as_display_object(avm, this) {
        Some(n) => {
            if n < avm.display.len() {
                match avm.display[n].parent {
                    Some(p) => {
                        if p < avm.display.len() {
                            match avm.display[p].object {
                                Some(o) => Ok(Value::Object(o)),
                                None => Ok(Value::Undefined),
                            }
                        } else {
                            Ok(Value::Undefined)
                        }
                    },
                    None => Ok(Value::Undefined),
                }
            } else {
                Ok(Value::Undefined)
            }
        },
        None => Ok(Value::Undefined),
    }
}

/// The `getDepth` member: the bound entity's depth in script convention —
/// the container-format depth less the script bias — on programs compiled
/// for version six or later; older programs read `Undefined`.
pub fn get_depth(avm: &Avm, display_object: usize, args: &Vec<Value>) -> (r: Result<
    Value,
    EngineError,
>)
    requires
        display_object < avm.display@.len(),
    ensures
        r == if avm.swf_version >= 6 {
            Ok::<Value, EngineError>(
                Value::Integer(
                    avm.display@[display_object as int].depth.wrapping_sub(AVM_DEPTH_BIAS),
                ),
            )
        } else {
            Ok::<Value, EngineError>(Value::Undefined)
        },
{
    if avm.swf_version >= 6 {
        let depth = avm.display[display_object].depth.wrapping_sub(AVM_DEPTH_BIAS);
        Ok(Value::Integer(depth))
    } else {
        Ok(Value::Undefined)
    }
}

/// The `toString` member: the bound entity's dot-separated path.
pub fn to_string(avm: &Avm, display_object: usize, args: &Vec<Value>) -> (r: Result<
    Value,
    EngineError,
>)
    requires
        display_object < avm.display@.len(),
    ensures
        r matches Ok(Value::String(s)) && s@ == avm.display@[display_object as int].path@,
{
    Ok(Value::String(avm.display[display_object].path.clone()))
}

/// The `_root` overwrite setter: the first argument becomes a plain
/// unrestricted property named `_root` on the receiver.
pub fn overwrite_root(avm: &mut Avm, this: usize, args: &Vec<Value>) -> (r: Result<
    Value,
    EngineError,
>)
    requires
        wf(*old(avm)),
        this < old(avm).objects@.len(),
    ensures
        wf(*final(avm)),
        crate::resolve::spec_only_obj_changed(*old(avm), *final(avm), this as int),
        r == Ok::<Value, EngineError>(Value::Undefined),
{
    let new_val = if args.len() > 0 {
        args[0].clone()
    } else {
        Value::Undefined
    };
    let name = crate::names::QName::dynamic_name(String::from_str("_root"));
    match avm.install_dynamic_property(this, name, new_val) {
        Ok(()) => Ok(Value::Undefined),
        Err(e) => Err(e),
    }
}

/// The `_global` overwrite setter: the first argument becomes a plain
/// unrestricted property named `_global` on the receiver.
pub fn overwrite_global(avm: &mut Avm, this: usize, args: &Vec<Value>) -> (r: Result<
    Value,
    EngineError,
>)
    requires
        wf(*old(avm)),
        this < old(avm).objects@.len(),
    ensures
        wf(*final(avm)),
        crate::resolve::spec_only_obj_changed(*old(avm), *final(avm), this as int),
        r == Ok::<Value, EngineError>(Value::Undefined),
{
    let new_val = if args.len() > 0 {
        args[0].clone()
    } else {
        Value::Undefined
    };
    let name = crate::names::QName::dynamic_name(String::from_str("_global"));
    match avm.install_dynamic_property(this, name, new_val) {
        Ok(()) => Ok(Value::Undefined),
        Err(e) => Err(e),
    }
}

/// The `_parent` overwrite setter: the first argument becomes a plain
/// unrestricted property named `_parent` on the receiver.
pub fn overwrite_parent(avm: &mut Avm, this: usize, args: &Vec<Value>) -> (r: Result<
    Value,
    EngineError,
>)
    requires
        wf(*old(avm)),
        this < old(avm).objects@.len(),
    ensures
        wf(*final(avm)),
        crate::resolve::spec_only_obj_changed(*old(avm), *final(avm), this as int),
        r == Ok::<Value, EngineError>(Value::Undefined),
{
    let new_val = if args.len() > 0 {
        args[0].clone()
    } else {
        Value::Undefined
    };
    let name = crate::names::QName::dynamic_name(String::from_str("_parent"));
    match avm.install_dynamic_property(this, name, new_val) {
        Ok(()) => Ok(Value::Undefined),
        Err(e) => Err(e),
    }
}

/// Removal of a dynamically created clip: only entities whose depth lies
/// in the script-removable band, that are still live and that have a
/// movie-clip parent leave the scene; everything else is left alone.
pub fn remove_display_object(avm: &mut Avm, display_object: usize) -> (r: bool)
    requires
        display_object < old(avm).display@.len(),
    ensures
        avm_unchanged_but_display(*old(avm), *final(avm)),
        final(avm).display@.len() == old(avm).display@.len(),
        ({
            let node = old(avm).display@[display_object as int];
            let removable = node.depth >= AVM_DEPTH_BIAS && node.depth < AVM_MAX_REMOVE_DEPTH
                && !node.removed && (match node.parent {
                Some(p) => p < old(avm).display@.len()
                    && old(avm).display@[p as int].is_movie_clip,
                None => false,
            });
            &&& r == removable
            &&& if removable {
                final(avm).display@ == old(avm).display@.update(
                    display_object as int,
                    crate::display::DisplayNode { removed: true, ..node },
                )
            } else {
                final(avm).display@ == old(avm).display@
            }
        }),
{
    let depth = avm.display[display_object].depth;
    let removable = depth >= AVM_DEPTH_BIAS && depth < AVM_MAX_REMOVE_DEPTH
        && !avm.display[display_object].removed && (match avm.display[display_object].parent {
        Some(p) => p < avm.display.len() && avm.display[p].is_movie_clip,
        None => false,
    });
    if removable {
        let node = &mut avm.display[display_object];
        node.removed = true;
    }
    removable
}

/// Everything but the display table untouched.
pub open spec fn avm_unchanged_but_display(pre: Avm, post: Avm) -> bool {
    &&& post.objects == pre.objects
    &&& post.classes == pre.classes
    &&& post.scopes == pre.scopes
    &&& post.domains == pre.domains
    &&& post.scripts == pre.scripts
    &&& post.protos == pre.protos
    &&& post.strict == pre.strict
    &&& post.swf_version == pre.swf_version
}


/// The opaque handle this module assigns to one display member.
pub const METHOD_GET_DEPTH: u32 = 90;

/// The opaque handle this module assigns to one display member.
pub const METHOD_TO_STRING: u32 = 91;

/// The opaque handle this module assigns to one display member.
pub const METHOD_GET_GLOBAL: u32 = 92;

/// The opaque handle this module assigns to one display member.
pub const METHOD_OVERWRITE_GLOBAL: u32 = 93;

/// The opaque handle this module assigns to one display member.
pub const METHOD_GET_ROOT: u32 = 94;

/// The opaque handle this module assigns to one display member.
pub const METHOD_OVERWRITE_ROOT: u32 = 95;

/// The opaque handle this module assigns to one display member.
pub const METHOD_GET_PARENT: u32 = 96;

/// The opaque handle this module assigns to one display member.
pub const METHOD_OVERWRITE_PARENT: u32 = 97;

/// A fresh unbound function object below the function prototype.
fn fresh_function(avm: &mut Avm, fn_proto: usize, method: u32) -> (r: usize)
    requires
        crate::heap::wf(*old(avm)),
        fn_proto < old(avm).objects@.len(),
    ensures
        crate::heap::wf(*final(avm)),
        r < final(avm).objects@.len(),
        final(avm).objects@[r as int].kind is Function,
        final(avm).objects@.len() > old(avm).objects@.len(),
{
    avm.alloc_object(
        ObjKind::Function { method, scope: None, receiver: None },
        Some(fn_proto),
        crate::storage::TraitSource::NoClass,
    )
}

/// Adds the display members shared by every display prototype: the depth
/// and text readers as plain members, and the global, root and parent
/// names as accessor pairs whose setters overwrite the name with a plain
/// property.
pub fn define_display_object_proto(avm: &mut Avm, object: usize, fn_proto: usize)
    requires
        wf(*old(avm)),
        object < old(avm).objects@.len(),
        fn_proto < old(avm).objects@.len(),
    ensures
        wf(*final(avm)),
{
    let f = fresh_function(avm, fn_proto, METHOD_GET_DEPTH);
    avm.install_method(
        object,
        crate::names::QName::dynamic_name(String::from_str("getDepth")),
        0,
        f,
    );
    let f = fresh_function(avm, fn_proto, METHOD_TO_STRING);
    avm.install_method(
        object,
        crate::names::QName::dynamic_name(String::from_str("toString")),
        0,
        f,
    );
    let g = fresh_function(avm, fn_proto, METHOD_GET_GLOBAL);
    let s = fresh_function(avm, fn_proto, METHOD_OVERWRITE_GLOBAL);
    match avm.install_getter(
        object,
        crate::names::QName::dynamic_name(String::from_str("_global")),
        0,
        g,
    ) {
        Ok(()) => {},
        Err(_) => {},
    }
    match avm.install_setter(
        object,
        crate::names::QName::dynamic_name(String::from_str("_global")),
        0,
        s,
    ) {
        Ok(()) => {},
        Err(_) => {},
    }
    let g = fresh_function(avm, fn_proto, METHOD_GET_ROOT);
    let s = fresh_function(avm, fn_proto, METHOD_OVERWRITE_ROOT);
    match avm.install_getter(
        object,
        crate::names::QName::dynamic_name(String::from_str("_root")),
        0,
        g,
    ) {
        Ok(()) => {},
        Err(_) => {},
    }
    match avm.install_setter(
        object,
        crate::names::QName::dynamic_name(String::from_str("_root")),
        0,
        s,
    ) {
        Ok(()) => {},
        Err(_) => {},
    }
    let g = fresh_function(avm, fn_proto, METHOD_GET_PARENT);
    let s = fresh_function(avm, fn_proto, METHOD_OVERWRITE_PARENT);
    match avm.install_getter(
        object,
        crate::names::QName::dynamic_name(String::from_str("_parent")),
        0,
        g,
    ) {
        Ok(()) => {},
        Err(_) => {},
    }
    match avm.install_setter(
        object,
        crate::names::QName::dynamic_name(String::from_str("_parent")),
        0,
        s,
    ) {
        Ok(()) => {},
        Err(_) => {},
    }
}

} // verus!
