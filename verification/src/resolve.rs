//! The mutating half of the engine: local writes, trait installation and
//! the chained get/set/init walks.
//!
//! Writes into an index-backed object's reserved index space go to its own
//! storage — growing it, as array-likes must — and every other write goes
//! to the generic object storage. Trait installation materializes class
//! members into object storage on first access; the chained operations
//! first make sure the touched name is materialized, then walk the
//! prototype chain under the precedence rules.

use vstd::prelude::*;

use crate::error::EngineError;
use crate::heap::{wf, wf_obj, Avm, Obj, ObjKind};
use crate::names::QName;
use crate::property::{Property, SlotCell};
use crate::storage::{
    spec_delete, spec_init_local, spec_methods_install, spec_props_insert, spec_set_local,
    spec_set_slot, GetOutcome, SetOutcome, TraitSource,
};
use crate::value::{spec_coerce_to_u32, Value};
use crate::variants::{array_delete, array_set, byte_delete, byte_set, parse_index};

verus! {

/// The growth-and-set relation of a byte buffer.
pub open spec fn spec_bytes_set(pre: Seq<u8>, post: Seq<u8>, i: int, v: u8) -> bool {
    &&& post.len() == if i < pre.len() {
        pre.len() as int
    } else {
        i + 1
    }
    &&& post[i] == v
    &&& forall|j: int|
        0 <= j < post.len() && j != i ==> post[j] == (if j < pre.len() {
            pre[j]
        } else {
            0u8
        })
}

/// The growth-and-set relation of an array.
pub open spec fn spec_array_set(pre: Seq<Value>, post: Seq<Value>, i: int, v: Value) -> bool {
    &&& post.len() == if i < pre.len() {
        pre.len() as int
    } else {
        i + 1
    }
    &&& post[i] == v
    &&& forall|j: int|
        0 <= j < post.len() && j != i ==> post[j] == (if j < pre.len() {
            pre[j]
        } else {
            Value::Undefined
        })
}

/// The state relation of a local assignment on one object, by its kind: a
/// reserved index writes the index-backed storage (a byte write coerces
/// the value to an unsigned integer, which may need the host), everything
/// else writes the generic storage.
pub open spec fn spec_obj_set_local_rel(
    pre_o: Obj,
    post_o: Obj,
    receiver: usize,
    base_proto: Option<usize>,
    name: QName,
    value: Value,
    strict: bool,
    r: Result<SetOutcome, EngineError>,
) -> bool {
    match pre_o.kind {
        ObjKind::ByteArray(bytes) => match crate::engine::spec_reserved_index(name@) {
            Some(i) => match spec_coerce_to_u32(value) {
                Some(u) => {
                    &&& r == Ok::<SetOutcome, EngineError>(SetOutcome::Done)
                    &&& post_o.data == pre_o.data
                    &&& match post_o.kind {
                        ObjKind::ByteArray(nb) => spec_bytes_set(bytes@, nb@, i, u as u8),
                        _ => false,
                    }
                },
                None => r == Err::<SetOutcome, EngineError>(EngineError::HostCoercionRequired)
                    && post_o == pre_o,
            },
            None => post_o.kind == pre_o.kind && spec_set_local(
                pre_o.data,
                post_o.data,
                receiver,
                base_proto,
                name,
                value,
                strict,
                r,
            ),
        },
        ObjKind::Array(arr) => match crate::engine::spec_reserved_index(name@) {
            Some(i) => {
                &&& r == Ok::<SetOutcome, EngineError>(SetOutcome::Done)
                &&& post_o.data == pre_o.data
                &&& match post_o.kind {
                    ObjKind::Array(na) => spec_array_set(arr@, na@, i, value),
                    _ => false,
                }
            },
            None => post_o.kind == pre_o.kind && spec_set_local(
                pre_o.data,
                post_o.data,
                receiver,
                base_proto,
                name,
                value,
                strict,
                r,
            ),
        },
        _ => post_o.kind == pre_o.kind && spec_set_local(
            pre_o.data,
            post_o.data,
            receiver,
            base_proto,
            name,
            value,
            strict,
            r,
        ),
    }
}

/// The state relation of a local initialization on one object, by its
/// kind; the index-backed cases behave as assignment does.
pub open spec fn spec_obj_init_local_rel(
    pre_o: Obj,
    post_o: Obj,
    receiver: usize,
    base_proto: Option<usize>,
    name: QName,
    value: Value,
    r: Result<SetOutcome, EngineError>,
) -> bool {
    match pre_o.kind {
        ObjKind::ByteArray(bytes) => match crate::engine::spec_reserved_index(name@) {
            Some(i) => match spec_coerce_to_u32(value) {
                Some(u) => {
                    &&& r == Ok::<SetOutcome, EngineError>(SetOutcome::Done)
                    &&& post_o.data == pre_o.data
                    &&& match post_o.kind {
                        ObjKind::ByteArray(nb) => spec_bytes_set(bytes@, nb@, i, u as u8),
                        _ => false,
                    }
                },
                None => r == Err::<SetOutcome, EngineError>(EngineError::HostCoercionRequired)
                    && post_o == pre_o,
            },
            None => post_o.kind == pre_o.kind && spec_init_local(
                pre_o.data,
                post_o.data,
                receiver,
                base_proto,
                name,
                value,
                r,
            ),
        },
        ObjKind::Array(arr) => match crate::engine::spec_reserved_index(name@) {
            Some(i) => {
                &&& r == Ok::<SetOutcome, EngineError>(SetOutcome::Done)
                &&& post_o.data == pre_o.data
                &&& match post_o.kind {
                    ObjKind::Array(na) => spec_array_set(arr@, na@, i, value),
                    _ => false,
                }
            },
            None => post_o.kind == pre_o.kind && spec_init_local(
                pre_o.data,
                post_o.data,
                receiver,
                base_proto,
                name,
                value,
                r,
            ),
        },
        _ => post_o.kind == pre_o.kind && spec_init_local(
            pre_o.data,
            post_o.data,
            receiver,
            base_proto,
            name,
            value,
            r,
        ),
    }
}

/// One object changed, the rest of the heap untouched.
pub open spec fn spec_only_obj_changed(pre: Avm, post: Avm, o: int) -> bool {
    &&& post.objects@.len() == pre.objects@.len()
    &&& forall|j: int|
        0 <= j < pre.objects@.len() && j != o ==> #[trigger] post.objects@[j]
            == pre.objects@[j]
    &&& post.classes == pre.classes
    &&& post.scopes == pre.scopes
    &&& post.domains == pre.domains
    &&& post.scripts == pre.scripts
    &&& post.display == pre.display
    &&& post.protos == pre.protos
    &&& post.strict == pre.strict
    &&& post.swf_version == pre.swf_version
}

/// One fresh, empty object appended; everything else untouched.
pub open spec fn spec_alloc_rel(pre: Avm, post: Avm, r: usize) -> bool {
    &&& r == pre.objects@.len()
    &&& post.objects@.len() == pre.objects@.len() + 1
    &&& forall|j: int|
        0 <= j < pre.objects@.len() ==> #[trigger] post.objects@[j] == pre.objects@[j]
    &&& post.objects@[r as int].data.props@.len() == 0
    &&& post.objects@[r as int].data.slots@.len() == 0
    &&& post.objects@[r as int].data.methods@.len() == 0
    &&& post.objects@[r as int].data.enumerants@.len() == 0
    &&& post.objects@[r as int].data.interfaces@.len() == 0
    &&& post.classes == pre.classes
    &&& post.scopes == pre.scopes
    &&& post.domains == pre.domains
    &&& post.scripts == pre.scripts
    &&& post.display == pre.display
    &&& post.protos == pre.protos
    &&& post.strict == pre.strict
    &&& post.swf_version == pre.swf_version
}

impl Avm {
    /// Assigns `value` to `name` on one object alone, its reserved index
    /// space first.
    pub fn set_property_local(
        &mut self,
        obj: usize,
        receiver: usize,
        base_proto: Option<usize>,
        name: &QName,
        value: Value,
    ) -> (r: Result<SetOutcome, EngineError>)
        requires
            wf(*old(self)),
            obj < old(self).objects@.len(),
        ensures
            wf(*final(self)),
            spec_only_obj_changed(*old(self), *final(self), obj as int),
            spec_obj_set_local_rel(
                old(self).objects@[obj as int],
                final(self).objects@[obj as int],
                receiver,
                base_proto,
                *name,
                value,
                old(self).strict,
                r,
            ),
    {
        proof {
            assert(wf_obj(
                self.objects@[obj as int],
                obj as int,
                self.objects@.len() as int,
                self.classes@.len() as int,
                self.scopes@.len() as int,
            ));
        }
        let strict = self.strict;
        let mut reserved: Option<usize> = None;
        match &self.objects[obj].kind {
            ObjKind::ByteArray(_) => {
                if name.namespace().is_public() {
                    reserved = parse_index(name.local_name());
                }
            },
            ObjKind::Array(_) => {
                if name.namespace().is_public() {
                    reserved = parse_index(name.local_name());
                }
            },
            _ => {},
        }
        match reserved {
            Some(i) => {
                let is_bytes = matches!(&self.objects[obj].kind, ObjKind::ByteArray(_));
                if is_bytes {
                    let b = match value.coerce_to_u32() {
                        Ok(u) => u,
                        Err(e) => {
                            return Err(e);
                        },
                    };
                    match &mut self.objects[obj].kind {
                        ObjKind::ByteArray(bytes) => {
                            byte_set(bytes, i, b as u8);
                            Ok(SetOutcome::Done)
                        },
                        _ => Err(EngineError::BadObjectRef),
                    }
                } else {
                    match &mut self.objects[obj].kind {
                        ObjKind::Array(arr) => {
                            array_set(arr, i, value);
                            Ok(SetOutcome::Done)
                        },
                        _ => Err(EngineError::BadObjectRef),
                    }
                }
            },
            None => {
                let d = &mut self.objects[obj].data;
                d.set_property_local(receiver, base_proto, name, value, strict)
            },
        }
    }

    /// Initializes `name` on one object alone, its reserved index space
    /// first.
    pub fn init_property_local(
        &mut self,
        obj: usize,
        receiver: usize,
        base_proto: Option<usize>,
        name: &QName,
        value: Value,
    ) -> (r: Result<SetOutcome, EngineError>)
        requires
            wf(*old(self)),
            obj < old(self).objects@.len(),
        ensures
            wf(*final(self)),
            spec_only_obj_changed(*old(self), *final(self), obj as int),
            spec_obj_init_local_rel(
                old(self).objects@[obj as int],
                final(self).objects@[obj as int],
                receiver,
                base_proto,
                *name,
                value,
                r,
            ),
    {
        proof {
            assert(wf_obj(
                self.objects@[obj as int],
                obj as int,
                self.objects@.len() as int,
                self.classes@.len() as int,
                self.scopes@.len() as int,
            ));
        }
        let mut reserved: Option<usize> = None;
        match &self.objects[obj].kind {
            ObjKind::ByteArray(_) => {
                if name.namespace().is_public() {
                    reserved = parse_index(name.local_name());
                }
            },
            ObjKind::Array(_) => {
                if name.namespace().is_public() {
                    reserved = parse_index(name.local_name());
                }
            },
            _ => {},
        }
        match reserved {
            Some(i) => {
                let is_bytes = matches!(&self.objects[obj].kind, ObjKind::ByteArray(_));
                if is_bytes {
                    let b = match value.coerce_to_u32() {
                        Ok(u) => u,
                        Err(e) => {
                            return Err(e);
                        },
                    };
                    match &mut self.objects[obj].kind {
                        ObjKind::ByteArray(bytes) => {
                            byte_set(bytes, i, b as u8);
                            Ok(SetOutcome::Done)
                        },
                        _ => Err(EngineError::BadObjectRef),
                    }
                } else {
                    match &mut self.objects[obj].kind {
                        ObjKind::Array(arr) => {
                            array_set(arr, i, value);
                            Ok(SetOutcome::Done)
                        },
                        _ => Err(EngineError::BadObjectRef),
                    }
                }
            },
            None => {
                let d = &mut self.objects[obj].data;
                d.init_property_local(receiver, base_proto, name, value)
            },
        }
    }

    /// Deletes `name` from one object: a reserved index clears its cell
    /// back to the kind's sentinel and always succeeds; otherwise only an
    /// unrestricted stored property can go.
    pub fn delete_property(&mut self, obj: usize, name: &QName) -> (r: bool)
        requires
            wf(*old(self)),
            obj < old(self).objects@.len(),
        ensures
            wf(*final(self)),
            spec_only_obj_changed(*old(self), *final(self), obj as int),
            match old(self).objects@[obj as int].kind {
                ObjKind::ByteArray(bytes) => match crate::engine::spec_reserved_index(name@) {
                    Some(i) => r == true && final(self).objects@[obj as int].data == old(self).objects@[obj as int].data && match final(self).objects@[obj as int].kind {
                        ObjKind::ByteArray(nb) => if i < bytes@.len() {
                            nb@ == bytes@.update(i, 0u8)
                        } else {
                            nb@ == bytes@
                        },
                        _ => false,
                    },
                    None => final(self).objects@[obj as int].kind == old(self).objects@[obj as int].kind && spec_delete(
                        old(self).objects@[obj as int].data,
                        final(self).objects@[obj as int].data,
                        name@,
                        r,
                    ),
                },
                ObjKind::Array(arr) => match crate::engine::spec_reserved_index(name@) {
                    Some(i) => r == true && final(self).objects@[obj as int].data == old(self).objects@[obj as int].data && match final(self).objects@[obj as int].kind {
                        ObjKind::Array(na) => if i < arr@.len() {
                            na@ == arr@.update(i, Value::Undefined)
                        } else {
                            na@ == arr@
                        },
                        _ => false,
                    },
                    None => final(self).objects@[obj as int].kind == old(self).objects@[obj as int].kind && spec_delete(
                        old(self).objects@[obj as int].data,
                        final(self).objects@[obj as int].data,
                        name@,
                        r,
                    ),
                },
                _ => final(self).objects@[obj as int].kind == old(self).objects@[obj as int].kind && spec_delete(
                    old(self).objects@[obj as int].data,
                    final(self).objects@[obj as int].data,
                    name@,
                    r,
                ),
            },
    {
        proof {
            assert(wf_obj(
                self.objects@[obj as int],
                obj as int,
                self.objects@.len() as int,
                self.classes@.len() as int,
                self.scopes@.len() as int,
            ));
        }
        let mut reserved: Option<usize> = None;
        match &self.objects[obj].kind {
            ObjKind::ByteArray(_) => {
                if name.namespace().is_public() {
                    reserved = parse_index(name.local_name());
                }
            },
            ObjKind::Array(_) => {
                if name.namespace().is_public() {
                    reserved = parse_index(name.local_name());
                }
            },
            _ => {},
        }
        match reserved {
            Some(i) => {
                match &mut self.objects[obj].kind {
                    ObjKind::ByteArray(bytes) => {
                        byte_delete(bytes, i);
                        true
                    },
                    ObjKind::Array(arr) => {
                        array_delete(arr, i);
                        true
                    },
                    _ => false,
                }
            },
            None => {
                let d = &mut self.objects[obj].data;
                d.delete_property(name)
            },
        }
    }

    /// Reads a slot of one object by index.
    pub fn get_slot(&self, obj: usize, id: u32) -> (r: Result<Value, EngineError>)
        requires
            obj < self.objects@.len(),
        ensures
            match r {
                Ok(v) => id < self.objects@[obj as int].data.slots@.len() && v
                    == self.objects@[obj as int].data.slots@[id as int].value,
                Err(e) => id >= self.objects@[obj as int].data.slots@.len() && e
                    == (EngineError::SlotOutOfBounds { id }),
            },
    {
        self.objects[obj].data.get_slot(id)
    }

    /// Writes a slot of one object by index, under the heap's strictness.
    pub fn set_slot(&mut self, obj: usize, id: u32, value: Value) -> (r: Result<
        (),
        EngineError,
    >)
        requires
            wf(*old(self)),
            obj < old(self).objects@.len(),
        ensures
            wf(*final(self)),
            spec_only_obj_changed(*old(self), *final(self), obj as int),
            final(self).objects@[obj as int].kind == old(self).objects@[obj as int].kind,
            spec_set_slot(
                old(self).objects@[obj as int].data,
                final(self).objects@[obj as int].data,
                id,
                value,
                old(self).strict,
                r,
            ),
    {
        proof {
            assert(wf_obj(
                self.objects@[obj as int],
                obj as int,
                self.objects@.len() as int,
                self.classes@.len() as int,
                self.scopes@.len() as int,
            ));
        }
        let strict = self.strict;
        let d = &mut self.objects[obj].data;
        d.set_slot(id, value, strict)
    }

    /// Initializes a slot of one object by index; constants accept their
    /// first value this way.
    pub fn init_slot(&mut self, obj: usize, id: u32, value: Value) -> (r: Result<
        (),
        EngineError,
    >)
        requires
            wf(*old(self)),
            obj < old(self).objects@.len(),
        ensures
            wf(*final(self)),
            spec_only_obj_changed(*old(self), *final(self), obj as int),
            final(self).objects@[obj as int].kind == old(self).objects@[obj as int].kind,
            match r {
                Ok(()) => id < old(self).objects@[obj as int].data.slots@.len() && final(self).objects@[obj as int].data.slots@ == old(self).objects@[obj as int].data.slots@.update(
                    id as int,
                    SlotCell {
                        value,
                        is_const: old(self).objects@[obj as int].data.slots@[id as int].is_const,
                    },
                ) && final(self).objects@[obj as int].data.props == old(self).objects@[obj as int].data.props,
                Err(e) => id >= old(self).objects@[obj as int].data.slots@.len() && e
                    == (EngineError::SlotOutOfBounds { id }) && final(self).objects@[obj as int]
                    == old(self).objects@[obj as int],
            },
    {
        proof {
            assert(wf_obj(
                self.objects@[obj as int],
                obj as int,
                self.objects@.len() as int,
                self.classes@.len() as int,
                self.scopes@.len() as int,
            ));
        }
        let d = &mut self.objects[obj].data;
        d.init_slot(id, value)
    }

    /// Retrieves a method of one object from its dispatch table.
    pub fn get_method(&self, obj: usize, id: u32) -> (r: Option<usize>)
        requires
            obj < self.objects@.len(),
        ensures
            r == if id < self.objects@[obj as int].data.methods@.len() {
                self.objects@[obj as int].data.methods@[id as int]
            } else {
                None::<usize>
            },
    {
        self.objects[obj].data.get_method(id)
    }

    /// The enumerable name of one object at a one-based index; index zero
    /// is the enumeration protocol's failure sentinel.
    pub fn get_enumerant_name(&self, obj: usize, index: u32) -> (r: Option<QName>)
        requires
            obj < self.objects@.len(),
        ensures
            match r {
                Some(q) => 1 <= index <= self.objects@[obj as int].data.enumerants@.len() && q
                    == self.objects@[obj as int].data.enumerants@[index as int - 1],
                None => index == 0 || index > self.objects@[obj as int].data.enumerants@.len(),
            },
    {
        self.objects[obj].data.get_enumerant_name(index)
    }

    /// Whether `name` is currently enumerable on the object.
    pub fn property_is_enumerable(&self, obj: usize, name: &QName) -> (r: bool)
        requires
            obj < self.objects@.len(),
        ensures
            r == crate::storage::spec_enum_contains(
                self.objects@[obj as int].data.enumerants@,
                name@,
            ),
    {
        self.objects[obj].data.property_is_enumerable(name)
    }

    /// Marks a property of the object as enumerable or not. Trait-backed
    /// properties are never enumerable, and only names the object actually
    /// binds can become enumerable.
    pub fn set_local_property_is_enumerable(
        &mut self,
        obj: usize,
        name: &QName,
        is_enumerable: bool,
    ) -> (r: Result<(), EngineError>)
        requires
            wf(*old(self)),
            obj < old(self).objects@.len(),
        ensures
            wf(*final(self)),
            spec_only_obj_changed(*old(self), *final(self), obj as int),
            r == Ok::<(), EngineError>(()),
            final(self).objects@[obj as int].kind == old(self).objects@[obj as int].kind,
            final(self).objects@[obj as int].data.props == old(self).objects@[obj as int].data.props,
            final(self).objects@[obj as int].data.slots == old(self).objects@[obj as int].data.slots,
            final(self).objects@[obj as int].data.enumerants@ == {
                let pre = old(self).objects@[obj as int].data;
                if is_enumerable && crate::storage::spec_has_prop(pre.props@, name@)
                    && !crate::storage::spec_enum_contains(pre.enumerants@, name@)
                    && !crate::engine::spec_has_trait(*old(self), obj as int, name@) {
                    pre.enumerants@.push(*name)
                } else if !is_enumerable && crate::storage::spec_enum_contains(
                    pre.enumerants@,
                    name@,
                ) {
                    pre.enumerants@.remove(
                        crate::storage::spec_enum_index(pre.enumerants@, name@),
                    )
                } else {
                    pre.enumerants@
                }
            },
    {
        proof {
            assert(wf_obj(
                self.objects@[obj as int],
                obj as int,
                self.objects@.len() as int,
                self.classes@.len() as int,
                self.scopes@.len() as int,
            ));
        }
        if is_enumerable {
            let bound = self.objects[obj].data.has_instantiated_property(name);
            let already = self.objects[obj].data.property_is_enumerable(name);
            if bound && !already {
                // Traits are never enumerable.
                if self.has_trait(obj, name) {
                    return Ok(());
                }
                let d = &mut self.objects[obj].data;
                d.add_enumerant(name.clone());
            }
            Ok(())
        } else {
            let d = &mut self.objects[obj].data;
            d.remove_enumerant(name);
            Ok(())
        }
    }

    /// Replaces the prototype link of the object. A prototype is always an
    /// earlier-allocated object: chains are built upward from what already
    /// exists, which is also what keeps every chain walk finite.
    pub fn set_proto(&mut self, obj: usize, proto: usize)
        requires
            wf(*old(self)),
            obj < old(self).objects@.len(),
            proto < obj,
        ensures
            wf(*final(self)),
            spec_only_obj_changed(*old(self), *final(self), obj as int),
            final(self).objects@[obj as int].kind == old(self).objects@[obj as int].kind,
            final(self).objects@[obj as int].data.proto == Some(proto),
            final(self).objects@[obj as int].data.props == old(self).objects@[obj as int].data.props,
    {
        proof {
            assert(wf_obj(
                self.objects@[obj as int],
                obj as int,
                self.objects@.len() as int,
                self.classes@.len() as int,
                self.scopes@.len() as int,
            ));
        }
        let d = &mut self.objects[obj].data;
        d.set_proto(proto);
    }

    /// The interfaces implemented by the object.
    pub fn interfaces(&self, obj: usize) -> (r: Vec<usize>)
        requires
            obj < self.objects@.len(),
        ensures
            r@ == self.objects@[obj as int].data.interfaces@,
    {
        self.objects[obj].data.interfaces()
    }

    /// Replaces the interface list of the object; every interface must be
    /// a live object.
    pub fn set_interfaces(&mut self, obj: usize, iface_list: Vec<usize>)
        requires
            wf(*old(self)),
            obj < old(self).objects@.len(),
            forall|k: int|
                0 <= k < iface_list@.len() ==> (#[trigger] iface_list@[k]) < old(self).objects@.len(),
        ensures
            wf(*final(self)),
            spec_only_obj_changed(*old(self), *final(self), obj as int),
            final(self).objects@[obj as int].kind == old(self).objects@[obj as int].kind,
            final(self).objects@[obj as int].data.interfaces == iface_list,
    {
        proof {
            assert(wf_obj(
                self.objects@[obj as int],
                obj as int,
                self.objects@.len() as int,
                self.classes@.len() as int,
                self.scopes@.len() as int,
            ));
        }
        let d = &mut self.objects[obj].data;
        d.set_interfaces(iface_list);
    }

    /// Constructs a bare object with no prototype and no class. This is
    /// not an object literal — a literal has the base class's prototype.
    pub fn bare_object(&mut self) -> (r: usize)
        requires
            wf(*old(self)),
        ensures
            wf(*final(self)),
            spec_alloc_rel(*old(self), *final(self), r),
            final(self).objects@[r as int].kind is Script,
            final(self).objects@[r as int].data.proto is None,
            final(self).objects@[r as int].data.trait_source is NoClass,
    {
        self.alloc_object(ObjKind::Script, None, TraitSource::NoClass)
    }

    /// Constructs a bare class prototype with no base class, as interfaces
    /// use.
    pub fn bare_prototype(&mut self, class: usize, scope: Option<usize>) -> (r: usize)
        requires
            wf(*old(self)),
            class < old(self).classes@.len(),
            match scope {
                Some(s) => s < old(self).scopes@.len(),
                None => true,
            },
        ensures
            wf(*final(self)),
            spec_alloc_rel(*old(self), *final(self), r),
            final(self).objects@[r as int].kind is Script,
            final(self).objects@[r as int].data.proto is None,
            final(self).objects@[r as int].data.trait_source == TraitSource::InstancePrototype(
                class,
                scope,
            ),
    {
        self.alloc_object(ObjKind::Script, None, TraitSource::InstancePrototype(class, scope))
    }

    /// Constructs a plain object below the given prototype.
    pub fn object(&mut self, proto: usize) -> (r: usize)
        requires
            wf(*old(self)),
            proto < old(self).objects@.len(),
        ensures
            wf(*final(self)),
            spec_alloc_rel(*old(self), *final(self), r),
            final(self).objects@[r as int].kind is Script,
            final(self).objects@[r as int].data.proto == Some(proto),
            final(self).objects@[r as int].data.trait_source is NoClass,
    {
        self.alloc_object(ObjKind::Script, Some(proto), TraitSource::NoClass)
    }

    /// Constructs a class prototype below the given prototype.
    pub fn prototype(&mut self, proto: usize, class: usize, scope: Option<usize>) -> (r: usize)
        requires
            wf(*old(self)),
            proto < old(self).objects@.len(),
            class < old(self).classes@.len(),
            match scope {
                Some(s) => s < old(self).scopes@.len(),
                None => true,
            },
        ensures
            wf(*final(self)),
            spec_alloc_rel(*old(self), *final(self), r),
            final(self).objects@[r as int].kind is Script,
            final(self).objects@[r as int].data.proto == Some(proto),
            final(self).objects@[r as int].data.trait_source == TraitSource::InstancePrototype(
                class,
                scope,
            ),
    {
        self.alloc_object(
            ObjKind::Script,
            Some(proto),
            TraitSource::InstancePrototype(class, scope),
        )
    }

    /// Constructs a fresh instance below the given prototype object, of
    /// the prototype's own kind: an index-backed prototype yields an
    /// index-backed instance with empty storage, and so on. Instance
    /// traits are *not* installed here; they materialize lazily on first
    /// access.
    pub fn construct(&mut self, obj: usize) -> (r: usize)
        requires
            wf(*old(self)),
            obj < old(self).objects@.len(),
        ensures
            wf(*final(self)),
            spec_alloc_rel(*old(self), *final(self), r),
            final(self).objects@[r as int].data.proto == Some(obj),
            final(self).objects@[r as int].data.trait_source is NoClass,
            final(self).objects@[r as int].data.props@.len() == 0,
    {
        let kind = self.fresh_kind_like(obj);
        self.alloc_object(kind, Some(obj), TraitSource::NoClass)
    }

    /// Constructs a fresh prototype of the given class below the given
    /// prototype object, of the prototype's own kind. Derived prototypes
    /// do not instantiate instance traits; they provide them.
    pub fn derive(&mut self, obj: usize, class: usize, scope: Option<usize>) -> (r: usize)
        requires
            wf(*old(self)),
            obj < old(self).objects@.len(),
            class < old(self).classes@.len(),
            match scope {
                Some(s) => s < old(self).scopes@.len(),
                None => true,
            },
        ensures
            wf(*final(self)),
            spec_alloc_rel(*old(self), *final(self), r),
            final(self).objects@[r as int].data.proto == Some(obj),
            final(self).objects@[r as int].data.trait_source == TraitSource::InstancePrototype(
                class,
                scope,
            ),
    {
        let kind = self.fresh_kind_like(obj);
        self.alloc_object(kind, Some(obj), TraitSource::InstancePrototype(class, scope))
    }

    /// A fresh, empty kind of the same shape as the given object's.
    fn fresh_kind_like(&self, obj: usize) -> (r: ObjKind)
        requires
            obj < self.objects@.len(),
        ensures
            match r {
                ObjKind::Function { .. } => false,
                ObjKind::Domain(_) => false,
                ObjKind::Stage(_) => false,
                _ => true,
            },
    {
        match &self.objects[obj].kind {
            ObjKind::ByteArray(_) => ObjKind::ByteArray(Vec::new()),
            ObjKind::Array(_) => ObjKind::Array(Vec::new()),
            ObjKind::RegExp(_) => ObjKind::RegExp(crate::regexp::RegExpData::new()),
            ObjKind::Event(_) => ObjKind::Event(crate::event::EventData::new(String::new())),
            _ => ObjKind::Script,
        }
    }

    /// The opaque method handle of the object, when it is a function.
    pub fn as_executable(&self, obj: usize) -> (r: Option<u32>)
        requires
            obj < self.objects@.len(),
        ensures
            r == match self.objects@[obj as int].kind {
                ObjKind::Function { method, .. } => Some(method),
                _ => None::<u32>,
            },
    {
        match &self.objects[obj].kind {
            ObjKind::Function { method, .. } => Some(*method),
            _ => None,
        }
    }

    /// Installs a bound method on the object as a non-virtual property,
    /// plus a dispatch-table entry when the dispatch id is nonzero.
    pub fn install_method(&mut self, obj: usize, name: QName, disp_id: u32, function: usize)
        requires
            wf(*old(self)),
            obj < old(self).objects@.len(),
        ensures
            wf(*final(self)),
            spec_only_obj_changed(*old(self), *final(self), obj as int),
            final(self).objects@[obj as int].kind == old(self).objects@[obj as int].kind,
            spec_props_insert(
                old(self).objects@[obj as int].data.props@,
                final(self).objects@[obj as int].data.props@,
                name,
                Property::Stored {
                    value: Value::Object(function),
                    attributes: crate::property::PropertyAttributes {
                        bits: crate::property::ATTR_DONT_DELETE
                            | crate::property::ATTR_DONT_ENUM,
                    },
                },
            ),
            spec_methods_install(
                old(self).objects@[obj as int].data.methods@,
                final(self).objects@[obj as int].data.methods@,
                disp_id,
                function,
            ),
            final(self).objects@[obj as int].data.slots == old(self).objects@[obj as int].data.slots,
            final(self).objects@[obj as int].data.proto == old(self).objects@[obj as int].data.proto,
            final(self).objects@[obj as int].data.enumerants == old(self).objects@[obj as int].data.enumerants,
            final(self).objects@[obj as int].data.trait_source == old(self).objects@[obj as int].data.trait_source,
            final(self).objects@[obj as int].data.interfaces == old(self).objects@[obj as int].data.interfaces,
    {
        proof {
            assert(wf_obj(
                self.objects@[obj as int],
                obj as int,
                self.objects@.len() as int,
                self.classes@.len() as int,
                self.scopes@.len() as int,
            ));
        }
        let d = &mut self.objects[obj].data;
        d.install_method(name, disp_id, function);
    }

    /// Installs a getter on the object: the function must be executable,
    /// and the half merges into an existing virtual entry without
    /// clobbering an installed setter.
    pub fn install_getter(&mut self, obj: usize, name: QName, disp_id: u32, function: usize)
        -> (r: Result<(), EngineError>)
        requires
            wf(*old(self)),
            obj < old(self).objects@.len(),
            function < old(self).objects@.len(),
        ensures
            wf(*final(self)),
            spec_only_obj_changed(*old(self), *final(self), obj as int),
            final(self).objects@[obj as int].kind == old(self).objects@[obj as int].kind,
            final(self).objects@[obj as int].data.proto == old(self).objects@[obj as int].data.proto,
            final(self).objects@[obj as int].data.trait_source == old(self).objects@[obj as int].data.trait_source,
            final(self).objects@[obj as int].data.interfaces == old(self).objects@[obj as int].data.interfaces,
            !(old(self).objects@[function as int].kind is Function) ==> r == Err::<
                (),
                EngineError,
            >(EngineError::NotExecutable) && final(self).objects@[obj as int] == old(self).objects@[obj as int],
            old(self).objects@[function as int].kind is Function ==> {
                &&& spec_methods_install(
                    old(self).objects@[obj as int].data.methods@,
                    final(self).objects@[obj as int].data.methods@,
                    disp_id,
                    function,
                )
                &&& match crate::storage::spec_find_prop(
                    old(self).objects@[obj as int].data.props@,
                    name@,
                ) {
                    None => r == Ok::<(), EngineError>(()) && spec_props_insert(
                        old(self).objects@[obj as int].data.props@,
                        final(self).objects@[obj as int].data.props@,
                        name,
                        Property::Virtual { get: Some(function), set: None },
                    ),
                    Some(Property::Virtual { get: _, set }) => r == Ok::<(), EngineError>(())
                        && spec_props_insert(
                        old(self).objects@[obj as int].data.props@,
                        final(self).objects@[obj as int].data.props@,
                        name,
                        Property::Virtual { get: Some(function), set },
                    ),
                    Some(_) => r == Err::<(), EngineError>(EngineError::NotVirtual) && final(self).objects@[obj as int].data.props == old(self).objects@[obj as int].data.props,
                }
                &&& final(self).objects@[obj as int].data.slots == old(self).objects@[obj as int].data.slots
                &&& final(self).objects@[obj as int].data.enumerants == old(self).objects@[obj as int].data.enumerants
            },
    {
        proof {
            assert(wf_obj(
                self.objects@[obj as int],
                obj as int,
                self.objects@.len() as int,
                self.classes@.len() as int,
                self.scopes@.len() as int,
            ));
        }
        if self.as_executable(function).is_none() {
            return Err(EngineError::NotExecutable);
        }
        let d = &mut self.objects[obj].data;
        d.install_getter(name, disp_id, function)
    }

    /// Installs a setter on the object; the mirror image of the getter
    /// installation.
    pub fn install_setter(&mut self, obj: usize, name: QName, disp_id: u32, function: usize)
        -> (r: Result<(), EngineError>)
        requires
            wf(*old(self)),
            obj < old(self).objects@.len(),
            function < old(self).objects@.len(),
        ensures
            wf(*final(self)),
            spec_only_obj_changed(*old(self), *final(self), obj as int),
            final(self).objects@[obj as int].kind == old(self).objects@[obj as int].kind,
            final(self).objects@[obj as int].data.proto == old(self).objects@[obj as int].data.proto,
            final(self).objects@[obj as int].data.trait_source == old(self).objects@[obj as int].data.trait_source,
            final(self).objects@[obj as int].data.interfaces == old(self).objects@[obj as int].data.interfaces,
            !(old(self).objects@[function as int].kind is Function) ==> r == Err::<
                (),
                EngineError,
            >(EngineError::NotExecutable) && final(self).objects@[obj as int] == old(self).objects@[obj as int],
            old(self).objects@[function as int].kind is Function ==> {
                &&& spec_methods_install(
                    old(self).objects@[obj as int].data.methods@,
                    final(self).objects@[obj as int].data.methods@,
                    disp_id,
                    function,
                )
                &&& match crate::storage::spec_find_prop(
                    old(self).objects@[obj as int].data.props@,
                    name@,
                ) {
                    None => r == Ok::<(), EngineError>(()) && spec_props_insert(
                        old(self).objects@[obj as int].data.props@,
                        final(self).objects@[obj as int].data.props@,
                        name,
                        Property::Virtual { get: None, set: Some(function) },
                    ),
                    Some(Property::Virtual { get, set: _ }) => r == Ok::<(), EngineError>(())
                        && spec_props_insert(
                        old(self).objects@[obj as int].data.props@,
                        final(self).objects@[obj as int].data.props@,
                        name,
                        Property::Virtual { get, set: Some(function) },
                    ),
                    Some(_) => r == Err::<(), EngineError>(EngineError::NotVirtual) && final(self).objects@[obj as int].data.props == old(self).objects@[obj as int].data.props,
                }
                &&& final(self).objects@[obj as int].data.slots == old(self).objects@[obj as int].data.slots
                &&& final(self).objects@[obj as int].data.enumerants == old(self).objects@[obj as int].data.enumerants
            },
    {
        proof {
            assert(wf_obj(
                self.objects@[obj as int],
                obj as int,
                self.objects@.len() as int,
                self.classes@.len() as int,
                self.scopes@.len() as int,
            ));
        }
        if self.as_executable(function).is_none() {
            return Err(EngineError::NotExecutable);
        }
        let d = &mut self.objects[obj].data;
        d.install_setter(name, disp_id, function)
    }

    /// Installs a built-in value property on the object.
    pub fn install_dynamic_property(&mut self, obj: usize, name: QName, value: Value) -> (r:
        Result<(), EngineError>)
        requires
            wf(*old(self)),
            obj < old(self).objects@.len(),
        ensures
            wf(*final(self)),
            spec_only_obj_changed(*old(self), *final(self), obj as int),
            final(self).objects@[obj as int].kind == old(self).objects@[obj as int].kind,
            r == Ok::<(), EngineError>(()),
            spec_props_insert(
                old(self).objects@[obj as int].data.props@,
                final(self).objects@[obj as int].data.props@,
                name,
                Property::Stored {
                    value,
                    attributes: crate::property::PropertyAttributes { bits: 0 },
                },
            ),
            final(self).objects@[obj as int].data.slots == old(self).objects@[obj as int].data.slots,
            final(self).objects@[obj as int].data.enumerants == old(self).objects@[obj as int].data.enumerants,
            final(self).objects@[obj as int].data.proto == old(self).objects@[obj as int].data.proto,
            final(self).objects@[obj as int].data.trait_source == old(self).objects@[obj as int].data.trait_source,
            final(self).objects@[obj as int].data.interfaces == old(self).objects@[obj as int].data.interfaces,
    {
        proof {
            assert(wf_obj(
                self.objects@[obj as int],
                obj as int,
                self.objects@.len() as int,
                self.classes@.len() as int,
                self.scopes@.len() as int,
            ));
        }
        let d = &mut self.objects[obj].data;
        d.install_dynamic_property(name, value)
    }

    /// Installs a slot-backed trait property on the object, seeded with
    /// its default value.
    pub fn install_slot(&mut self, obj: usize, name: QName, id: u32, value: Value)
        requires
            wf(*old(self)),
            obj < old(self).objects@.len(),
        ensures
            wf(*final(self)),
            spec_only_obj_changed(*old(self), *final(self), obj as int),
            final(self).objects@[obj as int].kind == old(self).objects@[obj as int].kind,
            crate::storage::spec_install_slot_like(
                old(self).objects@[obj as int].data,
                final(self).objects@[obj as int].data,
                name,
                id,
                value,
                false,
            ),
    {
        proof {
            assert(wf_obj(
                self.objects@[obj as int],
                obj as int,
                self.objects@.len() as int,
                self.classes@.len() as int,
                self.scopes@.len() as int,
            ));
        }
        let d = &mut self.objects[obj].data;
        d.install_slot(name, id, value);
    }

    /// Installs a constant trait property on the object, seeded with its
    /// value.
    pub fn install_const(&mut self, obj: usize, name: QName, id: u32, value: Value)
        requires
            wf(*old(self)),
            obj < old(self).objects@.len(),
        ensures
            wf(*final(self)),
            spec_only_obj_changed(*old(self), *final(self), obj as int),
            final(self).objects@[obj as int].kind == old(self).objects@[obj as int].kind,
            crate::storage::spec_install_slot_like(
                old(self).objects@[obj as int].data,
                final(self).objects@[obj as int].data,
                name,
                id,
                value,
                true,
            ),
    {
        proof {
            assert(wf_obj(
                self.objects@[obj as int],
                obj as int,
                self.objects@.len() as int,
                self.classes@.len() as int,
                self.scopes@.len() as int,
            ));
        }
        let d = &mut self.objects[obj].data;
        d.install_const(name, id, value);
    }

    /// Whether an assignment may replace the entry bound to `name` on the
    /// object.
    pub fn is_property_overwritable(&self, obj: usize, name: &QName) -> (r: bool)
        requires
            obj < self.objects@.len(),
        ensures
            r == match crate::storage::spec_find_prop(
                self.objects@[obj as int].data.props@,
                name@,
            ) {
                Some(p) => crate::property::spec_is_overwritable(p),
                None => true,
            },
    {
        self.objects[obj].data.is_property_overwritable(name)
    }
}

/// The deepest class-materialization nesting the engine will follow
/// before reporting an internal error: a resolution that recurses this
/// deep indicates a malformed class graph, not a legal program.
pub const MAX_CLASS_DEPTH: u32 = 64;

/// The heap relation of every trait-installing operation: objects may be
/// appended and existing objects may gain installed members, but no
/// existing object changes its kind, prototype, trait source or
/// interfaces, and no other table changes at all.
pub open spec fn spec_installs_only(pre: Avm, post: Avm) -> bool {
    &&& post.objects@.len() >= pre.objects@.len()
    &&& forall|j: int|
        0 <= j < pre.objects@.len() ==> {
            &&& (#[trigger] post.objects@[j]).kind == pre.objects@[j].kind
            &&& post.objects@[j].data.proto == pre.objects@[j].data.proto
            &&& post.objects@[j].data.trait_source == pre.objects@[j].data.trait_source
            &&& post.objects@[j].data.interfaces == pre.objects@[j].data.interfaces
        }
    &&& post.classes == pre.classes
    &&& post.scopes == pre.scopes
    &&& post.domains == pre.domains
    &&& post.scripts == pre.scripts
    &&& post.display == pre.display
    &&& post.protos == pre.protos
    &&& post.strict == pre.strict
    &&& post.swf_version == pre.swf_version
}

/// Like [`spec_installs_only`], but an existing object may also change
/// its kind payload: assignments write index-backed storage in place.
pub open spec fn spec_writes_only(pre: Avm, post: Avm) -> bool {
    &&& post.objects@.len() >= pre.objects@.len()
    &&& forall|j: int|
        0 <= j < pre.objects@.len() ==> {
            &&& (#[trigger] post.objects@[j]).data.proto == pre.objects@[j].data.proto
            &&& post.objects@[j].data.trait_source == pre.objects@[j].data.trait_source
            &&& post.objects@[j].data.interfaces == pre.objects@[j].data.interfaces
        }
    &&& post.classes == pre.classes
    &&& post.scopes == pre.scopes
    &&& post.domains == pre.domains
    &&& post.scripts == pre.scripts
    &&& post.display == pre.display
    &&& post.protos == pre.protos
    &&& post.strict == pre.strict
    &&& post.swf_version == pre.swf_version
}

/// Whether `o` is settled for `name`: the name is instantiated, or there
/// is nothing to install for it.
pub open spec fn spec_node_installed(avm: Avm, o: int, name: crate::names::QNameView) -> bool {
    crate::storage::spec_has_prop(avm.objects@[o].data.props@, name) || crate::engine::spec_get_trait(
        avm,
        o,
        name,
    ).len() == 0
}

/// The first setter holder at or below `cur`, walking prototype links.
pub open spec fn spec_setter_from(
    avm: Avm,
    cur: Option<usize>,
    name: crate::names::QNameView,
) -> Option<int>
    decreases (match cur {
        Some(c) => c as int + 1,
        None => 0,
    }),
{
    match cur {
        None => None,
        Some(c) => if c < avm.objects@.len() {
            if crate::engine::spec_own_setter(avm, c as int, name) {
                Some(c as int)
            } else {
                match avm.objects@[c as int].data.proto {
                    Some(p) => if p < c {
                        spec_setter_from(avm, Some(p), name)
                    } else {
                        None
                    },
                    None => None,
                }
            }
        } else {
            None
        },
    }
}

/// The two formulations of the delegation target agree.
pub proof fn lemma_setter_holder_from(avm: Avm, o: int, name: crate::names::QNameView)
    requires
        wf(avm),
        0 <= o < avm.objects@.len(),
    ensures
        crate::engine::spec_find_setter_holder(avm, o, name) == spec_setter_from(
            avm,
            avm.objects@[o].data.proto,
            name,
        ),
    decreases o,
{
    assert(wf_obj(
        avm.objects@[o],
        o,
        avm.objects@.len() as int,
        avm.classes@.len() as int,
        avm.scopes@.len() as int,
    ));
    match avm.objects@[o].data.proto {
        Some(p) => {
            assert(p < o);
            assert(wf_obj(
                avm.objects@[p as int],
                p as int,
                avm.objects@.len() as int,
                avm.classes@.len() as int,
                avm.scopes@.len() as int,
            ));
            if !crate::engine::spec_own_setter(avm, p as int, name) {
                lemma_setter_holder_from(avm, p as int, name);
            }
        },
        None => {},
    }
}

/// The object an assignment finally lands on: the object itself when it
/// owns a virtual setter; else the first ancestor that does; else the
/// original receiver, which gains a fresh own property — that is how an
/// inherited data name is shadowed rather than mutated in place.
pub open spec fn spec_set_target(
    avm: Avm,
    o: int,
    receiver: usize,
    name: crate::names::QNameView,
) -> int {
    if crate::engine::spec_own_setter(avm, o, name) {
        o
    } else {
        match crate::engine::spec_find_setter_holder(avm, o, name) {
            Some(h) => h,
            None => receiver as int,
        }
    }
}

/// Whether no frame of the scope chain from `cur` outward resolves the
/// multiname: the answer the chain walk gives up with.
pub open spec fn spec_no_frame_resolves(
    avm: Avm,
    cur: Option<usize>,
    mn: crate::names::MultinameView,
) -> bool
    decreases (match cur {
        Some(s) => s as int + 1,
        None => 0,
    }),
{
    match cur {
        None => true,
        Some(s) => if s < avm.scopes@.len() {
            &&& crate::engine::spec_resolve_multiname(
                avm,
                avm.scopes@[s as int].values as int,
                mn,
            ) is None
            &&& match avm.scopes@[s as int].parent {
                Some(p) => if p < s {
                    spec_no_frame_resolves(avm, Some(p), mn)
                } else {
                    true
                },
                None => true,
            }
        } else {
            true
        },
    }
}

/// The per-kind state relation of installing one trait on `obj`, with
/// methods and accessors bound over `scope` to `receiver`: what each kind
/// returns, what it binds under the trait's name, what it allocates, and
/// what it leaves alone. A nested class may touch the scope chain on its
/// way to the superclass, so its relation fixes the constructed
/// constructor and the bound constant, and is exact when there is no
/// superclass to resolve.
pub open spec fn spec_install_effect(
    pre: Avm,
    post: Avm,
    obj: usize,
    t: crate::traits::Trait,
    scope: Option<usize>,
    receiver: usize,
    r: Result<Value, EngineError>,
) -> bool {
    match t.kind {
                crate::traits::TraitKind::Slot { slot_id, default_value, .. } => {
                    let dv = match default_value {
                        Some(v) => v,
                        None => Value::Undefined,
                    };
                    &&& r == Ok::<Value, EngineError>(dv)
                    &&& spec_only_obj_changed(pre, post, obj as int)
                    &&& post.objects@[obj as int].kind == pre.objects@[obj as int].kind
                    &&& crate::storage::spec_install_slot_like(
                        pre.objects@[obj as int].data,
                        post.objects@[obj as int].data,
                        t.name,
                        slot_id,
                        dv,
                        false,
                    )
                },
                crate::traits::TraitKind::Const { slot_id, default_value, .. } => {
                    let dv = match default_value {
                        Some(v) => v,
                        None => Value::Undefined,
                    };
                    &&& r == Ok::<Value, EngineError>(dv)
                    &&& spec_only_obj_changed(pre, post, obj as int)
                    &&& post.objects@[obj as int].kind == pre.objects@[obj as int].kind
                    &&& crate::storage::spec_install_slot_like(
                        pre.objects@[obj as int].data,
                        post.objects@[obj as int].data,
                        t.name,
                        slot_id,
                        dv,
                        true,
                    )
                },
                crate::traits::TraitKind::Method { disp_id, method } => {
                    let f = pre.objects@.len() as usize;
                    &&& r == Ok::<Value, EngineError>(Value::Object(f))
                    &&& post.objects@.len() == f + 1
                    &&& post.objects@[f as int].kind == (ObjKind::Function {
                        method,
                        scope,
                        receiver: Some(receiver),
                    })
                    &&& post.objects@[f as int].data.proto == pre.protos.function
                    &&& spec_props_insert(
                        pre.objects@[obj as int].data.props@,
                        post.objects@[obj as int].data.props@,
                        t.name,
                        Property::Stored {
                            value: Value::Object(f),
                            attributes: crate::property::PropertyAttributes {
                                bits: crate::property::ATTR_DONT_DELETE
                                    | crate::property::ATTR_DONT_ENUM,
                            },
                        },
                    )
                    &&& spec_methods_install(
                        pre.objects@[obj as int].data.methods@,
                        post.objects@[obj as int].data.methods@,
                        disp_id,
                        f,
                    )
                    &&& post.objects@[obj as int].data.slots == pre.objects@[obj as int].data.slots
                    &&& post.objects@[obj as int].data.enumerants == pre.objects@[obj as int].data.enumerants
                    &&& forall|j: int|
                        0 <= j < pre.objects@.len() && j != obj as int ==> post.objects@[j] == pre.objects@[j]
                },
                crate::traits::TraitKind::Getter { disp_id, method } => {
                    let f = pre.objects@.len() as usize;
                    &&& post.objects@.len() == f + 1
                    &&& post.objects@[f as int].kind == (ObjKind::Function {
                        method,
                        scope,
                        receiver: Some(receiver),
                    })
                    &&& spec_methods_install(
                        pre.objects@[obj as int].data.methods@,
                        post.objects@[obj as int].data.methods@,
                        disp_id,
                        f,
                    )
                    &&& match crate::storage::spec_find_prop(
                        pre.objects@[obj as int].data.props@,
                        t.name@,
                    ) {
                        None => r == Ok::<Value, EngineError>(Value::Object(f))
                            && spec_props_insert(
                            pre.objects@[obj as int].data.props@,
                            post.objects@[obj as int].data.props@,
                            t.name,
                            Property::Virtual { get: Some(f), set: None },
                        ),
                        Some(Property::Virtual { get: _, set }) => r == Ok::<
                            Value,
                            EngineError,
                        >(Value::Object(f)) && spec_props_insert(
                            pre.objects@[obj as int].data.props@,
                            post.objects@[obj as int].data.props@,
                            t.name,
                            Property::Virtual { get: Some(f), set },
                        ),
                        Some(_) => r == Err::<Value, EngineError>(EngineError::NotVirtual)
                            && post.objects@[obj as int].data.props == pre.objects@[obj as int].data.props,
                    }
                    &&& forall|j: int|
                        0 <= j < pre.objects@.len() && j != obj as int ==> post.objects@[j] == pre.objects@[j]
                },
                crate::traits::TraitKind::Setter { disp_id, method } => {
                    let f = pre.objects@.len() as usize;
                    &&& post.objects@.len() == f + 1
                    &&& post.objects@[f as int].kind == (ObjKind::Function {
                        method,
                        scope,
                        receiver: Some(receiver),
                    })
                    &&& spec_methods_install(
                        pre.objects@[obj as int].data.methods@,
                        post.objects@[obj as int].data.methods@,
                        disp_id,
                        f,
                    )
                    &&& match crate::storage::spec_find_prop(
                        pre.objects@[obj as int].data.props@,
                        t.name@,
                    ) {
                        None => r == Ok::<Value, EngineError>(Value::Object(f))
                            && spec_props_insert(
                            pre.objects@[obj as int].data.props@,
                            post.objects@[obj as int].data.props@,
                            t.name,
                            Property::Virtual { get: None, set: Some(f) },
                        ),
                        Some(Property::Virtual { get, set: _ }) => r == Ok::<
                            Value,
                            EngineError,
                        >(Value::Object(f)) && spec_props_insert(
                            pre.objects@[obj as int].data.props@,
                            post.objects@[obj as int].data.props@,
                            t.name,
                            Property::Virtual { get, set: Some(f) },
                        ),
                        Some(_) => r == Err::<Value, EngineError>(EngineError::NotVirtual)
                            && post.objects@[obj as int].data.props == pre.objects@[obj as int].data.props,
                    }
                    &&& forall|j: int|
                        0 <= j < pre.objects@.len() && j != obj as int ==> post.objects@[j] == pre.objects@[j]
                },
                crate::traits::TraitKind::Function { slot_id, function } => {
                    let f = pre.objects@.len() as usize;
                    &&& r == Ok::<Value, EngineError>(Value::Object(f))
                    &&& post.objects@.len() == f + 2
                    &&& post.objects@[f as int].kind == (ObjKind::Function {
                        method: function,
                        scope,
                        receiver: None,
                    })
                    &&& crate::storage::spec_install_slot_like(
                        pre.objects@[obj as int].data,
                        post.objects@[obj as int].data,
                        t.name,
                        slot_id,
                        Value::Object(f),
                        true,
                    )
                    &&& forall|j: int|
                        0 <= j < pre.objects@.len() && j != obj as int ==> post.objects@[j] == pre.objects@[j]
                },
                crate::traits::TraitKind::Class { slot_id, class } => {
                    &&& (class >= pre.classes@.len() ==> r == Err::<Value, EngineError>(
                        EngineError::BadObjectRef,
                    ) && post == pre)
                    &&& match r {
                        Ok(v) => match v {
                            Value::Object(cobj) => {
                                &&& class < pre.classes@.len()
                                &&& pre.objects@.len() <= cobj < post.objects@.len()
                                &&& post.objects@[cobj as int].kind == (ObjKind::Function {
                                    method: pre.classes@[class as int].instance_init,
                                    scope,
                                    receiver: None,
                                })
                                &&& post.objects@[cobj as int].data.trait_source
                                    == TraitSource::ClassConstructor(class, scope)
                                &&& post.objects@[cobj as int].data.proto
                                    == pre.protos.function
                                &&& crate::storage::spec_has_prop(
                                    post.objects@[obj as int].data.props@,
                                    pre.classes@[class as int].name@,
                                )
                            },
                            _ => false,
                        },
                        Err(_) => true,
                    }
                    &&& (class < pre.classes@.len() && pre.classes@[class
                        as int].super_class_name is None ==> {
                        let cobj = pre.objects@.len() as usize;
                        &&& r == Ok::<Value, EngineError>(Value::Object(cobj))
                        &&& post.objects@.len() == cobj + 1
                        &&& forall|j: int|
                            0 <= j < pre.objects@.len() && j != obj as int
                                ==> post.objects@[j] == pre.objects@[j]
                        &&& crate::storage::spec_install_slot_like(
                            pre.objects@[obj as int].data,
                            post.objects@[obj as int].data,
                            pre.classes@[class as int].name,
                            slot_id,
                            Value::Object(cobj),
                            true,
                        )
                    })
                },
            }
}

impl Avm {
    /// Materializes one trait into the object's storage, binding methods
    /// and accessors to the given receiver over the given scope. Returns
    /// the installed value.
    ///
    /// A nested class resolves its superclass through the scope chain (not
    /// the trait table) and materializes as a class-constructor object
    /// carrying the class and the scope; the constructor's further
    /// machinery is the class system's concern, outside this engine.
    pub fn install_foreign_trait(
        &mut self,
        obj: usize,
        trait_entry: crate::traits::Trait,
        scope: Option<usize>,
        receiver: usize,
        fuel: u32,
    ) -> (r: Result<Value, EngineError>)
        requires
            wf(*old(self)),
            obj < old(self).objects@.len(),
            receiver < old(self).objects@.len(),
            match scope {
                Some(s) => s < old(self).scopes@.len(),
                None => true,
            },
        ensures
            wf(*final(self)),
            spec_installs_only(*old(self), *final(self)),
            obj < final(self).objects@.len(),
            spec_install_effect(
                *old(self),
                *final(self),
                obj,
                trait_entry,
                scope,
                receiver,
                r,
            ),
        decreases fuel, 1int,
    {
        match trait_entry.kind {
            crate::traits::TraitKind::Slot { slot_id, default_value, .. } => {
                let value = match default_value {
                    Some(v) => v,
                    None => Value::Undefined,
                };
                let out = value.clone();
                self.install_slot(obj, trait_entry.name, slot_id, value);
                proof {
                    lemma_only_changed_installs(*old(self), *self, obj as int);
                }
                Ok(out)
            },
            crate::traits::TraitKind::Const { slot_id, default_value, .. } => {
                let value = match default_value {
                    Some(v) => v,
                    None => Value::Undefined,
                };
                let out = value.clone();
                self.install_const(obj, trait_entry.name, slot_id, value);
                proof {
                    lemma_only_changed_installs(*old(self), *self, obj as int);
                }
                Ok(out)
            },
            crate::traits::TraitKind::Method { disp_id, method } => {
                let fn_proto = self.protos.function;
                let f = self.alloc_object(
                    ObjKind::Function { method, scope, receiver: Some(receiver) },
                    fn_proto,
                    TraitSource::NoClass,
                );
                let ghost m1 = *self;
                self.install_method(obj, trait_entry.name, disp_id, f);
                proof {
                    lemma_alloc_installs(*old(self), m1, f);
                    lemma_only_changed_installs(m1, *self, obj as int);
                    lemma_installs_only_trans(*old(self), m1, *self);
                }
                Ok(Value::Object(f))
            },
            crate::traits::TraitKind::Getter { disp_id, method } => {
                let fn_proto = self.protos.function;
                let f = self.alloc_object(
                    ObjKind::Function { method, scope, receiver: Some(receiver) },
                    fn_proto,
                    TraitSource::NoClass,
                );
                let ghost m1 = *self;
                let res = self.install_getter(obj, trait_entry.name, disp_id, f);
                proof {
                    lemma_alloc_installs(*old(self), m1, f);
                    lemma_only_changed_installs(m1, *self, obj as int);
                    lemma_installs_only_trans(*old(self), m1, *self);
                }
                match res {
                    Ok(()) => Ok(Value::Object(f)),
                    Err(e) => Err(e),
                }
            },
            crate::traits::TraitKind::Setter { disp_id, method } => {
                let fn_proto = self.protos.function;
                let f = self.alloc_object(
                    ObjKind::Function { method, scope, receiver: Some(receiver) },
                    fn_proto,
                    TraitSource::NoClass,
                );
                let ghost m1 = *self;
                let res = self.install_setter(obj, trait_entry.name, disp_id, f);
                proof {
                    lemma_alloc_installs(*old(self), m1, f);
                    lemma_only_changed_installs(m1, *self, obj as int);
                    lemma_installs_only_trans(*old(self), m1, *self);
                }
                match res {
                    Ok(()) => Ok(Value::Object(f)),
                    Err(e) => Err(e),
                }
            },
            crate::traits::TraitKind::Function { slot_id, function } => {
                let fn_proto = self.protos.function;
                let f = self.alloc_object(
                    ObjKind::Function { method: function, scope, receiver: None },
                    fn_proto,
                    TraitSource::NoClass,
                );
                let ghost m1 = *self;
                let es3_proto = match self.protos.object {
                    Some(op) => self.object(op),
                    None => self.bare_object(),
                };
                let ghost m2 = *self;
                self.install_slot(
                    f,
                    QName::dynamic_name(String::from_str("prototype")),
                    0,
                    Value::Object(es3_proto),
                );
                let ghost m3 = *self;
                self.install_const(obj, trait_entry.name, slot_id, Value::Object(f));
                proof {
                    lemma_alloc_installs(*old(self), m1, f);
                    lemma_alloc_installs(m1, m2, es3_proto);
                    lemma_only_changed_installs(m2, m3, f as int);
                    lemma_only_changed_installs(m3, *self, obj as int);
                    lemma_installs_only_trans(*old(self), m1, m2);
                    lemma_installs_only_trans(*old(self), m2, m3);
                    lemma_installs_only_trans(*old(self), m3, *self);
                }
                Ok(Value::Object(f))
            },
            crate::traits::TraitKind::Class { slot_id, class } => {
                if class >= self.classes.len() {
                    return Err(EngineError::BadObjectRef);
                }
                let class_name = self.classes[class].name.clone();
                let has_super = self.classes[class].super_class_name.is_some();
                if has_super {
                    let sc_mn = match &self.classes[class].super_class_name {
                        Some(m) => m.clone(),
                        None => crate::names::Multiname::any(),
                    };
                    let super_qname = match self.resolve_multiname(obj, &sc_mn) {
                        Some(q) => q,
                        None => QName::dynamic_name(String::from_str("Object")),
                    };
                    let resolved = match scope {
                        Some(s) => {
                            let mn = crate::names::Multiname::from_qname(super_qname);
                            match self.scope_resolve(Some(s), &mn, fuel) {
                                Ok(v) => v,
                                Err(e) => {
                                    return Err(e);
                                },
                            }
                        },
                        None => None,
                    };
                    match resolved {
                        Some(Value::Object(_)) => {},
                        _ => {
                            return Err(EngineError::UnresolvedSuperclass);
                        },
                    }
                }
                let instance_init = self.classes[class].instance_init;
                let fn_proto = self.protos.function;
                let ghost m1 = *self;
                let class_obj = self.alloc_object(
                    ObjKind::Function { method: instance_init, scope, receiver: None },
                    fn_proto,
                    TraitSource::ClassConstructor(class, scope),
                );
                let ghost m2 = *self;
                let ghost installed_name = class_name;
                self.install_const(obj, class_name, slot_id, Value::Object(class_obj));
                proof {
                    lemma_alloc_installs(m1, m2, class_obj);
                    lemma_only_changed_installs(m2, *self, obj as int);
                    lemma_installs_only_trans(*old(self), m1, m2);
                    lemma_installs_only_trans(*old(self), m2, *self);
                    assert(m1.classes == old(self).classes);
                    assert(m1.protos == old(self).protos);
                    assert(obj as int != class_obj as int);
                    assert(self.objects@[class_obj as int] == m2.objects@[class_obj as int]);
                    lemma_slot_like_binds(
                        m2.objects@[obj as int].data,
                        self.objects@[obj as int].data,
                        installed_name,
                        slot_id,
                        Value::Object(class_obj),
                        true,
                    );
                    if old(self).classes@[class as int].super_class_name is None {
                        assert(m1 == *old(self));
                        assert forall|j: int|
                            0 <= j < old(self).objects@.len() && j != obj as int implies
                            self.objects@[j] == old(self).objects@[j] by {
                            assert(m2.objects@[j] == m1.objects@[j]);
                        }
                        assert(m2.objects@[obj as int].data == old(self).objects@[obj
                            as int].data);
                    }
                }
                Ok(Value::Object(class_obj))
            },
        }
    }

    /// Materializes one trait using the object's own scope chain: the
    /// ordinary installation path.
    pub fn install_trait(
        &mut self,
        obj: usize,
        trait_entry: crate::traits::Trait,
        receiver: usize,
    ) -> (r: Result<Value, EngineError>)
        requires
            wf(*old(self)),
            obj < old(self).objects@.len(),
            receiver < old(self).objects@.len(),
        ensures
            wf(*final(self)),
            spec_installs_only(*old(self), *final(self)),
            obj < final(self).objects@.len(),
            spec_install_effect(
                *old(self),
                *final(self),
                obj,
                trait_entry,
                crate::engine::spec_scope_of(*old(self), obj as int),
                receiver,
                r,
            ),
    {
        let scope = self.get_scope(obj);
        self.install_foreign_trait(obj, trait_entry, scope, receiver, MAX_CLASS_DEPTH)
    }

    /// Makes sure every trait matching `name` on the object is
    /// materialized. Installation is idempotent by construction: once the
    /// name is instantiated, the trait query is skipped, so a settled
    /// object is left exactly as it is.
    fn ensure_installed(&mut self, obj: usize, receiver: usize, name: &QName, fuel: u32) -> (r:
        Result<(), EngineError>)
        requires
            wf(*old(self)),
            obj < old(self).objects@.len(),
            receiver < old(self).objects@.len(),
        ensures
            wf(*final(self)),
            spec_installs_only(*old(self), *final(self)),
            spec_node_installed(*old(self), obj as int, name@) ==> *final(self) == *old(self)
                && r == Ok::<(), EngineError>(()),
        decreases fuel, 2int,
    {
        if self.objects[obj].data.has_instantiated_property(name) {
            return Ok(());
        }
        let traits = self.get_trait(obj, name);
        let scope = self.get_scope(obj);
        let ghost pre = *old(self);
        proof {
            if spec_node_installed(pre, obj as int, name@) {
                assert(crate::engine::spec_get_trait(pre, obj as int, name@).len() == 0);
                assert(traits@.len() == 0);
            }
        }
        let mut i: usize = 0;
        while i < traits.len()
            invariant
                pre == *old(self),
                wf(*self),
                spec_installs_only(pre, *self),
                obj < pre.objects@.len(),
                receiver < pre.objects@.len(),
                i <= traits@.len(),
                spec_node_installed(pre, obj as int, name@) ==> traits@.len() == 0 && *self
                    == pre,
                match scope {
                    Some(s) => s < pre.scopes@.len(),
                    None => true,
                },
            decreases fuel, 2int, traits@.len() - i,
        {
            let ghost mid = *self;
            let t = traits[i].clone();
            let res = self.install_foreign_trait(obj, t, scope, receiver, fuel);
            proof {
                lemma_installs_only_trans(pre, mid, *self);
            }
            match res {
                Ok(_) => {},
                Err(e) => {
                    return Err(e);
                },
            }
            i += 1;
        }
        proof {
            if spec_node_installed(pre, obj as int, name@) {
                assert(traits@.len() == 0);
            }
        }
        Ok(())
    }

    /// Reads `name` on the object: the touched name is materialized
    /// first, then the prototype chain is walked under the precedence
    /// rules; along a settled chain the heap is untouched and the result
    /// is exactly the chain read.
    fn get_property_fuel(&mut self, obj: usize, receiver: usize, name: &QName, fuel: u32) -> (r:
        Result<GetOutcome, EngineError>)
        requires
            wf(*old(self)),
            obj < old(self).objects@.len(),
            receiver < old(self).objects@.len(),
        ensures
            wf(*final(self)),
            spec_installs_only(*old(self), *final(self)),
            crate::engine::spec_chain_installed(*old(self), obj as int, name@) ==> *final(self)
                == *old(self) && r == crate::engine::spec_chain_get(
                *old(self),
                obj as int,
                receiver,
                name@,
            ),
        decreases fuel, 3int,
    {
        let ghost pre = *old(self);
        let mut cur: usize = obj;
        loop
            invariant
                pre == *old(self),
                wf(*self),
                spec_installs_only(pre, *self),
                cur < self.objects@.len(),
                receiver < pre.objects@.len(),
                crate::engine::spec_chain_installed(pre, obj as int, name@) ==> (*self == pre
                    && crate::engine::spec_chain_installed(pre, cur as int, name@)
                    && crate::engine::spec_chain_get_rec(pre, obj as int, receiver, name@)
                    == crate::engine::spec_chain_get_rec(pre, cur as int, receiver, name@)),
            decreases fuel, 3int, cur,
        {
            proof {
                assert(wf_obj(
                    self.objects@[cur as int],
                    cur as int,
                    self.objects@.len() as int,
                    self.classes@.len() as int,
                    self.scopes@.len() as int,
                ));
            }
            let ghost mid = *self;
            let res = self.ensure_installed(cur, receiver, name, fuel);
            proof {
                lemma_installs_only_trans(pre, mid, *self);
            }
            match res {
                Ok(()) => {},
                Err(e) => {
                    return Err(e);
                },
            }
            let has_no_getter = self.has_own_virtual_setter(cur, name)
                && !self.has_own_virtual_getter(cur, name);
            if self.has_own_property(cur, name) && !has_no_getter {
                return self.get_property_local(cur, receiver, None, name);
            }
            match self.proto_of(cur) {
                Some(p) => {
                    cur = p;
                },
                None => {
                    return Ok(GetOutcome::Value(Value::Undefined));
                },
            }
        }
    }

    /// Reads `name` on the object; see [`Avm::get_property_fuel`].
    pub fn get_property(&mut self, obj: usize, receiver: usize, name: &QName) -> (r: Result<
        GetOutcome,
        EngineError,
    >)
        requires
            wf(*old(self)),
            obj < old(self).objects@.len(),
            receiver < old(self).objects@.len(),
        ensures
            wf(*final(self)),
            spec_installs_only(*old(self), *final(self)),
            crate::engine::spec_chain_installed(*old(self), obj as int, name@) ==> *final(self)
                == *old(self) && r == crate::engine::spec_chain_get(
                *old(self),
                obj as int,
                receiver,
                name@,
            ),
    {
        self.get_property_fuel(obj, receiver, name, MAX_CLASS_DEPTH)
    }

    /// Assigns `name` on the object. The touched name is materialized
    /// first. An object that owns a virtual setter assigns locally; else
    /// the first ancestor owning a virtual setter takes the assignment —
    /// inherited accessors are written without being copied down — and
    /// only when no ancestor does does the original receiver gain a fresh
    /// own property, shadowing any inherited data name.
    fn set_property_fuel(
        &mut self,
        obj: usize,
        receiver: usize,
        name: &QName,
        value: Value,
        fuel: u32,
    ) -> (r: Result<SetOutcome, EngineError>)
        requires
            wf(*old(self)),
            obj < old(self).objects@.len(),
            receiver < old(self).objects@.len(),
        ensures
            wf(*final(self)),
            spec_writes_only(*old(self), *final(self)),
            crate::engine::spec_chain_installed(*old(self), obj as int, name@) ==> {
                let t = spec_set_target(*old(self), obj as int, receiver, name@);
                &&& spec_only_obj_changed(*old(self), *final(self), t)
                &&& spec_obj_set_local_rel(
                    old(self).objects@[t],
                    final(self).objects@[t],
                    receiver,
                    None,
                    *name,
                    value,
                    old(self).strict,
                    r,
                )
            },
        decreases fuel, 3int,
    {
        let ghost pre = *old(self);
        let res = self.ensure_installed(obj, receiver, name, fuel);
        match res {
            Ok(()) => {},
            Err(e) => {
                return Err(e);
            },
        }
        if self.has_own_virtual_setter(obj, name) {
            return self.set_property_local(obj, receiver, None, name, value);
        }
        proof {
            if crate::engine::spec_chain_installed(pre, obj as int, name@) {
                lemma_setter_holder_from(pre, obj as int, name@);
            }
            assert(wf_obj(
                self.objects@[obj as int],
                obj as int,
                self.objects@.len() as int,
                self.classes@.len() as int,
                self.scopes@.len() as int,
            ));
        }
        let mut cur: Option<usize> = self.proto_of(obj);
        while cur.is_some()
            invariant
                pre == *old(self),
                wf(*self),
                spec_installs_only(pre, *self),
                obj < self.objects@.len(),
                receiver < pre.objects@.len(),
                match cur {
                    Some(c) => c < self.objects@.len(),
                    None => true,
                },
                crate::engine::spec_chain_installed(pre, obj as int, name@) ==> (*self == pre
                    && !crate::engine::spec_own_setter(pre, obj as int, name@)
                    && crate::engine::spec_find_setter_holder(pre, obj as int, name@)
                    == spec_setter_from(pre, cur, name@)),
            decreases (match cur {
                Some(c) => c as int + 1,
                None => 0int,
            }),
        {
            let c = cur.unwrap();
            proof {
                assert(wf_obj(
                    self.objects@[c as int],
                    c as int,
                    self.objects@.len() as int,
                    self.classes@.len() as int,
                    self.scopes@.len() as int,
                ));
            }
            if self.has_own_virtual_setter(c, name) {
                return self.set_property_local(c, receiver, None, name, value);
            }
            cur = self.proto_of(c);
        }
        self.set_property_local(receiver, receiver, None, name, value)
    }

    /// Assigns `name` on the object; see [`Avm::set_property_fuel`].
    pub fn set_property(&mut self, obj: usize, receiver: usize, name: &QName, value: Value)
        -> (r: Result<SetOutcome, EngineError>)
        requires
            wf(*old(self)),
            obj < old(self).objects@.len(),
            receiver < old(self).objects@.len(),
        ensures
            wf(*final(self)),
            spec_writes_only(*old(self), *final(self)),
            crate::engine::spec_chain_installed(*old(self), obj as int, name@) ==> {
                let t = spec_set_target(*old(self), obj as int, receiver, name@);
                &&& spec_only_obj_changed(*old(self), *final(self), t)
                &&& spec_obj_set_local_rel(
                    old(self).objects@[t],
                    final(self).objects@[t],
                    receiver,
                    None,
                    *name,
                    value,
                    old(self).strict,
                    r,
                )
            },
    {
        self.set_property_fuel(obj, receiver, name, value, MAX_CLASS_DEPTH)
    }

    /// Initializes `name` on the object, along the same delegation walk as
    /// assignment; initialization may write constants.
    fn init_property_fuel(
        &mut self,
        obj: usize,
        receiver: usize,
        name: &QName,
        value: Value,
        fuel: u32,
    ) -> (r: Result<SetOutcome, EngineError>)
        requires
            wf(*old(self)),
            obj < old(self).objects@.len(),
            receiver < old(self).objects@.len(),
        ensures
            wf(*final(self)),
            spec_writes_only(*old(self), *final(self)),
            crate::engine::spec_chain_installed(*old(self), obj as int, name@) ==> {
                let t = spec_set_target(*old(self), obj as int, receiver, name@);
                &&& spec_only_obj_changed(*old(self), *final(self), t)
                &&& spec_obj_init_local_rel(
                    old(self).objects@[t],
                    final(self).objects@[t],
                    receiver,
                    None,
                    *name,
                    value,
                    r,
                )
            },
        decreases fuel, 3int,
    {
        let ghost pre = *old(self);
        let res = self.ensure_installed(obj, receiver, name, fuel);
        match res {
            Ok(()) => {},
            Err(e) => {
                return Err(e);
            },
        }
        if self.has_own_virtual_setter(obj, name) {
            return self.init_property_local(obj, receiver, None, name, value);
        }
        proof {
            if crate::engine::spec_chain_installed(pre, obj as int, name@) {
                lemma_setter_holder_from(pre, obj as int, name@);
            }
            assert(wf_obj(
                self.objects@[obj as int],
                obj as int,
                self.objects@.len() as int,
                self.classes@.len() as int,
                self.scopes@.len() as int,
            ));
        }
        let mut cur: Option<usize> = self.proto_of(obj);
        while cur.is_some()
            invariant
                pre == *old(self),
                wf(*self),
                spec_installs_only(pre, *self),
                obj < self.objects@.len(),
                receiver < pre.objects@.len(),
                match cur {
                    Some(c) => c < self.objects@.len(),
                    None => true,
                },
                crate::engine::spec_chain_installed(pre, obj as int, name@) ==> (*self == pre
                    && !crate::engine::spec_own_setter(pre, obj as int, name@)
                    && crate::engine::spec_find_setter_holder(pre, obj as int, name@)
                    == spec_setter_from(pre, cur, name@)),
            decreases (match cur {
                Some(c) => c as int + 1,
                None => 0int,
            }),
        {
            let c = cur.unwrap();
            proof {
                assert(wf_obj(
                    self.objects@[c as int],
                    c as int,
                    self.objects@.len() as int,
                    self.classes@.len() as int,
                    self.scopes@.len() as int,
                ));
            }
            if self.has_own_virtual_setter(c, name) {
                return self.init_property_local(c, receiver, None, name, value);
            }
            cur = self.proto_of(c);
        }
        self.init_property_local(receiver, receiver, None, name, value)
    }

    /// Initializes `name` on the object; see [`Avm::init_property_fuel`].
    pub fn init_property(&mut self, obj: usize, receiver: usize, name: &QName, value: Value)
        -> (r: Result<SetOutcome, EngineError>)
        requires
            wf(*old(self)),
            obj < old(self).objects@.len(),
            receiver < old(self).objects@.len(),
        ensures
            wf(*final(self)),
            spec_writes_only(*old(self), *final(self)),
            crate::engine::spec_chain_installed(*old(self), obj as int, name@) ==> {
                let t = spec_set_target(*old(self), obj as int, receiver, name@);
                &&& spec_only_obj_changed(*old(self), *final(self), t)
                &&& spec_obj_init_local_rel(
                    old(self).objects@[t],
                    final(self).objects@[t],
                    receiver,
                    None,
                    *name,
                    value,
                    r,
                )
            },
    {
        self.init_property_fuel(obj, receiver, name, value, MAX_CLASS_DEPTH)
    }

    /// Resolves a value through the scope chain: the innermost frame whose
    /// object resolves the multiname answers; an accessor-backed answer
    /// needs the host and is reported as such. Exhausted fuel means the
    /// class graph nests deeper than the engine permits.
    pub fn scope_resolve(
        &mut self,
        scope: Option<usize>,
        name: &crate::names::Multiname,
        fuel: u32,
    ) -> (r: Result<Option<Value>, EngineError>)
        requires
            wf(*old(self)),
            match scope {
                Some(s) => s < old(self).scopes@.len(),
                None => true,
            },
        ensures
            wf(*final(self)),
            spec_installs_only(*old(self), *final(self)),
            fuel == 0 ==> r == Err::<Option<Value>, EngineError>(EngineError::DepthExceeded)
                && *final(self) == *old(self),
            r == Ok::<Option<Value>, EngineError>(None::<Value>) ==> *final(self) == *old(self)
                && spec_no_frame_resolves(*old(self), scope, name@),
            (match r {
                Ok(Some(_)) => true,
                _ => false,
            }) ==> !spec_no_frame_resolves(*old(self), scope, name@),
        decreases fuel, 0int,
    {
        if fuel == 0 {
            return Err(EngineError::DepthExceeded);
        }
        let ghost pre = *old(self);
        let mut cur: Option<usize> = scope;
        loop
            invariant
                pre == *old(self),
                fuel >= 1,
                wf(*self),
                *self == pre,
                spec_no_frame_resolves(pre, scope, name@) == spec_no_frame_resolves(
                    pre,
                    cur,
                    name@,
                ),
                match cur {
                    Some(s) => s < self.scopes@.len(),
                    None => true,
                },
            decreases fuel, 0int, (match cur {
                Some(s) => s as int + 1,
                None => 0int,
            }),
        {
            match cur {
                Some(s) => {
                    proof {
                        assert(crate::heap::wf_scope(
                            self.scopes@[s as int],
                            s as int,
                            self.objects@.len() as int,
                        ));
                    }
                    let vals = self.scopes[s].values;
                    let found = self.resolve_multiname(vals, name);
                    match found {
                        Some(qname) => {
                            proof {
                                assert(!spec_no_frame_resolves(pre, cur, name@));
                            }
                            let ghost mid = *self;
                            let out = self.get_property_fuel(vals, vals, &qname, fuel - 1);
                            proof {
                                assert(spec_installs_only(pre, mid));
                                lemma_installs_only_trans(pre, mid, *self);
                            }
                            match out {
                                Ok(GetOutcome::Value(v)) => {
                                    return Ok(Some(v));
                                },
                                Ok(GetOutcome::CallGetter { .. }) => {
                                    return Err(EngineError::HostCoercionRequired);
                                },
                                Err(e) => {
                                    return Err(e);
                                },
                            }
                        },
                        None => {},
                    }
                    cur = self.scopes[s].parent;
                },
                None => {
                    return Ok(None);
                },
            }
        }
    }

    /// Narrows a multiname to the single qualified name it currently
    /// resolves to on the object: candidate namespaces in declared order —
    /// a wildcard candidate resolves against everything the object can
    /// see — then the prototype chain. A declared non-wildcard candidate
    /// that the object (or its direct prototype) owns wins before any
    /// fallback is tried.
    pub fn resolve_multiname(&self, obj: usize, multiname: &crate::names::Multiname) -> (r:
        Option<QName>)
        requires
            wf(*self),
            obj < self.objects@.len(),
        ensures
            match r {
                Some(q) => crate::engine::spec_resolve_multiname(*self, obj as int, multiname@)
                    == Some(q@),
                None => crate::engine::spec_resolve_multiname(*self, obj as int, multiname@)
                    is None,
            },
            crate::engine::spec_first_candidate_hit(*self, obj as int, multiname@) ==> match r {
                Some(q) => q@ == crate::engine::spec_first_candidate_qname(multiname@),
                None => false,
            },
        decreases obj,
    {
        let mut k: usize = 0;
        while k < multiname.ns_set.len()
            invariant
                wf(*self),
                obj < self.objects@.len(),
                k <= multiname.ns_set@.len(),
                crate::engine::spec_mn_candidates(*self, obj as int, multiname@, 0)
                    == crate::engine::spec_mn_candidates(*self, obj as int, multiname@, k as int),
                crate::engine::spec_first_candidate_hit(*self, obj as int, multiname@) ==> k
                    == 0,
            decreases multiname.ns_set@.len() - k,
        {
            let ns = &multiname.ns_set[k];
            match multiname.local_name() {
                None => {
                    return None;
                },
                Some(local) => {
                    if ns.is_any() {
                        return match self.resolve_any(obj, local) {
                            Some(found_ns) => Some(QName::new(found_ns, local.clone())),
                            None => None,
                        };
                    } else {
                        let qname = QName::new(ns.clone(), local.clone());
                        if self.has_property(obj, &qname) {
                            return Some(qname);
                        }
                    }
                },
            }
            k += 1;
        }
        proof {
            assert(wf_obj(
                self.objects@[obj as int],
                obj as int,
                self.objects@.len() as int,
                self.classes@.len() as int,
                self.scopes@.len() as int,
            ));
        }
        match self.objects[obj].data.proto {
            Some(p) => self.resolve_multiname(p, multiname),
            None => None,
        }
    }
}

impl Avm {
    /// The default string form of an object: `[object C]` for the class
    /// `C` the object or its chain belongs to, `[object Object]` for a
    /// bare object.
    pub fn to_string(&self, obj: usize) -> (r: Result<Value, EngineError>)
        requires
            wf(*self),
            obj < self.objects@.len(),
        ensures
            match r {
                Ok(Value::String(s)) => s@ == "[object "@ + (
                match crate::engine::spec_proto_class(*self, obj as int) {
                    Some(c) => self.classes@[c as int].name@.name,
                    None => "Object"@,
                }) + "]"@,
                _ => false,
            },
    {
        let class_name = match self.as_proto_class(obj) {
            Some(c) => self.classes[c].name.local_name().clone(),
            None => String::from_str("Object"),
        };
        let mut s = String::from_str("[object ");
        s.append(class_name.as_str());
        s.append("]");
        Ok(Value::String(s))
    }

    /// The default locale-dependent string form: the same debug-style
    /// `[object C]` text as the plain string form.
    pub fn to_locale_string(&self, obj: usize) -> (r: Result<Value, EngineError>)
        requires
            wf(*self),
            obj < self.objects@.len(),
        ensures
            match r {
                Ok(Value::String(s)) => s@ == "[object "@ + (
                match crate::engine::spec_proto_class(*self, obj as int) {
                    Some(c) => self.classes@[c as int].name@.name,
                    None => "Object"@,
                }) + "]"@,
                _ => false,
            },
    {
        self.to_string(obj)
    }

    /// The primitive form of an object: a boxed primitive unwraps, every
    /// other object yields itself.
    pub fn value_of(&self, obj: usize) -> (r: Result<Value, EngineError>)
        requires
            obj < self.objects@.len(),
        ensures
            r == match self.objects@[obj as int].kind {
                ObjKind::Primitive(v) => Ok::<Value, EngineError>(v),
                _ => Ok::<Value, EngineError>(Value::Object(obj)),
            },
    {
        match &self.objects[obj].kind {
            ObjKind::Primitive(v) => Ok(v.clone()),
            _ => Ok(Value::Object(obj)),
        }
    }

    /// The primitive-coercion preference of an object: every native
    /// object prefers numeric coercion.
    pub fn default_hint(&self, obj: usize) -> (r: crate::value::Hint)
        ensures
            r == crate::value::Hint::Number,
    {
        crate::value::Hint::Number
    }

    /// Calling an object: only a function can be called. The engine
    /// decides which opaque method runs and with which receiver — the
    /// bound receiver wins over the caller-supplied one — and the host
    /// runs it.
    pub fn call(&self, obj: usize, receiver: Option<usize>) -> (r: Result<
        (u32, Option<usize>),
        EngineError,
    >)
        requires
            obj < self.objects@.len(),
        ensures
            match self.objects@[obj as int].kind {
                ObjKind::Function { method, scope: _, receiver: bound } => r == Ok::<
                    (u32, Option<usize>),
                    EngineError,
                >(
                    (
                        method,
                        match bound {
                            Some(b) => Some(b),
                            None => receiver,
                        },
                    ),
                ),
                _ => r == Err::<(u32, Option<usize>), EngineError>(EngineError::NotCallable),
            },
    {
        match &self.objects[obj].kind {
            ObjKind::Function { method, scope: _, receiver: bound } => {
                let rec = match bound {
                    Some(b) => Some(*b),
                    None => receiver,
                };
                Ok((*method, rec))
            },
            _ => Err(EngineError::NotCallable),
        }
    }

    /// Whether the object is an instance of the type whose constructor is
    /// given: the constructor's `prototype` property is looked up and
    /// searched for in the object's prototype chain. A constructor whose
    /// `prototype` is accessor-backed needs the host.
    pub fn is_instance_of(
        &mut self,
        obj: usize,
        constructor: usize,
        check_interfaces: bool,
    ) -> (r: Result<bool, EngineError>)
        requires
            wf(*old(self)),
            obj < old(self).objects@.len(),
            constructor < old(self).objects@.len(),
        ensures
            wf(*final(self)),
            spec_installs_only(*old(self), *final(self)),
    {
        let name = QName::dynamic_name(String::from_str("prototype"));
        let out = self.get_property(constructor, constructor, &name);
        match out {
            Ok(GetOutcome::Value(Value::Object(tp))) => {
                if tp < self.objects.len() {
                    Ok(self.has_prototype_in_chain(obj, tp, check_interfaces))
                } else {
                    Err(EngineError::BadObjectRef)
                }
            },
            Ok(GetOutcome::Value(_)) => Err(EngineError::HostCoercionRequired),
            Ok(GetOutcome::CallGetter { .. }) => Err(EngineError::HostCoercionRequired),
            Err(e) => Err(e),
        }
    }
}

/// The enumeration-order change of marking one name enumerable or not:
/// turning a bound, not-yet-listed, non-trait-backed name on appends it;
/// turning a listed name off removes it; everything else changes nothing.
pub open spec fn spec_enum_update(
    pre: Seq<QName>,
    post: Seq<QName>,
    qv: crate::names::QNameView,
    b: bool,
    bound: bool,
    trait_backed: bool,
) -> bool {
    if b && bound && !crate::storage::spec_enum_contains(pre, qv) && !trait_backed {
        &&& post.len() == pre.len() + 1
        &&& forall|j: int| 0 <= j < pre.len() ==> post[j] == pre[j]
        &&& post[pre.len() as int]@ == qv
    } else if !b && crate::storage::spec_enum_contains(pre, qv) {
        post == pre.remove(crate::storage::spec_enum_index(pre, qv))
    } else {
        post == pre
    }
}

/// A slot or const installation binds the trait's name in the property
/// map.
pub proof fn lemma_slot_like_binds(
    pre: crate::storage::ObjData,
    post: crate::storage::ObjData,
    name: QName,
    id: u32,
    value: Value,
    is_const: bool,
)
    requires
        crate::storage::spec_install_slot_like(pre, post, name, id, value, is_const),
    ensures
        crate::storage::spec_has_prop(post.props@, name@),
{
    if id == 0 {
        crate::storage::lemma_props_insert_effect(
            pre.props@,
            post.props@,
            name,
            Property::Stored {
                value,
                attributes: crate::property::PropertyAttributes {
                    bits: if is_const {
                        crate::property::ATTR_READ_ONLY | crate::property::ATTR_DONT_DELETE
                    } else {
                        crate::property::ATTR_DONT_DELETE
                    },
                },
            },
        );
    } else {
        crate::storage::lemma_props_insert_effect(
            pre.props@,
            post.props@,
            name,
            Property::Slot { slot_id: id },
        );
    }
}

/// Install-only heap relations compose.
pub proof fn lemma_installs_only_trans(a: Avm, b: Avm, c: Avm)
    requires
        spec_installs_only(a, b),
        spec_installs_only(b, c),
    ensures
        spec_installs_only(a, c),
{
    assert forall|j: int| 0 <= j < a.objects@.len() implies {
        &&& (#[trigger] c.objects@[j]).kind == a.objects@[j].kind
        &&& c.objects@[j].data.proto == a.objects@[j].data.proto
        &&& c.objects@[j].data.trait_source == a.objects@[j].data.trait_source
        &&& c.objects@[j].data.interfaces == a.objects@[j].data.interfaces
    } by {
        assert(b.objects@[j].kind == a.objects@[j].kind);
    }
}

/// A change confined to one existing object that keeps its kind,
/// prototype, trait source and interfaces is an install-only change.
pub proof fn lemma_only_changed_installs(pre: Avm, post: Avm, o: int)
    requires
        spec_only_obj_changed(pre, post, o),
        0 <= o < pre.objects@.len(),
        post.objects@[o].kind == pre.objects@[o].kind,
        post.objects@[o].data.proto == pre.objects@[o].data.proto,
        post.objects@[o].data.trait_source == pre.objects@[o].data.trait_source,
        post.objects@[o].data.interfaces == pre.objects@[o].data.interfaces,
    ensures
        spec_installs_only(pre, post),
{
}

/// An allocation is an install-only change.
pub proof fn lemma_alloc_installs(pre: Avm, post: Avm, r: usize)
    requires
        spec_alloc_rel(pre, post, r),
    ensures
        spec_installs_only(pre, post),
{
}

} // verus!
