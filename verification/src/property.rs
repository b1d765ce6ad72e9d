//! One property entry of an object's name-keyed storage.
//!
//! An entry is either a directly stored value, a virtual accessor pair, or a
//! reference into the object's slot array. Attribute bits record whether the
//! entry may be overwritten, deleted or enumerated.

use vstd::prelude::*;

use crate::error::EngineError;
use crate::value::Value;

verus! {

/// The value may not be assigned to.
pub const ATTR_READ_ONLY: u8 = 1;

/// The property may not be deleted.
pub const ATTR_DONT_DELETE: u8 = 2;

/// The property is skipped by enumeration.
pub const ATTR_DONT_ENUM: u8 = 4;

/// Attribute bits of a stored property.
#[derive(Clone, Copy, Debug, PartialEq, Eq, Structural)]
pub struct PropertyAttributes {
    pub bits: u8,
}

impl PropertyAttributes {
    /// No attribute set.
    pub fn empty() -> (r: PropertyAttributes)
        ensures
            r.bits == 0,
    {
        PropertyAttributes { bits: 0 }
    }

    /// Attributes with exactly the given bits.
    pub fn with_bits(bits: u8) -> (r: PropertyAttributes)
        ensures
            r.bits == bits,
    {
        PropertyAttributes { bits }
    }

    /// True when every bit of `flag` is set.
    pub fn contains(&self, flag: u8) -> (r: bool)
        ensures
            r == (self.bits & flag == flag),
    {
        self.bits & flag == flag
    }
}

impl Clone for Value {
    /// An exact copy: the copy equals the original.
    fn clone(&self) -> (r: Value)
        ensures
            r == *self,
    {
        match self {
            Value::Undefined => Value::Undefined,
            Value::Null => Value::Null,
            Value::Bool(b) => Value::Bool(*b),
            Value::Integer(i) => Value::Integer(*i),
            Value::Unsigned(u) => Value::Unsigned(*u),
            Value::Number(bits) => Value::Number(*bits),
            Value::String(s) => Value::String(s.clone()),
            Value::Object(o) => Value::Object(*o),
        }
    }
}

/// One entry of an object's name-keyed property storage.
#[derive(Debug)]
pub enum Property {
    /// A value stored directly under the name.
    Stored { value: Value, attributes: PropertyAttributes },
    /// A virtual property: an optional getter and an optional setter, each a
    /// function object in the heap. The two halves may be installed in either
    /// order, so either may be absent.
    Virtual { get: Option<usize>, set: Option<usize> },
    /// A reference to the fixed-offset slot with the given id.
    Slot { slot_id: u32 },
}

impl Clone for Property {
    /// An exact copy: the copy equals the original.
    fn clone(&self) -> (r: Property)
        ensures
            r == *self,
    {
        match self {
            Property::Stored { value, attributes } => Property::Stored {
                value: value.clone(),
                attributes: *attributes,
            },
            Property::Virtual { get, set } => Property::Virtual { get: *get, set: *set },
            Property::Slot { slot_id } => Property::Slot { slot_id: *slot_id },
        }
    }
}

impl Property {
    /// A dynamic property: stored, and free of every restriction.
    pub fn new_dynamic_property(value: Value) -> (r: Property)
        ensures
            r == (Property::Stored { value, attributes: PropertyAttributes { bits: 0 } }),
    {
        Property::Stored { value, attributes: PropertyAttributes { bits: 0 } }
    }

    /// A built-in stored property: writable but not deletable.
    pub fn new_stored(value: Value) -> (r: Property)
        ensures
            r == (Property::Stored {
                value,
                attributes: PropertyAttributes { bits: ATTR_DONT_DELETE },
            }),
    {
        Property::Stored { value, attributes: PropertyAttributes { bits: ATTR_DONT_DELETE } }
    }

    /// A constant stored property: neither writable nor deletable.
    pub fn new_const(value: Value) -> (r: Property)
        ensures
            r == (Property::Stored {
                value,
                attributes: PropertyAttributes { bits: ATTR_READ_ONLY | ATTR_DONT_DELETE },
            }),
    {
        Property::Stored {
            value,
            attributes: PropertyAttributes { bits: ATTR_READ_ONLY | ATTR_DONT_DELETE },
        }
    }

    /// A bound method installed as a non-virtual property.
    pub fn new_method(function: usize) -> (r: Property)
        ensures
            r == (Property::Stored {
                value: Value::Object(function),
                attributes: PropertyAttributes { bits: ATTR_DONT_DELETE | ATTR_DONT_ENUM },
            }),
    {
        Property::Stored {
            value: Value::Object(function),
            attributes: PropertyAttributes { bits: ATTR_DONT_DELETE | ATTR_DONT_ENUM },
        }
    }

    /// A virtual property with neither half installed yet.
    pub fn new_virtual() -> (r: Property)
        ensures
            r == (Property::Virtual { get: None, set: None }),
    {
        Property::Virtual { get: None, set: None }
    }

    /// A property backed by the slot with the given id.
    pub fn new_slot(slot_id: u32) -> (r: Property)
        ensures
            r == (Property::Slot { slot_id }),
    {
        Property::Slot { slot_id }
    }

    /// The backing slot id, for slot-backed entries.
    pub fn slot_id(&self) -> (r: Option<u32>)
        ensures
            r == match self {
                Property::Slot { slot_id } => Some(*slot_id),
                _ => None::<u32>,
            },
    {
        match self {
            Property::Slot { slot_id } => Some(*slot_id),
            _ => None,
        }
    }

    /// Whether an assignment may replace this entry. A read-only stored
    /// value refuses; a virtual entry accepts exactly when it has a setter;
    /// a slot defers to the slot cell itself.
    pub fn is_overwritable(&self) -> (r: bool)
        ensures
            r == spec_is_overwritable(*self),
    {
        match self {
            Property::Stored { attributes, .. } => attributes.bits & ATTR_READ_ONLY
                != ATTR_READ_ONLY,
            Property::Virtual { set, .. } => set.is_some(),
            Property::Slot { .. } => true,
        }
    }

    /// Whether deletion may remove this entry: only unrestricted stored
    /// properties can go.
    pub fn can_delete(&self) -> (r: bool)
        ensures
            r == spec_can_delete(*self),
    {
        match self {
            Property::Stored { attributes, .. } => attributes.bits & ATTR_DONT_DELETE
                != ATTR_DONT_DELETE,
            Property::Virtual { .. } => false,
            Property::Slot { .. } => false,
        }
    }

    /// Merges a getter into this entry, which must be virtual. Installing a
    /// getter never clobbers an already-installed setter.
    pub fn install_virtual_getter(&mut self, getter: usize) -> (r: Result<(), EngineError>)
        ensures
            match *old(self) {
                Property::Virtual { set, .. } => r == Ok::<(), EngineError>(()) && *final(self)
                    == (Property::Virtual { get: Some(getter), set }),
                _ => r == Err::<(), EngineError>(EngineError::NotVirtual) && *final(self) == *old(self),
            },
    {
        match self {
            Property::Virtual { get, .. } => {
                *get = Some(getter);
                Ok(())
            },
            _ => Err(EngineError::NotVirtual),
        }
    }

    /// Merges a setter into this entry, which must be virtual. Installing a
    /// setter never clobbers an already-installed getter.
    pub fn install_virtual_setter(&mut self, setter: usize) -> (r: Result<(), EngineError>)
        ensures
            match *old(self) {
                Property::Virtual { get, .. } => r == Ok::<(), EngineError>(()) && *final(self)
                    == (Property::Virtual { get, set: Some(setter) }),
                _ => r == Err::<(), EngineError>(EngineError::NotVirtual) && *final(self) == *old(self),
            },
    {
        match self {
            Property::Virtual { set, .. } => {
                *set = Some(setter);
                Ok(())
            },
            _ => Err(EngineError::NotVirtual),
        }
    }
}

/// Whether an assignment may replace the entry.
pub open spec fn spec_is_overwritable(p: Property) -> bool {
    match p {
        Property::Stored { attributes, .. } => attributes.bits & ATTR_READ_ONLY != ATTR_READ_ONLY,
        Property::Virtual { set, .. } => set is Some,
        Property::Slot { .. } => true,
    }
}

/// Whether deletion may remove the entry.
pub open spec fn spec_can_delete(p: Property) -> bool {
    match p {
        Property::Stored { attributes, .. } => attributes.bits & ATTR_DONT_DELETE
            != ATTR_DONT_DELETE,
        Property::Virtual { .. } => false,
        Property::Slot { .. } => false,
    }
}

/// Whether the entry carries an installed getter.
pub open spec fn spec_has_getter(p: Property) -> bool {
    match p {
        Property::Virtual { get, .. } => get is Some,
        _ => false,
    }
}

/// Whether the entry carries an installed setter.
pub open spec fn spec_has_setter(p: Property) -> bool {
    match p {
        Property::Virtual { set, .. } => set is Some,
        _ => false,
    }
}

/// One cell of an object's fixed-offset slot array.
#[derive(Debug)]
pub struct SlotCell {
    pub value: Value,
    pub is_const: bool,
}

impl Clone for SlotCell {
    /// An exact copy: the copy equals the original.
    fn clone(&self) -> (r: SlotCell)
        ensures
            r == *self,
    {
        SlotCell { value: self.value.clone(), is_const: self.is_const }
    }
}

impl SlotCell {
    /// A writable slot seeded with the given value.
    pub fn new(value: Value) -> (r: SlotCell)
        ensures
            r == (SlotCell { value, is_const: false }),
    {
        SlotCell { value, is_const: false }
    }

    /// A constant slot seeded with the given value.
    pub fn new_const(value: Value) -> (r: SlotCell)
        ensures
            r == (SlotCell { value, is_const: true }),
    {
        SlotCell { value, is_const: true }
    }

    /// An empty writable slot, holding `Undefined`.
    pub fn empty() -> (r: SlotCell)
        ensures
            r == (SlotCell { value: Value::Undefined, is_const: false }),
    {
        SlotCell { value: Value::Undefined, is_const: false }
    }
}

} // verus!
