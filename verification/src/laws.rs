//! The engine's load-bearing laws, stated over the spec functions that the
//! operations' own contracts use and proved once and for all.

use vstd::prelude::*;

use crate::engine::{spec_chain_get, spec_find_setter_holder, spec_has_own, spec_own_setter};
use crate::error::EngineError;
use crate::heap::{wf, Avm};
use crate::names::{QName, QNameView};
use crate::property::{Property, PropertyAttributes};
use crate::resolve::{spec_node_installed, spec_obj_set_local_rel, spec_only_obj_changed};
use crate::storage::{
    lemma_find_prop_properties, lemma_props_insert_effect, spec_find_prop, spec_get_local_fn,
    spec_has_prop, spec_install_slot_like, spec_opt_or, spec_props_insert, spec_set_local,
    GetOutcome, ObjData, SetOutcome,
};
use crate::value::Value;

verus! {

/// Law — idempotent trait installation, first half: once a member is bound
/// under its name, the object is settled for that name, so the
/// installation pass (whose contract says a settled object is left exactly
/// as it is) does nothing the second time.
pub proof fn law_bound_name_is_settled(avm: Avm, o: int, name: QNameView)
    requires
        0 <= o < avm.objects@.len(),
        spec_has_prop(avm.objects@[o].data.props@, name),
    ensures
        spec_node_installed(avm, o, name),
{
}

/// Law — idempotent trait installation, second half: installing a slot or
/// const trait binds the trait's name, so the object is settled for it
/// afterwards and no second installation attempt occurs.
pub proof fn law_slot_install_settles(
    pre: Avm,
    post: Avm,
    o: int,
    name: QName,
    id: u32,
    dv: Value,
    is_const: bool,
)
    requires
        0 <= o < pre.objects@.len(),
        spec_only_obj_changed(pre, post, o),
        spec_install_slot_like(
            pre.objects@[o].data,
            post.objects@[o].data,
            name,
            id,
            dv,
            is_const,
        ),
    ensures
        spec_node_installed(post, o, name@),
{
    if id == 0 {
        lemma_props_insert_effect(
            pre.objects@[o].data.props@,
            post.objects@[o].data.props@,
            name,
            Property::Stored {
                value: dv,
                attributes: PropertyAttributes {
                    bits: if is_const {
                        crate::property::ATTR_READ_ONLY | crate::property::ATTR_DONT_DELETE
                    } else {
                        crate::property::ATTR_DONT_DELETE
                    },
                },
            },
        );
    } else {
        lemma_props_insert_effect(
            pre.objects@[o].data.props@,
            post.objects@[o].data.props@,
            name,
            Property::Slot { slot_id: id },
        );
    }
}

/// Law — installing a member property (a method, or either accessor half)
/// binds the trait's name, settling the object for it.
pub proof fn law_member_install_settles(
    pre: Avm,
    post: Avm,
    o: int,
    name: QName,
    prop: Property,
)
    requires
        0 <= o < pre.objects@.len(),
        o < post.objects@.len(),
        spec_props_insert(
            pre.objects@[o].data.props@,
            post.objects@[o].data.props@,
            name,
            prop,
        ),
    ensures
        spec_node_installed(post, o, name@),
{
    lemma_props_insert_effect(pre.objects@[o].data.props@, post.objects@[o].data.props@, name, prop);
}

/// Law — shadowing on write: take an object with no own binding for a
/// name, no virtual setter for it anywhere on its prototype chain, and
/// nothing left to install for it. Assigning through that object — the
/// state relation below is exactly what the chained assignment guarantees
/// then — creates a fresh own property holding the value on the object
/// itself, leaves every other object (any data-providing ancestor
/// included) untouched, and the next chained read of the name on the
/// object returns the assigned value.
pub proof fn law_shadowing_on_write(
    pre: Avm,
    post: Avm,
    o: usize,
    name: QName,
    value: Value,
    r: Result<SetOutcome, EngineError>,
)
    requires
        wf(pre),
        o < pre.objects@.len(),
        pre.objects@[o as int].kind is Script,
        !spec_has_own(pre, o as int, name@),
        !spec_own_setter(pre, o as int, name@),
        spec_find_setter_holder(pre, o as int, name@) is None,
        spec_only_obj_changed(pre, post, o as int),
        spec_obj_set_local_rel(
            pre.objects@[o as int],
            post.objects@[o as int],
            o,
            None,
            name,
            value,
            pre.strict,
            r,
        ),
    ensures
        r == Ok::<SetOutcome, EngineError>(SetOutcome::Done),
        forall|j: int|
            0 <= j < pre.objects@.len() && j != o as int ==> #[trigger] post.objects@[j]
                == pre.objects@[j],
        spec_has_prop(post.objects@[o as int].data.props@, name@),
        spec_chain_get(post, o as int, o, name@) == Ok::<GetOutcome, EngineError>(
            GetOutcome::Value(value),
        ),
{
    let pre_d = pre.objects@[o as int].data;
    let post_d = post.objects@[o as int].data;
    assert(!spec_has_prop(pre_d.props@, name@));
    assert(spec_find_prop(pre_d.props@, name@) is None);
    let entry = crate::storage::PropEntry {
        name,
        prop: Property::Stored { value, attributes: PropertyAttributes { bits: 0 } },
    };
    crate::storage::lemma_find_prop_push(pre_d.props@, entry, name@);
    assert(spec_find_prop(post_d.props@, name@) == Some(entry.prop));
    assert(spec_has_own(post, o as int, name@));
    assert(!spec_own_setter(post, o as int, name@));
    assert(spec_chain_get(post, o as int, o, name@) == spec_get_local_fn(
        post_d,
        o,
        None,
        name@,
    ));
}

/// Law — an accessor write delegates and never shadows: take an object
/// with no own binding for a name whose first setter-owning ancestor is
/// `p`, holding a virtual entry with setter `s`. The chained assignment
/// then resolves to the instruction to call `s` — with the *original*
/// object as receiver, so the setter's `this` is the object the write was
/// addressed to — and the heap is left exactly as it was: in particular
/// the object still has no own binding for the name afterwards.
pub proof fn law_accessor_write_delegates(
    pre: Avm,
    post: Avm,
    o: usize,
    p: int,
    g: Option<usize>,
    s: usize,
    name: QName,
    value: Value,
    r: Result<SetOutcome, EngineError>,
)
    requires
        wf(pre),
        o < pre.objects@.len(),
        0 <= p < pre.objects@.len(),
        !spec_has_prop(pre.objects@[o as int].data.props@, name@),
        !spec_own_setter(pre, o as int, name@),
        spec_find_setter_holder(pre, o as int, name@) == Some(p),
        pre.objects@[p].kind is Script,
        spec_find_prop(pre.objects@[p].data.props@, name@) == Some(
            Property::Virtual { get: g, set: Some(s) },
        ),
        spec_only_obj_changed(pre, post, p),
        spec_obj_set_local_rel(
            pre.objects@[p],
            post.objects@[p],
            o,
            None,
            name,
            value,
            pre.strict,
            r,
        ),
    ensures
        r == Ok::<SetOutcome, EngineError>(
            SetOutcome::CallSetter {
                setter: s,
                receiver: o,
                base_proto: spec_opt_or(None, pre.objects@[p].data.proto),
                value,
            },
        ),
        post.objects@.len() == pre.objects@.len(),
        forall|j: int|
            0 <= j < pre.objects@.len() ==> #[trigger] post.objects@[j] == pre.objects@[j],
        !spec_has_prop(post.objects@[o as int].data.props@, name@),
{
    assert(post.objects@[p] == pre.objects@[p]);
    assert forall|j: int| 0 <= j < pre.objects@.len() implies #[trigger] post.objects@[j]
        == pre.objects@[j] by {
        if j != p {
        }
    }
    assert(post.objects@[o as int] == pre.objects@[o as int]);
}

/// Law — the enumeration order is sound: on well-formed storage it lists,
/// without repetition, only names the object actually binds; together
/// with the exact contract of the enumerant accessor — the name at
/// one-based position `i` for `i` up to the count, absence beyond — the
/// sequential enumeration walks exactly the enumerable names in insertion
/// order, with no gaps.
pub proof fn law_enumeration_order(d: ObjData)
    requires
        crate::storage::wf_data(d),
    ensures
        forall|a: int, b: int|
            0 <= a < b < d.enumerants@.len() ==> (#[trigger] d.enumerants@[a])@ != (
            #[trigger] d.enumerants@[b])@,
        forall|k: int|
            0 <= k < d.enumerants@.len() ==> spec_has_prop(
                d.props@,
                (#[trigger] d.enumerants@[k])@,
            ),
{
}

/// Law — namespace isolation: two properties with the same local name but
/// different namespaces are independent. An assignment addressed to the
/// name under one namespace leaves the binding under every other
/// namespace exactly as it was.
pub proof fn law_namespace_isolation(
    pre: ObjData,
    post: ObjData,
    receiver: usize,
    q1: QName,
    q2: QNameView,
    value: Value,
    strict: bool,
    r: Result<SetOutcome, EngineError>,
)
    requires
        crate::storage::wf_data(pre),
        q1@ != q2,
        spec_set_local(pre, post, receiver, None, q1, value, strict, r),
    ensures
        spec_find_prop(post.props@, q2) == spec_find_prop(pre.props@, q2),
{
    lemma_find_prop_properties(pre.props@, q1@);
    match spec_find_prop(pre.props@, q1@) {
        None => {
            let entry = crate::storage::PropEntry {
                name: q1,
                prop: Property::Stored { value, attributes: PropertyAttributes { bits: 0 } },
            };
            crate::storage::lemma_find_prop_push(pre.props@, entry, q2);
        },
        Some(Property::Slot { .. }) => {
        },
        Some(Property::Stored { value: _, attributes }) => {
            if attributes.bits & crate::property::ATTR_READ_ONLY
                != crate::property::ATTR_READ_ONLY {
                let i = crate::storage::spec_find_index(pre.props@, q1@);
                let entry = crate::storage::PropEntry {
                    name: pre.props@[i].name,
                    prop: Property::Stored { value, attributes },
                };
                crate::storage::lemma_find_prop_update(pre.props@, i, entry, q2);
            }
        },
        Some(Property::Virtual { .. }) => {
        },
    }
}

/// Law — round-trip slot access. Installing a slot trait with a real slot
/// id and default value `dv` makes the name read as `dv`, both through
/// the name and through the slot index. Assigning `v` through the name
/// then writes the very slot cell, so the name-based view and the
/// index-based view stay consistent: both read `v` afterwards.
pub proof fn law_slot_round_trip(
    d0: ObjData,
    d1: ObjData,
    d2: ObjData,
    receiver: usize,
    name: QName,
    id: u32,
    dv: Value,
    v: Value,
    strict: bool,
    r: Result<SetOutcome, EngineError>,
)
    requires
        crate::storage::wf_data(d0),
        id != 0,
        spec_install_slot_like(d0, d1, name, id, dv, false),
        spec_set_local(d1, d2, receiver, None, name, v, strict, r),
    ensures
        spec_get_local_fn(d1, receiver, None, name@) == Ok::<GetOutcome, EngineError>(
            GetOutcome::Value(dv),
        ),
        id < d1.slots@.len() && d1.slots@[id as int].value == dv,
        r == Ok::<SetOutcome, EngineError>(SetOutcome::Done),
        spec_get_local_fn(d2, receiver, None, name@) == Ok::<GetOutcome, EngineError>(
            GetOutcome::Value(v),
        ),
        id < d2.slots@.len() && d2.slots@[id as int].value == v,
{
    lemma_props_insert_effect(d0.props@, d1.props@, name, Property::Slot { slot_id: id });
    assert(spec_find_prop(d1.props@, name@) == Some(Property::Slot { slot_id: id }));
    assert(d1.slots@[id as int] == crate::property::SlotCell { value: dv, is_const: false });
    assert(d2.props == d1.props);
    assert(d2.slots@[id as int] == crate::property::SlotCell { value: v, is_const: false });
}

} // verus!
