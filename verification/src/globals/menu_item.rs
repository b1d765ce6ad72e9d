//! The context-menu-item prototype's native members.

use vstd::prelude::*;
use vstd::string::StringExecFns;

use crate::error::EngineError;
use crate::heap::{wf, Avm};
use crate::names::QName;
use crate::storage::{GetOutcome, SetOutcome};
use crate::property::Property;
use crate::value::Value;

verus! {

/// On a bare receiver — classless and prototype-less — every name's
/// chain is settled, and an assignment can only land on the receiver
/// itself.
pub proof fn lemma_bare_chain_settled(avm: Avm, o: usize, name: crate::names::QNameView)
    requires
        o < avm.objects@.len(),
        avm.objects@[o as int].data.trait_source is NoClass,
        avm.objects@[o as int].data.proto is None,
    ensures
        crate::engine::spec_chain_installed(avm, o as int, name),
        crate::engine::spec_find_setter_holder(avm, o as int, name) is None,
{
}

/// Assigns one property through the engine, treating a deferred setter
/// call as needing the host. On a settled chain whose assignment lands on
/// the receiver itself as a fresh name, the write appends one enumerable
/// dynamic property and changes nothing else.
fn set_plain(avm: &mut Avm, this: usize, name: String, value: Value) -> (r: Result<
    (),
    EngineError,
>)
    requires
        wf(*old(avm)),
        this < old(avm).objects@.len(),
    ensures
        wf(*final(avm)),
        crate::resolve::spec_writes_only(*old(avm), *final(avm)),
        ({
            let qv = crate::names::QNameView {
                ns: crate::names::NamespaceView::Public,
                name: name@,
            };
            &&& crate::engine::spec_chain_installed(*old(avm), this as int, qv)
            &&& crate::resolve::spec_set_target(*old(avm), this as int, this, qv) == this as int
            &&& !crate::storage::spec_has_prop(old(avm).objects@[this as int].data.props@, qv)
            &&& !(old(avm).objects@[this as int].kind is ByteArray)
            &&& !(old(avm).objects@[this as int].kind is Array)
        }) ==> {
            let qv = crate::names::QNameView {
                ns: crate::names::NamespaceView::Public,
                name: name@,
            };
            let pre_d = old(avm).objects@[this as int].data;
            let post_d = final(avm).objects@[this as int].data;
            &&& r == Ok::<(), EngineError>(())
            &&& crate::resolve::spec_only_obj_changed(*old(avm), *final(avm), this as int)
            &&& final(avm).objects@[this as int].kind == old(avm).objects@[this as int].kind
            &&& post_d.props@ == pre_d.props@.push(post_d.props@.last())
            &&& post_d.props@.last().name@ == qv
            &&& post_d.props@.last().prop == (Property::Stored {
                value,
                attributes: crate::property::PropertyAttributes { bits: 0 },
            })
            &&& post_d.slots == pre_d.slots
            &&& post_d.methods == pre_d.methods
            &&& post_d.proto == pre_d.proto
            &&& post_d.trait_source == pre_d.trait_source
        },
{
    let qname = QName::dynamic_name(name);
    let res = avm.set_property(this, this, &qname, value);
    match res {
        Ok(SetOutcome::Done) => Ok(()),
        Ok(SetOutcome::CallSetter { .. }) => Err(EngineError::HostCoercionRequired),
        Err(e) => Err(e),
    }
}

/// The menu item's constructor: the caption, the selection callback and
/// three flags arrive as arguments — the separator off, the item enabled
/// and visible by default — and land as properties of the receiver, which
/// is returned. On a fresh bare receiver the contract pins every written
/// property.
pub fn constructor(avm: &mut Avm, this: usize, args: &Vec<Value>) -> (r: Result<
    Value,
    EngineError,
>)
    requires
        wf(*old(avm)),
        this < old(avm).objects@.len(),
    ensures
        wf(*final(avm)),
        crate::resolve::spec_writes_only(*old(avm), *final(avm)),
        r is Ok ==> r == Ok::<Value, EngineError>(Value::Object(this)),
        (old(avm).objects@[this as int].kind is Script && old(avm).objects@[this
            as int].data.trait_source is NoClass && old(avm).objects@[this as int].data.proto
            is None && old(avm).objects@[this as int].data.props@.len() == 0
            && crate::value::spec_coerce_to_string(
            if args@.len() > 0 {
                args@[0]
            } else {
                Value::Undefined
            },
        ) is Some) ==> {
            let caption_text = crate::value::spec_coerce_to_string(
                if args@.len() > 0 {
                    args@[0]
                } else {
                    Value::Undefined
                },
            )->Some_0;
            let props = final(avm).objects@[this as int].data.props@;
            &&& r == Ok::<Value, EngineError>(Value::Object(this))
            &&& crate::resolve::spec_only_obj_changed(*old(avm), *final(avm), this as int)
            &&& match crate::storage::spec_find_prop(props, pubv("caption"@)) {
                Some(Property::Stored { value: Value::String(cs), attributes }) => cs@
                    == caption_text && attributes.bits == 0,
                _ => false,
            }
            &&& match (if args@.len() > 1 {
                args@[1]
            } else {
                Value::Undefined
            }) {
                Value::Object(cb) => crate::storage::spec_find_prop(props, pubv("onSelect"@))
                    == Some(
                    Property::Stored {
                        value: Value::Object(cb),
                        attributes: crate::property::PropertyAttributes { bits: 0 },
                    },
                ),
                _ => crate::storage::spec_find_prop(props, pubv("onSelect"@)) is None,
            }
            &&& crate::storage::spec_find_prop(props, pubv("separatorBefore"@)) == Some(
                Property::Stored {
                    value: Value::Bool(
                        if args@.len() > 2 {
                            crate::value::spec_truthy(args@[2])
                        } else {
                            false
                        },
                    ),
                    attributes: crate::property::PropertyAttributes { bits: 0 },
                },
            )
            &&& crate::storage::spec_find_prop(props, pubv("enabled"@)) == Some(
                Property::Stored {
                    value: Value::Bool(
                        if args@.len() > 3 {
                            crate::value::spec_truthy(args@[3])
                        } else {
                            true
                        },
                    ),
                    attributes: crate::property::PropertyAttributes { bits: 0 },
                },
            )
            &&& crate::storage::spec_find_prop(props, pubv("visible"@)) == Some(
                Property::Stored {
                    value: Value::Bool(
                        if args@.len() > 4 {
                            crate::value::spec_truthy(args@[4])
                        } else {
                            true
                        },
                    ),
                    attributes: crate::property::PropertyAttributes { bits: 0 },
                },
            )
        },
{
    let caption_arg = if args.len() > 0 {
        args[0].clone()
    } else {
        Value::Undefined
    };
    let caption = match caption_arg.coerce_to_string() {
        Ok(s) => s,
        Err(e) => {
            return Err(e);
        },
    };
    let callback = if args.len() > 1 {
        match &args[1] {
            Value::Object(o) => Some(*o),
            _ => None,
        }
    } else {
        None
    };
    let separator_before = if args.len() > 2 {
        args[2].coerce_to_boolean()
    } else {
        false
    };
    let enabled = if args.len() > 3 {
        args[3].coerce_to_boolean()
    } else {
        true
    };
    let visible = if args.len() > 4 {
        args[4].coerce_to_boolean()
    } else {
        true
    };
    let ghost pre = *avm;
    let ghost bare = pre.objects@[this as int].kind is Script && pre.objects@[this
        as int].data.trait_source is NoClass && pre.objects@[this as int].data.proto is None
        && pre.objects@[this as int].data.props@.len() == 0;
    proof {
        reveal_strlit("caption");
        reveal_strlit("onSelect");
        reveal_strlit("separatorBefore");
        reveal_strlit("enabled");
        reveal_strlit("visible");
        assert("caption"@ != "enabled"@) by {
            assert("caption"@[0] == 'c' && "enabled"@[0] == 'e');
        }
        assert("caption"@ != "visible"@) by {
            assert("caption"@[0] == 'c' && "visible"@[0] == 'v');
        }
        assert("enabled"@ != "visible"@) by {
            assert("enabled"@[0] == 'e' && "visible"@[0] == 'v');
        }
        assert("caption"@ != "onSelect"@ && "caption"@ != "separatorBefore"@) by {
            assert("caption"@.len() == 7 && "onSelect"@.len() == 8 && "separatorBefore"@.len()
                == 15);
        }
        assert("onSelect"@ != "separatorBefore"@ && "onSelect"@ != "enabled"@ && "onSelect"@
            != "visible"@) by {
            assert("onSelect"@.len() == 8 && "separatorBefore"@.len() == 15
                && "enabled"@.len() == 7 && "visible"@.len() == 7);
        }
        assert("separatorBefore"@ != "enabled"@ && "separatorBefore"@ != "visible"@) by {
            assert("separatorBefore"@.len() == 15 && "enabled"@.len() == 7
                && "visible"@.len() == 7);
        }
        if bare {
            lemma_bare_chain_settled(pre, this, pubv("caption"@));
        }
    }
    match set_plain(avm, this, String::from_str("caption"), Value::String(caption)) {
        Ok(()) => {},
        Err(e) => {
            return Err(e);
        },
    }
    let ghost s1 = *avm;
    proof {
        if bare {
            bare_step(pre, s1, this, pubv("onSelect"@));
            bare_step(pre, s1, this, pubv("separatorBefore"@));
            bare_step(pre, s1, this, pubv("enabled"@));
            bare_step(pre, s1, this, pubv("visible"@));
            lemma_bare_chain_settled(s1, this, pubv("onSelect"@));
        }
    }
    match callback {
        Some(cb) => {
            let res = set_plain(avm, this, String::from_str("onSelect"), Value::Object(cb));
            proof {
                lemma_writes_only_trans(pre, s1, *avm);
            }
            match res {
                Ok(()) => {},
                Err(e) => {
                    return Err(e);
                },
            }
        },
        None => {},
    }
    let ghost s2 = *avm;
    proof {
        if bare {
            if callback is Some {
                bare_step(s1, s2, this, pubv("separatorBefore"@));
                bare_step(s1, s2, this, pubv("enabled"@));
                bare_step(s1, s2, this, pubv("visible"@));
            }
            lemma_bare_chain_settled(s2, this, pubv("separatorBefore"@));
        }
    }
    let res = set_plain(
        avm,
        this,
        String::from_str("separatorBefore"),
        Value::Bool(separator_before),
    );
    proof {
        lemma_writes_only_trans(pre, s2, *avm);
    }
    match res {
        Ok(()) => {},
        Err(e) => {
            return Err(e);
        },
    }
    let ghost s3 = *avm;
    proof {
        if bare {
            bare_step(s2, s3, this, pubv("enabled"@));
            bare_step(s2, s3, this, pubv("visible"@));
            lemma_bare_chain_settled(s3, this, pubv("enabled"@));
        }
    }
    let res2 = set_plain(avm, this, String::from_str("enabled"), Value::Bool(enabled));
    proof {
        lemma_writes_only_trans(pre, s3, *avm);
    }
    match res2 {
        Ok(()) => {},
        Err(e) => {
            return Err(e);
        },
    }
    let ghost s4 = *avm;
    proof {
        if bare {
            bare_step(s3, s4, this, pubv("visible"@));
            lemma_bare_chain_settled(s4, this, pubv("visible"@));
        }
    }
    let res3 = set_plain(avm, this, String::from_str("visible"), Value::Bool(visible));
    proof {
        lemma_writes_only_trans(pre, s4, *avm);
    }
    match res3 {
        Ok(()) => {},
        Err(e) => {
            return Err(e);
        },
    }
    proof {
        if bare {
            let p1 = s1.objects@[this as int].data.props@;
            let p2 = s2.objects@[this as int].data.props@;
            let p3 = s3.objects@[this as int].data.props@;
            let p4 = s4.objects@[this as int].data.props@;
            let p5 = avm.objects@[this as int].data.props@;
            // Each later write keeps the earlier bindings: scan past the
            // pushed entries one by one.
            crate::storage::lemma_find_prop_push(p1, p2.last(), pubv("caption"@));
            crate::storage::lemma_find_prop_push(p2, p3.last(), pubv("caption"@));
            crate::storage::lemma_find_prop_push(p3, p4.last(), pubv("caption"@));
            crate::storage::lemma_find_prop_push(p4, p5.last(), pubv("caption"@));
            crate::storage::lemma_find_prop_push(
                pre.objects@[this as int].data.props@,
                p1.last(),
                pubv("caption"@),
            );
            crate::storage::lemma_find_prop_push(p2, p3.last(), pubv("onSelect"@));
            crate::storage::lemma_find_prop_push(p3, p4.last(), pubv("onSelect"@));
            crate::storage::lemma_find_prop_push(p4, p5.last(), pubv("onSelect"@));
            if callback is Some {
                crate::storage::lemma_find_prop_push(p1, p2.last(), pubv("onSelect"@));
            } else {
                assert(s2 == s1);
                assert(!crate::storage::spec_has_prop(p2, pubv("onSelect"@)));
                assert(p3.last().name@ == pubv("separatorBefore"@));
                assert(pubv("separatorBefore"@) != pubv("onSelect"@)) by {
                    assert("separatorBefore"@.len() != "onSelect"@.len());
                }
                assert(!crate::storage::spec_has_prop(p3, pubv("onSelect"@)));
                assert(!crate::storage::spec_has_prop(p4, pubv("onSelect"@)));
                assert(!crate::storage::spec_has_prop(p5, pubv("onSelect"@)));
            }
            crate::storage::lemma_find_prop_push(p3, p4.last(), pubv("separatorBefore"@));
            crate::storage::lemma_find_prop_push(p4, p5.last(), pubv("separatorBefore"@));
            crate::storage::lemma_find_prop_push(p2, p3.last(), pubv("separatorBefore"@));
            crate::storage::lemma_find_prop_push(p4, p5.last(), pubv("enabled"@));
            crate::storage::lemma_find_prop_push(p3, p4.last(), pubv("enabled"@));
            crate::storage::lemma_find_prop_push(p4, p5.last(), pubv("visible"@));
        }
    }
    Ok(Value::Object(this))
}

/// The public-namespace view of a local name.
pub open spec fn pubv(name: Seq<char>) -> crate::names::QNameView {
    crate::names::QNameView { ns: crate::names::NamespaceView::Public, name }
}

/// One bare-receiver write step keeps every other fresh name unbound.
proof fn bare_step(pre: Avm, post: Avm, o: usize, other: crate::names::QNameView)
    requires
        o < pre.objects@.len(),
        o < post.objects@.len(),
        !crate::storage::spec_has_prop(pre.objects@[o as int].data.props@, other),
        post.objects@[o as int].data.props@ == pre.objects@[o as int].data.props@.push(
            post.objects@[o as int].data.props@.last(),
        ),
        post.objects@[o as int].data.props@.last().name@ != other,
    ensures
        !crate::storage::spec_has_prop(post.objects@[o as int].data.props@, other),
{
    crate::storage::lemma_find_prop_push(
        pre.objects@[o as int].data.props@,
        post.objects@[o as int].data.props@.last(),
        other,
    );
}

/// Reads one property through the engine, treating a deferred getter
/// call as needing the host.
fn get_plain(avm: &mut Avm, this: usize, name: String) -> (r: Result<Value, EngineError>)
    requires
        wf(*old(avm)),
        this < old(avm).objects@.len(),
    ensures
        wf(*final(avm)),
        crate::resolve::spec_installs_only(*old(avm), *final(avm)),
{
    let qname = QName::dynamic_name(name);
    let res = avm.get_property(this, this, &qname);
    match res {
        Ok(GetOutcome::Value(v)) => Ok(v),
        Ok(GetOutcome::CallGetter { .. }) => Err(EngineError::HostCoercionRequired),
        Err(e) => Err(e),
    }
}

/// `copy`: reads the receiver's caption, callback and flags and builds a
/// fresh menu item — below the receiver's own prototype — carrying the
/// same state, by running the constructor on it. The separator flag is
/// read under the snake_case key `separator_before`, not the camel-case
/// key the constructor writes: a historical quirk of this member, kept as
/// it is, so a copied item always reads that flag as absent.
pub fn copy(avm: &mut Avm, this: usize, args: &Vec<Value>) -> (r: Result<Value, EngineError>)
    requires
        wf(*old(avm)),
        this < old(avm).objects@.len(),
    ensures
        wf(*final(avm)),
        crate::resolve::spec_writes_only(*old(avm), *final(avm)),
        match r {
            Ok(Value::Object(f)) => old(avm).objects@.len() <= f < final(avm).objects@.len()
                && f != this,
            Ok(_) => false,
            Err(_) => true,
        },
{
    let ghost pre = *avm;
    let caption = match get_plain(avm, this, String::from_str("caption")) {
        Ok(v) => v,
        Err(e) => {
            return Err(e);
        },
    };
    let ghost m1 = *avm;
    let callback = match get_plain(avm, this, String::from_str("onSelect")) {
        Ok(v) => v,
        Err(e) => {
            return Err(e);
        },
    };
    proof {
        crate::resolve::lemma_installs_only_trans(pre, m1, *avm);
    }
    let ghost m2 = *avm;
    let enabled = match get_plain(avm, this, String::from_str("enabled")) {
        Ok(v) => v,
        Err(e) => {
            return Err(e);
        },
    };
    proof {
        crate::resolve::lemma_installs_only_trans(pre, m2, *avm);
    }
    let ghost m3 = *avm;
    // The historical member reads the snake_case key here, although the
    // constructor writes `separatorBefore`.
    let separator_before = match get_plain(avm, this, String::from_str("separator_before")) {
        Ok(v) => v,
        Err(e) => {
            return Err(e);
        },
    };
    proof {
        crate::resolve::lemma_installs_only_trans(pre, m3, *avm);
    }
    let ghost m4 = *avm;
    let visible = match get_plain(avm, this, String::from_str("visible")) {
        Ok(v) => v,
        Err(e) => {
            return Err(e);
        },
    };
    proof {
        crate::resolve::lemma_installs_only_trans(pre, m4, *avm);
    }
    proof {
        assert(crate::heap::wf_obj(
            avm.objects@[this as int],
            this as int,
            avm.objects@.len() as int,
            avm.classes@.len() as int,
            avm.scopes@.len() as int,
        ));
    }
    let fresh = match avm.proto_of(this) {
        Some(p) => avm.object(p),
        None => avm.bare_object(),
    };
    let mut ctor_args: Vec<Value> = Vec::new();
    ctor_args.push(caption);
    ctor_args.push(callback);
    ctor_args.push(separator_before);
    ctor_args.push(enabled);
    ctor_args.push(visible);
    let ghost m5 = *avm;
    let out = constructor(avm, fresh, &ctor_args);
    proof {
        lemma_writes_only_trans2(pre, m5, *avm);
    }
    out
}

/// Write-only heap relations compose.
pub proof fn lemma_writes_only_trans(a: Avm, b: Avm, c: Avm)
    requires
        crate::resolve::spec_writes_only(a, b),
        crate::resolve::spec_writes_only(b, c),
    ensures
        crate::resolve::spec_writes_only(a, c),
{
    assert forall|j: int| 0 <= j < a.objects@.len() implies {
        &&& (#[trigger] c.objects@[j]).data.proto == a.objects@[j].data.proto
        &&& c.objects@[j].data.trait_source == a.objects@[j].data.trait_source
        &&& c.objects@[j].data.interfaces == a.objects@[j].data.interfaces
    } by {
        assert(b.objects@[j].data.proto == a.objects@[j].data.proto);
    }
}

/// Installs followed by writes are writes.
pub proof fn lemma_writes_only_trans2(a: Avm, b: Avm, c: Avm)
    requires
        crate::resolve::spec_installs_only(a, b),
        crate::resolve::spec_writes_only(b, c),
    ensures
        crate::resolve::spec_writes_only(a, c),
{
    assert forall|j: int| 0 <= j < a.objects@.len() implies {
        &&& (#[trigger] c.objects@[j]).data.proto == a.objects@[j].data.proto
        &&& c.objects@[j].data.trait_source == a.objects@[j].data.trait_source
        &&& c.objects@[j].data.interfaces == a.objects@[j].data.interfaces
    } by {
        assert(b.objects@[j].data.proto == a.objects@[j].data.proto);
    }
}


/// The opaque handle this module assigns to the `copy` member.
pub const METHOD_COPY: u32 = 100;

/// Builds the menu-item prototype: a plain object below the given
/// prototype, carrying the `copy` member.
pub fn create_proto(avm: &mut Avm, proto: usize, fn_proto: usize) -> (r: usize)
    requires
        wf(*old(avm)),
        proto < old(avm).objects@.len(),
        fn_proto < old(avm).objects@.len(),
    ensures
        wf(*final(avm)),
        r < final(avm).objects@.len(),
{
    let object = avm.object(proto);
    let f = avm.alloc_object(
        crate::heap::ObjKind::Function { method: METHOD_COPY, scope: None, receiver: None },
        Some(fn_proto),
        crate::storage::TraitSource::NoClass,
    );
    avm.install_method(
        object,
        QName::dynamic_name(String::from_str("copy")),
        0,
        f,
    );
    object
}

} // verus!
