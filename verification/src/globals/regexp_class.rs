//! The regular-expression class's native members.
//!
//! The pattern engine itself is an external collaborator: the host runs
//! the pattern against text and hands the match result back, and the
//! members here consume it — building the result array, maintaining the
//! flags and the cursor.

use vstd::prelude::*;
use vstd::string::StringExecFns;

use crate::error::EngineError;
use crate::heap::{wf, Avm, ObjKind};
use crate::names::QName;
use crate::regexp::{RegExpData, RegExpMatch};
use crate::storage::{SetOutcome, TraitSource};
use crate::value::{spec_coerce_to_string, Value};

verus! {

/// The characters of a string, in order.
fn string_chars(s: &String) -> (r: Vec<char>)
    ensures
        r@ == s@,
{
    let st = s.as_str();
    let len = st.unicode_len();
    let mut r: Vec<char> = Vec::new();
    let mut i: usize = 0;
    proof {
        assert(r@ =~= s@.subrange(0, 0));
    }
    while i < len
        invariant
            st@ == s@,
            len == s@.len(),
            i <= len,
            r@ == s@.subrange(0, i as int),
        decreases len - i,
    {
        r.push(st.get_char(i));
        proof {
            assert(r@ =~= s@.subrange(0, i + 1));
        }
        i += 1;
    }
    proof {
        assert(r@ =~= s@);
    }
    r
}

/// The expression's instance initializer: the source pattern and the flag
/// string arrive as the first two arguments.
pub fn instance_init(avm: &mut Avm, this: Option<usize>, args: &Vec<Value>) -> (r: Result<
    Value,
    EngineError,
>)
    requires
        wf(*old(avm)),
        this matches Some(t) ==> t < old(avm).objects@.len(),
    ensures
        wf(*final(avm)),
        this is None ==> r == Ok::<Value, EngineError>(Value::Undefined) && *final(avm) == *old(
            avm,
        ),
        (this matches Some(t) && !(old(avm).objects@[t as int].kind is RegExp)) ==> r == Ok::<
            Value,
            EngineError,
        >(Value::Undefined) && *final(avm) == *old(avm),
        (this matches Some(t) && old(avm).objects@[t as int].kind is RegExp && (args@.len()
            > 0 ==> spec_coerce_to_string(args@[0]) is Some) && (args@.len() > 1
            ==> spec_coerce_to_string(args@[1]) is Some)) ==> {
            let t = this->Some_0;
            let src = if args@.len() > 0 {
                spec_coerce_to_string(args@[0])->Some_0
            } else {
                Seq::<char>::empty()
            };
            let flags = if args@.len() > 1 {
                spec_coerce_to_string(args@[1])->Some_0
            } else {
                Seq::<char>::empty()
            };
            &&& r == Ok::<Value, EngineError>(Value::Undefined)
            &&& crate::resolve::spec_only_obj_changed(*old(avm), *final(avm), t as int)
            &&& final(avm).objects@[t as int].data == old(avm).objects@[t as int].data
            &&& match (old(avm).objects@[t as int].kind, final(avm).objects@[t as int].kind) {
                (ObjKind::RegExp(pre_re), ObjKind::RegExp(re)) => {
                    &&& re.source@ == src
                    &&& re.dotall == (pre_re.dotall || flags.contains('s'))
                    &&& re.extended == (pre_re.extended || flags.contains('x'))
                    &&& re.global == (pre_re.global || flags.contains('g'))
                    &&& re.ignore_case == (pre_re.ignore_case || flags.contains('i'))
                    &&& re.multiline == (pre_re.multiline || flags.contains('m'))
                    &&& re.last_index == pre_re.last_index
                },
                _ => false,
            }
        },
{
    let t = match this {
        Some(t) => t,
        None => {
            return Ok(Value::Undefined);
        },
    };
    let is_re = matches!(&avm.objects[t].kind, ObjKind::RegExp(_));
    if !is_re {
        return Ok(Value::Undefined);
    }
    let src_arg = if args.len() > 0 {
        args[0].clone()
    } else {
        Value::String(String::new())
    };
    let source = match src_arg.coerce_to_string() {
        Ok(s) => s,
        Err(e) => {
            return Err(e);
        },
    };
    let flags_arg = if args.len() > 1 {
        args[1].clone()
    } else {
        Value::String(String::new())
    };
    let flags = match flags_arg.coerce_to_string() {
        Ok(s) => s,
        Err(e) => {
            return Err(e);
        },
    };
    let flag_chars = string_chars(&flags);
    proof {
        assert(crate::heap::wf_obj(
            avm.objects@[t as int],
            t as int,
            avm.objects@.len() as int,
            avm.classes@.len() as int,
            avm.scopes@.len() as int,
        ));
    }
    match &mut avm.objects[t].kind {
        ObjKind::RegExp(re) => {
            re.source = source;
            re.apply_flags(&flag_chars);
            Ok(Value::Undefined)
        },
        _ => Err(EngineError::BadObjectRef),
    }
}

/// The expression class's class initializer: nothing to set up.
pub fn class_init(avm: &mut Avm, this: Option<usize>, args: &Vec<Value>) -> (r: Result<
    Value,
    EngineError,
>)
    ensures
        *final(avm) == *old(avm),
        r == Ok::<Value, EngineError>(Value::Undefined),
{
    Ok(Value::Undefined)
}

/// The `dotall` flag getter.
pub fn dotall(avm: &Avm, this: Option<usize>, args: &Vec<Value>) -> (r: Result<
    Value,
    EngineError,
>)
    requires
        this matches Some(t) ==> t < avm.objects@.len(),
    ensures
        r == match this {
            Some(t) => match avm.objects@[t as int].kind {
                ObjKind::RegExp(re) => Ok::<Value, EngineError>(Value::Bool(re.dotall)),
                _ => Ok::<Value, EngineError>(Value::Undefined),
            },
            None => Ok::<Value, EngineError>(Value::Undefined),
        },
{
    match this {
        Some(t) => match &avm.objects[t].kind {
            ObjKind::RegExp(re) => Ok(Value::Bool(re.dotall)),
            _ => Ok(Value::Undefined),
        },
        None => Ok(Value::Undefined),
    }
}

/// The `extended` flag getter.
pub fn extended(avm: &Avm, this: Option<usize>, args: &Vec<Value>) -> (r: Result<
    Value,
    EngineError,
>)
    requires
        this matches Some(t) ==> t < avm.objects@.len(),
    ensures
        r == match this {
            Some(t) => match avm.objects@[t as int].kind {
                ObjKind::RegExp(re) => Ok::<Value, EngineError>(Value::Bool(re.extended)),
                _ => Ok::<Value, EngineError>(Value::Undefined),
            },
            None => Ok::<Value, EngineError>(Value::Undefined),
        },
{
    match this {
        Some(t) => match &avm.objects[t].kind {
            ObjKind::RegExp(re) => Ok(Value::Bool(re.extended)),
            _ => Ok(Value::Undefined),
        },
        None => Ok(Value::Undefined),
    }
}

/// The `global` flag getter.
pub fn global(avm: &Avm, this: Option<usize>, args: &Vec<Value>) -> (r: Result<
    Value,
    EngineError,
>)
    requires
        this matches Some(t) ==> t < avm.objects@.len(),
    ensures
        r == match this {
            Some(t) => match avm.objects@[t as int].kind {
                ObjKind::RegExp(re) => Ok::<Value, EngineError>(Value::Bool(re.global)),
                _ => Ok::<Value, EngineError>(Value::Undefined),
            },
            None => Ok::<Value, EngineError>(Value::Undefined),
        },
{
    match this {
        Some(t) => match &avm.objects[t].kind {
            ObjKind::RegExp(re) => Ok(Value::Bool(re.global)),
            _ => Ok(Value::Undefined),
        },
        None => Ok(Value::Undefined),
    }
}

/// The `ignoreCase` flag getter.
pub fn ignore_case(avm: &Avm, this: Option<usize>, args: &Vec<Value>) -> (r: Result<
    Value,
    EngineError,
>)
    requires
        this matches Some(t) ==> t < avm.objects@.len(),
    ensures
        r == match this {
            Some(t) => match avm.objects@[t as int].kind {
                ObjKind::RegExp(re) => Ok::<Value, EngineError>(Value::Bool(re.ignore_case)),
                _ => Ok::<Value, EngineError>(Value::Undefined),
            },
            None => Ok::<Value, EngineError>(Value::Undefined),
        },
{
    match this {
        Some(t) => match &avm.objects[t].kind {
            ObjKind::RegExp(re) => Ok(Value::Bool(re.ignore_case)),
            _ => Ok(Value::Undefined),
        },
        None => Ok(Value::Undefined),
    }
}

/// The `multiline` flag getter.
pub fn multiline(avm: &Avm, this: Option<usize>, args: &Vec<Value>) -> (r: Result<
    Value,
    EngineError,
>)
    requires
        this matches Some(t) ==> t < avm.objects@.len(),
    ensures
        r == match this {
            Some(t) => match avm.objects@[t as int].kind {
                ObjKind::RegExp(re) => Ok::<Value, EngineError>(Value::Bool(re.multiline)),
                _ => Ok::<Value, EngineError>(Value::Undefined),
            },
            None => Ok::<Value, EngineError>(Value::Undefined),
        },
{
    match this {
        Some(t) => match &avm.objects[t].kind {
            ObjKind::RegExp(re) => Ok(Value::Bool(re.multiline)),
            _ => Ok(Value::Undefined),
        },
        None => Ok(Value::Undefined),
    }
}

/// The `lastIndex` getter: the cursor a global match resumes from.
pub fn last_index(avm: &Avm, this: Option<usize>, args: &Vec<Value>) -> (r: Result<
    Value,
    EngineError,
>)
    requires
        this matches Some(t) ==> t < avm.objects@.len(),
    ensures
        r == match this {
            Some(t) => match avm.objects@[t as int].kind {
                ObjKind::RegExp(re) => Ok::<Value, EngineError>(
                    Value::Unsigned(re.last_index as u32),
                ),
                _ => Ok::<Value, EngineError>(Value::Undefined),
            },
            None => Ok::<Value, EngineError>(Value::Undefined),
        },
{
    match this {
        Some(t) => match &avm.objects[t].kind {
            ObjKind::RegExp(re) => Ok(Value::Unsigned(re.last_index as u32)),
            _ => Ok(Value::Undefined),
        },
        None => Ok(Value::Undefined),
    }
}

/// The `lastIndex` setter.
pub fn set_last_index(avm: &mut Avm, this: Option<usize>, args: &Vec<Value>) -> (r: Result<
    Value,
    EngineError,
>)
    requires
        wf(*old(avm)),
        this matches Some(t) ==> t < old(avm).objects@.len(),
    ensures
        wf(*final(avm)),
        this is None ==> r == Ok::<Value, EngineError>(Value::Undefined) && *final(avm) == *old(
            avm,
        ),
        (this matches Some(t) && !(old(avm).objects@[t as int].kind is RegExp)) ==> r == Ok::<
            Value,
            EngineError,
        >(Value::Undefined) && *final(avm) == *old(avm),
        (this matches Some(t) && old(avm).objects@[t as int].kind is RegExp
            && crate::value::spec_coerce_to_u32(
            if args@.len() > 0 {
                args@[0]
            } else {
                Value::Undefined
            },
        ) is Some) ==> {
            let t = this->Some_0;
            &&& r == Ok::<Value, EngineError>(Value::Undefined)
            &&& crate::resolve::spec_only_obj_changed(*old(avm), *final(avm), t as int)
            &&& final(avm).objects@[t as int].data == old(avm).objects@[t as int].data
            &&& match old(avm).objects@[t as int].kind {
                ObjKind::RegExp(re) => final(avm).objects@[t as int].kind == ObjKind::RegExp(
                    RegExpData {
                        last_index: crate::value::spec_coerce_to_u32(
                            if args@.len() > 0 {
                                args@[0]
                            } else {
                                Value::Undefined
                            },
                        )->Some_0 as usize,
                        ..re
                    },
                ),
                _ => false,
            }
        },
{
    let t = match this {
        Some(t) => t,
        None => {
            return Ok(Value::Undefined);
        },
    };
    let is_re = matches!(&avm.objects[t].kind, ObjKind::RegExp(_));
    if !is_re {
        return Ok(Value::Undefined);
    }
    let arg = if args.len() > 0 {
        args[0].clone()
    } else {
        Value::Undefined
    };
    let i = match arg.coerce_to_u32() {
        Ok(u) => u,
        Err(e) => {
            return Err(e);
        },
    };
    proof {
        assert(crate::heap::wf_obj(
            avm.objects@[t as int],
            t as int,
            avm.objects@.len() as int,
            avm.classes@.len() as int,
            avm.scopes@.len() as int,
        ));
    }
    match &mut avm.objects[t].kind {
        ObjKind::RegExp(re) => {
            re.last_index = i as usize;
            Ok(Value::Undefined)
        },
        _ => Err(EngineError::BadObjectRef),
    }
}

/// The `source` getter: the pattern text.
pub fn source(avm: &Avm, this: Option<usize>, args: &Vec<Value>) -> (r: Result<
    Value,
    EngineError,
>)
    requires
        this matches Some(t) ==> t < avm.objects@.len(),
    ensures
        match this {
            Some(t) => match avm.objects@[t as int].kind {
                ObjKind::RegExp(re) => r matches Ok(Value::String(s)) && s@ == re.source@,
                _ => r == Ok::<Value, EngineError>(Value::Undefined),
            },
            None => r == Ok::<Value, EngineError>(Value::Undefined),
        },
{
    match this {
        Some(t) => match &avm.objects[t].kind {
            ObjKind::RegExp(re) => Ok(Value::String(re.source.clone())),
            _ => Ok(Value::Undefined),
        },
        None => Ok(Value::Undefined),
    }
}

/// `exec`: consumes the host's match result against `text`. No match
/// reads as `Null`; a match becomes a fresh array of the matched group
/// texts — a group that did not participate reads as `Undefined` — with
/// `index` and `input` set on it.
pub fn exec(
    avm: &mut Avm,
    this: Option<usize>,
    text: &String,
    matched: &Option<RegExpMatch>,
) -> (r: Result<Value, EngineError>)
    requires
        wf(*old(avm)),
        this matches Some(t) ==> t < old(avm).objects@.len(),
        old(avm).protos.array is Some,
    ensures
        wf(*final(avm)),
        this is None ==> r == Ok::<Value, EngineError>(Value::Undefined) && *final(avm) == *old(
            avm,
        ),
        (this matches Some(t) && !(old(avm).objects@[t as int].kind is RegExp)) ==> r == Ok::<
            Value,
            EngineError,
        >(Value::Undefined) && *final(avm) == *old(avm),
        (this matches Some(t) && old(avm).objects@[t as int].kind is RegExp && matched is None)
            ==> r == Ok::<Value, EngineError>(Value::Null) && *final(avm) == *old(avm),
        (this matches Some(t) && old(avm).objects@[t as int].kind is RegExp && matched
            is Some) ==> {
            let m = matched->Some_0;
            let a = old(avm).objects@.len() as usize;
            &&& r == Ok::<Value, EngineError>(Value::Object(a))
            &&& final(avm).objects@.len() == a + 1
            &&& forall|j: int|
                0 <= j < a ==> #[trigger] final(avm).objects@[j] == old(avm).objects@[j]
            &&& match final(avm).objects@[a as int].kind {
                ObjKind::Array(st) => st@.len() == m.groups@.len() && forall|k: int|
                    0 <= k < st@.len() ==> #[trigger] st@[k] == (match m.groups@[k] {
                        Some(g) => Value::String(g),
                        None => Value::Undefined,
                    }),
                _ => false,
            }
            &&& crate::storage::spec_find_prop(
                final(avm).objects@[a as int].data.props@,
                crate::names::QNameView { ns: crate::names::NamespaceView::Public, name: "index"@ },
            ) == Some(
                crate::property::Property::Stored {
                    value: Value::Unsigned(
                        if m.start > 0xffff_ffffusize {
                            0xffff_ffffu32
                        } else {
                            m.start as u32
                        },
                    ),
                    attributes: crate::property::PropertyAttributes { bits: 0 },
                },
            )
            &&& crate::storage::spec_find_prop(
                final(avm).objects@[a as int].data.props@,
                crate::names::QNameView { ns: crate::names::NamespaceView::Public, name: "input"@ },
            ) == Some(
                crate::property::Property::Stored {
                    value: Value::String(*text),
                    attributes: crate::property::PropertyAttributes { bits: 0 },
                },
            )
        },
{
    let t = match this {
        Some(t) => t,
        None => {
            return Ok(Value::Undefined);
        },
    };
    let is_re = matches!(&avm.objects[t].kind, ObjKind::RegExp(_));
    if !is_re {
        return Ok(Value::Undefined);
    }
    let m = match matched {
        Some(m) => m,
        None => {
            return Ok(Value::Null);
        },
    };
    let start = m.start;
    let mut storage: Vec<Value> = Vec::new();
    let mut i: usize = 0;
    while i < m.groups.len()
        invariant
            *avm == *old(avm),
            wf(*avm),
            i <= m.groups@.len(),
            old(avm).protos.array is Some,
            this is Some,
            matched matches Some(mm) && mm == m,
            storage@.len() == i,
            forall|k: int|
                0 <= k < i ==> #[trigger] storage@[k] == (match m.groups@[k] {
                    Some(g) => Value::String(g),
                    None => Value::Undefined,
                }),
        decreases m.groups@.len() - i,
    {
        match &m.groups[i] {
            Some(s) => {
                storage.push(Value::String(s.clone()));
            },
            None => {
                storage.push(Value::Undefined);
            },
        }
        i += 1;
    }
    let array_proto = avm.protos.array.unwrap();
    let arr = avm.alloc_object(
        ObjKind::Array(storage),
        Some(array_proto),
        TraitSource::NoClass,
    );
    proof {
        reveal_strlit("index");
        reveal_strlit("input");
        assert(!crate::variants::spec_all_digits("index"@)) by {
            assert("index"@[0] == 'i');
            assert(!(48 <= 'i' as u32 <= 57));
        }
        assert(!crate::variants::spec_all_digits("input"@)) by {
            assert("input"@[0] == 'i');
            assert(!(48 <= 'i' as u32 <= 57));
        }
        assert("index"@ != "input"@) by {
            assert("index"@[2] == 'd' && "input"@[2] == 'p');
        }
    }
    let index_name = QName::dynamic_name(String::from_str("index"));
    let start32: u32 = if start > 0xffff_ffffusize {
        0xffff_ffffu32
    } else {
        start as u32
    };
    let ghost h1 = *avm;
    let res1 = avm.set_property_local(arr, arr, None, &index_name, Value::Unsigned(start32));
    proof {
        assert(res1 == Ok::<SetOutcome, EngineError>(SetOutcome::Done));
    }
    match res1 {
        Ok(_) => {},
        Err(e) => {
            return Err(e);
        },
    }
    let ghost h2 = *avm;
    let input_name = QName::dynamic_name(String::from_str("input"));
    proof {
        crate::storage::lemma_find_prop_push(
            h1.objects@[arr as int].data.props@,
            crate::storage::PropEntry {
                name: index_name,
                prop: crate::property::Property::Stored {
                    value: Value::Unsigned(start32),
                    attributes: crate::property::PropertyAttributes { bits: 0 },
                },
            },
            input_name@,
        );
    }
    let res2 = avm.set_property_local(arr, arr, None, &input_name, Value::String(text.clone()));
    proof {
        assert(res2 == Ok::<SetOutcome, EngineError>(SetOutcome::Done));
    }
    match res2 {
        Ok(_) => {},
        Err(e) => {
            return Err(e);
        },
    }
    proof {
        let e1 = crate::storage::PropEntry {
            name: index_name,
            prop: crate::property::Property::Stored {
                value: Value::Unsigned(start32),
                attributes: crate::property::PropertyAttributes { bits: 0 },
            },
        };
        let iv = crate::names::QNameView {
            ns: crate::names::NamespaceView::Public,
            name: "index"@,
        };
        let pv = crate::names::QNameView {
            ns: crate::names::NamespaceView::Public,
            name: "input"@,
        };
        let props0 = h1.objects@[arr as int].data.props@;
        let props1 = h2.objects@[arr as int].data.props@;
        let e2 = crate::storage::PropEntry {
            name: input_name,
            prop: crate::property::Property::Stored {
                value: Value::String(*text),
                attributes: crate::property::PropertyAttributes { bits: 0 },
            },
        };
        assert(props1 == props0.push(e1));
        assert(avm.objects@[arr as int].data.props@ == props1.push(e2));
        crate::storage::lemma_find_prop_push(props0, e1, iv);
        crate::storage::lemma_find_prop_push(props0, e1, pv);
        crate::storage::lemma_find_prop_push(props1, e2, iv);
        crate::storage::lemma_find_prop_push(props1, e2, pv);
    }
    Ok(Value::Object(arr))
}

/// `test`: whether the host's match result found anything at all.
pub fn test(avm: &Avm, this: Option<usize>, matched: &Option<RegExpMatch>) -> (r: Result<
    Value,
    EngineError,
>)
    requires
        this matches Some(t) ==> t < avm.objects@.len(),
    ensures
        r == match this {
            Some(t) => match avm.objects@[t as int].kind {
                ObjKind::RegExp(_) => Ok::<Value, EngineError>(
                    Value::Bool(matched is Some),
                ),
                _ => Ok::<Value, EngineError>(Value::Undefined),
            },
            None => Ok::<Value, EngineError>(Value::Undefined),
        },
{
    match this {
        Some(t) => match &avm.objects[t].kind {
            ObjKind::RegExp(_) => Ok(Value::Bool(matched.is_some())),
            _ => Ok(Value::Undefined),
        },
        None => Ok(Value::Undefined),
    }
}


/// The opaque handle this module assigns to one expression member.
pub const METHOD_INSTANCE_INIT: u32 = 60;

/// The opaque handle this module assigns to one expression member.
pub const METHOD_CLASS_INIT: u32 = 61;

/// The opaque handle this module assigns to one expression member.
pub const METHOD_DOTALL: u32 = 62;

/// The opaque handle this module assigns to one expression member.
pub const METHOD_EXTENDED: u32 = 63;

/// The opaque handle this module assigns to one expression member.
pub const METHOD_GLOBAL: u32 = 64;

/// The opaque handle this module assigns to one expression member.
pub const METHOD_IGNORE_CASE: u32 = 65;

/// The opaque handle this module assigns to one expression member.
pub const METHOD_MULTILINE: u32 = 66;

/// The opaque handle this module assigns to one expression member.
pub const METHOD_LAST_INDEX: u32 = 67;

/// The opaque handle this module assigns to one expression member.
pub const METHOD_SET_LAST_INDEX: u32 = 68;

/// The opaque handle this module assigns to one expression member.
pub const METHOD_SOURCE: u32 = 69;

/// The opaque handle this module assigns to one expression member.
pub const METHOD_EXEC: u32 = 70;

/// The opaque handle this module assigns to one expression member.
pub const METHOD_TEST: u32 = 71;

/// Builds the regular-expression class: the flag and cursor accessors —
/// the cursor with both halves — and the matching members in the
/// built-ins' namespace.
pub fn create_class(avm: &mut Avm) -> (r: usize)
    requires
        wf(*old(avm)),
    ensures
        wf(*final(avm)),
        r < final(avm).classes@.len(),
        final(avm).classes@.len() == old(avm).classes@.len() + 1,
        final(avm).objects == old(avm).objects,
{
    let mut class = crate::class::Class::new(
        QName::dynamic_name(String::from_str("RegExp")),
        Some(
            crate::names::Multiname::from_qname(
                QName::dynamic_name(String::from_str("Object")),
            ),
        ),
        METHOD_INSTANCE_INIT,
        METHOD_CLASS_INIT,
    );
    class.define_instance_trait(
        crate::traits::Trait::from_getter(
            QName::dynamic_name(String::from_str("dotall")),
            METHOD_DOTALL,
        ),
    );
    class.define_instance_trait(
        crate::traits::Trait::from_getter(
            QName::dynamic_name(String::from_str("extended")),
            METHOD_EXTENDED,
        ),
    );
    class.define_instance_trait(
        crate::traits::Trait::from_getter(
            QName::dynamic_name(String::from_str("global")),
            METHOD_GLOBAL,
        ),
    );
    class.define_instance_trait(
        crate::traits::Trait::from_getter(
            QName::dynamic_name(String::from_str("ignoreCase")),
            METHOD_IGNORE_CASE,
        ),
    );
    class.define_instance_trait(
        crate::traits::Trait::from_getter(
            QName::dynamic_name(String::from_str("multiline")),
            METHOD_MULTILINE,
        ),
    );
    class.define_instance_trait(
        crate::traits::Trait::from_getter(
            QName::dynamic_name(String::from_str("lastIndex")),
            METHOD_LAST_INDEX,
        ),
    );
    class.define_instance_trait(
        crate::traits::Trait::from_setter(
            QName::dynamic_name(String::from_str("lastIndex")),
            METHOD_SET_LAST_INDEX,
        ),
    );
    class.define_instance_trait(
        crate::traits::Trait::from_getter(
            QName::dynamic_name(String::from_str("source")),
            METHOD_SOURCE,
        ),
    );
    class.define_instance_trait(
        crate::traits::Trait::from_method(
            QName::new(crate::names::Namespace::as3_namespace(), String::from_str("exec")),
            METHOD_EXEC,
        ),
    );
    class.define_instance_trait(
        crate::traits::Trait::from_method(
            QName::new(crate::names::Namespace::as3_namespace(), String::from_str("test")),
            METHOD_TEST,
        ),
    );
    avm.push_class(class)
}

} // verus!
