//! The security object's native members.
//!
//! The historical security facilities are not enforced by this runtime:
//! the permission calls accept their arguments and change nothing, and
//! the sandbox type is whatever the host environment reports.

use vstd::prelude::*;

use crate::error::EngineError;
use crate::heap::{wf, Avm, ObjKind};
use crate::names::QName;
use crate::storage::TraitSource;
use crate::value::Value;

verus! {

/// `allowDomain`: accepted and not enforced.
pub fn allow_domain(avm: &mut Avm, this: usize, args: &Vec<Value>) -> (r: Result<
    Value,
    EngineError,
>)
    ensures
        *final(avm) == *old(avm),
        r == Ok::<Value, EngineError>(Value::Undefined),
{
    Ok(Value::Undefined)
}

/// `allowInsecureDomain`: accepted and not enforced.
pub fn allow_insecure_domain(avm: &mut Avm, this: usize, args: &Vec<Value>) -> (r: Result<
    Value,
    EngineError,
>)
    ensures
        *final(avm) == *old(avm),
        r == Ok::<Value, EngineError>(Value::Undefined),
{
    Ok(Value::Undefined)
}

/// `loadPolicyFile`: accepted and not enforced.
pub fn load_policy_file(avm: &mut Avm, this: usize, args: &Vec<Value>) -> (r: Result<
    Value,
    EngineError,
>)
    ensures
        *final(avm) == *old(avm),
        r == Ok::<Value, EngineError>(Value::Undefined),
{
    Ok(Value::Undefined)
}

/// `escapeDomain`: accepted and not enforced.
pub fn escape_domain(avm: &mut Avm, this: usize, args: &Vec<Value>) -> (r: Result<
    Value,
    EngineError,
>)
    ensures
        *final(avm) == *old(avm),
        r == Ok::<Value, EngineError>(Value::Undefined),
{
    Ok(Value::Undefined)
}

/// The `sandboxType` getter: the sandbox name the host environment
/// reports.
pub fn get_sandbox_type(avm: &Avm, this: usize, sandbox_type: String) -> (r: Result<
    Value,
    EngineError,
>)
    ensures
        r matches Ok(Value::String(s)) && s@ == sandbox_type@,
{
    Ok(Value::String(sandbox_type))
}

/// The `chooseLocalSwfPath` getter: accepted and not provided.
pub fn get_choose_local_swf_path(avm: &Avm, this: usize, args: &Vec<Value>) -> (r: Result<
    Value,
    EngineError,
>)
    ensures
        r == Ok::<Value, EngineError>(Value::Undefined),
{
    Ok(Value::Undefined)
}

/// `PolicyFileResolver`: accepted and not enforced.
pub fn policy_file_resolver(avm: &mut Avm, this: usize, args: &Vec<Value>) -> (r: Result<
    Value,
    EngineError,
>)
    ensures
        *final(avm) == *old(avm),
        r == Ok::<Value, EngineError>(Value::Undefined),
{
    Ok(Value::Undefined)
}


/// The opaque handle this module assigns to one security member.
pub const METHOD_POLICY_FILE_RESOLVER: u32 = 80;

/// The opaque handle this module assigns to one security member.
pub const METHOD_ALLOW_DOMAIN: u32 = 81;

/// The opaque handle this module assigns to one security member.
pub const METHOD_ALLOW_INSECURE_DOMAIN: u32 = 82;

/// The opaque handle this module assigns to one security member.
pub const METHOD_LOAD_POLICY_FILE: u32 = 83;

/// The opaque handle this module assigns to one security member.
pub const METHOD_ESCAPE_DOMAIN: u32 = 84;

/// The opaque handle this module assigns to one security member.
pub const METHOD_GET_SANDBOX_TYPE: u32 = 85;

/// The opaque handle this module assigns to one security member.
pub const METHOD_GET_CHOOSE_LOCAL_SWF_PATH: u32 = 86;

/// Installs one member function as a fresh unbound function object.
fn add_function(avm: &mut Avm, target: usize, fn_proto: usize, name: QName, method: u32)
    requires
        wf(*old(avm)),
        target < old(avm).objects@.len(),
        fn_proto < old(avm).objects@.len(),
    ensures
        wf(*final(avm)),
        final(avm).objects@.len() > old(avm).objects@.len(),
{
    let f = avm.alloc_object(
        ObjKind::Function { method, scope: None, receiver: None },
        Some(fn_proto),
        TraitSource::NoClass,
    );
    avm.install_method(target, name, 0, f);
}

/// Builds the security object: the permission calls as plain members,
/// and the sandbox-type and local-path readers as getter-only virtual
/// properties.
pub fn create(avm: &mut Avm, proto: Option<usize>, fn_proto: usize) -> (r: usize)
    requires
        wf(*old(avm)),
        match proto {
            Some(p) => p < old(avm).objects@.len(),
            None => true,
        },
        fn_proto < old(avm).objects@.len(),
    ensures
        wf(*final(avm)),
        r < final(avm).objects@.len(),
{
    let security = match proto {
        Some(p) => avm.object(p),
        None => avm.bare_object(),
    };
    add_function(
        avm,
        security,
        fn_proto,
        QName::dynamic_name(String::from_str("PolicyFileResolver")),
        METHOD_POLICY_FILE_RESOLVER,
    );
    add_function(
        avm,
        security,
        fn_proto,
        QName::dynamic_name(String::from_str("allowDomain")),
        METHOD_ALLOW_DOMAIN,
    );
    add_function(
        avm,
        security,
        fn_proto,
        QName::dynamic_name(String::from_str("allowInsecureDomain")),
        METHOD_ALLOW_INSECURE_DOMAIN,
    );
    add_function(
        avm,
        security,
        fn_proto,
        QName::dynamic_name(String::from_str("loadPolicyFile")),
        METHOD_LOAD_POLICY_FILE,
    );
    add_function(
        avm,
        security,
        fn_proto,
        QName::dynamic_name(String::from_str("escapeDomain")),
        METHOD_ESCAPE_DOMAIN,
    );
    let g1 = avm.alloc_object(
        ObjKind::Function { method: METHOD_GET_SANDBOX_TYPE, scope: None, receiver: None },
        Some(fn_proto),
        TraitSource::NoClass,
    );
    // A fresh function on a fresh name: the install cannot be refused,
    // and a refusal would at worst leave the property out.
    match avm.install_getter(
        security,
        QName::dynamic_name(String::from_str("sandboxType")),
        0,
        g1,
    ) {
        Ok(()) => {},
        Err(_) => {},
    }
    let g2 = avm.alloc_object(
        ObjKind::Function {
            method: METHOD_GET_CHOOSE_LOCAL_SWF_PATH,
            scope: None,
            receiver: None,
        },
        Some(fn_proto),
        TraitSource::NoClass,
    );
    match avm.install_getter(
        security,
        QName::dynamic_name(String::from_str("chooseLocalSwfPath")),
        0,
        g2,
    ) {
        Ok(()) => {},
        Err(_) => {},
    }
    security
}

} // verus!
