use vstd::prelude::*;

use crate::marshal::VmValue;

verus! {

#[verifier::external_type_specification]
#[verifier::external_body]
pub struct ExCore(motoko::vm_types::Core);

#[verifier::external_type_specification]
#[verifier::external_body]
pub struct ExValue(motoko::value::Value);

/// What a VM core holds, for the purposes of the bridge: the set of alias
/// strings under which a live actor is registered in the core's actor map.
pub uninterp spec fn core_aliases(c: motoko::vm_types::Core) -> Set<Seq<char>>;

/// Relies on `Core::empty` of the VM: a fresh core whose actor map holds
/// no actors at all.
#[verifier::external_body]
pub(crate) fn core_empty() -> (r: motoko::vm_types::Core)
    ensures
        core_aliases(r) == Set::<Seq<char>>::empty(),
{
    motoko::vm_types::Core::empty()
}

/// Relies on the derived `Clone` of the VM core, a persistent structure
/// with O(1) copies: the clone is value-equal to the original and
/// independent of it, so mutating one leaves the other untouched.
#[verifier::external_body]
pub(crate) fn core_snapshot(c: &motoko::vm_types::Core) -> (r: motoko::vm_types::Core)
    ensures
        r == *c,
{
    c.clone()
}

/// Relies on `Core::set_actor`: on success the actor compiled from the
/// source text is installed under the given alias (created when absent,
/// upgraded in place when present), so the alias joins the live set. On
/// failure the passed core may hold a partially applied mutation and must
/// be discarded; the error carries the VM's diagnostic.
#[verifier::external_body]
pub(crate) fn core_set_actor(
    c: &mut motoko::vm_types::Core,
    path: String,
    alias: &str,
    source: &str,
) -> (r: Result<(), String>)
    ensures
        r is Ok ==> core_aliases(*final(c)) == core_aliases(*old(c)).insert(alias@),
{
    let id = motoko::value::ActorId::Alias(motoko::ast::ToId::to_id(alias));
    c.set_actor(path, id, source).map_err(|e| format!("{:?}", e))
}

/// Relies on the persistent hash map holding the actors and on the alias
/// key's structural equality: removing the alias key returns the mapped
/// actor exactly when the alias is live, and the live alias set loses
/// exactly that alias (nothing, when it was absent).
#[verifier::external_body]
pub(crate) fn core_remove(c: &mut motoko::vm_types::Core, alias: &str) -> (r: bool)
    ensures
        r == core_aliases(*old(c)).contains(alias@),
        core_aliases(*final(c)) == core_aliases(*old(c)).remove(alias@),
{
    let id = motoko::value::ActorId::Alias(motoko::ast::ToId::to_id(alias));
    c.actors.map.remove(&id).is_some()
}

/// Relies on the persistent hash map holding the actors and on the alias
/// key's structural equality: the lookup succeeds exactly when the alias
/// is live, and the core is not touched.
#[verifier::external_body]
pub(crate) fn core_has_actor(c: &motoko::vm_types::Core, alias: &str) -> (r: bool)
    ensures
        r == core_aliases(*c).contains(alias@),
{
    let id = motoko::value::ActorId::Alias(motoko::ast::ToId::to_id(alias));
    c.actors.map.get(&id).is_some()
}

/// Relies on `Core::call`: runs the named method of the actor under the
/// given alias on the passed core, with the VM's unit value as argument and
/// no resource limits, and converts the outcome. The actor must be live:
/// on a missing actor the VM would panic instead of failing, so callers
/// rule that out first. Execution may mutate the passed core arbitrarily,
/// on failure too, so a failed call's core must be discarded; the error
/// carries the VM's diagnostic. Nothing is promised of the result: whether
/// the call succeeds and what it returns is the VM's decision alone.
#[verifier::external_body]
pub(crate) fn core_call(
    c: &mut motoko::vm_types::Core,
    alias: &str,
    method: &str,
) -> (r: Result<VmValue, String>)
    requires
        core_aliases(*old(c)).contains(alias@),
{
    let id = motoko::value::ActorId::Alias(motoko::ast::ToId::to_id(alias));
    let limits = motoko::vm_types::Limits::none();
    let arg = motoko::Share::share(motoko::Value::Unit);
    match c.call(&id, &motoko::ast::ToId::to_id(method), arg, &limits) {
        Ok(v) => Ok(view_value(&v)),
        Err(e) => Err(format!("{:?}", e)),
    }
}

/// Relies on reading the VM's value enum variant by variant: each supported
/// variant moves into the bridge's own value type, with the
/// arbitrary-precision integers rendered as exact decimal text by their
/// `to_string`, the double reduced to its bit pattern, and rope text
/// flattened; every other variant becomes `Unsupported` carrying the
/// value's debug rendering, which names the variant.
#[verifier::external_body]
pub(crate) fn view_value(v: &motoko::value::Value) -> (r: VmValue) {
    match v {
        motoko::value::Value::Null => VmValue::Null,
        motoko::value::Value::Bool(b) => VmValue::Bool(*b),
        motoko::value::Value::Unit => VmValue::Unit,
        motoko::value::Value::Nat(n) => VmValue::Nat(n.to_string()),
        motoko::value::Value::Int(i) => VmValue::Int(i.to_string()),
        motoko::value::Value::Float(f) => VmValue::FloatBits(f.0.to_bits()),
        motoko::value::Value::Char(ch) => VmValue::Char(*ch),
        motoko::value::Value::Text(t) => VmValue::Text(t.to_string()),
        motoko::value::Value::Option(o) => VmValue::Opt(Box::new(view_value(&**o))),
        other => VmValue::Unsupported(format!("{:?}", other)),
    }
}

} // verus!
