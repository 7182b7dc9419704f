use vstd::prelude::*;

use crate::errors::BridgeError;

verus! {

/// What the interface-description compiler produces for a source text:
/// the generated host binding text, or nothing when the text does not
/// parse or type-check. A function of the source text alone.
pub uninterp spec fn js_bindings_of(source: Seq<char>) -> Option<Seq<char>>;

/// Relies on candid's `IDLProg` parser, `check_prog` and
/// `bindings::javascript::compile`, together a pure text-to-text transform:
/// the source is parsed as an interface-description program, type-checked
/// against a fresh environment, and compiled to host binding text. All
/// three are deterministic functions of the source text (the type
/// environment is an ordered map), so the outcome is determined by the
/// source text alone; the error carries the parse or type-check diagnostic.
#[verifier::external_body]
fn compile_js_bindings(source: &str) -> (r: Result<String, String>)
    ensures
        r matches Ok(t) ==> js_bindings_of(source@) == Some(t@),
        r is Err ==> js_bindings_of(source@) is None,
{
    let ast = source.parse::<candid::IDLProg>().map_err(|e| e.to_string())?;
    let mut env = candid::TypeEnv::new();
    let actor = candid::check_prog(&mut env, &ast).map_err(|e| e.to_string())?;
    Ok(candid::bindings::javascript::compile(&env, &actor))
}

/// Compile an interface-description source text to host binding text. A
/// pure transform: it touches no actor state, and identical source text
/// always yields the identical binding text. Failures are parse or
/// type-check diagnostics.
pub fn candid_to_js(source: String) -> (r: Result<String, BridgeError>)
    ensures
        r matches Ok(t) ==> js_bindings_of(source@) == Some(t@),
        r matches Err(e) ==> e is InterfaceDescription && js_bindings_of(source@) is None,
        (r is Ok) <==> js_bindings_of(source@) is Some,
{
    match compile_js_bindings(source.as_str()) {
        Ok(t) => Ok(t),
        Err(msg) => Err(BridgeError::InterfaceDescription(msg)),
    }
}

/// The interface-description compiler is deterministic: two runs over the
/// same source text stand or fail together, and when they stand they
/// produce the identical binding text.
pub proof fn lemma_compile_deterministic(s1: Seq<char>, s2: Seq<char>)
    requires
        s1 == s2,
    ensures
        js_bindings_of(s1) == js_bindings_of(s2),
{
}

} // verus!
