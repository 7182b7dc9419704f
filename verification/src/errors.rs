use vstd::prelude::*;

verus! {

/// Boundary-level failure taxonomy of the bridge. Every entry point either
/// fully succeeds or reports exactly one of these, carrying a human-readable
/// diagnostic; nothing is retried internally.
#[derive(Debug, Clone)]
pub enum BridgeError {
    /// Actor source text failed to compile or install; carries the VM's
    /// diagnostic. The registry is left unchanged.
    CompileOrInstall(String),
    /// Method not found, execution trap, or resource limit exceeded during a
    /// call; the shared core is left unchanged.
    Call(String),
    /// The VM produced a value variant with no host representation yet;
    /// carries a description of the variant.
    UnsupportedValue(String),
    /// Parse or type-check failure in the interface-description compiler.
    InterfaceDescription(String),
    /// A gated diagnostic ran before settings initialization; a
    /// programming-error class failure, never recovered from internally.
    UninitializedSettings,
}

impl BridgeError {
    /// The diagnostic text carried by this error.
    pub fn message(&self) -> (r: String)
        ensures
            (match self {
                BridgeError::CompileOrInstall(s) => r@ == s@,
                BridgeError::Call(s) => r@ == s@,
                BridgeError::UnsupportedValue(s) => r@ == s@,
                BridgeError::InterfaceDescription(s) => r@ == s@,
                BridgeError::UninitializedSettings => r@ == "Uninitialized settings"@,
            }),
    {
        match self {
            BridgeError::CompileOrInstall(s) => s.clone(),
            BridgeError::Call(s) => s.clone(),
            BridgeError::UnsupportedValue(s) => s.clone(),
            BridgeError::InterfaceDescription(s) => s.clone(),
            BridgeError::UninitializedSettings => "Uninitialized settings".to_owned(),
        }
    }
}

} // verus!
