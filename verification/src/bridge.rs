use vstd::prelude::*;

use crate::errors::BridgeError;
use crate::marshal::{to_host, spec_to_host, HostVal, HostValue, VmVal};
use crate::settings::{spec_emits, Settings};
use crate::vm::{
    core_aliases, core_call, core_empty, core_has_actor, core_remove, core_set_actor,
    core_snapshot,
};

verus! {

/// Diagnostic threshold used by the bridge entry points: their progress
/// messages are emitted only at this verbosity or above.
pub const DIAG_THRESHOLD: usize = 2;

/// The bridge state: one settings slot and one VM core holding the live
/// actors. Owned by the host embedding and passed explicitly to every
/// entry point; it lives as long as the hosting process.
pub struct Bridge {
    /// Diagnostic settings; absent until the first initialization call.
    pub settings: Option<Settings>,
    /// The shared VM core; lifecycle operations replace it wholesale.
    pub core: motoko::vm_types::Core,
}

impl Bridge {
    /// The aliases of the actors that are live in the shared core.
    pub open spec fn aliases(&self) -> Set<Seq<char>> {
        core_aliases(self.core)
    }

    /// The state at process start: no actors, uninitialized settings.
    pub fn empty() -> (r: Bridge)
        ensures
            r.settings is None,
            r.aliases() == Set::<Seq<char>>::empty(),
    {
        Bridge { settings: None, core: core_empty() }
    }

    /// Replace the settings wholesale; last write wins, nothing is merged.
    /// The actors are untouched.
    pub fn update_settings(&mut self, settings: Settings)
        ensures
            final(self).settings == Some(settings),
            final(self).core == old(self).core,
    {
        self.settings = Some(settings);
    }

    /// Whether a diagnostic at the given threshold may be emitted: an error
    /// before settings initialization (a programming error, never a default),
    /// otherwise exactly the verbosity test. Callers must not format the
    /// message unless this returns true.
    pub fn diagnostic_emits(&self, threshold: usize) -> (r: Result<bool, BridgeError>)
        ensures
            (match r {
                Ok(b) => self.settings matches Some(s) && b == spec_emits(s, threshold),
                Err(e) => e is UninitializedSettings && self.settings is None,
            }),
    {
        match &self.settings {
            Some(s) => Ok(s.emits(threshold)),
            None => Err(BridgeError::UninitializedSettings),
        }
    }

    /// Create or update the actor under `alias` from `source`: installed
    /// anew when the alias is absent, upgraded in place when present. On
    /// any failure the registry is left exactly as it was: the work happens
    /// on a snapshot of the core, committed only on success.
    pub fn update_canister(&mut self, path: String, alias: String, source: String) -> (r: Result<
        (),
        BridgeError,
    >)
        ensures
            final(self).settings == old(self).settings,
            r is Ok ==> final(self).aliases() == old(self).aliases().insert(alias@),
            r is Err ==> final(self).core == old(self).core,
            (r matches Err(BridgeError::UninitializedSettings)) <==> old(self).settings is None,
            r matches Err(e) ==> (e is UninitializedSettings || e is CompileOrInstall),
    {
        if self.settings.is_none() {
            return Err(BridgeError::UninitializedSettings);
        }
        let mut snap = core_snapshot(&self.core);
        match core_set_actor(&mut snap, path, alias.as_str(), source.as_str()) {
            Ok(_) => {
                self.core = snap;
                Ok(())
            },
            Err(msg) => Err(BridgeError::CompileOrInstall(msg)),
        }
    }

    /// Remove the actor under `alias` if present; report whether a removal
    /// occurred. Absence is a normal `false` result, not an error, and then
    /// the registry is left exactly as it was.
    pub fn remove_canister(&mut self, alias: String) -> (r: Result<bool, BridgeError>)
        ensures
            final(self).settings == old(self).settings,
            (r matches Err(BridgeError::UninitializedSettings)) <==> old(self).settings is None,
            r matches Err(e) ==> e is UninitializedSettings && final(self).core == old(self).core,
            r matches Ok(b) ==> b == old(self).aliases().contains(alias@),
            r matches Ok(b) ==> final(self).aliases() == old(self).aliases().remove(alias@),
            r matches Ok(b) && !b ==> final(self).core == old(self).core,
            old(self).settings is Some && !old(self).aliases().contains(alias@) ==> ((r matches Ok(
                false,
            )) && *final(self) == *old(self)),
    {
        if self.settings.is_none() {
            return Err(BridgeError::UninitializedSettings);
        }
        let mut snap = core_snapshot(&self.core);
        let removed = core_remove(&mut snap, alias.as_str());
        if removed {
            self.core = snap;
        } else {
            proof {
                assert(old(self).aliases().remove(alias@) =~= old(self).aliases());
            }
        }
        Ok(removed)
    }

    /// Call `method` on the actor under `alias`. The call runs against a
    /// snapshot of the core; only when execution succeeds is the snapshot
    /// committed, so a failed call leaves the shared core exactly as it
    /// was. The VM's result is then marshalled to a host value; a result
    /// with no host representation is an error, and the already committed
    /// mutation stands. The argument bytes are accepted for interface
    /// compatibility and not yet decoded: the method is called with the
    /// VM's unit value.
    pub fn call_canister(&mut self, alias: String, method: String, _args: Vec<u8>) -> (r: Result<
        HostValue,
        BridgeError,
    >)
        ensures
            final(self).settings == old(self).settings,
            (r matches Err(BridgeError::UninitializedSettings)) <==> old(self).settings is None,
            r matches Err(BridgeError::UninitializedSettings) ==> final(self).core == old(
                self,
            ).core,
            r matches Err(BridgeError::Call(_)) ==> final(self).core == old(self).core,
            r matches Ok(h) ==> exists|v: VmVal| spec_to_host(v) == Ok::<HostVal, Seq<char>>(h@),
            r matches Err(BridgeError::UnsupportedValue(m)) ==> exists|v: VmVal|
                spec_to_host(v) == Err::<HostVal, Seq<char>>(m@),
            r matches Err(e) ==> (e is UninitializedSettings || e is Call
                || e is UnsupportedValue),
            old(self).settings is Some && !old(self).aliases().contains(alias@) ==> r matches Err(
                BridgeError::Call(_),
            ),
    {
        if self.settings.is_none() {
            return Err(BridgeError::UninitializedSettings);
        }
        if !core_has_actor(&self.core, alias.as_str()) {
            return Err(BridgeError::Call("actor not found".to_owned()));
        }
        let mut snap = core_snapshot(&self.core);
        match core_call(&mut snap, alias.as_str(), method.as_str()) {
            Err(msg) => Err(BridgeError::Call(msg)),
            Ok(value) => {
                self.core = snap;
                match to_host(&value) {
                    Ok(h) => {
                        proof {
                            assert(spec_to_host(value@) == Ok::<HostVal, Seq<char>>(h@));
                        }
                        Ok(h)
                    },
                    Err(kind) => {
                        proof {
                            assert(spec_to_host(value@) == Err::<HostVal, Seq<char>>(kind@));
                        }
                        Err(BridgeError::UnsupportedValue(kind))
                    },
                }
            },
        }
    }
}

} // verus!
