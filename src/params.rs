//! The Orchard circuit keys, loaded once per process.
use vstd::prelude::*;

use orchard::circuit::{OrchardCircuitVersion, ProvingKey, VerifyingKey};

verus! {

#[verifier::external_type_specification]
#[verifier::external_body]
pub struct ExProvingKey(ProvingKey);

#[verifier::external_type_specification]
#[verifier::external_body]
pub struct ExVerifyingKey(VerifyingKey);

#[verifier::external_type_specification]
#[verifier::external_body]
pub struct ExOrchardCircuitVersion(OrchardCircuitVersion);

/// The versions of the Orchard Action circuit that keys can be generated for.
#[derive(Clone, Copy, Debug, PartialEq, Eq, Structural)]
pub enum CircuitVersion {
    /// The circuit in force before NU6.2, kept for reading historical proofs.
    InsecurePreNu6_2,
    /// The circuit in force from NU6.2 on.
    FixedPostNu6_2,
    /// The NU6.2 circuit with the cross-address restriction enforced.
    PostNu6_3,
}

/// The circuit whose keys this process loads.
pub const LOADED_CIRCUIT: CircuitVersion = CircuitVersion::FixedPostNu6_2;

/// Relies on orchard's `OrchardCircuitVersion`, whose variants match those of
/// `CircuitVersion` one for one.
#[verifier::external_body]
fn orchard_version(v: CircuitVersion) -> (r: OrchardCircuitVersion) {
    match v {
        CircuitVersion::InsecurePreNu6_2 => OrchardCircuitVersion::InsecurePreNu6_2,
        CircuitVersion::FixedPostNu6_2 => OrchardCircuitVersion::FixedPostNu6_2,
        CircuitVersion::PostNu6_3 => OrchardCircuitVersion::PostNu6_3,
    }
}

/// Relies on orchard's `ProvingKey::build`: key generation for the given
/// circuit version.
#[verifier::external_body]
fn build_proving_key(version: OrchardCircuitVersion) -> (r: ProvingKey) {
    ProvingKey::build(version)
}

/// Relies on orchard's `VerifyingKey::build`: key generation for the given
/// circuit version.
#[verifier::external_body]
fn build_verifying_key(version: OrchardCircuitVersion) -> (r: VerifyingKey) {
    VerifyingKey::build(version)
}

/// What can be observed of the key store: whether loading has run, and
/// which keys it holds.
pub struct KeyPresence {
    pub loaded: bool,
    pub proving: bool,
    pub verifying: bool,
}

/// The key store before any load.
pub open spec fn unloaded() -> KeyPresence {
    KeyPresence { loaded: false, proving: false, verifying: false }
}

/// The effect of one load request with the given flag: the first request
/// loads the verifying key, and the proving key when asked to; every later
/// request changes nothing.
pub open spec fn after_request(s: KeyPresence, load_proving_keys: bool) -> KeyPresence {
    if s.loaded {
        s
    } else {
        KeyPresence { loaded: true, proving: load_proving_keys, verifying: true }
    }
}

/// The key store after the requests `flags`, taken in order, starting from `s`.
pub open spec fn after_requests(s: KeyPresence, flags: Seq<bool>) -> KeyPresence
    decreases flags.len(),
{
    if flags.len() == 0 {
        s
    } else {
        after_requests(after_request(s, flags[0]), flags.drop_first())
    }
}

/// How many of the requests `flags`, taken in order from `s`, run key
/// generation.
pub open spec fn generation_runs(s: KeyPresence, flags: Seq<bool>) -> nat
    decreases flags.len(),
{
    if flags.len() == 0 {
        0
    } else {
        (if s.loaded { 0nat } else { 1nat }) + generation_runs(
            after_request(s, flags[0]),
            flags.drop_first(),
        )
    }
}

/// A write-once store for a proving key of type `P` and a verifying key of
/// type `V`, with the guard that lets them be generated once.
///
/// Readers take the keys only after a load request has returned; once loaded,
/// the keys are never replaced.
pub struct KeyStore<P, V> {
    loaded: bool,
    proving: Option<P>,
    verifying: Option<V>,
}

/// The store of the process's Orchard circuit keys.
pub type ProofParameters = KeyStore<ProvingKey, VerifyingKey>;

impl<P, V> View for KeyStore<P, V> {
    type V = KeyPresence;

    open spec fn view(&self) -> KeyPresence {
        KeyPresence {
            loaded: self.loaded_spec(),
            proving: self.proving_spec().is_some(),
            verifying: self.verifying_spec().is_some(),
        }
    }
}

impl<P, V> KeyStore<P, V> {
    pub closed spec fn loaded_spec(&self) -> bool {
        self.loaded
    }

    pub closed spec fn proving_spec(&self) -> Option<P> {
        self.proving
    }

    pub closed spec fn verifying_spec(&self) -> Option<V> {
        self.verifying
    }

    /// Keys are present only after loading, and loading always leaves a
    /// verifying key.
    pub open spec fn wf(&self) -> bool {
        &&& self@.loaded <==> self@.verifying
        &&& self@.proving ==> self@.loaded
    }

    /// An empty store, before any load request.
    pub fn new() -> (r: Self)
        ensures
            r.wf(),
            r@ == unloaded(),
    {
        KeyStore { loaded: false, proving: None, verifying: None }
    }

    /// Serves one load request.
    ///
    /// The first request runs `make_verifying`, and `make_proving` too if
    /// `load_proving_keys` is set, and keeps what they return. Every later
    /// request returns at once: it runs neither and leaves the store as it
    /// was, whatever its flag.
    pub fn request<FP, FV>(&mut self, load_proving_keys: bool, make_proving: FP, make_verifying: FV)
        where
            FP: FnOnce() -> P,
            FV: FnOnce() -> V,
        requires
            old(self).wf(),
            make_proving.requires(()),
            make_verifying.requires(()),
        ensures
            final(self).wf(),
            final(self)@ == after_request(old(self)@, load_proving_keys),
            old(self)@.loaded ==> *final(self) == *old(self),
            !old(self)@.loaded && load_proving_keys ==> make_proving.ensures(
                (),
                final(self).proving_spec().unwrap(),
            ),
            !old(self)@.loaded ==> make_verifying.ensures((), final(self).verifying_spec().unwrap()),
    {
        if self.loaded {
            return;
        }
        let proving = if load_proving_keys {
            Some(make_proving())
        } else {
            None
        };
        let verifying = make_verifying();
        self.proving = proving;
        self.verifying = Some(verifying);
        self.loaded = true;
    }

    /// Whether a load request has already run.
    pub fn is_loaded(&self) -> (r: bool)
        ensures
            r == self@.loaded,
    {
        self.loaded
    }

    /// The proving key, if one was loaded.
    pub fn proving_key(&self) -> (r: Option<&P>)
        ensures
            r.is_some() == self@.proving,
            r.is_some() ==> *r.unwrap() == self.proving_spec().unwrap(),
    {
        self.proving.as_ref()
    }

    /// The verifying key, once loaded.
    pub fn verifying_key(&self) -> (r: Option<&V>)
        ensures
            r.is_some() == self@.verifying,
            r.is_some() ==> *r.unwrap() == self.verifying_spec().unwrap(),
    {
        self.verifying.as_ref()
    }
}

impl KeyStore<ProvingKey, VerifyingKey> {
    /// Loads the Orchard circuit keys for `LOADED_CIRCUIT`, on the first
    /// request only.
    ///
    /// The first request generates the verifying key, and the proving key if
    /// `load_proving_keys` is set (a store without it can check proofs but not
    /// make them). Every later request returns at once, generates nothing and
    /// leaves the store as it was, whatever its flag.
    ///
    /// `sprout_path` is not read: it is kept so that callers of the older,
    /// multi-circuit form of this request need no change.
    pub fn zksnark_params(&mut self, sprout_path: String, load_proving_keys: bool)
        requires
            old(self).wf(),
        ensures
            final(self).wf(),
            final(self)@ == after_request(old(self)@, load_proving_keys),
            old(self)@.loaded ==> *final(self) == *old(self),
    {
        let version = orchard_version(LOADED_CIRCUIT);
        self.request(
            load_proving_keys,
            || build_proving_key(version),
            || build_verifying_key(version),
        );
    }
}

} // verus!
