use zcash_init::params::{CircuitVersion, KeyStore, ProofParameters, LOADED_CIRCUIT};

/// Serves one request on `store`, counting the runs of each generator.
fn serve(store: &mut KeyStore<u32, u32>, load_proving_keys: bool, runs: &mut (u32, u32)) {
    let (proving_runs, verifying_runs) = runs;
    store.request(
        load_proving_keys,
        || {
            *proving_runs += 1;
            10
        },
        || {
            *verifying_runs += 1;
            20
        },
    );
}

#[test]
fn new_store_holds_no_keys() {
    let p = ProofParameters::new();
    assert!(!p.is_loaded());
    assert!(p.proving_key().is_none());
    assert!(p.verifying_key().is_none());
}

#[test]
fn store_loads_current_circuit() {
    assert_eq!(LOADED_CIRCUIT, CircuitVersion::FixedPostNu6_2);
}

#[test]
fn verification_only_request_skips_proving_key() {
    let mut store = KeyStore::new();
    let mut runs = (0, 0);
    serve(&mut store, false, &mut runs);
    assert_eq!(runs, (0, 1));
    assert!(store.is_loaded());
    assert_eq!(store.proving_key(), None);
    assert_eq!(store.verifying_key(), Some(&20));
}

#[test]
fn full_request_keeps_both_keys() {
    let mut store = KeyStore::new();
    let mut runs = (0, 0);
    serve(&mut store, true, &mut runs);
    assert_eq!(runs, (1, 1));
    assert!(store.is_loaded());
    assert_eq!(store.proving_key(), Some(&10));
    assert_eq!(store.verifying_key(), Some(&20));
}

#[test]
fn second_request_generates_nothing() {
    let mut store = KeyStore::new();
    let mut runs = (0, 0);
    serve(&mut store, true, &mut runs);
    serve(&mut store, true, &mut runs);
    assert_eq!(runs, (1, 1));
    assert_eq!(store.proving_key(), Some(&10));
    assert_eq!(store.verifying_key(), Some(&20));
}

#[test]
fn later_request_for_proving_key_is_ignored() {
    let mut store = KeyStore::new();
    let mut runs = (0, 0);
    serve(&mut store, false, &mut runs);
    serve(&mut store, true, &mut runs);
    assert_eq!(runs, (0, 1));
    assert_eq!(store.proving_key(), None);
    assert_eq!(store.verifying_key(), Some(&20));
}

#[test]
fn proving_request_first_wins() {
    let mut store = KeyStore::new();
    let mut runs = (0, 0);
    serve(&mut store, true, &mut runs);
    serve(&mut store, false, &mut runs);
    assert_eq!(runs, (1, 1));
    assert_eq!(store.proving_key(), Some(&10));
    assert_eq!(store.verifying_key(), Some(&20));
}

#[test]
fn verification_request_first_wins() {
    let mut store = KeyStore::new();
    let mut runs = (0, 0);
    serve(&mut store, false, &mut runs);
    serve(&mut store, true, &mut runs);
    assert_eq!(runs, (0, 1));
    assert_eq!(store.proving_key(), None);
    assert_eq!(store.verifying_key(), Some(&20));
}

#[test]
fn many_requests_generate_once() {
    let flags = [true, false, false, true, true, false, true, false];
    let mut store = KeyStore::new();
    let mut runs = (0, 0);
    for flag in flags {
        serve(&mut store, flag, &mut runs);
        assert!(store.is_loaded());
        assert_eq!(store.proving_key(), Some(&10));
        assert_eq!(store.verifying_key(), Some(&20));
    }
    assert_eq!(runs, (1, 1));
}

#[test]
fn many_requests_first_without_proving_key() {
    let flags = [false, true, true, true];
    let mut store = KeyStore::new();
    let mut runs = (0, 0);
    for flag in flags {
        serve(&mut store, flag, &mut runs);
        assert_eq!(store.proving_key(), None);
        assert_eq!(store.verifying_key(), Some(&20));
    }
    assert_eq!(runs, (0, 1));
}
