//! What holds of any sequence of load requests on one key store.
use vstd::prelude::*;

use crate::params::{after_request, after_requests, generation_runs, unloaded, KeyPresence};

verus! {

/// However many requests arrive, and whatever their flags, key generation
/// runs exactly once: for the first request to take the store. Every request,
/// when it returns, leaves the store loaded with a verifying key, and with a
/// proving key exactly when that first request asked for one.
pub proof fn lemma_requests_load_once(flags: Seq<bool>)
    requires
        flags.len() >= 1,
    ensures
        generation_runs(unloaded(), flags) == 1,
        after_requests(unloaded(), flags) == after_request(unloaded(), flags[0]),
        forall|k: int|
            1 <= k <= flags.len() ==> {
                let s = #[trigger] after_requests(unloaded(), flags.take(k));
                &&& s.loaded
                &&& s.verifying
                &&& s.proving == flags[0]
            },
{
    let first = after_request(unloaded(), flags[0]);
    lemma_loaded_is_fixed(first, flags.drop_first());
    assert forall|k: int| 1 <= k <= flags.len() implies {
        let s = #[trigger] after_requests(unloaded(), flags.take(k));
        &&& s.loaded
        &&& s.verifying
        &&& s.proving == flags[0]
    } by {
        let t = flags.take(k);
        assert(t[0] == flags[0]);
        assert(t.drop_first() =~= flags.drop_first().take(k - 1));
        lemma_loaded_is_fixed(first, t.drop_first());
    }
}

/// A request made after loading finds the store as it is, runs no key
/// generation, and changes nothing.
pub proof fn lemma_loaded_is_fixed(s: KeyPresence, flags: Seq<bool>)
    requires
        s.loaded,
    ensures
        generation_runs(s, flags) == 0,
        after_requests(s, flags) == s,
    decreases flags.len(),
{
    if flags.len() > 0 {
        lemma_loaded_is_fixed(after_request(s, flags[0]), flags.drop_first());
    }
}

/// Two requests one after the other: the second generates nothing, and the
/// store keeps what the first request asked for, whatever the second asks.
pub proof fn lemma_second_request_is_noop(first: bool, second: bool)
    ensures
        generation_runs(unloaded(), seq![first, second]) == 1,
        after_requests(unloaded(), seq![first, second]) == after_request(unloaded(), first),
        after_request(after_request(unloaded(), first), second) == after_request(unloaded(), first),
{
    lemma_requests_load_once(seq![first, second]);
}

} // verus!
