//! Last-known press/release state per (scope, device, scan code), used to
//! annotate keyboard notifications with a repeat flag.

use vstd::prelude::*;

verus! {

/// The observed position of a physical key: held down or released.
#[derive(Clone, Copy, Debug, PartialEq, Eq, Structural)]
pub enum ElementState {
    Pressed,
    Released,
}

/// Number of scan codes tracked per (scope, device) pair. Scan codes at or
/// above this bound violate a platform assumption and are rejected by
/// contract: they are not a recoverable input.
pub const SCAN_CODE_LIMIT: u32 = 128;

/// A new observation counts as a repeat exactly when it equals the state
/// already on record for its key.
pub open spec fn repeat_of(prev: ElementState, new: ElementState) -> bool {
    prev == new
}

struct KeyEntry {
    window_id: Option<u64>,
    device_id: u64,
    keys: Vec<ElementState>,
}

impl KeyEntry {
    spec fn wf(self) -> bool {
        self.keys.len() == SCAN_CODE_LIMIT
    }

    spec fn matches(self, window_id: Option<u64>, device_id: u64) -> bool {
        self.window_id == window_id && self.device_id == device_id
    }
}

/// Per-key state records, created lazily on first observation of a
/// (scope, device) pair and never removed. The scope is either a specific
/// window (`Some(window_id)`) or device-global (`None`), and the two kinds of
/// scope never share records.
pub struct KeyboardState {
    entries: Vec<KeyEntry>,
}

impl KeyboardState {
    /// Every record tracks exactly `SCAN_CODE_LIMIT` keys, and no
    /// (scope, device) pair has two records.
    pub closed spec fn wf(self) -> bool {
        &&& forall|i: int| 0 <= i < self.entries.len() ==> (#[trigger] self.entries[i]).wf()
        &&& forall|i: int, j: int|
            0 <= i < self.entries.len() && 0 <= j < self.entries.len() && i != j
                ==> !((#[trigger] self.entries[i]).window_id == (#[trigger] self.entries[j]).window_id
                    && self.entries[i].device_id == self.entries[j].device_id)
    }

    spec fn has_entry(self, window_id: Option<u64>, device_id: u64) -> bool {
        exists|i: int|
            0 <= i < self.entries.len() && (#[trigger] self.entries[i]).matches(window_id, device_id)
    }

    spec fn entry_index(self, window_id: Option<u64>, device_id: u64) -> int {
        choose|i: int|
            0 <= i < self.entries.len() && (#[trigger] self.entries[i]).matches(window_id, device_id)
    }

    /// The state on record for one key. Keys that were never observed are
    /// released.
    pub closed spec fn spec_state(self, window_id: Option<u64>, device_id: u64, scan_code: u32) -> ElementState {
        if self.has_entry(window_id, device_id) && scan_code < SCAN_CODE_LIMIT {
            self.entries[self.entry_index(window_id, device_id)].keys[scan_code as int]
        } else {
            ElementState::Released
        }
    }

    /// A fresh keyboard state: nothing observed yet, every key released.
    pub fn new() -> (r: KeyboardState)
        ensures
            r.wf(),
            forall|w: Option<u64>, d: u64, s: u32| #[trigger] r.spec_state(w, d, s) == ElementState::Released,
    {
        KeyboardState { entries: Vec::new() }
    }

    /// Index of the record for (window_id, device_id), creating it with every
    /// key released when the pair was never observed.
    fn find_or_insert(&mut self, window_id: Option<u64>, device_id: u64) -> (idx: usize)
        requires
            old(self).wf(),
        ensures
            final(self).wf(),
            idx < final(self).entries.len(),
            final(self).entries[idx as int].matches(window_id, device_id),
            final(self).has_entry(window_id, device_id),
            final(self).entry_index(window_id, device_id) == idx,
            forall|w: Option<u64>, d: u64, s: u32|
                #[trigger] final(self).spec_state(w, d, s) == old(self).spec_state(w, d, s),
    {
        let ghost orig = *self;
        let mut i: usize = 0;
        while i < self.entries.len()
            invariant
                *self == orig,
                orig.wf(),
                i <= self.entries.len(),
                forall|j: int| 0 <= j < i ==> !(#[trigger] self.entries[j]).matches(window_id, device_id),
            decreases self.entries.len() - i,
        {
            let hit = self.entries[i].window_id == window_id && self.entries[i].device_id == device_id;
            if hit {
                proof {
                    assert(self.entries[i as int].matches(window_id, device_id));
                    let k = self.entry_index(window_id, device_id);
                    assert(self.entries[k].matches(window_id, device_id));
                    assert(k == i);
                }
                return i;
            }
            i += 1;
        }
        proof {
            assert(!orig.has_entry(window_id, device_id));
        }
        let keys: Vec<ElementState> = vec![ElementState::Released; SCAN_CODE_LIMIT as usize];
        self.entries.push(KeyEntry { window_id, device_id, keys });
        proof {
            let n = self.entries.len() - 1;
            assert(self.entries[n].matches(window_id, device_id));
            assert forall|a: int, b: int|
                0 <= a < self.entries.len() && 0 <= b < self.entries.len() && a != b
                    implies !((self.entries[a]).window_id == (self.entries[b]).window_id
                        && self.entries[a].device_id == self.entries[b].device_id) by {
                if a < n && b < n {
                    assert(orig.entries[a] == self.entries[a]);
                    assert(orig.entries[b] == self.entries[b]);
                } else if a == n {
                    assert(!orig.entries[b].matches(window_id, device_id));
                } else {
                    assert(!orig.entries[a].matches(window_id, device_id));
                }
            }
            let k = self.entry_index(window_id, device_id);
            assert(self.entries[k].matches(window_id, device_id));
            assert(k == n);
            assert forall|w: Option<u64>, d: u64, s: u32|
                #[trigger] self.spec_state(w, d, s) == orig.spec_state(w, d, s) by {
                if w == window_id && d == device_id {
                    assert(!orig.has_entry(w, d));
                    if s < SCAN_CODE_LIMIT {
                        assert(self.spec_state(w, d, s) == self.entries[n].keys[s as int]);
                        assert(self.entries[n].keys[s as int] == ElementState::Released);
                    }
                } else {
                    if orig.has_entry(w, d) {
                        let j = orig.entry_index(w, d);
                        assert(orig.entries[j].matches(w, d));
                        assert(self.entries[j].matches(w, d));
                        assert(self.has_entry(w, d));
                        let j2 = self.entry_index(w, d);
                        assert(self.entries[j2].matches(w, d));
                        assert(j2 != n);
                        assert(j2 == j);
                    } else {
                        assert forall|j: int|
                            0 <= j < self.entries.len()
                                implies !(#[trigger] self.entries[j]).matches(w, d) by {
                            if j < n {
                                assert(self.entries[j] == orig.entries[j]);
                            }
                        }
                        assert(!self.has_entry(w, d));
                    }
                }
            }
        }
        self.entries.len() - 1
    }

    /// The persisted last-observed state for (scope, device, scan_code),
    /// creating the backing record on first access. The default for a key
    /// never observed is `Released`.
    pub fn key_state(&mut self, window_id: Option<u64>, device_id: u64, scan_code: u32) -> (state: ElementState)
        requires
            old(self).wf(),
            scan_code < SCAN_CODE_LIMIT,
        ensures
            final(self).wf(),
            state == old(self).spec_state(window_id, device_id, scan_code),
            forall|w: Option<u64>, d: u64, s: u32|
                #[trigger] final(self).spec_state(w, d, s) == old(self).spec_state(w, d, s),
    {
        let idx = self.find_or_insert(window_id, device_id);
        proof {
            assert(self.spec_state(window_id, device_id, scan_code)
                == self.entries[idx as int].keys[scan_code as int]);
        }
        self.entries[idx].keys[scan_code as usize]
    }

    /// Record a new observation for one key and report whether it repeats the
    /// state that was on record: the stored state is compared before it is
    /// overwritten, and a repeat is exactly an observation equal to it.
    pub fn transition(&mut self, window_id: Option<u64>, device_id: u64, scan_code: u32, state: ElementState) -> (repeat: bool)
        requires
            old(self).wf(),
            scan_code < SCAN_CODE_LIMIT,
        ensures
            final(self).wf(),
            repeat == repeat_of(old(self).spec_state(window_id, device_id, scan_code), state),
            final(self).spec_state(window_id, device_id, scan_code) == state,
            forall|w: Option<u64>, d: u64, s: u32|
                !(w == window_id && d == device_id && s == scan_code)
                    ==> #[trigger] final(self).spec_state(w, d, s) == old(self).spec_state(w, d, s),
    {
        let idx = self.find_or_insert(window_id, device_id);
        let ghost mid = *self;
        let prev = self.entries[idx].keys[scan_code as usize];
        proof {
            assert(mid.spec_state(window_id, device_id, scan_code) == prev);
        }
        self.entries[idx].keys[scan_code as usize] = state;
        proof {
            assert(self.entries.len() == mid.entries.len());
            assert(forall|j: int|
                0 <= j < self.entries.len() && j != idx ==> self.entries[j] == mid.entries[j]);
            assert(self.entries[idx as int].window_id == mid.entries[idx as int].window_id);
            assert(self.entries[idx as int].device_id == mid.entries[idx as int].device_id);
            assert(self.entries[idx as int].keys.len() == mid.entries[idx as int].keys.len());
            assert(self.entries[idx as int].keys[scan_code as int] == state);
            assert(forall|s: int|
                0 <= s < mid.entries[idx as int].keys.len() && s != scan_code
                    ==> self.entries[idx as int].keys[s] == mid.entries[idx as int].keys[s]);
            assert forall|a: int, b: int|
                0 <= a < self.entries.len() && 0 <= b < self.entries.len() && a != b
                    implies !((self.entries[a]).window_id == (self.entries[b]).window_id
                        && self.entries[a].device_id == self.entries[b].device_id) by {
                assert(self.entries[a].window_id == mid.entries[a].window_id);
                assert(self.entries[a].device_id == mid.entries[a].device_id);
                assert(self.entries[b].window_id == mid.entries[b].window_id);
                assert(self.entries[b].device_id == mid.entries[b].device_id);
            }
            assert(self.has_entry(window_id, device_id)) by {
                assert(self.entries[idx as int].matches(window_id, device_id));
            }
            let k = self.entry_index(window_id, device_id);
            assert(self.entries[k].matches(window_id, device_id));
            assert(k == idx);
            assert forall|w: Option<u64>, d: u64, s: u32|
                !(w == window_id && d == device_id && s == scan_code)
                    implies #[trigger] self.spec_state(w, d, s) == mid.spec_state(w, d, s) by {
                if w == window_id && d == device_id {
                    assert(self.spec_state(w, d, s) == mid.spec_state(w, d, s));
                } else {
                    if mid.has_entry(w, d) {
                        let j = mid.entry_index(w, d);
                        assert(mid.entries[j].matches(w, d));
                        assert(j != idx);
                        assert(self.entries[j].matches(w, d));
                        let j2 = self.entry_index(w, d);
                        assert(self.entries[j2].matches(w, d));
                        assert(j2 == j);
                    } else {
                        assert forall|j: int|
                            0 <= j < self.entries.len()
                                implies !(#[trigger] self.entries[j]).matches(w, d) by {
                            assert(self.entries[j].window_id == mid.entries[j].window_id);
                            assert(self.entries[j].device_id == mid.entries[j].device_id);
                        }
                        assert(!self.has_entry(w, d));
                    }
                }
            }
        }
        prev == state
    }
}

/// How recording `observation` (or none) relates a keyboard state `post` to
/// the state `pre` it came from: the observed key now holds the observed
/// state, and every other key is untouched.
pub open spec fn keyboard_updated(
    pre: KeyboardState,
    post: KeyboardState,
    observation: Option<(Option<u64>, u64, u32, ElementState)>,
) -> bool {
    match observation {
        None => forall|w: Option<u64>, d: u64, s: u32|
            #[trigger] post.spec_state(w, d, s) == pre.spec_state(w, d, s),
        Some(obs) => {
            &&& post.spec_state(obs.0, obs.1, obs.2) == obs.3
            &&& forall|w: Option<u64>, d: u64, s: u32|
                !(w == obs.0 && d == obs.1 && s == obs.2)
                    ==> #[trigger] post.spec_state(w, d, s) == pre.spec_state(w, d, s)
        },
    }
}

/// Law of repeat detection. Take any sequence of notifications `inputs`
/// delivered to one (scope, device, scan code) triple, the keyboard states
/// `states` the triple's record passes through while they are recorded, and
/// the repeat flags `flags` they earn: the requires clauses are exactly what
/// [`KeyboardState::transition`] ensures of each call. Then the k-th
/// notification is marked a repeat exactly when its state equals the
/// (k-1)-th notification's state; and the first notification for a
/// previously unseen key — whose record holds `Released`, as
/// [`KeyboardState::new`] ensures — is not marked a repeat when it is a
/// press.
pub proof fn lemma_repeat_detection(
    states: Seq<KeyboardState>,
    flags: Seq<bool>,
    inputs: Seq<ElementState>,
    window_id: Option<u64>,
    device_id: u64,
    scan_code: u32,
)
    requires
        states.len() == inputs.len() + 1,
        flags.len() == inputs.len(),
        forall|k: int| 0 <= k < inputs.len()
            ==> #[trigger] states[k + 1].spec_state(window_id, device_id, scan_code) == inputs[k],
        forall|k: int| 0 <= k < inputs.len()
            ==> #[trigger] flags[k] == repeat_of(
                states[k].spec_state(window_id, device_id, scan_code),
                inputs[k],
            ),
    ensures
        forall|k: int| 1 <= k < inputs.len() ==> #[trigger] flags[k] == (inputs[k] == inputs[k
            - 1]),
        inputs.len() > 0 && states[0].spec_state(window_id, device_id, scan_code)
            == ElementState::Released && inputs[0] == ElementState::Pressed ==> !flags[0],
{
    assert forall|k: int| 1 <= k < inputs.len() implies #[trigger] flags[k] == (inputs[k]
        == inputs[k - 1]) by {
        let j = k - 1;
        assert(states[j + 1].spec_state(window_id, device_id, scan_code) == inputs[j]);
    }
}

} // verus!
