use vstd::prelude::*;
use vstd::std_specs::cmp::PartialEqSpec;

verus! {

/// Largest number of key identifiers a chord may hold.
pub const CHORD_MAX: usize = 3;

/// Virtual key code for Tab.
pub const VK_TAB: u32 = 0x09;
/// Virtual key code for Shift.
pub const VK_SHIFT: u32 = 0x10;
/// Virtual key code for Control.
pub const VK_CONTROL: u32 = 0x11;

/// In a keyboard snapshot, a key counts as down when the high bit of its
/// state byte is set.
pub open spec fn snap_down(s: Seq<u8>, k: int) -> bool {
    s[k] & 0x80 != 0
}

/// Appending one key to a chord: kept out if already present or if the
/// chord is full.
pub open spec fn chord_insert(s: Seq<u32>, k: u32) -> Seq<u32> {
    if s.contains(k) || s.len() >= CHORD_MAX {
        s
    } else {
        s.push(k)
    }
}

/// The chord built by inserting the listed keys one by one, left to right.
pub open spec fn chord_from_seq(s: Seq<u32>) -> Seq<u32>
    decreases s.len(),
{
    if s.len() == 0 {
        Seq::empty()
    } else {
        chord_insert(chord_from_seq(s.drop_last()), s.last())
    }
}

/// The keys found down in the first `n` entries of a snapshot, in ascending
/// key-id order, capped at `CHORD_MAX`.
pub open spec fn chord_of_prefix(s: Seq<u8>, n: int) -> Seq<u32>
    decreases n,
{
    if n <= 0 {
        Seq::empty()
    } else {
        let rest = chord_of_prefix(s, n - 1);
        if snap_down(s, n - 1) && rest.len() < CHORD_MAX {
            rest.push((n - 1) as u32)
        } else {
            rest
        }
    }
}

/// The chord a full snapshot canonicalizes to.
pub open spec fn chord_of_snapshot(s: Seq<u8>) -> Seq<u32> {
    chord_of_prefix(s, s.len() as int)
}

/// A chord: the set of key identifiers held down together, captured from a
/// keyboard snapshot. Discovery order is irrelevant: two chords are equal
/// exactly when they hold the same set of key identifiers.
pub struct Keys {
    codes: Vec<u32>,
}

impl View for Keys {
    type V = Seq<u32>;

    closed spec fn view(&self) -> Seq<u32> {
        self.codes@
    }
}

/// A well-formed chord sequence: duplicate-free and within the size cap.
pub open spec fn chord_wf(s: Seq<u32>) -> bool {
    s.no_duplicates() && s.len() <= CHORD_MAX
}

impl Keys {
    /// The set of key identifiers this chord stands for.
    pub open spec fn key_set(&self) -> Set<u32> {
        self@.to_set()
    }

    /// Well-formed: duplicate-free and within the size cap.
    pub open spec fn wf(&self) -> bool {
        chord_wf(self@)
    }

    /// The empty chord.
    pub fn empty() -> (r: Keys)
        ensures
            r@ == Seq::<u32>::empty(),
            r.wf(),
    {
        Keys { codes: Vec::new() }
    }

    /// Whether the chord holds the given key identifier.
    pub fn contains_key(&self, k: u32) -> (r: bool)
        ensures
            r == self.key_set().contains(k),
    {
        let mut i: usize = 0;
        while i < self.codes.len()
            invariant
                i <= self.codes.len(),
                forall|j: int| 0 <= j < i ==> self.codes@[j] != k,
            decreases self.codes.len() - i,
        {
            if self.codes[i] == k {
                return true;
            }
            i = i + 1;
        }
        proof {
            assert(!self@.contains(k));
        }
        false
    }

    /// Builds the chord that holds the listed keys, inserted left to right,
    /// duplicates skipped, capped at `CHORD_MAX`.
    pub fn from_slice(codes: &[u32]) -> (r: Keys)
        ensures
            r@ == chord_from_seq(codes@),
            r.wf(),
    {
        let mut r = Keys::empty();
        let mut i: usize = 0;
        while i < codes.len()
            invariant
                i <= codes.len(),
                r@ == chord_from_seq(codes@.take(i as int)),
                r.wf(),
            decreases codes.len() - i,
        {
            proof {
                assert(codes@.take(i + 1).drop_last() =~= codes@.take(i as int));
                assert(codes@.take(i + 1).last() == codes@[i as int]);
            }
            r = r.with_extra(codes[i]);
            i = i + 1;
        }
        proof {
            assert(codes@.take(codes@.len() as int) =~= codes@);
        }
        r
    }

    /// The chord extended by one more key identifier, unless that key is
    /// already present or the chord is full; the receiver is unchanged.
    pub fn with_extra(&self, k: u32) -> (r: Keys)
        requires
            self.wf(),
        ensures
            r@ == chord_insert(self@, k),
            r.wf(),
    {
        if self.contains_key(k) || self.codes.len() >= CHORD_MAX {
            proof {
                assert(self@.to_set().contains(k) ==> self@.contains(k));
            }
            Keys { codes: copy_codes(&self.codes) }
        } else {
            let mut codes = copy_codes(&self.codes);
            codes.push(k);
            Keys { codes }
        }
    }

    /// Canonicalizes a keyboard snapshot: scans the key-down bitfield in
    /// ascending key-id order and collects the first `CHORD_MAX` keys that
    /// are down. Total and deterministic.
    pub fn from_snapshot(state: &[u8]) -> (r: Keys)
        requires
            state@.len() <= 0x1_0000_0000,
        ensures
            r@ == chord_of_snapshot(state@),
            r.wf(),
    {
        let mut codes: Vec<u32> = Vec::new();
        let mut i: usize = 0;
        while i < state.len()
            invariant
                i <= state@.len() <= 0x1_0000_0000,
                codes@ == chord_of_prefix(state@, i as int),
                codes@.len() <= CHORD_MAX,
            decreases state.len() - i,
        {
            if state[i] & 0x80 != 0 && codes.len() < CHORD_MAX {
                codes.push(i as u32);
            }
            i = i + 1;
        }
        proof {
            lemma_chord_of_prefix_wf(state@, state@.len() as int);
        }
        Keys { codes }
    }

    /// An element-for-element copy of this chord.
    pub fn duplicate(&self) -> (r: Keys)
        ensures
            r@ == self@,
    {
        Keys { codes: copy_codes(&self.codes) }
    }

    /// The chord's key identifiers as a plain vector, in storage order.
    pub fn codes_vec(&self) -> (r: Vec<u32>)
        ensures
            r@ == self@,
    {
        copy_codes(&self.codes)
    }

    /// Whether every key of this chord is also in `other`.
    pub fn is_included(&self, other: &Keys) -> (r: bool)
        ensures
            r == self.key_set().subset_of(other.key_set()),
    {
        let mut i: usize = 0;
        while i < self.codes.len()
            invariant
                i <= self.codes.len(),
                forall|j: int| 0 <= j < i ==> other.key_set().contains(self.codes@[j]),
            decreases self.codes.len() - i,
        {
            if !other.contains_key(self.codes[i]) {
                proof {
                    assert(self.key_set().contains(self@[i as int]));
                }
                return false;
            }
            i = i + 1;
        }
        proof {
            assert forall|x: u32| self.key_set().contains(x) implies other.key_set().contains(
                x,
            ) by {
                let j = choose|j: int| 0 <= j < self@.len() && self@[j] == x;
                assert(other.key_set().contains(self.codes@[j]));
            }
        }
        true
    }
}

/// A plain element-for-element copy of a key-code vector.
fn copy_codes(codes: &Vec<u32>) -> (r: Vec<u32>)
    ensures
        r@ == codes@,
{
    let mut r: Vec<u32> = Vec::new();
    let mut i: usize = 0;
    while i < codes.len()
        invariant
            i <= codes.len(),
            r@ == codes@.take(i as int),
        decreases codes.len() - i,
    {
        r.push(codes[i]);
        proof {
            assert(codes@.take(i + 1) =~= codes@.take(i as int).push(codes@[i as int]));
        }
        i = i + 1;
    }
    proof {
        assert(codes@.take(codes@.len() as int) =~= codes@);
    }
    r
}

/// Every prefix chord of a snapshot is duplicate-free, capped, and holds
/// only key ids below the prefix length.
pub proof fn lemma_chord_of_prefix_wf(s: Seq<u8>, n: int)
    requires
        n <= 0x1_0000_0000,
    ensures
        chord_of_prefix(s, n).no_duplicates(),
        chord_of_prefix(s, n).len() <= CHORD_MAX,
        forall|j: int|
            0 <= j < chord_of_prefix(s, n).len() ==> (#[trigger] chord_of_prefix(s, n)[j]) < n,
    decreases n,
{
    if n > 0 {
        lemma_chord_of_prefix_wf(s, n - 1);
    }
}

/// A single key canonicalizes to the one-element chord.
pub proof fn lemma_chord_single(k: u32)
    ensures
        chord_from_seq(seq![k]) == seq![k],
{
    assert(seq![k].drop_last() =~= Seq::<u32>::empty());
    assert(seq![k].last() == k);
    assert(!Seq::<u32>::empty().contains(k));
    assert(chord_insert(Seq::<u32>::empty(), k) =~= seq![k]);
    assert(chord_from_seq(Seq::<u32>::empty()) == Seq::<u32>::empty());
    assert(chord_from_seq(seq![k]) =~= seq![k]);
}

impl PartialEq for Keys {
    /// Chord equality: set semantics over the contained key identifiers.
    fn eq(&self, other: &Keys) -> (r: bool) {
        let r = self.is_included(other) && other.is_included(self);
        proof {
            if r {
                assert(self.key_set() =~= other.key_set());
            }
        }
        r
    }
}

impl Eq for Keys {

}

impl vstd::std_specs::cmp::PartialEqSpecImpl for Keys {
    open spec fn obeys_eq_spec() -> bool {
        true
    }

    open spec fn eq_spec(&self, other: &Keys) -> bool {
        self.key_set() == other.key_set()
    }
}

/// Chord equality is an equivalence relation: reflexive, symmetric and
/// transitive, resting only on the set of contained key identifiers.
pub proof fn lemma_keys_eq_equivalence(a: &Keys, b: &Keys, c: &Keys)
    ensures
        a.eq_spec(a),
        a.eq_spec(b) ==> b.eq_spec(a),
        a.eq_spec(b) && b.eq_spec(c) ==> a.eq_spec(c),
{
}

/// Two snapshots that agree pointwise on which keys are down canonicalize
/// to the same chord.
pub proof fn lemma_snapshot_chord_deterministic(s1: Seq<u8>, s2: Seq<u8>)
    requires
        s1.len() == s2.len(),
        forall|k: int| 0 <= k < s1.len() ==> snap_down(s1, k) == snap_down(s2, k),
    ensures
        chord_of_snapshot(s1) == chord_of_snapshot(s2),
{
    lemma_chord_of_prefix_deterministic(s1, s2, s1.len() as int);
}

proof fn lemma_chord_of_prefix_deterministic(s1: Seq<u8>, s2: Seq<u8>, n: int)
    requires
        n <= s1.len(),
        s1.len() == s2.len(),
        forall|k: int| 0 <= k < s1.len() ==> snap_down(s1, k) == snap_down(s2, k),
    ensures
        chord_of_prefix(s1, n) == chord_of_prefix(s2, n),
    decreases n,
{
    if n > 0 {
        lemma_chord_of_prefix_deterministic(s1, s2, n - 1);
    }
}

} // verus!
