use vstd::prelude::*;
use crate::keys::Keys;
use crate::keys::chord_from_seq;
use crate::keys::chord_wf;

verus! {

/// What serde_json yields for a binding-table text: `None` when the text is
/// not valid JSON of the expected shape (a list of entries, each an action
/// name with its key identifiers), otherwise those entries in order.
pub uninterp spec fn parsed_bindings(s: Seq<char>) -> Option<Seq<(Seq<char>, Seq<u32>)>>;

/// The view of raw (name, key list) entries.
pub open spec fn raw_entries_view(s: Seq<(String, Vec<u32>)>) -> Seq<(Seq<char>, Seq<u32>)> {
    Seq::new(s.len(), |i: int| (s[i].0@, s[i].1@))
}

/// The view a binding list takes once each key list is folded into a
/// canonical chord.
pub open spec fn canon_bindings(s: Seq<(Seq<char>, Seq<u32>)>) -> Seq<(Seq<char>, Seq<u32>)> {
    Seq::new(s.len(), |i: int| (s[i].0, chord_from_seq(s[i].1)))
}

/// The built-in safe bindings synthesized when the user's table is missing
/// or unreadable: Escape leaves input focus, Control+Z clicks undo.
pub open spec fn default_bindings() -> Seq<(Seq<char>, Seq<u32>)> {
    seq![("kill_focus"@, seq![0x1bu32]), ("undo"@, seq![0x11u32, 0x5au32])]
}

/// Relies on serde_json::from_str: decodes JSON text into the listed
/// (action name, key identifiers) pairs; the result depends on the text
/// alone.
#[verifier::external_body]
fn parse_binding_entries(text: &str) -> (r: Option<Vec<(String, Vec<u32>)>>)
    ensures
        r is Some <==> parsed_bindings(text@) is Some,
        r is Some ==> raw_entries_view(r->Some_0@) == parsed_bindings(text@)->Some_0,
{
    serde_json::from_str::<Vec<(String, Vec<u32>)>>(text).ok()
}

/// Binding Table: user-chosen mapping from symbolic action name to chord.
/// Its view lists (name, canonical chord) pairs in table order.
pub struct KeyMap {
    entries: Vec<(String, Keys)>,
}

impl View for KeyMap {
    type V = Seq<(Seq<char>, Seq<u32>)>;

    closed spec fn view(&self) -> Seq<(Seq<char>, Seq<u32>)> {
        Seq::new(self.entries@.len(), |i: int| (self.entries@[i].0@, self.entries@[i].1@))
    }
}

impl KeyMap {
    /// All chords of the table are well-formed.
    pub open spec fn wf(&self) -> bool {
        forall|i: int| 0 <= i < self@.len() ==> chord_wf(#[trigger] self@[i].1)
    }

    /// Builds the table from raw entries: every key list becomes a chord,
    /// duplicates skipped and capped, names and order kept.
    pub fn from_entries(entries: &Vec<(String, Vec<u32>)>) -> (r: KeyMap)
        ensures
            r@ == canon_bindings(raw_entries_view(entries@)),
            r.wf(),
    {
        let mut es: Vec<(String, Keys)> = Vec::new();
        let mut i: usize = 0;
        while i < entries.len()
            invariant
                i <= entries.len(),
                es@.len() == i,
                forall|j: int|
                    0 <= j < i ==> (#[trigger] es@[j]).0@ == entries@[j].0@ && es@[j].1@
                        == chord_from_seq(entries@[j].1@) && chord_wf(es@[j].1@),
            decreases entries.len() - i,
        {
            let e = &entries[i];
            es.push((e.0.clone(), Keys::from_slice(e.1.as_slice())));
            i = i + 1;
        }
        let r = KeyMap { entries: es };
        proof {
            assert(r@ =~= canon_bindings(raw_entries_view(entries@)));
        }
        r
    }

    /// Loads the table from its on-disk JSON text: `None` exactly when the
    /// text does not decode; otherwise the decoded entries, canonicalized.
    pub fn from_json(text: &str) -> (r: Option<KeyMap>)
        ensures
            r is Some <==> parsed_bindings(text@) is Some,
            r is Some ==> r->Some_0@ == canon_bindings(parsed_bindings(text@)->Some_0),
            r is Some ==> r->Some_0.wf(),
    {
        match parse_binding_entries(text) {
            Some(v) => Some(KeyMap::from_entries(&v)),
            None => None,
        }
    }

    /// Number of bindings.
    pub fn len(&self) -> (r: usize)
        ensures
            r == self@.len(),
    {
        self.entries.len()
    }

    /// The binding at a position: (action name, chord).
    pub fn get_entry(&self, i: usize) -> (r: (String, Keys))
        requires
            i < self@.len(),
        ensures
            r.0@ == self@[i as int].0,
            r.1@ == self@[i as int].1,
    {
        let e = &self.entries[i];
        (e.0.clone(), e.1.duplicate())
    }

    /// The table's raw entries, for persisting it to disk.
    pub fn to_entries(&self) -> (r: Vec<(String, Vec<u32>)>)
        ensures
            raw_entries_view(r@) == self@,
    {
        let mut out: Vec<(String, Vec<u32>)> = Vec::new();
        let mut i: usize = 0;
        while i < self.entries.len()
            invariant
                i <= self.entries.len(),
                out@.len() == i,
                forall|j: int|
                    0 <= j < i ==> (#[trigger] out@[j]).0@ == self@[j].0 && out@[j].1@
                        == self@[j].1,
            decreases self.entries.len() - i,
        {
            let e = &self.entries[i];
            out.push((e.0.clone(), e.1.codes_vec()));
            i = i + 1;
        }
        proof {
            assert(raw_entries_view(out@) =~= self@);
        }
        out
    }
}

impl Default for KeyMap {
    /// The synthesized default table.
    fn default() -> (r: KeyMap)
        ensures
            r@ == canon_bindings(default_bindings()),
            r.wf(),
    {
        let mut entries: Vec<(String, Vec<u32>)> = Vec::new();
        let mut ks1: Vec<u32> = Vec::new();
        ks1.push(0x1b);
        entries.push(("kill_focus".to_owned(), ks1));
        let mut ks2: Vec<u32> = Vec::new();
        ks2.push(0x11);
        ks2.push(0x5a);
        entries.push(("undo".to_owned(), ks2));
        let r = KeyMap::from_entries(&entries);
        proof {
            assert(raw_entries_view(entries@) =~~= default_bindings());
            assert(r@ =~~= canon_bindings(default_bindings()));
        }
        r
    }
}

} // verus!
