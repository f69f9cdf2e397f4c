use vstd::prelude::*;

verus! {

/// Direction a combo-box step moves the selection.
#[derive(Clone, Copy, PartialEq, Eq, Structural, Debug)]
pub enum ComboDir {
    Prev,
    Next,
}

/// UI-action descriptor: the closed set of things a chord can trigger.
#[derive(Clone, Copy, PartialEq, Eq, Structural, Debug)]
pub enum ItemKind {
    /// Pass-through virtual key: expose this key id as pressed to the host.
    Key(u32),
    /// Post a click to the control with this id.
    Button(u32),
    /// Move input focus to the control with this id.
    Edit(u32),
    /// Step the combo box with this id one entry in the given direction.
    Combo(ComboDir, u32),
    /// Invoke the menu item at (top-level index, sub-item index).
    Menu(u32, u32),
    /// Toggle a fold pair: (hide-control id, show-control id).
    Fold(u32, u32),
    /// Return input focus to the main window.
    KillFocus,
    /// Click every currently visible hide control.
    FoldAll,
    /// Click every currently visible show control.
    UnfoldAll,
}

/// First catalog entry whose name matches, if any.
pub open spec fn catalog_lookup(s: Seq<(Seq<char>, ItemKind)>, name: Seq<char>) -> Option<ItemKind>
    decreases s.len(),
{
    if s.len() == 0 {
        None
    } else if s[0].0 == name {
        Some(s[0].1)
    } else {
        catalog_lookup(s.drop_first(), name)
    }
}

/// Action Catalog: symbolic action name → UI-action descriptor, built once
/// at startup from the declarative description of the host's controls and
/// immutable afterwards.
pub struct MmdMap {
    entries: Vec<(String, ItemKind)>,
}

impl View for MmdMap {
    type V = Seq<(Seq<char>, ItemKind)>;

    closed spec fn view(&self) -> Seq<(Seq<char>, ItemKind)> {
        Seq::new(self.entries@.len(), |i: int| (self.entries@[i].0@, self.entries@[i].1))
    }
}

impl MmdMap {
    /// Builds the catalog from its entries, kept in order.
    pub fn from_entries(entries: Vec<(String, ItemKind)>) -> (r: MmdMap)
        ensures
            r@.len() == entries@.len(),
            forall|i: int|
                0 <= i < entries@.len() ==> r@[i] == (entries@[i].0@, entries@[i].1),
    {
        MmdMap { entries }
    }

    /// Number of catalog entries.
    pub fn len(&self) -> (r: usize)
        ensures
            r == self@.len(),
    {
        self.entries.len()
    }

    /// The entry at a position: (action name, descriptor).
    pub fn get_entry(&self, i: usize) -> (r: (String, ItemKind))
        requires
            i < self@.len(),
        ensures
            r.0@ == self@[i as int].0,
            r.1 == self@[i as int].1,
    {
        let e = &self.entries[i];
        (e.0.clone(), e.1)
    }

    /// The descriptor registered under the given action name, if any.
    pub fn get(&self, name: &String) -> (r: Option<ItemKind>)
        ensures
            r == catalog_lookup(self@, name@),
    {
        let mut i: usize = 0;
        proof {
            assert(self@.skip(0) =~= self@);
        }
        while i < self.entries.len()
            invariant
                i <= self.entries.len(),
                catalog_lookup(self@, name@) == catalog_lookup(self@.skip(i as int), name@),
            decreases self.entries.len() - i,
        {
            if self.entries[i].0 == *name {
                proof {
                    assert(self@.skip(i as int)[0] == self@[i as int]);
                }
                return Some(self.entries[i].1);
            }
            proof {
                assert(self@.skip(i as int)[0] == self@[i as int]);
                assert(self@.skip(i as int).drop_first() =~= self@.skip(i + 1));
            }
            i = i + 1;
        }
        proof {
            assert(self@.skip(self@.len() as int).len() == 0);
        }
        None
    }
}

} // verus!
