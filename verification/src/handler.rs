use vstd::prelude::*;
use std::collections::HashMap;
use crate::actions::ItemKind;
use crate::actions::MmdMap;
use crate::actions::catalog_lookup;
use crate::dispatch::DispatchMap;
use crate::dispatch::UiCommand;
use crate::dispatch::UiState;
use crate::dispatch::dispatch_commands;
use crate::dispatch::lookup_table;
use crate::dispatch::lemma_lookup_exists;
use crate::dispatch::spec_dispatch_commands;
use crate::dispatch::ui_wf;
use crate::key_map::KeyMap;
use crate::keys::Keys;
use crate::keys::VK_CONTROL;
use crate::keys::VK_SHIFT;
use crate::keys::VK_TAB;
use crate::keys::chord_insert;
use crate::keys::chord_of_snapshot;

verus! {

broadcast use vstd::std_specs::hash::group_hash_axioms;

/// Key ids below this threshold are reserved mouse-button codes and are
/// never virtualized.
pub const RESERVED_KEYS: u32 = 0x07;

/// The virtual press-state overlay seeded from a catalog: `false` for every
/// pass-through key id it declares.
pub open spec fn seed_overlay(cat: Seq<(Seq<char>, ItemKind)>) -> Map<u32, bool>
    decreases cat.len(),
{
    if cat.len() == 0 {
        Map::empty()
    } else {
        let m = seed_overlay(cat.drop_last());
        match cat.last().1 {
            ItemKind::Key(k) => m.insert(k, false),
            _ => m,
        }
    }
}

/// The hide-control ids of a catalog's fold pairs, in catalog order.
pub open spec fn fold_ids(cat: Seq<(Seq<char>, ItemKind)>) -> Seq<u32>
    decreases cat.len(),
{
    if cat.len() == 0 {
        Seq::empty()
    } else {
        let rest = fold_ids(cat.drop_last());
        match cat.last().1 {
            ItemKind::Fold(hide, _) => rest.push(hide),
            _ => rest,
        }
    }
}

/// The show-control ids of a catalog's fold pairs, in catalog order.
pub open spec fn unfold_ids(cat: Seq<(Seq<char>, ItemKind)>) -> Seq<u32>
    decreases cat.len(),
{
    if cat.len() == 0 {
        Seq::empty()
    } else {
        let rest = unfold_ids(cat.drop_last());
        match cat.last().1 {
            ItemKind::Fold(_, show) => rest.push(show),
            _ => rest,
        }
    }
}

/// The join of Binding Table and Action Catalog: one chord → descriptor
/// entry per binding whose action name the catalog knows, in table order.
pub open spec fn join_table(
    cat: Seq<(Seq<char>, ItemKind)>,
    bindings: Seq<(Seq<char>, Seq<u32>)>,
) -> Seq<(Seq<u32>, ItemKind)>
    decreases bindings.len(),
{
    if bindings.len() == 0 {
        Seq::empty()
    } else {
        let t = join_table(cat, bindings.drop_last());
        match catalog_lookup(cat, bindings.last().0) {
            Some(kind) => t.push((bindings.last().1, kind)),
            None => t,
        }
    }
}

/// The binding names the catalog does not know, in table order.
pub open spec fn unknown_names(
    cat: Seq<(Seq<char>, ItemKind)>,
    bindings: Seq<(Seq<char>, Seq<u32>)>,
) -> Seq<Seq<char>>
    decreases bindings.len(),
{
    if bindings.len() == 0 {
        Seq::empty()
    } else {
        let rest = unknown_names(cat, bindings.drop_last());
        match catalog_lookup(cat, bindings.last().0) {
            Some(_) => rest,
            None => rest.push(bindings.last().0),
        }
    }
}

/// The full dispatch table: the join, then the two modifier pass-through
/// entries, which override any colliding user binding.
pub open spec fn full_table(
    cat: Seq<(Seq<char>, ItemKind)>,
    bindings: Seq<(Seq<char>, Seq<u32>)>,
) -> Seq<(Seq<u32>, ItemKind)> {
    join_table(cat, bindings).push((seq![VK_CONTROL], ItemKind::Key(VK_CONTROL))).push(
        (seq![VK_SHIFT], ItemKind::Key(VK_SHIFT)),
    )
}

/// The overlay a freshly built engine starts from: the catalog seed plus
/// the two modifier keys, all released.
pub open spec fn full_overlay(cat: Seq<(Seq<char>, ItemKind)>) -> Map<u32, bool> {
    seed_overlay(cat).insert(VK_CONTROL, false).insert(VK_SHIFT, false)
}

/// The overlay after a pass-through dispatch of key `k`: when `k` is a
/// tracked non-modifier key, both modifier flags are cleared first; then
/// `k`'s own flag is set if tracked.
pub open spec fn key_overlay_step(m: Map<u32, bool>, k: u32) -> Map<u32, bool> {
    let m1 = if m.contains_key(k) && k != VK_SHIFT && k != VK_CONTROL {
        m.insert(VK_SHIFT, false).insert(VK_CONTROL, false)
    } else {
        m
    };
    if m1.contains_key(k) {
        m1.insert(k, true)
    } else {
        m1
    }
}

/// The overlay change of dispatching one descriptor: only pass-through
/// descriptors touch it.
pub open spec fn dispatch_overlay(m: Map<u32, bool>, item: ItemKind) -> Map<u32, bool> {
    match item {
        ItemKind::Key(k) => key_overlay_step(m, k),
        _ => m,
    }
}

/// Whether the table currently resolves some chord to pass-through key `k`.
pub open spec fn live_passthrough(t: Seq<(Seq<u32>, ItemKind)>, k: u32) -> bool {
    exists|i: int|
        0 <= i < t.len() && lookup_table(t, (#[trigger] t[i]).0.to_set()) == Some(ItemKind::Key(k))
}

/// The overlay after a key-up rescan against the freshly captured chord:
/// every tracked key the table passes through and that is no longer held
/// is cleared; all other flags keep their value.
pub open spec fn overlay_after_key_up(
    m: Map<u32, bool>,
    t: Seq<(Seq<u32>, ItemKind)>,
    ch: Set<u32>,
) -> Map<u32, bool> {
    Map::new(
        |k: u32| m.contains_key(k),
        |k: u32|
            if live_passthrough(t, k) && !ch.contains(k) {
                false
            } else {
                m[k]
            },
    )
}

/// The tri-state answer of a virtual key-state query: `None` when the key
/// is reserved or untracked (the caller falls back to the raw state),
/// otherwise the overlay flag; the tab key reports pressed throughout
/// tab-stop mode.
pub open spec fn spec_is_pressed(m: Map<u32, bool>, tabstop: bool, vk: u32) -> Option<bool> {
    if vk < RESERVED_KEYS {
        None
    } else if vk == VK_TAB && tabstop {
        Some(true)
    } else if m.contains_key(vk) {
        Some(m[vk])
    } else {
        None
    }
}

/// The chord a key-down event matches in the table: the snapshot chord
/// itself, or — when that misses — the chord retried with the event's own
/// key id appended.
pub open spec fn kd_match(t: Seq<(Seq<u32>, ItemKind)>, ch: Seq<u32>, vk: u32) -> Option<
    ItemKind,
> {
    if lookup_table(t, ch.to_set()) is Some {
        lookup_table(t, ch.to_set())
    } else {
        lookup_table(t, chord_insert(ch, vk).to_set())
    }
}

/// Whether a key-down enters tab-stop mode: focus sits in a text-entry
/// control and the chord is exactly the tab key.
pub open spec fn kd_tab_case(ch: Seq<u32>, focused_is_edit: bool) -> bool {
    focused_is_edit && ch.to_set() == seq![VK_TAB].to_set()
}

/// Whether a key-down is consumed: it enters tab-stop mode or its chord
/// matches the table.
pub open spec fn kd_consumed(t: Seq<(Seq<u32>, ItemKind)>, ch: Seq<u32>, vk: u32, edit: bool) -> bool {
    kd_tab_case(ch, edit) || kd_match(t, ch, vk) is Some
}

/// The UI commands a key-down gives rise to. Inside a text-entry control
/// only kill-focus acts; entering tab-stop mode dispatches nothing.
pub open spec fn kd_commands(
    t: Seq<(Seq<u32>, ItemKind)>,
    folds: Seq<u32>,
    unfolds: Seq<u32>,
    ch: Seq<u32>,
    vk: u32,
    edit: bool,
    ui: &UiState,
) -> Seq<UiCommand> {
    if kd_tab_case(ch, edit) {
        Seq::empty()
    } else {
        match kd_match(t, ch, vk) {
            None => Seq::empty(),
            Some(item) => if edit {
                if item == ItemKind::KillFocus {
                    seq![UiCommand::FocusMain]
                } else {
                    Seq::empty()
                }
            } else {
                spec_dispatch_commands(item, ui, folds, unfolds)
            },
        }
    }
}

/// The overlay after a key-down: only a pass-through match outside a
/// text-entry control changes it.
pub open spec fn kd_overlay(
    t: Seq<(Seq<u32>, ItemKind)>,
    m: Map<u32, bool>,
    ch: Seq<u32>,
    vk: u32,
    edit: bool,
) -> Map<u32, bool> {
    if kd_tab_case(ch, edit) {
        m
    } else {
        match kd_match(t, ch, vk) {
            None => m,
            Some(item) => if edit {
                m
            } else {
                dispatch_overlay(m, item)
            },
        }
    }
}

/// The tab-stop flag after a key-down.
pub open spec fn kd_tabstop(ts: bool, ch: Seq<u32>, edit: bool) -> bool {
    if kd_tab_case(ch, edit) {
        true
    } else {
        ts
    }
}

/// The views of a list of warning strings.
pub open spec fn strings_view(s: Seq<String>) -> Seq<Seq<char>> {
    Seq::new(s.len(), |i: int| s[i]@)
}

/// Remap Engine: consumes raw key notifications, resolves chords against
/// the Resolved Dispatch Map, asks its caller to perform the matched UI
/// commands, and maintains the virtual press-state overlay.
pub struct Handler {
    handler: DispatchMap,
    key_states: HashMap<u32, bool>,
    folds: Vec<u32>,
    unfolds: Vec<u32>,
    tabstop: bool,
    warnings: Vec<String>,
}

impl Handler {
    /// The dispatch table's entries: (chord, descriptor), later wins.
    pub closed spec fn table(&self) -> Seq<(Seq<u32>, ItemKind)> {
        self.handler@
    }

    /// The virtual press-state overlay.
    pub closed spec fn overlay(&self) -> Map<u32, bool> {
        self.key_states@
    }

    /// Whether tab-stop mode is active.
    pub closed spec fn tab_stop(&self) -> bool {
        self.tabstop
    }

    /// The hide-control ids of all known fold pairs.
    pub closed spec fn folds_list(&self) -> Seq<u32> {
        self.folds@
    }

    /// The show-control ids of all known fold pairs.
    pub closed spec fn unfolds_list(&self) -> Seq<u32> {
        self.unfolds@
    }

    /// The warnings construction produced, one per unknown binding name.
    pub closed spec fn warnings_view(&self) -> Seq<Seq<char>> {
        strings_view(self.warnings@)
    }

    /// The descriptor the engine resolves a key set to.
    pub open spec fn resolve(&self, c: Set<u32>) -> Option<ItemKind> {
        lookup_table(self.table(), c)
    }

    /// The two modifier keys are always tracked by the overlay.
    pub open spec fn wf(&self) -> bool {
        self.overlay().contains_key(VK_SHIFT) && self.overlay().contains_key(VK_CONTROL)
    }

    /// Builds the engine: seeds the overlay from the catalog's pass-through
    /// keys, collects the fold pairs, joins the binding table through the
    /// catalog (unknown names become warnings, never entries), and finally
    /// injects the shift and control pass-through bindings, which override
    /// any user binding of those chords.
    pub fn new(mmd_map: &MmdMap, key_map: KeyMap) -> (r: Handler)
        ensures
            r.table() == full_table(mmd_map@, key_map@),
            r.overlay() == full_overlay(mmd_map@),
            r.folds_list() == fold_ids(mmd_map@),
            r.unfolds_list() == unfold_ids(mmd_map@),
            r.warnings_view() == unknown_names(mmd_map@, key_map@),
            !r.tab_stop(),
            r.wf(),
            r.resolve(seq![VK_SHIFT].to_set()) == Some(ItemKind::Key(VK_SHIFT)),
            r.resolve(seq![VK_CONTROL].to_set()) == Some(ItemKind::Key(VK_CONTROL)),
    {
        let mut key_states: HashMap<u32, bool> = HashMap::new();
        let mut folds: Vec<u32> = Vec::new();
        let mut unfolds: Vec<u32> = Vec::new();
        let n = mmd_map.len();
        let mut i: usize = 0;
        proof {
            assert(mmd_map@.take(0) =~= Seq::<(Seq<char>, ItemKind)>::empty());
        }
        while i < n
            invariant
                i <= n,
                n == mmd_map@.len(),
                key_states@ == seed_overlay(mmd_map@.take(i as int)),
                folds@ == fold_ids(mmd_map@.take(i as int)),
                unfolds@ == unfold_ids(mmd_map@.take(i as int)),
            decreases n - i,
        {
            proof {
                assert(mmd_map@.take(i + 1).drop_last() =~= mmd_map@.take(i as int));
                assert(mmd_map@.take(i + 1).last() == mmd_map@[i as int]);
            }
            let (_, kind) = mmd_map.get_entry(i);
            match kind {
                ItemKind::Key(k) => {
                    key_states.insert(k, false);
                },
                ItemKind::Fold(hide, show) => {
                    folds.push(hide);
                    unfolds.push(show);
                },
                _ => {},
            }
            i = i + 1;
        }
        proof {
            assert(mmd_map@.take(n as int) =~= mmd_map@);
        }
        key_states.insert(VK_CONTROL, false);
        key_states.insert(VK_SHIFT, false);

        let mut handler = DispatchMap::new();
        let mut warnings: Vec<String> = Vec::new();
        let m = key_map.len();
        let mut j: usize = 0;
        proof {
            assert(key_map@.take(0) =~= Seq::<(Seq<char>, Seq<u32>)>::empty());
            assert(strings_view(warnings@) =~= unknown_names(mmd_map@, key_map@.take(0)));
        }
        while j < m
            invariant
                j <= m,
                m == key_map@.len(),
                handler@ == join_table(mmd_map@, key_map@.take(j as int)),
                strings_view(warnings@) == unknown_names(mmd_map@, key_map@.take(j as int)),
            decreases m - j,
        {
            proof {
                assert(key_map@.take(j + 1).drop_last() =~= key_map@.take(j as int));
                assert(key_map@.take(j + 1).last() == key_map@[j as int]);
            }
            let (name, chord) = key_map.get_entry(j);
            match mmd_map.get(&name) {
                Some(kind) => {
                    handler.push_binding(chord, kind);
                },
                None => {
                    let ghost prev = warnings@;
                    warnings.push(name);
                    proof {
                        assert(strings_view(warnings@) =~= strings_view(prev).push(
                            key_map@[j as int].0,
                        ));
                    }
                },
            }
            j = j + 1;
        }
        proof {
            assert(key_map@.take(m as int) =~= key_map@);
        }
        let mut ctrl_codes: Vec<u32> = Vec::new();
        ctrl_codes.push(VK_CONTROL);
        let ctrl = Keys::from_slice(ctrl_codes.as_slice());
        let mut shift_codes: Vec<u32> = Vec::new();
        shift_codes.push(VK_SHIFT);
        let shift = Keys::from_slice(shift_codes.as_slice());
        proof {
            assert(ctrl_codes@ =~= seq![VK_CONTROL]);
            assert(shift_codes@ =~= seq![VK_SHIFT]);
            crate::keys::lemma_chord_single(VK_CONTROL);
            crate::keys::lemma_chord_single(VK_SHIFT);
        }
        handler.push_binding(ctrl, ItemKind::Key(VK_CONTROL));
        handler.push_binding(shift, ItemKind::Key(VK_SHIFT));
        let r = Handler { handler, key_states, folds, unfolds, tabstop: false, warnings };
        proof {
            let jt = join_table(mmd_map@, key_map@);
            let t1 = jt.push((seq![VK_CONTROL], ItemKind::Key(VK_CONTROL)));
            let t = r.table();
            assert(t == t1.push((seq![VK_SHIFT], ItemKind::Key(VK_SHIFT))));
            assert(t.last() == (seq![VK_SHIFT], ItemKind::Key(VK_SHIFT)));
            assert(seq![VK_SHIFT].to_set().contains(VK_SHIFT));
            assert(lookup_table(t, seq![VK_SHIFT].to_set()) == Some(ItemKind::Key(VK_SHIFT)));
            assert(!seq![VK_SHIFT].contains(VK_CONTROL));
            assert(!seq![VK_SHIFT].to_set().contains(VK_CONTROL));
            assert(seq![VK_CONTROL].to_set().contains(VK_CONTROL));
            assert(seq![VK_SHIFT].to_set() != seq![VK_CONTROL].to_set());
            assert(t.drop_last() =~= t1);
            assert(t1.last() == (seq![VK_CONTROL], ItemKind::Key(VK_CONTROL)));
            assert(lookup_table(t1, seq![VK_CONTROL].to_set()) == Some(
                ItemKind::Key(VK_CONTROL),
            ));
            assert(lookup_table(t, seq![VK_CONTROL].to_set()) == Some(
                ItemKind::Key(VK_CONTROL),
            ));
        }
        r
    }

    /// The warnings construction produced, one per binding that names an
    /// action absent from the catalog.
    pub fn warnings(&self) -> (r: &Vec<String>)
        ensures
            strings_view(r@) == self.warnings_view(),
    {
        &self.warnings
    }

    /// Handles one key-down notification. Canonicalizes a fresh snapshot;
    /// with focus in a text-entry control, a bare Tab only enters tab-stop
    /// mode and is consumed. Otherwise the chord — retried once with the
    /// event's own key id — is resolved against the table: a match is
    /// dispatched and consumed (inside a text-entry control only kill-focus
    /// acts), a miss is not consumed.
    pub fn key_down(&mut self, vk: u32, snapshot: &[u8], focused_is_edit: bool, ui: &UiState) -> (r:
        (bool, Vec<UiCommand>))
        requires
            old(self).wf(),
            snapshot@.len() <= 0x1_0000_0000,
            ui_wf(ui),
        ensures
            final(self).wf(),
            final(self).table() == old(self).table(),
            final(self).folds_list() == old(self).folds_list(),
            final(self).unfolds_list() == old(self).unfolds_list(),
            final(self).warnings_view() == old(self).warnings_view(),
            ({
                let ch = chord_of_snapshot(snapshot@);
                &&& r.0 == kd_consumed(old(self).table(), ch, vk, focused_is_edit)
                &&& r.1@ == kd_commands(
                    old(self).table(),
                    old(self).folds_list(),
                    old(self).unfolds_list(),
                    ch,
                    vk,
                    focused_is_edit,
                    ui,
                )
                &&& final(self).overlay() == kd_overlay(
                    old(self).table(),
                    old(self).overlay(),
                    ch,
                    vk,
                    focused_is_edit,
                )
                &&& final(self).tab_stop() == kd_tabstop(
                    old(self).tab_stop(),
                    ch,
                    focused_is_edit,
                )
            }),
    {
        let keys = Keys::from_snapshot(snapshot);
        if focused_is_edit {
            let mut tab_codes: Vec<u32> = Vec::new();
            tab_codes.push(VK_TAB);
            let tab = Keys::from_slice(tab_codes.as_slice());
            proof {
                assert(tab_codes@ =~= seq![VK_TAB]);
                crate::keys::lemma_chord_single(VK_TAB);
            }
            if keys == tab {
                self.tabstop = true;
                return (true, Vec::new());
            }
        }
        let first = self.handler.get(&keys);
        let item_opt = match first {
            Some(it) => Some(it),
            None => {
                let retry = keys.with_extra(vk);
                self.handler.get(&retry)
            },
        };
        match item_opt {
            None => (false, Vec::new()),
            Some(item) => {
                if focused_is_edit {
                    let mut cmds: Vec<UiCommand> = Vec::new();
                    if item == ItemKind::KillFocus {
                        cmds.push(UiCommand::FocusMain);
                        proof {
                            assert(cmds@ =~= seq![UiCommand::FocusMain]);
                        }
                    }
                    (true, cmds)
                } else {
                    if let ItemKind::Key(k) = item {
                        if self.key_states.contains_key(&k) && k != VK_SHIFT && k != VK_CONTROL {
                            self.key_states.insert(VK_SHIFT, false);
                            self.key_states.insert(VK_CONTROL, false);
                        }
                        if self.key_states.contains_key(&k) {
                            self.key_states.insert(k, true);
                        }
                    }
                    let cmds = dispatch_commands(item, ui, &self.folds, &self.unfolds);
                    (true, cmds)
                }
            },
        }
    }

    /// Handles one key-up notification: re-derives the overlay from a fresh
    /// snapshot, clearing the flag of every pass-through key the table
    /// resolves to that is no longer held — self-correcting against missed
    /// events. Releasing Tab leaves tab-stop mode.
    pub fn key_up(&mut self, vk: u32, snapshot: &[u8])
        requires
            old(self).wf(),
            snapshot@.len() <= 0x1_0000_0000,
        ensures
            final(self).wf(),
            final(self).table() == old(self).table(),
            final(self).folds_list() == old(self).folds_list(),
            final(self).unfolds_list() == old(self).unfolds_list(),
            final(self).warnings_view() == old(self).warnings_view(),
            final(self).overlay() == overlay_after_key_up(
                old(self).overlay(),
                old(self).table(),
                chord_of_snapshot(snapshot@).to_set(),
            ),
            final(self).tab_stop() == (old(self).tab_stop() && vk != VK_TAB),
    {
        let keys = Keys::from_snapshot(snapshot);
        let n = self.handler.len();
        let mut i: usize = 0;
        while i < n
            invariant
                i <= n,
                n == self.table().len(),
                self.handler == old(self).handler,
                self.folds == old(self).folds,
                self.unfolds == old(self).unfolds,
                self.warnings == old(self).warnings,
                self.tabstop == old(self).tabstop,
                keys@ == chord_of_snapshot(snapshot@),
                self.overlay().dom() == old(self).overlay().dom(),
                forall|k: u32|
                    old(self).overlay().contains_key(k) ==> #[trigger] self.overlay()[k] == (
                    if cleared_by_prefix(
                        old(self).table(),
                        i as int,
                        k,
                        chord_of_snapshot(snapshot@).to_set(),
                    ) {
                        false
                    } else {
                        old(self).overlay()[k]
                    }),
            decreases n - i,
        {
            let kind = self.handler.kind_at(i);
            let ghost pre = self.overlay();
            if let ItemKind::Key(k) = kind {
                if !keys.contains_key(k) {
                    let chord = self.handler.chord_at(i);
                    let live = match self.handler.get(chord) {
                        Some(ItemKind::Key(k2)) => k2 == k,
                        _ => false,
                    };
                    if live {
                        if self.key_states.contains_key(&k) {
                            self.key_states.insert(k, false);
                        }
                    }
                }
            }
            proof {
                let t = old(self).table();
                let ch = chord_of_snapshot(snapshot@).to_set();
                assert forall|k: u32| old(self).overlay().contains_key(k) implies #[trigger] self.overlay()[k]
                    == (if cleared_by_prefix(t, i + 1, k, ch) {
                    false
                } else {
                    old(self).overlay()[k]
                }) by {
                    if cleared_by_prefix(t, i + 1, k, ch) && !cleared_by_prefix(t, i as int, k, ch) {
                        let j = choose|j: int|
                            0 <= j < i + 1 && (#[trigger] t[j]).1 == ItemKind::Key(k)
                                && lookup_table(t, t[j].0.to_set()) == Some(ItemKind::Key(k))
                                && !ch.contains(k);
                        assert(j == i as int);
                        assert(self.overlay()[k] == false);
                    }
                    if !cleared_by_prefix(t, i + 1, k, ch) {
                        assert(!cleared_by_prefix(t, i as int, k, ch));
                        assert(self.overlay()[k] == pre[k]);
                    }
                }
            }
            i = i + 1;
        }
        if vk == VK_TAB && self.tabstop {
            self.tabstop = false;
        }
        proof {
            let t = old(self).table();
            let ch = chord_of_snapshot(snapshot@).to_set();
            assert forall|k: u32|
                cleared_by_prefix(t, t.len() as int, k, ch) == (live_passthrough(t, k)
                    && !ch.contains(k)) by {
                if live_passthrough(t, k) && !ch.contains(k) {
                    let j = choose|j: int|
                        0 <= j < t.len() && lookup_table(t, (#[trigger] t[j]).0.to_set()) == Some(
                            ItemKind::Key(k),
                        );
                    lemma_lookup_exists(t, t[j].0.to_set());
                    let j2 = choose|i2: int|
                        0 <= i2 < t.len() && (#[trigger] t[i2]).0.to_set() == t[j].0.to_set()
                            && t[i2].1 == lookup_table(t, t[j].0.to_set())->Some_0;
                    assert(lookup_table(t, t[j2].0.to_set()) == Some(ItemKind::Key(k)));
                    assert(cleared_by_prefix(t, t.len() as int, k, ch));
                }
            }
            assert(self.overlay() =~= overlay_after_key_up(old(self).overlay(), t, ch));
        }
    }

    /// Answers a virtual key-state query, per `spec_is_pressed`: pressed or
    /// released for a tracked key, `None` when the caller must fall back to
    /// the raw hardware state.
    pub fn is_pressed(&self, vk: u32) -> (r: Option<bool>)
        ensures
            r == spec_is_pressed(self.overlay(), self.tab_stop(), vk),
    {
        if vk < RESERVED_KEYS {
            return None;
        }
        if vk == VK_TAB && self.tabstop {
            return Some(true);
        }
        match self.key_states.get(&vk) {
            Some(b) => Some(*b),
            None => None,
        }
    }
}

/// Whether one of the first `n` table entries passes key `k` through, is
/// still the live resolution of its chord, and `k` is no longer held.
pub open spec fn cleared_by_prefix(
    t: Seq<(Seq<u32>, ItemKind)>,
    n: int,
    k: u32,
    ch: Set<u32>,
) -> bool {
    exists|j: int|
        0 <= j < n && (#[trigger] t[j]).1 == ItemKind::Key(k) && lookup_table(t, t[j].0.to_set())
            == Some(ItemKind::Key(k)) && !ch.contains(k)
}

/// Every entry of the join comes from a binding whose action name the
/// catalog knows; a binding with an unknown name contributes no entry and
/// exactly one warning.
pub proof fn lemma_join_table_from_known(
    cat: Seq<(Seq<char>, ItemKind)>,
    bindings: Seq<(Seq<char>, Seq<u32>)>,
)
    ensures
        forall|j: int|
            0 <= j < join_table(cat, bindings).len() ==> exists|i: int|
                0 <= i < bindings.len() && catalog_lookup(cat, (#[trigger] bindings[i]).0)
                    == Some((#[trigger] join_table(cat, bindings)[j]).1) && join_table(
                    cat,
                    bindings,
                )[j].0 == bindings[i].1,
    decreases bindings.len(),
{
    if bindings.len() > 0 {
        lemma_join_table_from_known(cat, bindings.drop_last());
        let t = join_table(cat, bindings);
        let tp = join_table(cat, bindings.drop_last());
        assert forall|j: int| 0 <= j < t.len() implies exists|i: int|
            0 <= i < bindings.len() && catalog_lookup(cat, (#[trigger] bindings[i]).0) == Some(
                (#[trigger] t[j]).1,
            ) && t[j].0 == bindings[i].1 by {
            if j < tp.len() {
                let i = choose|i: int|
                    0 <= i < bindings.drop_last().len() && catalog_lookup(
                        cat,
                        (#[trigger] bindings.drop_last()[i]).0,
                    ) == Some(tp[j].1) && tp[j].0 == bindings.drop_last()[i].1;
                assert(bindings[i] == bindings.drop_last()[i]);
                assert(catalog_lookup(cat, bindings[i].0) == Some(t[j].1) && t[j].0
                    == bindings[i].1);
            } else {
                let i = bindings.len() - 1;
                assert(catalog_lookup(cat, bindings[i].0) == Some(t[j].1) && t[j].0
                    == bindings[i].1);
            }
        }
    }
}

/// A binding whose name the catalog does not know is warned about.
pub proof fn lemma_unknown_name_warned(
    cat: Seq<(Seq<char>, ItemKind)>,
    bindings: Seq<(Seq<char>, Seq<u32>)>,
    i: int,
)
    requires
        0 <= i < bindings.len(),
        catalog_lookup(cat, bindings[i].0) is None,
    ensures
        unknown_names(cat, bindings).contains(bindings[i].0),
    decreases bindings.len(),
{
    if i == bindings.len() - 1 {
        assert(unknown_names(cat, bindings).last() == bindings[i].0);
    } else {
        assert(bindings.drop_last()[i] == bindings[i]);
        lemma_unknown_name_warned(cat, bindings.drop_last(), i);
        let w = unknown_names(cat, bindings.drop_last());
        let j = choose|j: int| 0 <= j < w.len() && w[j] == bindings[i].0;
        match catalog_lookup(cat, bindings.last().0) {
            Some(_) => {},
            None => {
                assert(unknown_names(cat, bindings)[j] == bindings[i].0);
            },
        }
    }
}

/// Dispatching a tracked non-modifier pass-through key clears both modifier
/// flags and sets that key's own flag.
pub proof fn lemma_key_dispatch_clears_modifiers(m: Map<u32, bool>, k: u32)
    requires
        m.contains_key(k),
        m.contains_key(VK_SHIFT),
        m.contains_key(VK_CONTROL),
        k != VK_SHIFT,
        k != VK_CONTROL,
    ensures
        key_overlay_step(m, k)[VK_SHIFT] == false,
        key_overlay_step(m, k)[VK_CONTROL] == false,
        key_overlay_step(m, k)[k] == true,
{
}

/// After a key-up rescan, a live pass-through key that the fresh snapshot
/// no longer holds is reported released — whatever key id the literal
/// key-up event carried. (Excluded inputs: the tab key while tab-stop mode
/// stays active, and reserved key ids below the mouse-button threshold.)
pub proof fn lemma_key_up_self_correcting(
    m: Map<u32, bool>,
    t: Seq<(Seq<u32>, ItemKind)>,
    ch: Set<u32>,
    tabstop: bool,
    k: u32,
)
    requires
        live_passthrough(t, k),
        !ch.contains(k),
        m.contains_key(k),
        k >= RESERVED_KEYS,
        !(k == VK_TAB && tabstop),
    ensures
        spec_is_pressed(overlay_after_key_up(m, t, ch), tabstop, k) == Some(false),
{
}

} // verus!
