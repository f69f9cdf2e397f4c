use vstd::prelude::*;
use crate::actions::ComboDir;
use crate::actions::ItemKind;
use crate::keys::Keys;

verus! {

/// Which window a resolved control lives under.
#[derive(Clone, Copy, PartialEq, Eq, Structural, Debug)]
pub enum WindowTag {
    Main,
    Sub,
}

/// Observable state of one UI control at the moment of a key event.
#[derive(Clone, Copy, PartialEq, Eq, Structural, Debug)]
pub struct ControlState {
    pub id: u32,
    pub visible: bool,
    pub enabled: bool,
    /// Current selection index of a combo box; -1 when nothing is selected.
    pub combo_index: i32,
    /// Number of entries of a combo box; never negative.
    pub combo_count: i32,
}

/// Snapshot of the host UI at the moment of a key event: the controls under
/// the main window, those under the sub window if it exists, and per menu
/// item whether it is enabled.
pub struct UiState {
    pub main: Vec<ControlState>,
    pub sub: Option<Vec<ControlState>>,
    pub menus: Vec<Vec<bool>>,
}

/// Every control reports a sensible combo entry count.
pub open spec fn ui_wf(ui: &UiState) -> bool {
    &&& forall|i: int| 0 <= i < ui.main@.len() ==> (#[trigger] ui.main@[i]).combo_count >= 0
    &&& match ui.sub {
        Some(s) => forall|i: int| 0 <= i < s@.len() ==> (#[trigger] s@[i]).combo_count >= 0,
        None => true,
    }
}

/// One UI effect the engine asks its caller to perform.
#[derive(Clone, Copy, PartialEq, Eq, Structural, Debug)]
pub enum UiCommand {
    /// Post a button-activated notification to a control.
    Click(WindowTag, u32),
    /// Transfer input focus to a control.
    Focus(WindowTag, u32),
    /// Move input focus back to the main window.
    FocusMain,
    /// Select the given entry of a combo box.
    ComboSelect(WindowTag, u32, i32),
    /// Notify the main window that the combo box's selection changed.
    ComboNotify(u32),
    /// Post the command of the menu item at (top index, sub index).
    MenuCommand(u32, u32),
}

/// First control with the given id.
pub open spec fn find_ctrl(s: Seq<ControlState>, id: u32) -> Option<ControlState>
    decreases s.len(),
{
    if s.len() == 0 {
        None
    } else if s[0].id == id {
        Some(s[0])
    } else {
        find_ctrl(s.drop_first(), id)
    }
}

/// Whether the control is present and visible under the main window.
pub open spec fn main_visible(ui: &UiState, id: u32) -> bool {
    find_ctrl(ui.main@, id) is Some && find_ctrl(ui.main@, id)->Some_0.visible
}

/// Target resolution: the control under the main window, unless it is
/// absent or hidden there, in which case the one under the sub window.
pub open spec fn spec_resolve(ui: &UiState, id: u32) -> Option<(WindowTag, ControlState)> {
    let m = find_ctrl(ui.main@, id);
    if m is Some && m->Some_0.visible {
        Some((WindowTag::Main, m->Some_0))
    } else {
        match ui.sub {
            Some(s) => match find_ctrl(s@, id) {
                Some(c) => Some((WindowTag::Sub, c)),
                None => None,
            },
            None => None,
        }
    }
}

/// Whether the menu item at (top index, sub index) exists and is enabled.
pub open spec fn spec_menu_enabled(ui: &UiState, index: u32, sub_index: u32) -> bool {
    index < ui.menus@.len() && sub_index < ui.menus@[index as int]@.len()
        && ui.menus@[index as int]@[sub_index as int]
}

/// The commands of one combo-box step on a resolved, visible and enabled
/// combo box: one step in the given direction, with exactly one
/// selection-changed notification; a step past either end is a no-op.
pub open spec fn combo_commands(tag: WindowTag, c: ControlState, dir: ComboDir, id: u32) -> Seq<
    UiCommand,
> {
    if dir == ComboDir::Prev && c.combo_index >= 1 {
        seq![
            UiCommand::ComboSelect(tag, id, (c.combo_index - 1) as i32),
            UiCommand::ComboNotify(id),
        ]
    } else if dir == ComboDir::Next && c.combo_index < c.combo_count - 1 {
        seq![
            UiCommand::ComboSelect(tag, id, (c.combo_index + 1) as i32),
            UiCommand::ComboNotify(id),
        ]
    } else {
        Seq::empty()
    }
}

/// One click for each listed control currently visible under the main
/// window, in list order.
pub open spec fn fold_clicks(ui: &UiState, ids: Seq<u32>) -> Seq<UiCommand>
    decreases ids.len(),
{
    if ids.len() == 0 {
        Seq::empty()
    } else {
        let rest = fold_clicks(ui, ids.drop_last());
        if main_visible(ui, ids.last()) {
            rest.push(UiCommand::Click(WindowTag::Main, ids.last()))
        } else {
            rest
        }
    }
}

/// The UI commands one matched descriptor gives rise to, against the given
/// UI snapshot. Lookups that resolve no control are silent no-ops.
pub open spec fn spec_dispatch_commands(
    item: ItemKind,
    ui: &UiState,
    folds: Seq<u32>,
    unfolds: Seq<u32>,
) -> Seq<UiCommand> {
    match item {
        ItemKind::Key(_) => Seq::empty(),
        ItemKind::Button(id) => match spec_resolve(ui, id) {
            Some((tag, c)) => if c.visible && c.enabled {
                seq![UiCommand::Click(tag, id)]
            } else {
                Seq::empty()
            },
            None => Seq::empty(),
        },
        ItemKind::Edit(id) => match spec_resolve(ui, id) {
            Some((tag, c)) => if c.visible && c.enabled {
                seq![UiCommand::Focus(tag, id)]
            } else {
                Seq::empty()
            },
            None => Seq::empty(),
        },
        ItemKind::Combo(dir, id) => match spec_resolve(ui, id) {
            Some((tag, c)) => if c.visible && c.enabled {
                combo_commands(tag, c, dir, id)
            } else {
                Seq::empty()
            },
            None => Seq::empty(),
        },
        ItemKind::Menu(index, sub_index) => if spec_menu_enabled(ui, index, sub_index) {
            seq![UiCommand::MenuCommand(index, sub_index)]
        } else {
            Seq::empty()
        },
        ItemKind::Fold(hide, show) => if main_visible(ui, hide) {
            seq![UiCommand::Click(WindowTag::Main, hide)]
        } else {
            seq![UiCommand::Click(WindowTag::Main, show)]
        },
        ItemKind::KillFocus => seq![UiCommand::FocusMain],
        ItemKind::FoldAll => fold_clicks(ui, folds),
        ItemKind::UnfoldAll => fold_clicks(ui, unfolds),
    }
}

/// A fold toggle clicks exactly one control of its pair: the hide control
/// when it is visible, otherwise the paired show control — never both.
pub proof fn lemma_fold_toggle_exclusive(
    ui: &UiState,
    hide: u32,
    show: u32,
    folds: Seq<u32>,
    unfolds: Seq<u32>,
)
    ensures
        spec_dispatch_commands(ItemKind::Fold(hide, show), ui, folds, unfolds).len() == 1,
        main_visible(ui, hide) ==> spec_dispatch_commands(
            ItemKind::Fold(hide, show),
            ui,
            folds,
            unfolds,
        ) == seq![UiCommand::Click(WindowTag::Main, hide)],
        !main_visible(ui, hide) ==> spec_dispatch_commands(
            ItemKind::Fold(hide, show),
            ui,
            folds,
            unfolds,
        ) == seq![UiCommand::Click(WindowTag::Main, show)],
{
}

/// A combo step at the lower end going back, or at the upper end going
/// forward, is a no-op; any other step on a visible and enabled combo box
/// moves the selection by exactly one and notifies exactly once.
pub proof fn lemma_combo_step_bounds(ui: &UiState, dir: ComboDir, id: u32, tag: WindowTag, c: ControlState)
    requires
        spec_resolve(ui, id) == Some((tag, c)),
        c.visible,
        c.enabled,
    ensures
        dir == ComboDir::Prev && c.combo_index == 0 ==> spec_dispatch_commands(
            ItemKind::Combo(dir, id),
            ui,
            Seq::empty(),
            Seq::empty(),
        ) == Seq::<UiCommand>::empty(),
        dir == ComboDir::Next && c.combo_index == c.combo_count - 1 ==> spec_dispatch_commands(
            ItemKind::Combo(dir, id),
            ui,
            Seq::empty(),
            Seq::empty(),
        ) == Seq::<UiCommand>::empty(),
        dir == ComboDir::Prev && c.combo_index >= 1 ==> spec_dispatch_commands(
            ItemKind::Combo(dir, id),
            ui,
            Seq::empty(),
            Seq::empty(),
        ) == seq![
            UiCommand::ComboSelect(tag, id, (c.combo_index - 1) as i32),
            UiCommand::ComboNotify(id),
        ],
        dir == ComboDir::Next && c.combo_index < c.combo_count - 1 ==> spec_dispatch_commands(
            ItemKind::Combo(dir, id),
            ui,
            Seq::empty(),
            Seq::empty(),
        ) == seq![
            UiCommand::ComboSelect(tag, id, (c.combo_index + 1) as i32),
            UiCommand::ComboNotify(id),
        ],
{
}

/// First control with the given id, by forward scan.
fn find_control(s: &Vec<ControlState>, id: u32) -> (r: Option<ControlState>)
    ensures
        r == find_ctrl(s@, id),
{
    let mut i: usize = 0;
    proof {
        assert(s@.skip(0) =~= s@);
    }
    while i < s.len()
        invariant
            i <= s.len(),
            find_ctrl(s@, id) == find_ctrl(s@.skip(i as int), id),
        decreases s.len() - i,
    {
        proof {
            assert(s@.skip(i as int)[0] == s@[i as int]);
            assert(s@.skip(i as int).drop_first() =~= s@.skip(i + 1));
        }
        if s[i].id == id {
            return Some(s[i]);
        }
        i = i + 1;
    }
    None
}

/// Resolves a control id to its window and state, per `spec_resolve`.
pub fn resolve(ui: &UiState, id: u32) -> (r: Option<(WindowTag, ControlState)>)
    ensures
        r == spec_resolve(ui, id),
{
    match find_control(&ui.main, id) {
        Some(c) => {
            if c.visible {
                return Some((WindowTag::Main, c));
            }
            match &ui.sub {
                Some(s) => match find_control(s, id) {
                    Some(c2) => Some((WindowTag::Sub, c2)),
                    None => None,
                },
                None => None,
            }
        },
        None => match &ui.sub {
            Some(s) => match find_control(s, id) {
                Some(c2) => Some((WindowTag::Sub, c2)),
                None => None,
            },
            None => None,
        },
    }
}

/// Whether the menu item at (top index, sub index) exists and is enabled.
fn menu_enabled(ui: &UiState, index: u32, sub_index: u32) -> (r: bool)
    ensures
        r == spec_menu_enabled(ui, index, sub_index),
{
    if (index as usize) < ui.menus.len() {
        let row = &ui.menus[index as usize];
        if (sub_index as usize) < row.len() {
            return row[sub_index as usize];
        }
    }
    false
}

/// Computes the UI commands of one matched descriptor, per
/// `spec_dispatch_commands`.
pub fn dispatch_commands(
    item: ItemKind,
    ui: &UiState,
    folds: &Vec<u32>,
    unfolds: &Vec<u32>,
) -> (r: Vec<UiCommand>)
    requires
        ui_wf(ui),
    ensures
        r@ == spec_dispatch_commands(item, ui, folds@, unfolds@),
{
    let mut cmds: Vec<UiCommand> = Vec::new();
    match item {
        ItemKind::Key(_) => {},
        ItemKind::Button(id) => {
            if let Some((tag, c)) = resolve(ui, id) {
                if c.visible && c.enabled {
                    cmds.push(UiCommand::Click(tag, id));
                }
            }
        },
        ItemKind::Edit(id) => {
            if let Some((tag, c)) = resolve(ui, id) {
                if c.visible && c.enabled {
                    cmds.push(UiCommand::Focus(tag, id));
                }
            }
        },
        ItemKind::Combo(dir, id) => {
            if let Some((tag, c)) = resolve(ui, id) {
                if c.visible && c.enabled {
                    proof {
                        lemma_resolved_combo_count(ui, id, tag, c);
                    }
                    match dir {
                        ComboDir::Prev => {
                            if c.combo_index >= 1 {
                                cmds.push(UiCommand::ComboSelect(tag, id, c.combo_index - 1));
                                cmds.push(UiCommand::ComboNotify(id));
                            }
                        },
                        ComboDir::Next => {
                            if c.combo_index < c.combo_count - 1 {
                                cmds.push(UiCommand::ComboSelect(tag, id, c.combo_index + 1));
                                cmds.push(UiCommand::ComboNotify(id));
                            }
                        },
                    }
                }
            }
        },
        ItemKind::Menu(index, sub_index) => {
            if menu_enabled(ui, index, sub_index) {
                cmds.push(UiCommand::MenuCommand(index, sub_index));
            }
        },
        ItemKind::Fold(hide, show) => {
            let hv = match find_control(&ui.main, hide) {
                Some(c) => c.visible,
                None => false,
            };
            if hv {
                cmds.push(UiCommand::Click(WindowTag::Main, hide));
            } else {
                cmds.push(UiCommand::Click(WindowTag::Main, show));
            }
        },
        ItemKind::KillFocus => {
            cmds.push(UiCommand::FocusMain);
        },
        ItemKind::FoldAll => {
            push_fold_clicks(&mut cmds, ui, folds);
        },
        ItemKind::UnfoldAll => {
            push_fold_clicks(&mut cmds, ui, unfolds);
        },
    }
    proof {
        assert(cmds@ =~= spec_dispatch_commands(item, ui, folds@, unfolds@));
    }
    cmds
}

/// A control found by resolution is one of the snapshot's controls, so its
/// combo entry count is not negative.
proof fn lemma_resolved_combo_count(ui: &UiState, id: u32, tag: WindowTag, c: ControlState)
    requires
        ui_wf(ui),
        spec_resolve(ui, id) == Some((tag, c)),
    ensures
        c.combo_count >= 0,
{
    let m = find_ctrl(ui.main@, id);
    if m is Some && m->Some_0.visible {
        lemma_find_ctrl_member(ui.main@, id);
    } else {
        match ui.sub {
            Some(s) => lemma_find_ctrl_member(s@, id),
            None => {},
        }
    }
}

/// Whatever `find_ctrl` returns is an element of the scanned list.
proof fn lemma_find_ctrl_member(s: Seq<ControlState>, id: u32)
    ensures
        find_ctrl(s, id) is Some ==> exists|i: int|
            0 <= i < s.len() && s[i] == find_ctrl(s, id)->Some_0,
    decreases s.len(),
{
    if s.len() > 0 && s[0].id != id {
        lemma_find_ctrl_member(s.drop_first(), id);
        if find_ctrl(s, id) is Some {
            let i = choose|i: int|
                0 <= i < s.drop_first().len() && s.drop_first()[i] == find_ctrl(s, id)->Some_0;
            assert(s[i + 1] == find_ctrl(s, id)->Some_0);
        }
    }
}

/// Appends one click for each listed control visible under the main window.
fn push_fold_clicks(cmds: &mut Vec<UiCommand>, ui: &UiState, ids: &Vec<u32>)
    ensures
        final(cmds)@ == old(cmds)@ + fold_clicks(ui, ids@),
{
    let mut i: usize = 0;
    proof {
        assert(cmds@ =~= old(cmds)@ + fold_clicks(ui, ids@.take(0)));
    }
    while i < ids.len()
        invariant
            i <= ids.len(),
            cmds@ == old(cmds)@ + fold_clicks(ui, ids@.take(i as int)),
        decreases ids.len() - i,
    {
        proof {
            assert(ids@.take(i + 1).drop_last() =~= ids@.take(i as int));
            assert(ids@.take(i + 1).last() == ids@[i as int]);
        }
        let visible = match find_control(&ui.main, ids[i]) {
            Some(c) => c.visible,
            None => false,
        };
        if visible {
            cmds.push(UiCommand::Click(WindowTag::Main, ids[i]));
        }
        i = i + 1;
    }
    proof {
        assert(ids@.take(ids@.len() as int) =~= ids@);
    }
}

/// Resolved Dispatch Map: chord → UI-action descriptor, the join used at
/// runtime. Later entries override earlier ones with the same key set, as
/// `lookup_table` reads the view from the back.
pub struct DispatchMap {
    entries: Vec<(Keys, ItemKind)>,
}

/// The descriptor the table resolves a key set to: the last entry whose
/// chord holds exactly that set.
pub open spec fn lookup_table(t: Seq<(Seq<u32>, ItemKind)>, c: Set<u32>) -> Option<ItemKind>
    decreases t.len(),
{
    if t.len() == 0 {
        None
    } else if t.last().0.to_set() == c {
        Some(t.last().1)
    } else {
        lookup_table(t.drop_last(), c)
    }
}

/// A resolved descriptor always stands in the table.
pub proof fn lemma_lookup_exists(t: Seq<(Seq<u32>, ItemKind)>, c: Set<u32>)
    ensures
        lookup_table(t, c) is Some ==> exists|i: int|
            0 <= i < t.len() && (#[trigger] t[i]).0.to_set() == c && t[i].1 == lookup_table(
                t,
                c,
            )->Some_0,
    decreases t.len(),
{
    if t.len() > 0 && t.last().0.to_set() != c {
        lemma_lookup_exists(t.drop_last(), c);
        if lookup_table(t, c) is Some {
            let i = choose|i: int|
                0 <= i < t.drop_last().len() && (#[trigger] t.drop_last()[i]).0.to_set() == c
                    && t.drop_last()[i].1 == lookup_table(t.drop_last(), c)->Some_0;
            assert(t[i] == t.drop_last()[i]);
        }
    }
}

impl View for DispatchMap {
    type V = Seq<(Seq<u32>, ItemKind)>;

    closed spec fn view(&self) -> Seq<(Seq<u32>, ItemKind)> {
        Seq::new(self.entries@.len(), |i: int| (self.entries@[i].0@, self.entries@[i].1))
    }
}

impl DispatchMap {
    /// The empty table.
    pub fn new() -> (r: DispatchMap)
        ensures
            r@ == Seq::<(Seq<u32>, ItemKind)>::empty(),
    {
        let r = DispatchMap { entries: Vec::new() };
        proof {
            assert(r@ =~= Seq::<(Seq<u32>, ItemKind)>::empty());
        }
        r
    }

    /// Number of entries.
    pub fn len(&self) -> (r: usize)
        ensures
            r == self@.len(),
    {
        self.entries.len()
    }

    /// The descriptor of the entry at a position.
    pub fn kind_at(&self, i: usize) -> (r: ItemKind)
        requires
            i < self@.len(),
        ensures
            r == self@[i as int].1,
    {
        self.entries[i].1
    }

    /// The chord of the entry at a position.
    pub fn chord_at(&self, i: usize) -> (r: &Keys)
        requires
            i < self@.len(),
        ensures
            r@ == self@[i as int].0,
    {
        &self.entries[i].0
    }

    /// Appends one chord → descriptor entry; it overrides any earlier entry
    /// with the same key set.
    pub fn push_binding(&mut self, k: Keys, v: ItemKind)
        ensures
            final(self)@ == old(self)@.push((k@, v)),
    {
        let ghost prev = self@;
        let ghost kv = k@;
        self.entries.push((k, v));
        proof {
            assert(self@ =~= prev.push((kv, v)));
        }
    }

    /// The descriptor the given chord resolves to, if any.
    pub fn get(&self, k: &Keys) -> (r: Option<ItemKind>)
        ensures
            r == lookup_table(self@, k.key_set()),
    {
        let mut i: usize = self.entries.len();
        proof {
            assert(self@.take(self@.len() as int) =~= self@);
        }
        while i > 0
            invariant
                i <= self@.len(),
                lookup_table(self@, k.key_set()) == lookup_table(self@.take(i as int), k.key_set()),
            decreases i,
        {
            i = i - 1;
            proof {
                assert(self@.take(i + 1).last() == self@[i as int]);
                assert(self@.take(i + 1).drop_last() =~= self@.take(i as int));
            }
            if self.entries[i].0 == *k {
                return Some(self.entries[i].1);
            }
        }
        None
    }
}

} // verus!
