use mmaccel::actions::{ComboDir, ItemKind, MmdMap};
use mmaccel::context::{
    Context, HostMessage, MenuEntry, MenuItem, MenuItemType, MmdWindow, SessionAction, Settings,
    WindowClass, WindowEvent, version_info,
};
use mmaccel::dispatch::{ControlState, UiCommand, UiState, WindowTag};
use mmaccel::handler::Handler;
use mmaccel::key_map::KeyMap;
use mmaccel::keys::Keys;

const VK_TAB: u32 = 0x09;
const VK_SHIFT: u32 = 0x10;
const VK_CONTROL: u32 = 0x11;
const VK_LEFT: u32 = 0x25;
const VK_RIGHT: u32 = 0x27;
const VK_J: u32 = 0x4a;

fn snapshot(down: &[u32]) -> Vec<u8> {
    let mut s = vec![0u8; 256];
    for &k in down {
        s[k as usize] = 0x80;
    }
    s
}

fn ctrl(id: u32, visible: bool, enabled: bool) -> ControlState {
    ControlState { id, visible, enabled, combo_index: 0, combo_count: 0 }
}

fn combo(id: u32, index: i32, count: i32) -> ControlState {
    ControlState { id, visible: true, enabled: true, combo_index: index, combo_count: count }
}

fn ui_with_main(controls: Vec<ControlState>) -> UiState {
    UiState { main: controls, sub: None, menus: Vec::new() }
}

fn catalog(entries: Vec<(&str, ItemKind)>) -> MmdMap {
    MmdMap::from_entries(entries.into_iter().map(|(n, k)| (n.to_string(), k)).collect())
}

fn bindings(entries: Vec<(&str, Vec<u32>)>) -> KeyMap {
    let raw: Vec<(String, Vec<u32>)> =
        entries.into_iter().map(|(n, ks)| (n.to_string(), ks)).collect();
    KeyMap::from_entries(&raw)
}

#[test]
fn keys_eq() {
    let a = Keys::from_slice(&[VK_LEFT, VK_CONTROL]);
    let b = Keys::from_slice(&[VK_RIGHT, VK_CONTROL]);
    let c = Keys::from_slice(&[VK_LEFT, VK_CONTROL]);
    assert!(a == a);
    assert!(a != b);
    assert!(a == c);
}

#[test]
fn chord_from_snapshot_ascending_capped() {
    // First three down keys in ascending order; the fourth is dropped.
    let s = snapshot(&[0x50, 0x20, 0x30, 0x40]);
    let k = Keys::from_snapshot(&s);
    assert_eq!(k.codes_vec(), vec![0x20, 0x30, 0x40]);
    // Empty snapshot gives the empty chord.
    let e = Keys::from_snapshot(&snapshot(&[]));
    assert_eq!(e.codes_vec(), Vec::<u32>::new());
}

#[test]
fn chord_equality_order_independent() {
    let ab = Keys::from_slice(&[0x41, 0x42]);
    let ba = Keys::from_slice(&[0x42, 0x41]);
    assert!(ab == ba);
    let dup = Keys::from_slice(&[0x41, 0x41, 0x42]);
    assert!(dup == ab);
}

#[test]
fn with_extra_appends_once() {
    let a = Keys::from_slice(&[0x41]);
    let ab = a.with_extra(0x42);
    assert!(ab == Keys::from_slice(&[0x41, 0x42]));
    // Already present: unchanged.
    assert!(a.with_extra(0x41) == a);
    // Full chord: the extra key is dropped.
    let full = Keys::from_slice(&[1, 2, 3]);
    assert!(full.with_extra(4) == full);
}

#[test]
fn unknown_action_warned_not_mapped() {
    let cat = catalog(vec![("jump", ItemKind::Button(100))]);
    let km = bindings(vec![("jump", vec![VK_J]), ("missing", vec![0x42])]);
    let mut h = Handler::new(&cat, km);
    let warnings = h.warnings().clone();
    assert_eq!(warnings, vec!["missing".to_string()]);
    // The chord bound to the unknown name resolves to nothing.
    let ui = ui_with_main(vec![ctrl(100, true, true)]);
    let (consumed, cmds) = h.key_down(0x42, &snapshot(&[0x42]), false, &ui);
    assert!(!consumed);
    assert!(cmds.is_empty());
}

#[test]
fn modifier_bindings_always_present() {
    // The user rebinds the bare shift chord to a button; the injected
    // pass-through still wins.
    let cat = catalog(vec![("boom", ItemKind::Button(7))]);
    let km = bindings(vec![("boom", vec![VK_SHIFT])]);
    let mut h = Handler::new(&cat, km);
    let ui = ui_with_main(vec![ctrl(7, true, true)]);
    let (consumed, cmds) = h.key_down(VK_SHIFT, &snapshot(&[VK_SHIFT]), false, &ui);
    assert!(consumed);
    assert!(cmds.is_empty(), "the modifier pass-through must override the button binding");
    assert_eq!(h.is_pressed(VK_SHIFT), Some(true));
    // Control likewise, without any user binding at all.
    let (consumed2, cmds2) = h.key_down(VK_CONTROL, &snapshot(&[VK_CONTROL]), false, &ui);
    assert!(consumed2);
    assert!(cmds2.is_empty());
    assert_eq!(h.is_pressed(VK_CONTROL), Some(true));
}

#[test]
fn passthrough_clears_modifiers_first() {
    let cat = catalog(vec![("a", ItemKind::Key(0x41)), ("b", ItemKind::Key(0x42))]);
    let km = bindings(vec![("a", vec![0x41]), ("b", vec![0x42])]);
    let mut h = Handler::new(&cat, km);
    let ui = ui_with_main(vec![]);
    // Press shift, then A: A is a tracked non-modifier, so both modifier
    // flags are cleared before A's own flag is set.
    h.key_down(VK_SHIFT, &snapshot(&[VK_SHIFT]), false, &ui);
    assert_eq!(h.is_pressed(VK_SHIFT), Some(true));
    let (consumed, _) = h.key_down(0x41, &snapshot(&[VK_SHIFT, 0x41]), false, &ui);
    // The chord {shift, A} is unbound; the retry with the event's key id
    // does not help, so nothing matches here. Use the bare chord instead.
    assert!(!consumed);
    let (consumed, _) = h.key_down(0x41, &snapshot(&[0x41]), false, &ui);
    assert!(consumed);
    assert_eq!(h.is_pressed(VK_SHIFT), Some(false));
    assert_eq!(h.is_pressed(VK_CONTROL), Some(false));
    assert_eq!(h.is_pressed(0x41), Some(true));
}

#[test]
fn key_up_rescan_self_corrects() {
    let cat = catalog(vec![("a", ItemKind::Key(0x41))]);
    let km = bindings(vec![("a", vec![0x41])]);
    let mut h = Handler::new(&cat, km);
    let ui = ui_with_main(vec![]);
    h.key_down(0x41, &snapshot(&[0x41]), false, &ui);
    assert_eq!(h.is_pressed(0x41), Some(true));
    // The key-up event carries a different key id, but the fresh snapshot
    // no longer holds A: the rescan still releases it.
    h.key_up(0x55, &snapshot(&[]));
    assert_eq!(h.is_pressed(0x41), Some(false));
}

#[test]
fn tab_in_edit_control_enters_tabstop() {
    let cat = catalog(vec![("jump", ItemKind::Button(100))]);
    let km = bindings(vec![("jump", vec![VK_J])]);
    let mut h = Handler::new(&cat, km);
    let ui = ui_with_main(vec![ctrl(100, true, true)]);
    let (consumed, cmds) = h.key_down(VK_TAB, &snapshot(&[VK_TAB]), true, &ui);
    assert!(consumed);
    assert!(cmds.is_empty());
    assert_eq!(h.is_pressed(VK_TAB), Some(true));
    // Still pressed until Tab itself is released.
    h.key_up(0x41, &snapshot(&[VK_TAB]));
    assert_eq!(h.is_pressed(VK_TAB), Some(true));
    h.key_up(VK_TAB, &snapshot(&[]));
    assert_ne!(h.is_pressed(VK_TAB), Some(true));
}

#[test]
fn kill_focus_honored_inside_edit_control() {
    let cat = catalog(vec![("leave", ItemKind::KillFocus), ("jump", ItemKind::Button(100))]);
    let km = bindings(vec![("leave", vec![0x1b]), ("jump", vec![VK_J])]);
    let mut h = Handler::new(&cat, km);
    let ui = ui_with_main(vec![ctrl(100, true, true)]);
    // Inside a text-entry control, kill-focus still acts...
    let (consumed, cmds) = h.key_down(0x1b, &snapshot(&[0x1b]), true, &ui);
    assert!(consumed);
    assert_eq!(cmds, vec![UiCommand::FocusMain]);
    // ...but any other matched action does nothing there.
    let (consumed, cmds) = h.key_down(VK_J, &snapshot(&[VK_J]), true, &ui);
    assert!(consumed);
    assert!(cmds.is_empty());
}

#[test]
fn combo_step_bounds() {
    let cat = catalog(vec![
        ("prev", ItemKind::Combo(ComboDir::Prev, 5)),
        ("next", ItemKind::Combo(ComboDir::Next, 5)),
    ]);
    let km = bindings(vec![("prev", vec![0x21]), ("next", vec![0x22])]);
    let mut h = Handler::new(&cat, km);
    // At index 0, "previous" is a no-op.
    let ui0 = ui_with_main(vec![combo(5, 0, 3)]);
    let (c, cmds) = h.key_down(0x21, &snapshot(&[0x21]), false, &ui0);
    assert!(c);
    assert!(cmds.is_empty());
    // At the last index, "next" is a no-op.
    let ui2 = ui_with_main(vec![combo(5, 2, 3)]);
    let (_, cmds) = h.key_down(0x22, &snapshot(&[0x22]), false, &ui2);
    assert!(cmds.is_empty());
    // In between: exactly one step and exactly one notification.
    let ui1 = ui_with_main(vec![combo(5, 1, 3)]);
    let (_, cmds) = h.key_down(0x22, &snapshot(&[0x22]), false, &ui1);
    assert_eq!(
        cmds,
        vec![UiCommand::ComboSelect(WindowTag::Main, 5, 2), UiCommand::ComboNotify(5)]
    );
    let (_, cmds) = h.key_down(0x21, &snapshot(&[0x21]), false, &ui1);
    assert_eq!(
        cmds,
        vec![UiCommand::ComboSelect(WindowTag::Main, 5, 0), UiCommand::ComboNotify(5)]
    );
}

#[test]
fn fold_toggle_clicks_exactly_one() {
    let cat = catalog(vec![("panel", ItemKind::Fold(10, 11))]);
    let km = bindings(vec![("panel", vec![0x70])]);
    let mut h = Handler::new(&cat, km);
    // Hide control visible: only it is clicked.
    let ui = ui_with_main(vec![ctrl(10, true, true), ctrl(11, false, true)]);
    let (_, cmds) = h.key_down(0x70, &snapshot(&[0x70]), false, &ui);
    assert_eq!(cmds, vec![UiCommand::Click(WindowTag::Main, 10)]);
    // Hide control hidden: only the paired show control is clicked.
    let ui = ui_with_main(vec![ctrl(10, false, true), ctrl(11, true, true)]);
    let (_, cmds) = h.key_down(0x70, &snapshot(&[0x70]), false, &ui);
    assert_eq!(cmds, vec![UiCommand::Click(WindowTag::Main, 11)]);
}

#[test]
fn fold_all_clicks_each_visible_hide_control() {
    let cat = catalog(vec![
        ("p1", ItemKind::Fold(10, 11)),
        ("p2", ItemKind::Fold(20, 21)),
        ("all", ItemKind::FoldAll),
    ]);
    let km = bindings(vec![("all", vec![0x71])]);
    let mut h = Handler::new(&cat, km);
    let ui = ui_with_main(vec![ctrl(10, true, true), ctrl(20, false, true)]);
    let (_, cmds) = h.key_down(0x71, &snapshot(&[0x71]), false, &ui);
    assert_eq!(cmds, vec![UiCommand::Click(WindowTag::Main, 10)]);
}

#[test]
fn button_falls_back_to_sub_window() {
    let cat = catalog(vec![("jump", ItemKind::Button(100))]);
    let km = bindings(vec![("jump", vec![VK_J])]);
    let mut h = Handler::new(&cat, km);
    // Hidden under the main window, visible and enabled under the sub.
    let ui = UiState {
        main: vec![ctrl(100, false, true)],
        sub: Some(vec![ctrl(100, true, true)]),
        menus: Vec::new(),
    };
    let (_, cmds) = h.key_down(VK_J, &snapshot(&[VK_J]), false, &ui);
    assert_eq!(cmds, vec![UiCommand::Click(WindowTag::Sub, 100)]);
    // Disabled control: silent no-op, but still consumed.
    let ui = ui_with_main(vec![ctrl(100, true, false)]);
    let (consumed, cmds) = h.key_down(VK_J, &snapshot(&[VK_J]), false, &ui);
    assert!(consumed);
    assert!(cmds.is_empty());
}

#[test]
fn snapshot_race_retried_with_event_key() {
    let cat = catalog(vec![("jump", ItemKind::Button(100))]);
    let km = bindings(vec![("jump", vec![VK_J])]);
    let mut h = Handler::new(&cat, km);
    let ui = ui_with_main(vec![ctrl(100, true, true)]);
    // The snapshot lags and does not hold J yet; the retry with the
    // event's own key id still matches.
    let (consumed, cmds) = h.key_down(VK_J, &snapshot(&[]), false, &ui);
    assert!(consumed);
    assert_eq!(cmds, vec![UiCommand::Click(WindowTag::Main, 100)]);
}

#[test]
fn menu_invoke_respects_disabled_state() {
    let cat = catalog(vec![("render", ItemKind::Menu(1, 2))]);
    let km = bindings(vec![("render", vec![0x52])]);
    let mut h = Handler::new(&cat, km);
    let ui = UiState {
        main: Vec::new(),
        sub: None,
        menus: vec![vec![true], vec![true, true, true]],
    };
    let (_, cmds) = h.key_down(0x52, &snapshot(&[0x52]), false, &ui);
    assert_eq!(cmds, vec![UiCommand::MenuCommand(1, 2)]);
    let ui = UiState {
        main: Vec::new(),
        sub: None,
        menus: vec![vec![true], vec![true, true, false]],
    };
    let (_, cmds) = h.key_down(0x52, &snapshot(&[0x52]), false, &ui);
    assert!(cmds.is_empty());
}

#[test]
fn binding_table_json_round_trip() {
    // The decoded table resolves; handing the text back unchanged would
    // resolve nothing.
    let km = KeyMap::from_json("[[\"jump\", [74]]]").expect("valid JSON must decode");
    assert_eq!(km.len(), 1);
    let (name, chord) = km.get_entry(0);
    assert_eq!(name, "jump");
    assert!(chord == Keys::from_slice(&[VK_J]));
    assert!(KeyMap::from_json("not json").is_none());
    assert!(KeyMap::from_json("{\"jump\": 1}").is_none());
    // A table persists to the entries it decoded from.
    let entries = km.to_entries();
    assert_eq!(entries, vec![("jump".to_string(), vec![74u32])]);
}

#[test]
fn default_binding_table_synthesized() {
    let km = KeyMap::default();
    assert_eq!(km.len(), 2);
    let (n0, c0) = km.get_entry(0);
    assert_eq!(n0, "kill_focus");
    assert!(c0 == Keys::from_slice(&[0x1b]));
    let (n1, c1) = km.get_entry(1);
    assert_eq!(n1, "undo");
    assert!(c1 == Keys::from_slice(&[VK_CONTROL, 0x5a]));
}

#[test]
fn end_to_end_jump_binding() {
    let cat = catalog(vec![("jump", ItemKind::Button(100))]);
    let km = bindings(vec![("jump", vec![VK_J])]);
    let mut ctx = Context::new(Settings::default(), cat, km);
    let acts = ctx.call_window_proc_ret(&WindowEvent::Created {
        hwnd: 1000,
        class: WindowClass::Main,
    });
    assert_eq!(acts, vec![SessionAction::StartFileMonitor]);
    let (consumed, acts) = ctx.get_message(&HostMessage::KeyDown {
        vk: VK_J,
        hwnd: 1000,
        parent: 0,
        snapshot: snapshot(&[VK_J]),
        focused_is_edit: false,
        ui: ui_with_main(vec![ctrl(100, true, true)]),
    });
    assert!(consumed, "the J press must be consumed");
    assert_eq!(acts, vec![SessionAction::Ui(UiCommand::Click(WindowTag::Main, 100))]);
}

#[test]
fn hot_reload_removes_binding() {
    let cat = catalog(vec![("jump", ItemKind::Button(100))]);
    let km = bindings(vec![("jump", vec![VK_J])]);
    let mut ctx = Context::new(Settings::default(), cat, km);
    ctx.call_window_proc_ret(&WindowEvent::Created { hwnd: 1000, class: WindowClass::Main });
    // The binding-table file now lacks the "jump" entry.
    let used_default = ctx.reload(Some(&"[]".to_string()));
    assert!(!used_default);
    let (consumed, acts) = ctx.get_message(&HostMessage::KeyDown {
        vk: VK_J,
        hwnd: 1000,
        parent: 0,
        snapshot: snapshot(&[VK_J]),
        focused_is_edit: false,
        ui: ui_with_main(vec![ctrl(100, true, true)]),
    });
    assert!(!consumed, "the J press must no longer be consumed");
    assert!(acts.is_empty());
    // An unreadable file synthesizes the default table instead.
    assert!(ctx.reload(Some(&"garbage".to_string())));
    assert!(ctx.reload(None));
}

#[test]
fn session_window_lifecycle() {
    let cat = catalog(vec![("jump", ItemKind::Button(100))]);
    let mut ctx = Context::new(Settings::default(), cat, bindings(vec![]));
    ctx.call_window_proc_ret(&WindowEvent::Created { hwnd: 1, class: WindowClass::Main });
    ctx.call_window_proc_ret(&WindowEvent::Created { hwnd: 2, class: WindowClass::Sub });
    // A key event aimed at the sub window is handled.
    let (consumed, _) = ctx.get_message(&HostMessage::KeyUp {
        vk: 0x41,
        hwnd: 2,
        parent: 0,
        snapshot: snapshot(&[]),
    });
    assert!(consumed);
    // One aimed at a stranger window is not.
    let (consumed, _) = ctx.get_message(&HostMessage::KeyUp {
        vk: 0x41,
        hwnd: 77,
        parent: 78,
        snapshot: snapshot(&[]),
    });
    assert!(!consumed);
    // Destroying the sub window detaches it.
    ctx.call_window_proc_ret(&WindowEvent::Destroyed { hwnd: 2 });
    let (consumed, _) = ctx.get_message(&HostMessage::KeyUp {
        vk: 0x41,
        hwnd: 2,
        parent: 0,
        snapshot: snapshot(&[]),
    });
    assert!(!consumed);
    // Destroying the main window closes the editor and stops the watcher.
    ctx.set_key_config(55);
    let acts = ctx.call_window_proc_ret(&WindowEvent::Destroyed { hwnd: 1 });
    assert_eq!(
        acts,
        vec![SessionAction::CloseKeyConfig(55), SessionAction::StopFileMonitor]
    );
}

#[test]
fn session_menu_commands() {
    let cat = catalog(vec![]);
    let mut ctx = Context::new(Settings::default(), cat, bindings(vec![]));
    ctx.call_window_proc_ret(&WindowEvent::Created { hwnd: 1, class: WindowClass::Main });
    let (c, acts) = ctx.get_message(&HostMessage::MenuCommand(Some(MenuItem::LaunchConfig)));
    assert!(!c);
    assert_eq!(acts, vec![SessionAction::LaunchConfigEditor]);
    let (_, acts) =
        ctx.get_message(&HostMessage::MenuCommand(Some(MenuItem::RaiseTimerResolution(false))));
    assert_eq!(acts, vec![SessionAction::SetTimerResolution(false)]);
    assert!(!ctx.settings_to_persist().raise_timer_resolution);
    let (_, acts) =
        ctx.get_message(&HostMessage::MenuCommand(Some(MenuItem::KillFocusWithClick(false))));
    assert!(acts.is_empty());
    let (_, acts) = ctx.get_message(&HostMessage::MenuCommand(Some(MenuItem::Version)));
    assert_eq!(acts, vec![SessionAction::ShowVersion]);
    // A click into a text-entry control no longer kills focus once the
    // option is off.
    let (_, acts) = ctx.get_message(&HostMessage::MouseDown {
        focus_parent: 1,
        focus_is_edit: true,
    });
    assert!(acts.is_empty());
}

#[test]
fn mouse_click_kills_edit_focus() {
    let cat = catalog(vec![]);
    let mut ctx = Context::new(Settings::default(), cat, bindings(vec![]));
    ctx.call_window_proc_ret(&WindowEvent::Created { hwnd: 1, class: WindowClass::Main });
    let (c, acts) = ctx.get_message(&HostMessage::MouseDown {
        focus_parent: 1,
        focus_is_edit: true,
    });
    assert!(!c);
    assert_eq!(acts, vec![SessionAction::Ui(UiCommand::FocusMain)]);
    let (_, acts) = ctx.get_message(&HostMessage::MouseDown {
        focus_parent: 1,
        focus_is_edit: false,
    });
    assert!(acts.is_empty());
}

#[test]
fn virtual_key_state_query() {
    let cat = catalog(vec![("a", ItemKind::Key(0x41))]);
    let km = bindings(vec![("a", vec![0x41])]);
    let mut ctx = Context::new(Settings::default(), cat, km);
    ctx.call_window_proc_ret(&WindowEvent::Created { hwnd: 1, class: WindowClass::Main });
    // Tracked and released.
    assert_eq!(ctx.get_key_state(0x41), Some(0x0000));
    ctx.get_message(&HostMessage::KeyDown {
        vk: 0x41,
        hwnd: 1,
        parent: 0,
        snapshot: snapshot(&[0x41]),
        focused_is_edit: false,
        ui: ui_with_main(vec![]),
    });
    assert_eq!(ctx.get_key_state(0x41), Some(0xff80));
    // Untracked: the caller falls back to the raw state.
    assert_eq!(ctx.get_key_state(0x42), None);
    // Reserved mouse-button codes are never virtualized.
    assert_eq!(ctx.get_key_state(0x01), None);
}

#[test]
fn version_text() {
    assert_eq!(version_info("1.0"), "MMAccel 1.0\nby LNSEAB");
}

#[test]
fn main_window_menu() {
    let mw = MmdWindow::new(42, &Settings { raise_timer_resolution: true, kill_focus_with_click: false });
    assert_eq!(mw.window, 42);
    assert!(mw.sub_window.is_none());
    assert_eq!(
        mw.menu,
        vec![
            MenuEntry::Item(MenuItem::LaunchConfig),
            MenuEntry::Separator,
            MenuEntry::WithCheck(MenuItem::RaiseTimerResolution(true), true),
            MenuEntry::WithCheck(MenuItem::KillFocusWithClick(true), false),
            MenuEntry::Separator,
            MenuEntry::Item(MenuItem::Version),
        ]
    );
}

#[test]
fn menu_item_from_command() {
    assert_eq!(
        MenuItem::from_command(&MenuItem::LaunchConfig, MenuItemType::Plain),
        MenuItem::LaunchConfig
    );
    assert_eq!(
        MenuItem::from_command(
            &MenuItem::RaiseTimerResolution(true),
            MenuItemType::WithCheck(false)
        ),
        MenuItem::RaiseTimerResolution(false)
    );
    assert_eq!(
        MenuItem::from_command(
            &MenuItem::KillFocusWithClick(false),
            MenuItemType::WithCheck(true)
        ),
        MenuItem::KillFocusWithClick(true)
    );
    assert_eq!(
        MenuItem::from_command(&MenuItem::Version, MenuItemType::Plain),
        MenuItem::Version
    );
}
