use vstd::prelude::*;
use vstd::string::StringExecFns;
use crate::actions::MmdMap;
use crate::dispatch::UiCommand;
use crate::dispatch::UiState;
use crate::dispatch::ui_wf;
use crate::handler::Handler;
use crate::handler::fold_ids;
use crate::handler::full_overlay;
use crate::handler::full_table;
use crate::handler::kd_commands;
use crate::handler::kd_consumed;
use crate::handler::kd_overlay;
use crate::handler::kd_tabstop;
use crate::handler::overlay_after_key_up;
use crate::handler::spec_is_pressed;
use crate::handler::unfold_ids;
use crate::handler::unknown_names;
use crate::key_map::KeyMap;
use crate::key_map::canon_bindings;
use crate::key_map::default_bindings;
use crate::key_map::parsed_bindings;
use crate::keys::VK_TAB;
use crate::keys::chord_of_snapshot;

verus! {

/// User-tunable behaviour of the session.
#[derive(Clone, Copy, PartialEq, Eq, Structural, Debug)]
pub struct Settings {
    pub raise_timer_resolution: bool,
    pub kill_focus_with_click: bool,
}

impl Default for Settings {
    /// Both conveniences start enabled.
    fn default() -> (r: Settings)
        ensures
            r.raise_timer_resolution,
            r.kill_focus_with_click,
    {
        Settings { raise_timer_resolution: true, kill_focus_with_click: true }
    }
}

/// The session's own menu commands.
#[derive(Clone, Copy, PartialEq, Eq, Structural, Debug)]
pub enum MenuItem {
    LaunchConfig,
    RaiseTimerResolution(bool),
    KillFocusWithClick(bool),
    Version,
}

/// How a menu item carries state: plain, or with a check mark.
#[derive(Clone, Copy, PartialEq, Eq, Structural, Debug)]
pub enum MenuItemType {
    Plain,
    WithCheck(bool),
}

impl MenuItem {
    /// Rebuilds the menu item a received command stands for: the template
    /// names the variant, and checkable variants take their state from the
    /// menu item's reported type.
    pub fn from_command(template: &MenuItem, item_type: MenuItemType) -> (r: MenuItem)
        requires
            (template is RaiseTimerResolution || template is KillFocusWithClick)
                ==> item_type is WithCheck,
        ensures
            match *template {
                MenuItem::LaunchConfig => r == MenuItem::LaunchConfig,
                MenuItem::RaiseTimerResolution(_) => r == MenuItem::RaiseTimerResolution(
                    item_type->WithCheck_0,
                ),
                MenuItem::KillFocusWithClick(_) => r == MenuItem::KillFocusWithClick(
                    item_type->WithCheck_0,
                ),
                MenuItem::Version => r == MenuItem::Version,
            },
    {
        match template {
            MenuItem::LaunchConfig => MenuItem::LaunchConfig,
            MenuItem::RaiseTimerResolution(_) => match item_type {
                MenuItemType::WithCheck(b) => MenuItem::RaiseTimerResolution(b),
                MenuItemType::Plain => MenuItem::RaiseTimerResolution(false),
            },
            MenuItem::KillFocusWithClick(_) => match item_type {
                MenuItemType::WithCheck(b) => MenuItem::KillFocusWithClick(b),
                MenuItemType::Plain => MenuItem::KillFocusWithClick(false),
            },
            MenuItem::Version => MenuItem::Version,
        }
    }
}

/// One entry of the session's menu.
#[derive(Clone, Copy, PartialEq, Eq, Structural, Debug)]
pub enum MenuEntry {
    Item(MenuItem),
    Separator,
    WithCheck(MenuItem, bool),
}

/// The menu a fresh main window gets, with check marks from the settings.
pub open spec fn menu_entries(settings: Settings) -> Seq<MenuEntry> {
    seq![
        MenuEntry::Item(MenuItem::LaunchConfig),
        MenuEntry::Separator,
        MenuEntry::WithCheck(
            MenuItem::RaiseTimerResolution(true),
            settings.raise_timer_resolution,
        ),
        MenuEntry::WithCheck(MenuItem::KillFocusWithClick(true), settings.kill_focus_with_click),
        MenuEntry::Separator,
        MenuEntry::Item(MenuItem::Version),
    ]
}

/// The host application's main window, its optional sub window, and the
/// session menu attached to it.
pub struct MmdWindow {
    pub window: u64,
    pub sub_window: Option<u64>,
    pub menu: Vec<MenuEntry>,
}

impl MmdWindow {
    /// Wraps a freshly created main window: no sub window yet, and the
    /// session menu built from the settings.
    pub fn new(window: u64, settings: &Settings) -> (r: MmdWindow)
        ensures
            r.window == window,
            r.sub_window is None,
            r.menu@ == menu_entries(*settings),
    {
        let mut menu: Vec<MenuEntry> = Vec::new();
        menu.push(MenuEntry::Item(MenuItem::LaunchConfig));
        menu.push(MenuEntry::Separator);
        menu.push(
            MenuEntry::WithCheck(
                MenuItem::RaiseTimerResolution(true),
                settings.raise_timer_resolution,
            ),
        );
        menu.push(
            MenuEntry::WithCheck(
                MenuItem::KillFocusWithClick(true),
                settings.kill_focus_with_click,
            ),
        );
        menu.push(MenuEntry::Separator);
        menu.push(MenuEntry::Item(MenuItem::Version));
        proof {
            assert(menu@ =~= menu_entries(*settings));
        }
        MmdWindow { window, sub_window: None, menu }
    }
}

/// The version text shown by the session's about box.
pub fn version_info(version: &str) -> (r: String)
    ensures
        r@ == "MMAccel "@ + version@ + "\nby LNSEAB"@,
{
    let mut s = String::from_str("MMAccel ");
    s.append(version);
    s.append("\nby LNSEAB");
    s
}

/// Which of the host's window classes a created window belongs to.
#[derive(Clone, Copy, PartialEq, Eq, Structural, Debug)]
pub enum WindowClass {
    Main,
    Sub,
    Other,
}

/// A window lifecycle notification.
#[derive(Clone, Copy, PartialEq, Eq, Structural, Debug)]
pub enum WindowEvent {
    Created { hwnd: u64, class: WindowClass },
    Destroyed { hwnd: u64 },
}

/// One outside effect the session asks its caller to perform.
#[derive(Clone, Copy, PartialEq, Eq, Structural, Debug)]
pub enum SessionAction {
    /// Perform one UI command of the engine.
    Ui(UiCommand),
    /// Launch the out-of-process configuration editor.
    LaunchConfigEditor,
    /// Show the version box.
    ShowVersion,
    /// Raise (true) or restore (false) the timer resolution.
    SetTimerResolution(bool),
    /// Start watching the binding-table file.
    StartFileMonitor,
    /// Stop the watcher and join its thread.
    StopFileMonitor,
    /// Close the configuration editor's window.
    CloseKeyConfig(u64),
}

/// A raw host message, reduced to the data the session decides on.
pub enum HostMessage {
    /// A menu command, already resolved to the session's menu item.
    MenuCommand(Option<MenuItem>),
    /// A key-down notification with its context.
    KeyDown {
        vk: u32,
        hwnd: u64,
        parent: u64,
        snapshot: Vec<u8>,
        focused_is_edit: bool,
        ui: UiState,
    },
    /// A key-up notification with its context.
    KeyUp { vk: u32, hwnd: u64, parent: u64, snapshot: Vec<u8> },
    /// A mouse click, with the focused control's parent and class.
    MouseDown { focus_parent: u64, focus_is_edit: bool },
    /// Anything else.
    Other,
}

/// Whether a key event's window belongs to the host's main or sub window.
pub open spec fn spec_targets(hwnd: u64, parent: u64, main: u64, sub: Option<u64>) -> bool {
    hwnd == main || parent == main || sub == Some(hwnd) || sub == Some(parent)
}

/// UI commands wrapped as session actions, in order.
pub open spec fn wrap_ui(cmds: Seq<UiCommand>) -> Seq<SessionAction> {
    Seq::new(cmds.len(), |i: int| SessionAction::Ui(cmds[i]))
}

/// The bindings a reload settles on, and whether the default table had to
/// be synthesized: the decoded text when it decodes, the built-in defaults
/// when the file is missing or unreadable.
pub open spec fn reloaded_bindings(text: Option<Seq<char>>) -> (Seq<(Seq<char>, Seq<u32>)>, bool) {
    match text {
        Some(t) => match parsed_bindings(t) {
            Some(es) => (canon_bindings(es), false),
            None => (canon_bindings(default_bindings()), true),
        },
        None => (canon_bindings(default_bindings()), true),
    }
}

/// Session Controller state: owns the Action Catalog, the current Remap
/// Engine instance, the host windows and the session options. Rebuilt
/// engine instances replace the old one wholesale.
pub struct Context {
    pub settings: Settings,
    pub mmd_map: MmdMap,
    pub mmd_window: Option<MmdWindow>,
    pub handler: Handler,
    pub key_config: Option<u64>,
    pub time_period: bool,
}

impl Context {
    /// Starts a session: the engine is built from catalog and binding
    /// table, no window is known yet, and the timer-resolution option
    /// follows the settings.
    pub fn new(settings: Settings, mmd_map: MmdMap, key_map: KeyMap) -> (r: Context)
        ensures
            r.settings == settings,
            r.mmd_window is None,
            r.key_config is None,
            r.time_period == settings.raise_timer_resolution,
            r.mmd_map@ == mmd_map@,
            r.handler.table() == full_table(mmd_map@, key_map@),
            r.handler.overlay() == full_overlay(mmd_map@),
            r.handler.folds_list() == fold_ids(mmd_map@),
            r.handler.unfolds_list() == unfold_ids(mmd_map@),
            r.handler.warnings_view() == unknown_names(mmd_map@, key_map@),
            !r.handler.tab_stop(),
            r.handler.wf(),
    {
        let handler = Handler::new(&mmd_map, key_map);
        Context {
            settings,
            mmd_map,
            mmd_window: None,
            handler,
            key_config: None,
            time_period: settings.raise_timer_resolution,
        }
    }

    /// Rebuilds the Remap Engine wholesale from the binding-table file's
    /// current text: the decoded table when it decodes, otherwise the
    /// synthesized default table. Returns whether the default was used
    /// (the caller then persists it, best-effort).
    pub fn reload(&mut self, text: Option<&String>) -> (used_default: bool)
        ensures
            final(self).settings == old(self).settings,
            final(self).mmd_map@ == old(self).mmd_map@,
            final(self).mmd_window == old(self).mmd_window,
            final(self).key_config == old(self).key_config,
            final(self).time_period == old(self).time_period,
            ({
                let tv = match text {
                    Some(t) => Some(t@),
                    None => None::<Seq<char>>,
                };
                &&& used_default == reloaded_bindings(tv).1
                &&& final(self).handler.table() == full_table(
                    old(self).mmd_map@,
                    reloaded_bindings(tv).0,
                )
                &&& final(self).handler.overlay() == full_overlay(old(self).mmd_map@)
                &&& final(self).handler.folds_list() == fold_ids(old(self).mmd_map@)
                &&& final(self).handler.unfolds_list() == unfold_ids(old(self).mmd_map@)
                &&& final(self).handler.warnings_view() == unknown_names(
                    old(self).mmd_map@,
                    reloaded_bindings(tv).0,
                )
                &&& !final(self).handler.tab_stop()
                &&& final(self).handler.wf()
            }),
    {
        let (key_map, used_default): (KeyMap, bool) = match text {
            Some(t) => match KeyMap::from_json(t.as_str()) {
                Some(km) => (km, false),
                None => (KeyMap::default(), true),
            },
            None => (KeyMap::default(), true),
        };
        self.handler = Handler::new(&self.mmd_map, key_map);
        used_default
    }

    /// Tracks window lifecycle: a created main window installs the session
    /// menu and starts the file watcher; a created sub window is attached;
    /// destroying the main window closes the configuration editor and stops
    /// the watcher; destroying the sub window detaches it.
    pub fn call_window_proc_ret(&mut self, ev: &WindowEvent) -> (r: Vec<SessionAction>)
        ensures
            final(self).settings == old(self).settings,
            final(self).mmd_map@ == old(self).mmd_map@,
            final(self).handler == old(self).handler,
            final(self).key_config == old(self).key_config,
            final(self).time_period == old(self).time_period,
            match *ev {
                WindowEvent::Created { hwnd, class } => match class {
                    WindowClass::Main => {
                        &&& final(self).mmd_window matches Some(mw)
                        &&& final(self).mmd_window->Some_0.window == hwnd
                        &&& final(self).mmd_window->Some_0.sub_window is None
                        &&& final(self).mmd_window->Some_0.menu@ == menu_entries(
                            old(self).settings,
                        )
                        &&& r@ == seq![SessionAction::StartFileMonitor]
                    },
                    WindowClass::Sub => {
                        &&& r@ == Seq::<SessionAction>::empty()
                        &&& match old(self).mmd_window {
                            Some(mw) => {
                                &&& final(self).mmd_window matches Some(mw2)
                                &&& final(self).mmd_window->Some_0.window == mw.window
                                &&& final(self).mmd_window->Some_0.sub_window == Some(hwnd)
                                &&& final(self).mmd_window->Some_0.menu@ == mw.menu@
                            },
                            None => final(self).mmd_window is None,
                        }
                    },
                    WindowClass::Other => {
                        &&& final(self).mmd_window == old(self).mmd_window
                        &&& r@ == Seq::<SessionAction>::empty()
                    },
                },
                WindowEvent::Destroyed { hwnd } => {
                    &&& if old(self).mmd_window matches Some(mw) && mw.window == hwnd {
                        &&& final(self).mmd_window == old(self).mmd_window
                        &&& r@ == (match old(self).key_config {
                            Some(kc) => seq![
                                SessionAction::CloseKeyConfig(kc),
                                SessionAction::StopFileMonitor,
                            ],
                            None => seq![SessionAction::StopFileMonitor],
                        })
                    } else if old(self).mmd_window matches Some(mw) && mw.sub_window == Some(
                        hwnd,
                    ) {
                        &&& final(self).mmd_window matches Some(mw2)
                        &&& final(self).mmd_window->Some_0.window == old(
                            self,
                        ).mmd_window->Some_0.window
                        &&& final(self).mmd_window->Some_0.sub_window is None
                        &&& final(self).mmd_window->Some_0.menu@ == old(
                            self,
                        ).mmd_window->Some_0.menu@
                        &&& r@ == Seq::<SessionAction>::empty()
                    } else {
                        &&& final(self).mmd_window == old(self).mmd_window
                        &&& r@ == Seq::<SessionAction>::empty()
                    }
                },
            },
    {
        let mut actions: Vec<SessionAction> = Vec::new();
        match ev {
            WindowEvent::Created { hwnd, class } => match class {
                WindowClass::Main => {
                    self.mmd_window = Some(MmdWindow::new(*hwnd, &self.settings));
                    actions.push(SessionAction::StartFileMonitor);
                    proof {
                        assert(actions@ =~= seq![SessionAction::StartFileMonitor]);
                    }
                },
                WindowClass::Sub => {
                    let prev = self.mmd_window.take();
                    match prev {
                        Some(mw) => {
                            self.mmd_window = Some(
                                MmdWindow {
                                    window: mw.window,
                                    sub_window: Some(*hwnd),
                                    menu: mw.menu,
                                },
                            );
                        },
                        None => {},
                    }
                },
                WindowClass::Other => {},
            },
            WindowEvent::Destroyed { hwnd } => {
                let is_main = match &self.mmd_window {
                    Some(mw) => mw.window == *hwnd,
                    None => false,
                };
                let is_sub = match &self.mmd_window {
                    Some(mw) => mw.sub_window == Some(*hwnd),
                    None => false,
                };
                if is_main {
                    match self.key_config {
                        Some(kc) => {
                            actions.push(SessionAction::CloseKeyConfig(kc));
                        },
                        None => {},
                    }
                    actions.push(SessionAction::StopFileMonitor);
                    proof {
                        if old(self).key_config is Some {
                            assert(actions@ =~= seq![
                                SessionAction::CloseKeyConfig(old(self).key_config->Some_0),
                                SessionAction::StopFileMonitor,
                            ]);
                        } else {
                            assert(actions@ =~= seq![SessionAction::StopFileMonitor]);
                        }
                    }
                } else if is_sub {
                    let prev = self.mmd_window.take();
                    match prev {
                        Some(mw) => {
                            self.mmd_window = Some(
                                MmdWindow { window: mw.window, sub_window: None, menu: mw.menu },
                            );
                        },
                        None => {},
                    }
                }
            },
        }
        actions
    }

    /// Decides one host message: menu commands tweak the session options or
    /// request outside work; key events aimed at the host's windows go to
    /// the engine, and the returned flag says whether default processing
    /// must be suppressed; a click into a text-entry control returns focus
    /// to the main window when that option is on.
    pub fn get_message(&mut self, msg: &HostMessage) -> (r: (bool, Vec<SessionAction>))
        requires
            old(self).handler.wf(),
            match *msg {
                HostMessage::KeyDown { ref snapshot, ref ui, .. } => snapshot@.len()
                    <= 0x1_0000_0000 && ui_wf(ui),
                HostMessage::KeyUp { ref snapshot, .. } => snapshot@.len() <= 0x1_0000_0000,
                _ => true,
            },
        ensures
            final(self).handler.wf(),
            final(self).mmd_map@ == old(self).mmd_map@,
            final(self).mmd_window == old(self).mmd_window,
            final(self).key_config == old(self).key_config,
            final(self).handler.table() == old(self).handler.table(),
            final(self).handler.folds_list() == old(self).handler.folds_list(),
            final(self).handler.unfolds_list() == old(self).handler.unfolds_list(),
            final(self).handler.warnings_view() == old(self).handler.warnings_view(),
            match *msg {
                HostMessage::MenuCommand(mi) => {
                    &&& final(self).handler == old(self).handler
                    &&& r.0 == false
                    &&& if old(self).mmd_window is Some {
                        match mi {
                            Some(MenuItem::LaunchConfig) => {
                                &&& final(self).settings == old(self).settings
                                &&& final(self).time_period == old(self).time_period
                                &&& r.1@ == seq![SessionAction::LaunchConfigEditor]
                            },
                            Some(MenuItem::RaiseTimerResolution(b)) => {
                                &&& final(self).settings == old(self).settings
                                &&& final(self).time_period == b
                                &&& r.1@ == seq![SessionAction::SetTimerResolution(b)]
                            },
                            Some(MenuItem::KillFocusWithClick(b)) => {
                                &&& final(self).settings.kill_focus_with_click == b
                                &&& final(self).settings.raise_timer_resolution == old(
                                    self,
                                ).settings.raise_timer_resolution
                                &&& final(self).time_period == old(self).time_period
                                &&& r.1@ == Seq::<SessionAction>::empty()
                            },
                            Some(MenuItem::Version) => {
                                &&& final(self).settings == old(self).settings
                                &&& final(self).time_period == old(self).time_period
                                &&& r.1@ == seq![SessionAction::ShowVersion]
                            },
                            None => {
                                &&& final(self).settings == old(self).settings
                                &&& final(self).time_period == old(self).time_period
                                &&& r.1@ == Seq::<SessionAction>::empty()
                            },
                        }
                    } else {
                        &&& final(self).settings == old(self).settings
                        &&& final(self).time_period == old(self).time_period
                        &&& r.1@ == Seq::<SessionAction>::empty()
                    }
                },
                HostMessage::KeyDown { vk, hwnd, parent, ref snapshot, focused_is_edit, ref ui } => {
                    &&& final(self).settings == old(self).settings
                    &&& final(self).time_period == old(self).time_period
                    &&& if old(self).mmd_window matches Some(mw) && spec_targets(
                        hwnd,
                        parent,
                        mw.window,
                        mw.sub_window,
                    ) {
                        let ch = chord_of_snapshot(snapshot@);
                        &&& r.0 == kd_consumed(old(self).handler.table(), ch, vk, focused_is_edit)
                        &&& r.1@ == wrap_ui(
                            kd_commands(
                                old(self).handler.table(),
                                old(self).handler.folds_list(),
                                old(self).handler.unfolds_list(),
                                ch,
                                vk,
                                focused_is_edit,
                                ui,
                            ),
                        )
                        &&& final(self).handler.overlay() == kd_overlay(
                            old(self).handler.table(),
                            old(self).handler.overlay(),
                            ch,
                            vk,
                            focused_is_edit,
                        )
                        &&& final(self).handler.tab_stop() == kd_tabstop(
                            old(self).handler.tab_stop(),
                            ch,
                            focused_is_edit,
                        )
                    } else {
                        &&& final(self).handler == old(self).handler
                        &&& r.0 == false
                        &&& r.1@ == Seq::<SessionAction>::empty()
                    }
                },
                HostMessage::KeyUp { vk, hwnd, parent, ref snapshot } => {
                    &&& final(self).settings == old(self).settings
                    &&& final(self).time_period == old(self).time_period
                    &&& r.1@ == Seq::<SessionAction>::empty()
                    &&& if old(self).mmd_window matches Some(mw) && spec_targets(
                        hwnd,
                        parent,
                        mw.window,
                        mw.sub_window,
                    ) {
                        &&& r.0 == true
                        &&& final(self).handler.overlay() == overlay_after_key_up(
                            old(self).handler.overlay(),
                            old(self).handler.table(),
                            chord_of_snapshot(snapshot@).to_set(),
                        )
                        &&& final(self).handler.tab_stop() == (old(self).handler.tab_stop() && vk
                            != VK_TAB)
                    } else {
                        &&& final(self).handler == old(self).handler
                        &&& r.0 == false
                    }
                },
                HostMessage::MouseDown { focus_parent, focus_is_edit } => {
                    &&& final(self).handler == old(self).handler
                    &&& final(self).settings == old(self).settings
                    &&& final(self).time_period == old(self).time_period
                    &&& r.0 == false
                    &&& if old(self).settings.kill_focus_with_click && (old(
                        self,
                    ).mmd_window matches Some(mw) && focus_parent == mw.window) && focus_is_edit {
                        r.1@ == seq![SessionAction::Ui(UiCommand::FocusMain)]
                    } else {
                        r.1@ == Seq::<SessionAction>::empty()
                    }
                },
                HostMessage::Other => {
                    &&& final(self).handler == old(self).handler
                    &&& final(self).settings == old(self).settings
                    &&& final(self).time_period == old(self).time_period
                    &&& r.0 == false
                    &&& r.1@ == Seq::<SessionAction>::empty()
                },
            },
    {
        let mut actions: Vec<SessionAction> = Vec::new();
        match msg {
            HostMessage::MenuCommand(mi) => {
                if self.mmd_window.is_some() {
                    match mi {
                        Some(MenuItem::LaunchConfig) => {
                            actions.push(SessionAction::LaunchConfigEditor);
                            proof {
                                assert(actions@ =~= seq![SessionAction::LaunchConfigEditor]);
                            }
                        },
                        Some(MenuItem::RaiseTimerResolution(b)) => {
                            self.time_period = *b;
                            actions.push(SessionAction::SetTimerResolution(*b));
                            proof {
                                assert(actions@ =~= seq![SessionAction::SetTimerResolution(*b)]);
                            }
                        },
                        Some(MenuItem::KillFocusWithClick(b)) => {
                            self.settings.kill_focus_with_click = *b;
                        },
                        Some(MenuItem::Version) => {
                            actions.push(SessionAction::ShowVersion);
                            proof {
                                assert(actions@ =~= seq![SessionAction::ShowVersion]);
                            }
                        },
                        None => {},
                    }
                }
                (false, actions)
            },
            HostMessage::KeyDown { vk, hwnd, parent, snapshot, focused_is_edit, ui } => {
                let (main, sub, known) = match &self.mmd_window {
                    Some(mw) => (mw.window, mw.sub_window, true),
                    None => (0u64, None::<u64>, false),
                };
                if known && (*hwnd == main || *parent == main || sub == Some(*hwnd) || sub == Some(
                    *parent,
                )) {
                    let (consumed, cmds) = self.handler.key_down(
                        *vk,
                        snapshot.as_slice(),
                        *focused_is_edit,
                        ui,
                    );
                    let mut i: usize = 0;
                    proof {
                        assert(actions@ =~= wrap_ui(cmds@.take(0)));
                    }
                    while i < cmds.len()
                        invariant
                            i <= cmds.len(),
                            actions@ == wrap_ui(cmds@.take(i as int)),
                        decreases cmds.len() - i,
                    {
                        actions.push(SessionAction::Ui(cmds[i]));
                        proof {
                            assert(actions@ =~= wrap_ui(cmds@.take(i + 1)));
                        }
                        i = i + 1;
                    }
                    proof {
                        assert(cmds@.take(cmds@.len() as int) =~= cmds@);
                    }
                    (consumed, actions)
                } else {
                    (false, actions)
                }
            },
            HostMessage::KeyUp { vk, hwnd, parent, snapshot } => {
                let (main, sub, known) = match &self.mmd_window {
                    Some(mw) => (mw.window, mw.sub_window, true),
                    None => (0u64, None::<u64>, false),
                };
                if known && (*hwnd == main || *parent == main || sub == Some(*hwnd) || sub == Some(
                    *parent,
                )) {
                    self.handler.key_up(*vk, snapshot.as_slice());
                    (true, actions)
                } else {
                    (false, actions)
                }
            },
            HostMessage::MouseDown { focus_parent, focus_is_edit } => {
                if self.settings.kill_focus_with_click {
                    let hit = match &self.mmd_window {
                        Some(mw) => *focus_parent == mw.window,
                        None => false,
                    };
                    if hit && *focus_is_edit {
                        actions.push(SessionAction::Ui(UiCommand::FocusMain));
                        proof {
                            assert(actions@ =~= seq![SessionAction::Ui(UiCommand::FocusMain)]);
                        }
                    }
                }
                (false, actions)
            },
            HostMessage::Other => (false, actions),
        }
    }

    /// Remembers the configuration editor's window once the caller's
    /// handshake located it.
    pub fn set_key_config(&mut self, hwnd: u64)
        ensures
            final(self).key_config == Some(hwnd),
            final(self).settings == old(self).settings,
            final(self).mmd_map@ == old(self).mmd_map@,
            final(self).mmd_window == old(self).mmd_window,
            final(self).handler == old(self).handler,
            final(self).time_period == old(self).time_period,
    {
        self.key_config = Some(hwnd);
    }

    /// Answers the host's key-state query: a virtualized state word for a
    /// tracked key (high bit set while pressed), `None` when the caller
    /// must consult the raw hardware state.
    pub fn get_key_state(&self, vk: u32) -> (r: Option<u16>)
        ensures
            r == (match spec_is_pressed(self.handler.overlay(), self.handler.tab_stop(), vk) {
                Some(true) => Some(0xff80u16),
                Some(false) => Some(0x0000u16),
                None => None::<u16>,
            }),
    {
        match self.handler.is_pressed(vk) {
            Some(true) => Some(0xff80),
            Some(false) => Some(0x0000),
            None => None,
        }
    }

    /// The settings to persist at teardown: the timer-resolution flag
    /// follows whether the raised resolution is currently active.
    pub fn settings_to_persist(&self) -> (r: Settings)
        ensures
            r.raise_timer_resolution == self.time_period,
            r.kill_focus_with_click == self.settings.kill_focus_with_click,
    {
        Settings {
            raise_timer_resolution: self.time_period,
            kill_focus_with_click: self.settings.kill_focus_with_click,
        }
    }
}

} // verus!
