//! What the program does: which badges there are, which tags, and how the program
//! reacts to hotkeys, to its tray icon, to its windows and to those of others.

use crate::common::{
    WM_APP_EDIT_TAG, WM_APP_EXIT, WM_APP_OPEN_SETTINGS, WM_APP_TAGS_CHANGED, WM_APP_THEME_CHANGED,
    WM_APP_WINEVENT, WM_CREATE_OVERLAY, WM_DESTROY_OVERLAY,
};
use crate::hotkey::Hotkey;
use crate::model::matcher;
use crate::model::settings::{
    global_settings, replace_global_settings, CornerPreference, Settings, SharedSettings, ThemeMode,
};
use crate::model::tag::{Tag, TagColor, TagStore};
use crate::sys::native_prefs::{prefs_from_settings, set_native_prefs, NativePrefs, PrefsSlot};
use crate::sys::overlay;
use crate::sys::overlay::{
    raise_plan, HidePlan, InsertAfter, Overlay, PostedMessage, RaisePlan,
};
use crate::sys::tray::TrayCommand;
use crate::sys::win_event;
use crate::sys::win_event::{classify, WinEventAction};
use crate::sys::window::WindowInfo;
use crate::text;
use crate::ui::geo;
use crate::ui::geo::{clamp_to_work, scale_px, Rect, POPUP_LOGICAL_H, POPUP_LOGICAL_W};
use crate::ui::iced_proto::{GuiEvent, IcedCommand, TagRow};
use crate::ui::rows;
use crate::ui::settings;
use crate::ui::settings::current_settings;
use crate::ui::theme;
use crate::ui::theme::{is_dark, resolve_colors, set_theme, ThemeState};
use std::collections::HashMap;
use vstd::prelude::*;

verus! {

broadcast use vstd::std_specs::hash::group_hash_axioms;

// ---------------------------------------------------------------------
// Starting and quitting
// ---------------------------------------------------------------------
/// Code of the system for something that exists already.
pub const ERROR_ALREADY_EXISTS: u32 = 183;

/// Whether the program runs already: what marks a running program exists.
pub fn single_instance_conflict(err: u32) -> (conflict: bool)
    ensures
        conflict == (err == ERROR_ALREADY_EXISTS),
{
    err == ERROR_ALREADY_EXISTS
}

/// Whether to ask before quitting: tags would be lost, and the user has not agreed
/// yet.
pub fn should_confirm_exit(has_tags: bool, confirmed: bool) -> (ask: bool)
    ensures
        ask == (has_tags && !confirmed),
{
    has_tags && !confirmed
}

/// Whether an argument is the option that keeps the program out of the tray.
pub open spec fn is_no_tray(arg: Option<String>) -> bool {
    arg is Some && arg->0@ == "--no-tray"@
}

/// Whether some argument is the option that keeps the program out of the tray.
pub open spec fn keeps_out_of_tray(args: Seq<Option<String>>) -> bool {
    exists|i: int| 0 <= i < args.len() && is_no_tray(#[trigger] args[i])
}

/// Whether the command line keeps the program out of the tray. An argument that
/// is no Unicode text is `None`.
pub fn parse_cli_no_tray(args: &[Option<String>]) -> (no_tray: bool)
    ensures
        no_tray == keeps_out_of_tray(args@),
        no_tray == exists|i: int| 0 <= i < args.len() && is_no_tray(#[trigger] args[i]),
{
    let mut i: usize = 0;
    while i < args.len()
        invariant
            i <= args.len(),
            forall|k: int| 0 <= k < i ==> !is_no_tray(#[trigger] args[k]),
        decreases args.len() - i,
    {
        if let Some(arg) = &args[i] {
            if text::same(arg.as_str(), "--no-tray") {
                assert(is_no_tray(args[i as int]));
                return true;
            }
        }
        i = i + 1;
    }
    false
}

/// What badges, tooltips and the tray need to know.
pub open spec fn prefs_of(cfg: Settings, system_dark: bool) -> NativePrefs {
    let colors = if theme::means_dark(cfg.theme, system_dark) {
        theme::dark()
    } else {
        theme::light()
    };
    NativePrefs {
        show_title: cfg.show_badge_title,
        badge_always_top: cfg.badge_always_top,
        tooltip_bg: colors.tooltip_bg,
        tooltip_fg: colors.tooltip_fg,
        balloon_enabled: cfg.show_balloon,
    }
}

/// What badges, tooltips and the tray need to know: the preferences, and the
/// colours of the theme.
pub fn apply_native_prefs(cfg: Settings, system_dark: bool) -> (prefs: NativePrefs)
    ensures
        prefs == prefs_of(cfg, system_dark),
{
    let colors = resolve_colors(cfg.theme, system_dark);
    prefs_from_settings(&cfg, colors.tooltip_bg, colors.tooltip_fg)
}

// ---------------------------------------------------------------------
// The state of the program
// ---------------------------------------------------------------------
/// There are never more badges than this.
pub const MAX_OVERLAYS: usize = 256;

/// Milliseconds between two looks at all badges.
pub const POLL_MS: u32 = 500;

/// Milliseconds between two looks at all badges while a tagged window moves.
pub const FAST_POLL_MS: u32 = 100;

/// The timer that looks at all badges.
pub const TIMER_POLL_OVERLAYS: usize = 0x1234;

/// The timer that shows the balloon at the start.
pub const TIMER_BALLOON: usize = 0x1235;

/// The system tells that a setting of it changed.
pub const WM_SETTINGCHANGE: u32 = 0x001A;

/// A timer ran out.
pub const WM_TIMER: u32 = 0x0113;

/// Badges by the window that they belong to.
pub type OverlayMap = HashMap<isize, Overlay>;

/// The state of the program.
#[derive(Debug)]
pub struct Session {
    /// Window that takes the messages of the program.
    pub hidden_hwnd: isize,
    pub overlays: OverlayMap,
    pub tags: TagStore,
    pub panel_visible: bool,
    pub settings: SharedSettings,
    pub theme: ThemeState,
    pub prefs: PrefsSlot,
}

/// Contents of a [`Session`].
pub struct SessionView {
    pub hidden_hwnd: isize,
    pub overlays: Map<isize, Overlay>,
    pub tags: Map<isize, Tag>,
    pub panel_visible: bool,
    pub settings: SharedSettings,
    pub theme: ThemeState,
    pub prefs: PrefsSlot,
}

impl View for Session {
    type V = SessionView;

    open spec fn view(&self) -> SessionView {
        SessionView {
            hidden_hwnd: self.hidden_hwnd,
            overlays: self.overlays@,
            tags: self.tags@,
            panel_visible: self.panel_visible,
            settings: self.settings,
            theme: self.theme,
            prefs: self.prefs,
        }
    }
}

impl SessionView {
    /// There are not too many badges, and each is kept under its window.
    pub open spec fn is_valid(self) -> bool {
        &&& self.overlays.len() <= MAX_OVERLAYS
        &&& forall|target: isize| #[trigger]
            self.overlays.contains_key(target) ==> self.overlays[target].target_hwnd == target
    }
}

/// Something that is left to do.
#[derive(Debug)]
pub enum SessionEffect {
    /// What the system usually does.
    PassOn,
    /// Tell the user interface.
    Send(IcedCommand),
    /// Send a message.
    Post(PostedMessage),
    /// Make a badge for this window.
    CreateOverlay { target: isize },
    /// Draw this badge anew.
    RefreshOverlay { overlay: Overlay },
    /// Close this badge.
    DestroyOverlay { overlay: Overlay },
    /// Put this badge where its window is.
    SyncOverlay { overlay: Overlay, force: bool },
    /// Show this badge.
    ShowOverlay { overlay: Overlay },
    /// Hide this badge.
    HideOverlay { overlay: Overlay },
    /// Draw all badges anew and put them where their windows are.
    RedrawOverlays,
    /// Look at all badges this often.
    SetPollInterval(u32),
    /// Look at all badges now.
    PollOverlays,
    /// Stop the timer of the balloon, and show the balloon.
    ShowBalloon,
    /// Bring this window to the front.
    ActivateWindow { target: isize },
    /// Make a tag for the window in front.
    QuickTag,
    /// Store these preferences.
    SaveSettings(Settings),
    /// Look up the theme anew.
    ReapplyTheme,
    /// Give the program's own window this look.
    StyleWindow { dark: bool, corner: CornerPreference },
    /// Quit.
    Quit,
}

impl Session {
    /// The state in which the program starts.
    pub fn new(hidden_hwnd: isize, settings: SharedSettings) -> (session: Self)
        ensures
            session@ == (SessionView {
                hidden_hwnd,
                overlays: Map::empty(),
                tags: Map::empty(),
                panel_visible: false,
                settings,
                theme: ThemeState { colors: None },
                prefs: PrefsSlot { value: None },
            }),
            session@.is_valid(),
    {
        Session {
            hidden_hwnd,
            overlays: HashMap::new(),
            tags: HashMap::new(),
            panel_visible: false,
            settings,
            theme: ThemeState { colors: None },
            prefs: PrefsSlot { value: None },
        }
    }

    // -----------------------------------------------------------------
    // Badges
    // -----------------------------------------------------------------
    /// A request for a badge. It is refused for a window that is not there, and
    /// when there are too many badges; a badge that is there is drawn anew.
    pub fn create_overlay(&self, target: isize, alive: bool) -> (effects: Vec<SessionEffect>)
        ensures
            effects@ == create_effects(self@, target, alive),
    {
        let mut effects: Vec<SessionEffect> = Vec::new();
        if alive && self.overlays.len() < MAX_OVERLAYS {
            match self.overlays.get(&target) {
                Some(overlay) => {
                    effects.push(SessionEffect::RefreshOverlay { overlay: *overlay });
                },
                None => {
                    effects.push(SessionEffect::CreateOverlay { target });
                },
            }
        }
        proof {
            assert(effects@ =~= create_effects(self@, target, alive));
        }
        effects
    }

    /// Keeps a badge that was made, unless its window has one or there are too
    /// many. Returns whether it is kept.
    pub fn overlay_created(&mut self, target: isize, hwnd: isize) -> (kept: bool)
        requires
            old(self)@.is_valid(),
        ensures
            kept == (old(self)@.overlays.len() < MAX_OVERLAYS
                && !old(self)@.overlays.contains_key(target)),
            final(self)@ == (SessionView {
                overlays: if kept {
                    old(self)@.overlays.insert(
                        target,
                        Overlay { hwnd, target_hwnd: target, running: true, visible: true },
                    )
                } else {
                    old(self)@.overlays
                },
                ..old(self)@
            }),
            final(self)@.is_valid(),
    {
        if self.overlays.len() >= MAX_OVERLAYS || self.overlays.contains_key(&target) {
            return false;
        }
        self.overlays.insert(target, Overlay::new(hwnd, target));
        true
    }

    /// A request to take a badge away.
    pub fn destroy_overlay(&mut self, target: isize) -> (effects: Vec<SessionEffect>)
        requires
            old(self)@.is_valid(),
        ensures
            effects@ == destroy_effects(old(self)@, target),
            final(self)@ == (SessionView {
                overlays: old(self)@.overlays.remove(target),
                ..old(self)@
            }),
            final(self)@.is_valid(),
    {
        let mut effects: Vec<SessionEffect> = Vec::new();
        if let Some(overlay) = self.overlays.remove(&target) {
            effects.push(SessionEffect::DestroyOverlay { overlay });
        }
        proof {
            assert(effects@ =~= destroy_effects(old(self)@, target));
        }
        effects
    }

    /// Hides the badge of a window and its tooltip. Returns what that asks for, or
    /// `None` when the window has no badge.
    pub fn hide_overlay(&mut self, target: isize, tooltip: isize) -> (plan: Option<HidePlan>)
        requires
            old(self)@.is_valid(),
        ensures
            plan == (if old(self)@.overlays.contains_key(target) {
                let shown = old(self)@.overlays[target].visible;
                Some(
                    HidePlan {
                        hide_window: shown,
                        close_tooltip: if shown {
                            overlay::open_tooltip(tooltip)
                        } else {
                            None
                        },
                    },
                )
            } else {
                None
            }),
            final(self)@ == with_visibility(old(self)@, target, false),
            final(self)@.is_valid(),
    {
        let mut overlay: Overlay = match self.overlays.get(&target) {
            Some(overlay) => *overlay,
            None => {
                return None;
            },
        };
        let plan: HidePlan = overlay.hide_badge(tooltip);
        self.overlays.insert(target, overlay);
        Some(plan)
    }

    /// Shows the badge of a window. Returns whether the badge's window has to be
    /// shown.
    pub fn show_overlay(&mut self, target: isize) -> (show_window: bool)
        requires
            old(self)@.is_valid(),
        ensures
            show_window == (old(self)@.overlays.contains_key(target)
                && !old(self)@.overlays[target].visible),
            final(self)@ == with_visibility(old(self)@, target, true),
            final(self)@.is_valid(),
    {
        let mut overlay: Overlay = match self.overlays.get(&target) {
            Some(overlay) => *overlay,
            None => {
                return false;
            },
        };
        let show_window: bool = overlay.show();
        self.overlays.insert(target, overlay);
        show_window
    }

    /// Takes the tag of a window out of the store.
    pub fn remove_tag(&mut self, target: isize)
        ensures
            final(self)@ == (SessionView { tags: old(self)@.tags.remove(target), ..old(self)@ }),
    {
        let _ = matcher::remove_tag(&mut self.tags, target);
    }

    /// Forgets a window: its badge and its tag.
    pub fn forget_target(&mut self, target: isize) -> (effects: Vec<SessionEffect>)
        requires
            old(self)@.is_valid(),
        ensures
            effects@ == destroy_effects(old(self)@, target),
            final(self)@ == without_window(old(self)@, target),
            final(self)@.is_valid(),
    {
        let effects: Vec<SessionEffect> = self.destroy_overlay(target);
        self.remove_tag(target);
        effects
    }
}

/// What a request for a badge leaves to do.
pub open spec fn create_effects(s: SessionView, target: isize, alive: bool) -> Seq<SessionEffect> {
    if !alive || s.overlays.len() >= MAX_OVERLAYS {
        Seq::empty()
    } else if s.overlays.contains_key(target) {
        seq![SessionEffect::RefreshOverlay { overlay: s.overlays[target] }]
    } else {
        seq![SessionEffect::CreateOverlay { target }]
    }
}

/// What taking a badge away leaves to do.
pub open spec fn destroy_effects(s: SessionView, target: isize) -> Seq<SessionEffect> {
    if s.overlays.contains_key(target) {
        seq![SessionEffect::DestroyOverlay { overlay: s.overlays[target] }]
    } else {
        Seq::empty()
    }
}

/// The state without what is known of a window.
pub open spec fn without_window(s: SessionView, target: isize) -> SessionView {
    SessionView { overlays: s.overlays.remove(target), tags: s.tags.remove(target), ..s }
}

// ---------------------------------------------------------------------
// What happens to other windows
// ---------------------------------------------------------------------
/// The state with the badge of a window shown or hidden. Nothing else differs.
pub open spec fn with_visibility(s: SessionView, target: isize, visible: bool) -> SessionView {
    if s.overlays.contains_key(target) {
        SessionView {
            overlays: s.overlays.insert(target, Overlay { visible, ..s.overlays[target] }),
            ..s
        }
    } else {
        s
    }
}

/// The state once everything that is left to do has been done, one after the
/// other: badges that are to be hidden are hidden, and those to be shown are shown.
pub open spec fn carried_out(s: SessionView, effects: Seq<SessionEffect>) -> SessionView
    decreases effects.len(),
{
    if effects.len() == 0 {
        s
    } else {
        let before = carried_out(s, effects.drop_last());
        match effects.last() {
            SessionEffect::HideOverlay { overlay } => with_visibility(
                before,
                overlay.target_hwnd,
                false,
            ),
            SessionEffect::ShowOverlay { overlay } => with_visibility(
                before,
                overlay.target_hwnd,
                true,
            ),
            _ => before,
        }
    }
}

/// What an event of another window leaves to do.
pub open spec fn winevent_effects(s: SessionView, target: isize, event: u32) -> Seq<SessionEffect> {
    let has_badge = s.overlays.contains_key(target);
    let overlay = s.overlays[target];
    match win_event::action_of(event) {
        WinEventAction::Sync | WinEventAction::BringToTop => if has_badge {
            seq![SessionEffect::SyncOverlay { overlay, force: false }]
        } else {
            Seq::empty()
        },
        WinEventAction::Hide => if has_badge {
            seq![SessionEffect::HideOverlay { overlay }]
        } else {
            Seq::empty()
        },
        WinEventAction::Show => if has_badge {
            seq![
                SessionEffect::ShowOverlay { overlay },
                SessionEffect::SyncOverlay { overlay, force: false },
            ]
        } else {
            Seq::empty()
        },
        WinEventAction::Forget => destroy_effects(s, target),
        WinEventAction::MoveStart => if has_badge {
            seq![SessionEffect::SetPollInterval(FAST_POLL_MS)]
        } else {
            Seq::empty()
        },
        WinEventAction::MoveEnd => if has_badge {
            seq![
                SessionEffect::SyncOverlay { overlay, force: true },
                SessionEffect::SetPollInterval(POLL_MS),
            ]
        } else {
            seq![SessionEffect::SetPollInterval(POLL_MS)]
        },
        WinEventAction::Ignore => Seq::empty(),
    }
}

/// The state after an event of another window: only a window that goes away
/// changes it.
pub open spec fn after_winevent(s: SessionView, target: isize, event: u32) -> SessionView {
    if win_event::action_of(event) is Forget {
        without_window(s, target)
    } else {
        s
    }
}

/// What is seen of a window that has a badge.
#[derive(Debug, Clone, Copy, PartialEq, Eq, Structural)]
pub struct PolledWindow {
    pub target: isize,
    pub alive: bool,
    pub iconic: bool,
    pub visible: bool,
}

/// What a look at a badge leaves to do.
#[derive(Debug, Clone, Copy, PartialEq, Eq, Structural)]
pub enum PollStep {
    /// There is no badge.
    Nothing,
    /// Close this badge: its window is gone.
    Destroy { overlay: Overlay },
    /// Put this badge where its window is; `show` tells to show it first.
    Sync { overlay: Overlay, show: bool },
}

/// What a look at a badge leaves to do: a badge is shown when its window can be
/// seen and the badge is hidden.
pub open spec fn poll_step(s: SessionView, seen: PolledWindow) -> PollStep {
    if !s.overlays.contains_key(seen.target) {
        PollStep::Nothing
    } else if !seen.alive {
        PollStep::Destroy { overlay: s.overlays[seen.target] }
    } else {
        PollStep::Sync {
            overlay: s.overlays[seen.target],
            show: !seen.iconic && seen.visible && !s.overlays[seen.target].visible,
        }
    }
}

/// Whether a look at all badges finds that a window with a badge is gone.
pub open spec fn found_dead(s: SessionView, seen: Seq<PolledWindow>, target: isize) -> bool {
    s.overlays.contains_key(target) && exists|i: int|
        0 <= i < seen.len() && !(#[trigger] seen[i]).alive && seen[i].target == target
}

/// The windows that a look at all badges finds gone.
pub open spec fn dead_windows(s: SessionView, seen: Seq<PolledWindow>) -> Set<isize> {
    Set::new(|target: isize| found_dead(s, seen, target))
}

/// The state after a look at all badges: nothing is left of the windows that are
/// gone.
pub open spec fn after_poll(s: SessionView, seen: Seq<PolledWindow>) -> SessionView {
    SessionView {
        overlays: s.overlays.remove_keys(dead_windows(s, seen)),
        tags: s.tags.remove_keys(dead_windows(s, seen)),
        ..s
    }
}

impl Session {
    /// An event of another window.
    pub fn handle_winevent(&mut self, target: isize, event: u32) -> (effects: Vec<SessionEffect>)
        requires
            old(self)@.is_valid(),
        ensures
            effects@ == winevent_effects(old(self)@, target, event),
            final(self)@ == after_winevent(old(self)@, target, event),
            final(self)@.is_valid(),
    {
        let found: Option<Overlay> = match self.overlays.get(&target) {
            Some(overlay) => Some(*overlay),
            None => None,
        };
        let mut effects: Vec<SessionEffect> = Vec::new();
        match classify(event) {
            WinEventAction::Sync | WinEventAction::BringToTop => {
                if let Some(overlay) = found {
                    effects.push(SessionEffect::SyncOverlay { overlay, force: false });
                }
            },
            WinEventAction::Hide => {
                if let Some(overlay) = found {
                    effects.push(SessionEffect::HideOverlay { overlay });
                }
            },
            WinEventAction::Show => {
                if let Some(overlay) = found {
                    effects.push(SessionEffect::ShowOverlay { overlay });
                    effects.push(SessionEffect::SyncOverlay { overlay, force: false });
                }
            },
            WinEventAction::Forget => {
                effects = self.forget_target(target);
            },
            WinEventAction::MoveStart => {
                if found.is_some() {
                    effects.push(SessionEffect::SetPollInterval(FAST_POLL_MS));
                }
            },
            WinEventAction::MoveEnd => {
                if let Some(overlay) = found {
                    effects.push(SessionEffect::SyncOverlay { overlay, force: true });
                }
                effects.push(SessionEffect::SetPollInterval(POLL_MS));
            },
            WinEventAction::Ignore => {},
        }
        proof {
            assert(effects@ =~= winevent_effects(old(self)@, target, event));
        }
        effects
    }

    /// A look at one badge.
    fn poll_overlay(&self, seen: PolledWindow) -> (step: PollStep)
        ensures
            step == poll_step(self@, seen),
    {
        match self.overlays.get(&seen.target) {
            None => PollStep::Nothing,
            Some(overlay) => {
                if !seen.alive {
                    PollStep::Destroy { overlay: *overlay }
                } else {
                    PollStep::Sync {
                        overlay: *overlay,
                        show: !seen.iconic && seen.visible && !overlay.is_visible(),
                    }
                }
            },
        }
    }

    /// A look at all badges: those of windows that are gone are closed, and their
    /// tags are removed. `seen` is what the system says of the windows.
    pub fn poll_overlays(&mut self, seen: &[PolledWindow]) -> (steps: Vec<PollStep>)
        requires
            old(self)@.is_valid(),
        ensures
            steps@ == seen@.map_values(|w: PolledWindow| poll_step(old(self)@, w)),
            final(self)@ == after_poll(old(self)@, seen@),
            final(self)@.is_valid(),
    {
        let ghost before = self@;
        let mut steps: Vec<PollStep> = Vec::new();
        let mut i: usize = 0;
        while i < seen.len()
            invariant
                i <= seen.len(),
                self@ == before,
                steps@ == seen@.take(i as int).map_values(|w: PolledWindow| poll_step(before, w)),
            decreases seen.len() - i,
        {
            steps.push(self.poll_overlay(seen[i]));
            proof {
                assert(steps@ =~= seen@.take(i + 1).map_values(
                    |w: PolledWindow| poll_step(before, w),
                ));
            }
            i = i + 1;
        }
        proof {
            assert(seen@.take(seen.len() as int) =~= seen@);
            assert(self@.overlays =~= before.overlays.remove_keys(
                dead_windows(before, seen@.take(0)),
            ));
            assert(self@.tags =~= before.tags.remove_keys(dead_windows(before, seen@.take(0))));
        }
        let mut k: usize = 0;
        while k < seen.len()
            invariant
                k <= seen.len() == steps.len(),
                before.is_valid(),
                steps@ == seen@.map_values(|w: PolledWindow| poll_step(before, w)),
                self@.overlays == before.overlays.remove_keys(
                    dead_windows(before, seen@.take(k as int)),
                ),
                self@.tags == before.tags.remove_keys(dead_windows(before, seen@.take(k as int))),
                self@ == (SessionView {
                    overlays: self@.overlays,
                    tags: self@.tags,
                    ..before
                }),
                self@.is_valid(),
            decreases seen.len() - k,
        {
            let target: isize = seen[k].target;
            proof {
                lemma_dead_windows(before, seen@, k as int);
                assert(steps@[k as int] == poll_step(before, seen[k as int]));
            }
            if let PollStep::Destroy { overlay: _ } = steps[k] {
                self.overlays.remove(&target);
                self.remove_tag(target);
            }
            proof {
                assert(self@.overlays =~= before.overlays.remove_keys(
                    dead_windows(before, seen@.take(k + 1)),
                ));
                assert(self@.tags =~= before.tags.remove_keys(
                    dead_windows(before, seen@.take(k + 1)),
                ));
            }
            k = k + 1;
        }
        proof {
            assert(seen@.take(seen.len() as int) =~= seen@);
        }
        steps
    }
}

proof fn lemma_dead_windows(s: SessionView, seen: Seq<PolledWindow>, k: int)
    requires
        0 <= k < seen.len(),
    ensures
        forall|t: isize| #[trigger]
            found_dead(s, seen.take(k + 1), t) <==> found_dead(s, seen.take(k), t) || (
            s.overlays.contains_key(t) && !seen[k].alive && seen[k].target == t),
{
    assert forall|t: isize| #[trigger]
        found_dead(s, seen.take(k + 1), t) <==> found_dead(s, seen.take(k), t) || (
        s.overlays.contains_key(t) && !seen[k].alive && seen[k].target == t) by {
        assert(seen.take(k + 1)[k] == seen[k]);
        if found_dead(s, seen.take(k), t) {
            let i = choose|i: int|
                0 <= i < k && !(#[trigger] seen.take(k)[i]).alive && seen.take(k)[i].target == t;
            assert(seen.take(k + 1)[i] == seen.take(k)[i]);
        }
        if found_dead(s, seen.take(k + 1), t) {
            let i = choose|i: int|
                0 <= i < k + 1 && !(#[trigger] seen.take(k + 1)[i]).alive && seen.take(k + 1)[i].target
                    == t;
            if i < k {
                assert(seen.take(k)[i] == seen.take(k + 1)[i]);
            }
        }
    }
}

/// A window that went away leaves nothing behind, whether the system told of it
/// or a look at the badges found it.
pub proof fn nothing_is_left_of_dead_windows(
    s: SessionView,
    target: isize,
    event: u32,
    seen: Seq<PolledWindow>,
)
    ensures
        win_event::action_of(event) is Forget ==> !after_winevent(
            s,
            target,
            event,
        ).overlays.contains_key(target) && !after_winevent(s, target, event).tags.contains_key(
            target,
        ),
        found_dead(s, seen, target) ==> !after_poll(s, seen).overlays.contains_key(target)
            && !after_poll(s, seen).tags.contains_key(target),
{
}

/// When a window disappears, its badge ends up hidden, and when it comes back, its
/// badge ends up shown, whatever the badge was before. Nothing else changes.
pub proof fn badges_come_and_go_with_their_windows(s: SessionView, target: isize, event: u32)
    requires
        s.is_valid(),
        s.overlays.contains_key(target),
    ensures
        ({
            let done = carried_out(
                after_winevent(s, target, event),
                winevent_effects(s, target, event),
            );
            let action = win_event::action_of(event);
            &&& action is Hide ==> !done.overlays[target].visible && done == with_visibility(
                s,
                target,
                false,
            )
            &&& action is Show ==> done.overlays[target].visible && done == with_visibility(
                s,
                target,
                true,
            )
        }),
{
    let effects = winevent_effects(s, target, event);
    let overlay = s.overlays[target];
    reveal_with_fuel(carried_out, 3);
    if win_event::action_of(event) is Hide {
        assert(effects.drop_last() =~= Seq::empty());
        assert(effects.last() == (SessionEffect::HideOverlay { overlay }));
    } else if win_event::action_of(event) is Show {
        assert(effects.drop_last() =~= seq![SessionEffect::ShowOverlay { overlay }]);
        assert(effects.drop_last().drop_last() =~= Seq::empty());
    }
}

/// A look at the badges brings back the hidden badge of a window that can be seen.
pub proof fn looking_brings_badges_back(s: SessionView, seen: PolledWindow)
    requires
        s.is_valid(),
        s.overlays.contains_key(seen.target),
        seen.alive && !seen.iconic && seen.visible,
    ensures
        match poll_step(s, seen) {
            PollStep::Sync { overlay, show } => {
                let done = if show {
                    with_visibility(s, overlay.target_hwnd, true)
                } else {
                    s
                };
                &&& done.overlays[seen.target].visible
                &&& done == with_visibility(s, seen.target, true)
            },
            _ => false,
        },
{
    if s.overlays[seen.target].visible {
        assert(with_visibility(s, seen.target, true).overlays =~= s.overlays);
    }
}

/// A badge that is hidden and shown again is as before, except that it is shown.
pub proof fn hidden_badges_come_back_unchanged(s: SessionView, target: isize)
    ensures
        with_visibility(with_visibility(s, target, false), target, true) == with_visibility(
            s,
            target,
            true,
        ),
{
    assert(with_visibility(with_visibility(s, target, false), target, true).overlays
        =~= with_visibility(s, target, true).overlays);
}

/// A look at the badges leaves the tags and the badges of living windows alone.
pub proof fn looking_keeps_living_windows(
    s: SessionView,
    seen: Seq<PolledWindow>,
    target: isize,
)
    requires
        forall|i: int| 0 <= i < seen.len() && (#[trigger] seen[i]).target == target ==> seen[i].alive,
    ensures
        after_poll(s, seen).overlays.contains_key(target) == s.overlays.contains_key(target),
        s.overlays.contains_key(target) ==> after_poll(s, seen).overlays[target]
            == s.overlays[target],
        after_poll(s, seen).tags.contains_key(target) == s.tags.contains_key(target),
        s.tags.contains_key(target) ==> after_poll(s, seen).tags[target] == s.tags[target],
{
}

// ---------------------------------------------------------------------
// The overview panel
// ---------------------------------------------------------------------
/// Whether rows are exactly the tags of a store, each once. They stand in any
/// order.
pub open spec fn lists(list: Seq<TagRow>, tags: Map<isize, Tag>) -> bool {
    &&& forall|i: int|
        0 <= i < list.len() ==> tags.contains_key((#[trigger] list[i]).target)
            && tags[list[i].target] == list[i].tag
    &&& forall|target: isize| #[trigger]
        tags.contains_key(target) ==> rows::has_row(list, target)
    &&& forall|i: int, j: int|
        0 <= i < j < list.len() ==> (#[trigger] list[i]).target != (#[trigger] list[j]).target
}

/// The tags of a store as rows.
pub fn build_tag_rows(tags: &TagStore) -> (list: Vec<TagRow>)
    ensures
        lists(list@, tags@),
{
    let mut list: Vec<TagRow> = Vec::new();
    for target in iter: tags.keys()
        invariant
            list.len() == iter.index(),
            forall|i: int|
                0 <= i < list.len() ==> (#[trigger] list[i]).target == *iter.seq()[i]
                    && tags@.contains_key(list[i].target) && tags@[list[i].target] == list[i].tag,
            forall|k: int|
                0 <= k < iter.index() ==> rows::has_row(list@, *(#[trigger] iter.seq()[k])),
            iter.seq().no_duplicates(),
            iter.seq().unref().to_set() == tags@.dom(),
    {
        proof {
            assert(iter.seq().unref()[iter.index() as int] == *target);
            assert(iter.seq().unref().to_set().contains(*target));
            assert(tags@.dom().contains(*target));
        }
        match tags.get(target) {
            Some(tag) => {
                list.push(TagRow { target: *target, tag: tag.clone() });
                proof {
                    assert(list@.last().target == *target);
                    assert forall|k: int| 0 <= k < iter.index() + 1 implies rows::has_row(
                        list@,
                        *(#[trigger] iter.seq()[k]),
                    ) by {
                        assert(list[k].target == *iter.seq()[k]);
                    }
                }
            },
            None => {},
        }
    }
    proof {
        assert forall|target: isize| #[trigger] tags@.contains_key(target) implies rows::has_row(
            list@,
            target,
        ) by {
        }
    }
    list
}

/// Whether something that is left to do is to show these tags in the panel.
pub open spec fn is_refresh(effect: SessionEffect, tags: Map<isize, Tag>) -> bool {
    effect is Send && effect->Send_0 is RefreshTags && lists(
        effect->Send_0->RefreshTags_rows@,
        tags,
    )
}

/// What is left to do for the panel after the tags changed: it is told of them,
/// unless it is hidden.
pub open spec fn is_panel_refresh(
    effects: Seq<SessionEffect>,
    visible: bool,
    tags: Map<isize, Tag>,
) -> bool {
    if visible {
        effects.len() == 1 && is_refresh(effects[0], tags)
    } else {
        effects.len() == 0
    }
}

/// What is left to do after the panel was switched on or off: a panel that
/// appears is told of the tags.
pub open spec fn is_panel_toggle(effects: Seq<SessionEffect>, s: SessionView) -> bool {
    if s.panel_visible {
        effects == seq![SessionEffect::Send(IcedCommand::HidePanel)]
    } else {
        &&& effects.len() == 2
        &&& effects[0] == SessionEffect::Send(IcedCommand::ShowPanel)
        &&& is_refresh(effects[1], s.tags)
    }
}

// ---------------------------------------------------------------------
// Tags and quitting
// ---------------------------------------------------------------------
/// What is left to do to edit the tag of a window: nothing if it has none.
pub open spec fn edit_effects(s: SessionView, target: isize, position: (i32, i32)) -> Seq<
    SessionEffect,
> {
    if s.tags.contains_key(target) {
        seq![
            SessionEffect::Send(
                IcedCommand::EditTag { target, position, tag: s.tags[target] },
            ),
        ]
    } else {
        Seq::empty()
    }
}

/// What is left to do to quit: the user is asked first if tags would be lost, and
/// has not agreed yet.
pub open spec fn exit_effects(s: SessionView, confirmed: bool) -> Seq<SessionEffect> {
    if s.tags.len() > 0 && !confirmed {
        seq![SessionEffect::Send(IcedCommand::ShowConfirm { count: s.tags.len() as usize })]
    } else {
        seq![SessionEffect::Quit]
    }
}

/// A message to the program's own window about another window.
pub open spec fn posted(s: SessionView, msg: u32, target: isize) -> SessionEffect {
    SessionEffect::Post(PostedMessage { to: s.hidden_hwnd, msg, wparam: target })
}

impl Session {
    /// Whether the panel is shown.
    pub fn panel_visible(&self) -> (visible: bool)
        ensures
            visible == self@.panel_visible,
    {
        self.panel_visible
    }

    /// Takes note whether the panel is shown.
    pub fn set_panel_visible(&mut self, visible: bool)
        ensures
            final(self)@ == (SessionView { panel_visible: visible, ..old(self)@ }),
    {
        self.panel_visible = visible;
    }

    /// Tells the panel of the tags, unless it is hidden.
    pub fn refresh_panel_now(&self) -> (effects: Vec<SessionEffect>)
        ensures
            is_panel_refresh(effects@, self@.panel_visible, self@.tags),
    {
        let mut effects: Vec<SessionEffect> = Vec::new();
        if self.panel_visible() {
            let list: Vec<TagRow> = build_tag_rows(&self.tags);
            effects.push(SessionEffect::Send(IcedCommand::RefreshTags { rows: list }));
        }
        effects
    }

    /// Switches the panel on or off.
    pub fn toggle_panel_hidden(&mut self) -> (effects: Vec<SessionEffect>)
        ensures
            is_panel_toggle(effects@, old(self)@),
            final(self)@ == (SessionView {
                panel_visible: !old(self)@.panel_visible,
                ..old(self)@
            }),
    {
        let mut effects: Vec<SessionEffect> = Vec::new();
        if self.panel_visible() {
            effects.push(SessionEffect::Send(IcedCommand::HidePanel));
            self.set_panel_visible(false);
        } else {
            effects.push(SessionEffect::Send(IcedCommand::ShowPanel));
            self.set_panel_visible(true);
            let mut more: Vec<SessionEffect> = self.refresh_panel_now();
            effects.append(&mut more);
        }
        effects
    }

    /// Opens the editor for the tag of a window, if it has one.
    pub fn open_edit_tag(&self, target: isize, position: (i32, i32)) -> (effects: Vec<
        SessionEffect,
    >)
        ensures
            effects@ == edit_effects(self@, target, position),
    {
        let mut effects: Vec<SessionEffect> = Vec::new();
        if let Some(tag) = matcher::find_tag(&self.tags, target) {
            effects.push(
                SessionEffect::Send(IcedCommand::EditTag { target, position, tag: tag.clone() }),
            );
        }
        proof {
            assert(effects@ =~= edit_effects(self@, target, position));
        }
        effects
    }

    /// Quits, or asks whether to.
    pub fn request_exit(&self, confirmed: bool) -> (effects: Vec<SessionEffect>)
        ensures
            effects@ == exit_effects(self@, confirmed),
    {
        let count: usize = self.tags.len();
        let mut effects: Vec<SessionEffect> = Vec::new();
        if should_confirm_exit(count > 0, confirmed) {
            effects.push(SessionEffect::Send(IcedCommand::ShowConfirm { count }));
        } else {
            effects.push(SessionEffect::Quit);
        }
        proof {
            assert(effects@ =~= exit_effects(self@, confirmed));
        }
        effects
    }
}

/// How a window is brought to the front, unless it is gone: before the windows of
/// its own kind, at its place and in its size. One that stands in the task bar is
/// brought back first.
pub fn activate_target(alive: bool, iconic: bool) -> (plan: Option<RaisePlan>)
    ensures
        plan == (if alive {
            Some(
                RaisePlan {
                    restore: iconic,
                    foreground: true,
                    insert_after: InsertAfter::Top,
                    keep_place: true,
                    keep_size: true,
                },
            )
        } else {
            None
        }),
{
    if alive {
        Some(raise_plan(iconic))
    } else {
        None
    }
}

/// The place of the editor: right below the pointer, but on the screen. `dpi` is
/// the resolution of the screen, and `work` its work area.
pub fn popup_position(cursor: (i32, i32), dpi: u32, work: Option<Rect>) -> (place: (i32, i32))
    requires
        geo::is_coordinate(cursor.0 + 16 + geo::scaled(POPUP_LOGICAL_W as int, dpi)),
        geo::is_coordinate(cursor.1 + 16 + geo::scaled(POPUP_LOGICAL_H as int, dpi)),
        work matches Some(r) ==> geo::is_coordinate(
            r.right - geo::scaled(POPUP_LOGICAL_W as int, dpi),
        ) && geo::is_coordinate(r.bottom - geo::scaled(POPUP_LOGICAL_H as int, dpi)),
    ensures
        (place.0 as int, place.1 as int) == geo::placed(
            cursor.0 + 16,
            cursor.1 + 16,
            geo::scaled(POPUP_LOGICAL_W as int, dpi),
            geo::scaled(POPUP_LOGICAL_H as int, dpi),
            work,
        ),
{
    let w: i32 = scale_px(POPUP_LOGICAL_W, dpi);
    let h: i32 = scale_px(POPUP_LOGICAL_H, dpi);
    clamp_to_work(cursor.0 + 16, cursor.1 + 16, w, h, work)
}

/// The tag that the editor starts with for a window that is to be tagged: its
/// title, no note, and the first colour.
pub open spec fn is_fresh_tag(tag: Tag, info: WindowInfo) -> bool {
    &&& tag.title@ == info.title@
    &&& tag.note@.len() == 0
    &&& tag.color == TagColor::Orange
    &&& tag.window_title@ == info.title@
    &&& tag.process_name@ == info.process_name@
}

/// Opens the editor for the window in front, if there is one.
pub fn handle_quick_tag(info: Option<WindowInfo>, position: (i32, i32)) -> (command: Option<
    IcedCommand,
>)
    ensures
        match info {
            Some(w) => {
                &&& command is Some
                &&& command->0 is EditTag
                &&& command->0->EditTag_target == w.hwnd
                &&& command->0->EditTag_position == position
                &&& is_fresh_tag(command->0->EditTag_tag, w)
            },
            None => command is None,
        },
{
    match info {
        Some(w) => Some(
            IcedCommand::EditTag {
                target: w.hwnd,
                position,
                tag: Tag {
                    title: w.title.clone(),
                    note: String::new(),
                    color: TagColor::Orange,
                    window_title: w.title,
                    process_name: w.process_name,
                },
            },
        ),
        None => None,
    }
}

/// The editor comes back on the screen wherever the pointer is, if it fits there.
pub proof fn editor_is_on_the_screen(cursor: (i32, i32), dpi: u32, work: Rect)
    requires
        geo::scaled(POPUP_LOGICAL_W as int, dpi) <= work.right - work.left,
        geo::scaled(POPUP_LOGICAL_H as int, dpi) <= work.bottom - work.top,
    ensures
        ({
            let w = geo::scaled(POPUP_LOGICAL_W as int, dpi);
            let h = geo::scaled(POPUP_LOGICAL_H as int, dpi);
            let place = geo::placed(cursor.0 + 16, cursor.1 + 16, w, h, Some(work));
            &&& work.left <= place.0
            &&& place.0 + w <= work.right
            &&& work.top <= place.1
            &&& place.1 + h <= work.bottom
        }),
{
    geo::windows_are_kept_inside(
        cursor.0 + 16,
        cursor.1 + 16,
        geo::scaled(POPUP_LOGICAL_W as int, dpi),
        geo::scaled(POPUP_LOGICAL_H as int, dpi),
        work,
    );
}

// ---------------------------------------------------------------------
// What reaches the program
// ---------------------------------------------------------------------
/// The state after something happened in the user interface.
pub open spec fn after_gui(s: SessionView, event: GuiEvent) -> SessionView {
    match event {
        GuiEvent::SettingsChanged(cfg) => SessionView {
            settings: SharedSettings {
                value: match s.settings.value {
                    Some(_) => Some(cfg),
                    None => None,
                },
            },
            ..s
        },
        GuiEvent::TagSaved { target, tag } => SessionView { tags: s.tags.insert(target, tag), ..s },
        GuiEvent::PanelVisibilityChanged(visible) => SessionView { panel_visible: visible, ..s },
        GuiEvent::RemoveTag { target } => SessionView { tags: s.tags.remove(target), ..s },
        _ => s,
    }
}

/// What something that happened in the user interface leaves to do.
pub open spec fn is_gui_reaction(
    effects: Seq<SessionEffect>,
    s: SessionView,
    event: GuiEvent,
    position: (i32, i32),
) -> bool {
    match event {
        GuiEvent::ConfirmExit => effects == exit_effects(s, true),
        GuiEvent::SettingsChanged(cfg) => effects == seq![
            SessionEffect::SaveSettings(cfg),
            SessionEffect::ReapplyTheme,
        ],
        GuiEvent::TagSaved { target, tag } => effects == seq![
            posted(s, WM_CREATE_OVERLAY, target),
            posted(s, WM_APP_TAGS_CHANGED, target),
        ],
        GuiEvent::ActivateWindow { target } => effects == seq![
            SessionEffect::ActivateWindow { target },
        ],
        GuiEvent::EditTagRequested { target } => effects == edit_effects(s, target, position),
        GuiEvent::RemoveTag { target } => {
            &&& effects.len() > 0
            &&& effects[0] == posted(s, WM_DESTROY_OVERLAY, target)
            &&& is_panel_refresh(effects.skip(1), s.panel_visible, s.tags.remove(target))
        },
        GuiEvent::PanelExit => effects == exit_effects(s, false),
        GuiEvent::CancelExit | GuiEvent::PanelVisibilityChanged(_) | GuiEvent::ReorderTags { .. } =>
        effects.len() == 0,
    }
}

/// What a choice at the tray icon, or a hotkey, leaves to do.
pub open spec fn is_command_reaction(
    effects: Seq<SessionEffect>,
    s: SessionView,
    command: TrayCommand,
) -> bool {
    match command {
        TrayCommand::OpenPanel => is_panel_toggle(effects, s),
        TrayCommand::OpenSettings => effects == seq![
            SessionEffect::Send(IcedCommand::OpenSettings),
        ],
        TrayCommand::QuickTag => effects == seq![SessionEffect::QuickTag],
        TrayCommand::Exit => effects == exit_effects(s, false),
    }
}

/// The state after a choice at the tray icon, or a hotkey.
pub open spec fn after_command(s: SessionView, command: TrayCommand) -> SessionView {
    match command {
        TrayCommand::OpenPanel => SessionView { panel_visible: !s.panel_visible, ..s },
        _ => s,
    }
}

/// The choice at the tray icon that does the same as a hotkey.
pub open spec fn command_of_hotkey(hotkey: Hotkey) -> TrayCommand {
    match hotkey {
        Hotkey::QuickTag => TrayCommand::QuickTag,
        Hotkey::TogglePanel => TrayCommand::OpenPanel,
        Hotkey::OpenSettings => TrayCommand::OpenSettings,
    }
}

/// The theme in force, or the system's.
pub open spec fn theme_in_force(s: SessionView) -> ThemeMode {
    match s.settings.value {
        Some(cfg) => cfg.theme,
        None => ThemeMode::System,
    }
}

/// The state after the theme was looked up.
pub open spec fn after_theme(s: SessionView, system_dark: bool) -> SessionView {
    let cfg = settings::in_force(s.settings);
    SessionView {
        theme: ThemeState {
            colors: Some(
                if theme::means_dark(cfg.theme, system_dark) {
                    theme::dark()
                } else {
                    theme::light()
                },
            ),
        },
        prefs: PrefsSlot { value: Some(prefs_of(cfg, system_dark)) },
        ..s
    }
}

/// What looking up the theme leaves to do.
pub open spec fn theme_effects(s: SessionView, system_dark: bool) -> Seq<SessionEffect> {
    let cfg = settings::in_force(s.settings);
    let dark = theme::means_dark(cfg.theme, system_dark);
    seq![
        SessionEffect::StyleWindow { dark, corner: cfg.corner },
        SessionEffect::Send(IcedCommand::ApplyTheme { dark }),
        SessionEffect::RedrawOverlays,
    ]
}

/// The state after a message to the program's own window.
pub open spec fn after_message(s: SessionView, msg: u32, wparam: usize, lparam: isize)
    -> SessionView {
    let target = wparam as isize;
    if msg == WM_DESTROY_OVERLAY {
        SessionView { overlays: s.overlays.remove(target), ..s }
    } else if msg == WM_APP_WINEVENT {
        after_winevent(s, target, lparam as u32)
    } else {
        s
    }
}

/// What a message to the program's own window leaves to do. `alive` tells whether
/// the window that it is about is there.
pub open spec fn is_message_reaction(
    effects: Seq<SessionEffect>,
    s: SessionView,
    msg: u32,
    wparam: usize,
    lparam: isize,
    alive: bool,
    position: (i32, i32),
) -> bool {
    let target = wparam as isize;
    if msg == WM_CREATE_OVERLAY {
        effects == create_effects(s, target, alive)
    } else if msg == WM_DESTROY_OVERLAY {
        effects == destroy_effects(s, target)
    } else if msg == WM_APP_WINEVENT {
        effects == winevent_effects(s, target, lparam as u32)
    } else if msg == WM_APP_OPEN_SETTINGS {
        effects == seq![SessionEffect::Send(IcedCommand::OpenSettings)]
    } else if msg == WM_APP_EDIT_TAG {
        if alive {
            effects == edit_effects(s, target, position)
        } else {
            effects.len() == 0
        }
    } else if msg == WM_APP_THEME_CHANGED {
        effects == seq![SessionEffect::ReapplyTheme]
    } else if msg == WM_APP_TAGS_CHANGED {
        is_panel_refresh(effects, s.panel_visible, s.tags)
    } else if msg == WM_APP_EXIT {
        effects == exit_effects(s, wparam != 0)
    } else if msg == WM_SETTINGCHANGE {
        if theme_in_force(s) == ThemeMode::System {
            effects == seq![SessionEffect::ReapplyTheme]
        } else {
            effects.len() == 0
        }
    } else if msg == WM_TIMER {
        if wparam == TIMER_POLL_OVERLAYS {
            effects == seq![SessionEffect::PollOverlays]
        } else if wparam == TIMER_BALLOON {
            effects == seq![SessionEffect::ShowBalloon]
        } else {
            effects.len() == 0
        }
    } else {
        effects == seq![SessionEffect::PassOn]
    }
}

fn only(effect: SessionEffect) -> (effects: Vec<SessionEffect>)
    ensures
        effects@ == seq![effect],
{
    let mut effects: Vec<SessionEffect> = Vec::new();
    effects.push(effect);
    proof {
        assert(effects@ =~= seq![effect]);
    }
    effects
}

impl Session {
    /// Something that happened in the user interface. `position` is where an
    /// editor would open.
    pub fn dispatch_iced_event(&mut self, event: GuiEvent, position: (i32, i32)) -> (effects: Vec<
        SessionEffect,
    >)
        ensures
            is_gui_reaction(effects@, old(self)@, event, position),
            final(self)@ == after_gui(old(self)@, event),
            old(self)@.is_valid() ==> final(self)@.is_valid(),
    {
        let hidden: isize = self.hidden_hwnd;
        match event {
            GuiEvent::ConfirmExit => self.request_exit(true),
            GuiEvent::CancelExit => Vec::new(),
            GuiEvent::SettingsChanged(cfg) => {
                replace_global_settings(&mut self.settings, cfg);
                let mut effects: Vec<SessionEffect> = only(SessionEffect::SaveSettings(cfg));
                effects.push(SessionEffect::ReapplyTheme);
                proof {
                    assert(effects@ =~= seq![
                        SessionEffect::SaveSettings(cfg),
                        SessionEffect::ReapplyTheme,
                    ]);
                }
                effects
            },
            GuiEvent::TagSaved { target, tag } => {
                matcher::upsert_tag(&mut self.tags, target, tag);
                let mut effects: Vec<SessionEffect> = only(
                    SessionEffect::Post(
                        PostedMessage { to: hidden, msg: WM_CREATE_OVERLAY, wparam: target },
                    ),
                );
                effects.push(
                    SessionEffect::Post(
                        PostedMessage { to: hidden, msg: WM_APP_TAGS_CHANGED, wparam: target },
                    ),
                );
                proof {
                    assert(effects@ =~= seq![
                        posted(old(self)@, WM_CREATE_OVERLAY, target),
                        posted(old(self)@, WM_APP_TAGS_CHANGED, target),
                    ]);
                }
                effects
            },
            GuiEvent::PanelVisibilityChanged(visible) => {
                self.set_panel_visible(visible);
                Vec::new()
            },
            GuiEvent::ActivateWindow { target } => only(SessionEffect::ActivateWindow { target }),
            GuiEvent::EditTagRequested { target } => self.open_edit_tag(target, position),
            GuiEvent::RemoveTag { target } => {
                self.remove_tag(target);
                let mut effects: Vec<SessionEffect> = only(
                    SessionEffect::Post(
                        PostedMessage { to: hidden, msg: WM_DESTROY_OVERLAY, wparam: target },
                    ),
                );
                let mut more: Vec<SessionEffect> = self.refresh_panel_now();
                let ghost added = more@;
                effects.append(&mut more);
                proof {
                    assert(effects@.skip(1) =~= added);
                }
                effects
            },
            GuiEvent::PanelExit => self.request_exit(false),
            GuiEvent::ReorderTags { targets: _ } => Vec::new(),
        }
    }

    /// A choice at the tray icon.
    pub fn dispatch_tray_command(&mut self, command: TrayCommand) -> (effects: Vec<SessionEffect>)
        ensures
            is_command_reaction(effects@, old(self)@, command),
            final(self)@ == after_command(old(self)@, command),
            old(self)@.is_valid() ==> final(self)@.is_valid(),
    {
        match command {
            TrayCommand::OpenPanel => self.toggle_panel_hidden(),
            TrayCommand::OpenSettings => only(SessionEffect::Send(IcedCommand::OpenSettings)),
            TrayCommand::QuickTag => only(SessionEffect::QuickTag),
            TrayCommand::Exit => self.request_exit(false),
        }
    }

    /// A hotkey was pressed.
    pub fn dispatch_hotkey(&mut self, hotkey: Hotkey) -> (effects: Vec<SessionEffect>)
        ensures
            is_command_reaction(effects@, old(self)@, command_of_hotkey(hotkey)),
            final(self)@ == after_command(old(self)@, command_of_hotkey(hotkey)),
            old(self)@.is_valid() ==> final(self)@.is_valid(),
    {
        match hotkey {
            Hotkey::QuickTag => self.dispatch_tray_command(TrayCommand::QuickTag),
            Hotkey::TogglePanel => self.dispatch_tray_command(TrayCommand::OpenPanel),
            Hotkey::OpenSettings => self.dispatch_tray_command(TrayCommand::OpenSettings),
        }
    }

    /// Looks up the theme, and puts it in force. `system_dark` tells whether the
    /// system is dark.
    pub fn reapply_theme(&mut self, system_dark: bool) -> (effects: Vec<SessionEffect>)
        ensures
            effects@ == theme_effects(old(self)@, system_dark),
            final(self)@ == after_theme(old(self)@, system_dark),
            old(self)@.is_valid() ==> final(self)@.is_valid(),
    {
        let cfg: Settings = current_settings(&self.settings);
        set_theme(&mut self.theme, resolve_colors(cfg.theme, system_dark));
        set_native_prefs(&mut self.prefs, apply_native_prefs(cfg, system_dark));
        let dark: bool = is_dark(cfg.theme, system_dark);
        let mut effects: Vec<SessionEffect> = only(
            SessionEffect::StyleWindow { dark, corner: cfg.corner },
        );
        effects.push(SessionEffect::Send(IcedCommand::ApplyTheme { dark }));
        effects.push(SessionEffect::RedrawOverlays);
        proof {
            assert(effects@ =~= theme_effects(old(self)@, system_dark));
        }
        effects
    }

    /// A message to the program's own window. `alive` tells whether the window
    /// that the first parameter names is there, and `position` is where an editor
    /// would open.
    pub fn hidden_wndproc(
        &mut self,
        msg: u32,
        wparam: usize,
        lparam: isize,
        alive: bool,
        position: (i32, i32),
    ) -> (effects: Vec<SessionEffect>)
        requires
            old(self)@.is_valid(),
        ensures
            is_message_reaction(effects@, old(self)@, msg, wparam, lparam, alive, position),
            final(self)@ == after_message(old(self)@, msg, wparam, lparam),
            final(self)@.is_valid(),
    {
        let target: isize = wparam as isize;
        if msg == WM_CREATE_OVERLAY {
            self.create_overlay(target, alive)
        } else if msg == WM_DESTROY_OVERLAY {
            self.destroy_overlay(target)
        } else if msg == WM_APP_WINEVENT {
            self.handle_winevent(target, lparam as u32)
        } else if msg == WM_APP_OPEN_SETTINGS {
            only(SessionEffect::Send(IcedCommand::OpenSettings))
        } else if msg == WM_APP_EDIT_TAG {
            if alive {
                self.open_edit_tag(target, position)
            } else {
                Vec::new()
            }
        } else if msg == WM_APP_THEME_CHANGED {
            only(SessionEffect::ReapplyTheme)
        } else if msg == WM_APP_TAGS_CHANGED {
            self.refresh_panel_now()
        } else if msg == WM_APP_EXIT {
            self.request_exit(wparam != 0)
        } else if msg == WM_SETTINGCHANGE {
            let mode: ThemeMode = match global_settings(&self.settings) {
                Some(cfg) => cfg.theme,
                None => ThemeMode::System,
            };
            if mode == ThemeMode::System {
                only(SessionEffect::ReapplyTheme)
            } else {
                Vec::new()
            }
        } else if msg == WM_TIMER {
            if wparam == TIMER_POLL_OVERLAYS {
                only(SessionEffect::PollOverlays)
            } else if wparam == TIMER_BALLOON {
                only(SessionEffect::ShowBalloon)
            } else {
                Vec::new()
            }
        } else {
            only(SessionEffect::PassOn)
        }
    }
}

/// Whoever asks to quit, tags are not thrown away unless the user has agreed.
pub proof fn tags_are_not_lost_unasked(
    effects: Seq<SessionEffect>,
    s: SessionView,
    event: GuiEvent,
    position: (i32, i32),
    command: TrayCommand,
)
    requires
        s.tags.len() > 0,
    ensures
        is_gui_reaction(effects, s, event, position) && effects.contains(SessionEffect::Quit)
            ==> event is ConfirmExit,
        is_command_reaction(effects, s, command) ==> !effects.contains(SessionEffect::Quit),
{
    if effects.contains(SessionEffect::Quit) {
        let i = effects.index_of(SessionEffect::Quit);
        assert(effects[i] == SessionEffect::Quit);
        if is_gui_reaction(effects, s, event, position) && event is RemoveTag && i > 0 {
            assert(effects.skip(1)[i - 1] == SessionEffect::Quit);
        }
    }
}

/// A tag that was saved is what the editor opens with the next time, and the
/// badge of its window is asked for.
pub proof fn saved_tag_is_edited_next(
    s: SessionView,
    target: isize,
    tag: Tag,
    position: (i32, i32),
    effects: Seq<SessionEffect>,
)
    requires
        is_gui_reaction(effects, s, GuiEvent::TagSaved { target, tag }, position),
    ensures
        edit_effects(after_gui(s, GuiEvent::TagSaved { target, tag }), target, position) == seq![
            SessionEffect::Send(IcedCommand::EditTag { target, position, tag }),
        ],
        effects[0] == posted(s, WM_CREATE_OVERLAY, target),
{
}

/// A tag that was removed is not found again, and nothing else is lost.
pub proof fn removed_tag_is_gone(
    s: SessionView,
    target: isize,
    other: isize,
    position: (i32, i32),
)
    requires
        other != target,
    ensures
        ({
            let after = after_gui(s, GuiEvent::RemoveTag { target });
            &&& edit_effects(after, target, position).len() == 0
            &&& edit_effects(after, other, position) == edit_effects(s, other, position)
        }),
{
}

/// Switching the panel twice leaves it as it was.
pub proof fn panel_toggles_back(s: SessionView)
    ensures
        after_command(after_command(s, TrayCommand::OpenPanel), TrayCommand::OpenPanel) == s,
{
}

/// The panel shows exactly the tags that there are.
pub proof fn panel_shows_all_tags(list: Seq<TagRow>, tags: Map<isize, Tag>, target: isize)
    requires
        lists(list, tags),
    ensures
        rows::has_row(list, target) <==> tags.contains_key(target),
{
}

/// The system's own changes matter only while its theme is followed.
pub proof fn own_theme_ignores_the_system(
    effects: Seq<SessionEffect>,
    s: SessionView,
    wparam: usize,
    lparam: isize,
    alive: bool,
    position: (i32, i32),
    system_dark: bool,
    other: bool,
)
    requires
        theme_in_force(s) != ThemeMode::System,
        is_message_reaction(effects, s, WM_SETTINGCHANGE, wparam, lparam, alive, position),
    ensures
        effects.len() == 0,
        after_theme(s, system_dark) == after_theme(s, other),
{
}

} // verus!
