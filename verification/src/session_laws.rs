//! What the user can rely on from a key, a click or an event to what comes of it.

use crate::common::{
    WM_APP_EXIT, WM_APP_OPEN_SETTINGS, WM_APP_TAGS_CHANGED, WM_APP_THEME_CHANGED,
    WM_APP_WINEVENT, WM_CREATE_OVERLAY, WM_DESTROY_OVERLAY,
};
use crate::hotkey;
use crate::hotkey::{from_message, Hotkey};
use crate::model::settings::{Settings, SharedSettings, ThemeMode};
use crate::model::tag::{Tag, TagColor, TagStore};
use crate::session;
use crate::session::{
    activate_target, apply_native_prefs, build_tag_rows, handle_quick_tag, parse_cli_no_tray,
    popup_position, should_confirm_exit, single_instance_conflict, PollStep, PolledWindow, Session, SessionEffect,
    SessionView, WM_SETTINGCHANGE, WM_TIMER,
};
use crate::sys::native_prefs::NativePrefs;
use crate::sys::overlay::{
    click_request, HidePlan, InsertAfter, OverlayConfig, PostedMessage, RaisePlan, TargetMap,
};
use crate::sys::tray::{menu_command, tray_action, TrayAction, TrayCommand};
use crate::sys::win_event::{
    win_event_callback, EventTarget, ForwardedEvent, EVENT_OBJECT_CLOAKED, EVENT_OBJECT_DESTROY,
    EVENT_OBJECT_HIDE, EVENT_OBJECT_LOCATIONCHANGE, EVENT_OBJECT_SHOW, EVENT_OBJECT_UNCLOAKED,
    EVENT_SYSTEM_FOREGROUND, EVENT_SYSTEM_MINIMIZEEND, EVENT_SYSTEM_MINIMIZESTART,
    EVENT_SYSTEM_MOVESIZEEND, EVENT_SYSTEM_MOVESIZESTART,
};
use crate::sys::window::WindowInfo;
use crate::ui::confirm;
use crate::ui::confirm::ConfirmEvent;
use crate::ui::geo;
use crate::ui::geo::Rect;
use crate::ui::iced_app;
use crate::ui::iced_app::{AppView, EffectView, Message, WindowId};
use crate::ui::iced_laws;
use crate::ui::iced_proto::{GuiEvent, GuiEventView, IcedCommand, TagRow};
use crate::ui::panel;
use crate::ui::rows;
use crate::ui::theme;
use vstd::prelude::*;

verus! {

/// A window handle in a message is the handle that was put there.
proof fn lemma_handle(h: isize)
    ensures
        (h as usize) as isize == h,
{
    assert((h as usize) as isize == h) by (bit_vector);
}

// ---------------------------------------------------------------------
// Tags and their badges
// ---------------------------------------------------------------------
/// A tag that is saved is kept for its window and for no other one, its window gets
/// a badge, or has its badge drawn anew, and a panel that is shown is told of all
/// tags. A window that is gone by then gets no badge.
pub proof fn saved_tags_get_badges(
    s: SessionView,
    target: isize,
    tag: Tag,
    position: (i32, i32),
    effects: Seq<SessionEffect>,
    made: Seq<SessionEffect>,
    late: Seq<SessionEffect>,
    told: Seq<SessionEffect>,
    other: isize,
)
    requires
        session::is_gui_reaction(effects, s, GuiEvent::TagSaved { target, tag }, position),
    ensures
        ({
            let now = session::after_gui(s, GuiEvent::TagSaved { target, tag });
            &&& now == (SessionView { tags: now.tags, ..s })
            &&& now.tags.contains_key(target)
            &&& now.tags[target] == tag
            &&& other != target ==> now.tags.contains_key(other) == s.tags.contains_key(other)
            &&& other != target && s.tags.contains_key(other) ==> now.tags[other] == s.tags[other]
            &&& effects.len() == 2
            &&& effects[0] matches SessionEffect::Post(m) && m.to == s.hidden_hwnd && {
                &&& session::is_message_reaction(
                    made,
                    now,
                    m.msg,
                    m.wparam as usize,
                    0,
                    true,
                    position,
                ) && s.overlays.len() < 256 ==> made == seq![
                    if s.overlays.contains_key(target) {
                        SessionEffect::RefreshOverlay { overlay: s.overlays[target] }
                    } else {
                        SessionEffect::CreateOverlay { target }
                    },
                ]
                &&& session::is_message_reaction(
                    late,
                    now,
                    m.msg,
                    m.wparam as usize,
                    0,
                    false,
                    position,
                ) ==> late.len() == 0
            }
            &&& effects[1] matches SessionEffect::Post(m) && m.to == s.hidden_hwnd && (
            session::is_message_reaction(told, now, m.msg, m.wparam as usize, 0, true, position)
                ==> {
                &&& !s.panel_visible ==> told.len() == 0
                &&& s.panel_visible ==> told.len() == 1 && told[0] is Send
                    && told[0]->Send_0 is RefreshTags && session::lists(
                    told[0]->Send_0->RefreshTags_rows@,
                    now.tags,
                )
            })
        }),
{
    lemma_handle(target);
    let now = session::after_gui(s, GuiEvent::TagSaved { target, tag });
    assert(effects[0] == session::posted(s, WM_CREATE_OVERLAY, target));
    assert(effects[1] == session::posted(s, WM_APP_TAGS_CHANGED, target));
}

/// A tag that is removed is gone, the badge of its window is taken away, and a panel
/// that is shown is told of the tags that are left. No other window is concerned.
pub proof fn removed_tags_lose_their_badges(
    s: SessionView,
    target: isize,
    position: (i32, i32),
    effects: Seq<SessionEffect>,
    closed: Seq<SessionEffect>,
    other: isize,
)
    requires
        session::is_gui_reaction(effects, s, GuiEvent::RemoveTag { target }, position),
        other != target,
    ensures
        ({
            let now = session::after_gui(s, GuiEvent::RemoveTag { target });
            &&& now == (SessionView { tags: now.tags, ..s })
            &&& !now.tags.contains_key(target)
            &&& now.tags.contains_key(other) == s.tags.contains_key(other)
            &&& s.tags.contains_key(other) ==> now.tags[other] == s.tags[other]
            &&& effects.len() == (if s.panel_visible {
                2int
            } else {
                1
            })
            &&& s.panel_visible ==> effects[1] is Send && effects[1]->Send_0 is RefreshTags
                && session::lists(effects[1]->Send_0->RefreshTags_rows@, now.tags)
            &&& effects[0] matches SessionEffect::Post(m) && m.to == s.hidden_hwnd && {
                let end = session::after_message(now, m.msg, m.wparam as usize, 0);
                &&& !end.overlays.contains_key(target)
                &&& end.overlays.contains_key(other) == s.overlays.contains_key(other)
                &&& s.overlays.contains_key(other) ==> end.overlays[other] == s.overlays[other]
                &&& end == (SessionView { overlays: end.overlays, ..now })
                &&& session::is_message_reaction(
                    closed,
                    now,
                    m.msg,
                    m.wparam as usize,
                    0,
                    true,
                    position,
                ) ==> {
                    &&& s.overlays.contains_key(target) ==> closed == seq![
                        SessionEffect::DestroyOverlay { overlay: s.overlays[target] },
                    ]
                    &&& !s.overlays.contains_key(target) ==> closed.len() == 0
                }
            }
        }),
{
    lemma_handle(target);
    assert(effects[0] == session::posted(s, WM_DESTROY_OVERLAY, target));
    let rest = effects.skip(1);
    if s.panel_visible {
        assert(rest[0] == effects[1]);
    }
}

/// There are never more than 256 badges: with that many, no request makes another
/// one.
pub proof fn badges_are_limited(s: SessionView, target: isize, alive: bool)
    ensures
        s.overlays.len() >= 256 ==> session::create_effects(s, target, alive).len() == 0,
        s.overlays.len() < 256 && alive ==> session::create_effects(s, target, alive).len() == 1,
        !alive ==> session::create_effects(s, target, alive).len() == 0,
{
}

// ---------------------------------------------------------------------
// What happens to other windows
// ---------------------------------------------------------------------
/// What happens to a window reaches its own badge: a badge follows a window that
/// moves or comes to the front, disappears and comes back with it, takes the final
/// place when a move ends, and goes when the window goes. While a window is being
/// moved, badges are looked at five times as often. Everything else is ignored.
pub proof fn events_reach_the_own_badge(s: SessionView, target: isize, event: u32)
    requires
        s.overlays.contains_key(target),
    ensures
        ({
            let overlay = s.overlays[target];
            let effects = session::winevent_effects(s, target, event);
            let follow = SessionEffect::SyncOverlay { overlay, force: false };
            &&& event == EVENT_OBJECT_LOCATIONCHANGE || event == EVENT_SYSTEM_FOREGROUND ==> effects
                == seq![follow]
            &&& event == EVENT_SYSTEM_MINIMIZESTART || event == EVENT_OBJECT_HIDE || event
                == EVENT_OBJECT_CLOAKED ==> effects == seq![SessionEffect::HideOverlay { overlay }]
            &&& event == EVENT_SYSTEM_MINIMIZEEND || event == EVENT_OBJECT_SHOW || event
                == EVENT_OBJECT_UNCLOAKED ==> effects == seq![
                SessionEffect::ShowOverlay { overlay },
                follow,
            ]
            &&& event == EVENT_OBJECT_DESTROY ==> effects == seq![
                SessionEffect::DestroyOverlay { overlay },
            ]
            &&& event == EVENT_SYSTEM_MOVESIZESTART ==> effects == seq![
                SessionEffect::SetPollInterval(100),
            ]
            &&& event == EVENT_SYSTEM_MOVESIZEEND ==> effects == seq![
                SessionEffect::SyncOverlay { overlay, force: true },
                SessionEffect::SetPollInterval(500),
            ]
            &&& event != EVENT_OBJECT_LOCATIONCHANGE && event != EVENT_SYSTEM_FOREGROUND && event
                != EVENT_SYSTEM_MINIMIZESTART && event != EVENT_OBJECT_HIDE && event
                != EVENT_OBJECT_CLOAKED && event != EVENT_SYSTEM_MINIMIZEEND && event
                != EVENT_OBJECT_SHOW && event != EVENT_OBJECT_UNCLOAKED && event
                != EVENT_OBJECT_DESTROY && event != EVENT_SYSTEM_MOVESIZESTART && event
                != EVENT_SYSTEM_MOVESIZEEND ==> effects.len() == 0
        }),
{
}

/// What happens to a window without a badge concerns no badge, and what happens to
/// any window leaves the badges and the tags of the others alone. Only a window
/// that goes away takes its tag along.
pub proof fn events_concern_no_other_window(
    s: SessionView,
    target: isize,
    event: u32,
    other: isize,
)
    ensures
        ({
            let now = session::after_winevent(s, target, event);
            let effects = session::winevent_effects(s, target, event);
            &&& event != EVENT_OBJECT_DESTROY ==> now == s
            &&& event == EVENT_OBJECT_DESTROY ==> !now.tags.contains_key(target)
                && !now.overlays.contains_key(target)
            &&& now == (SessionView { overlays: now.overlays, tags: now.tags, ..s })
            &&& other != target ==> now.overlays.contains_key(other) == s.overlays.contains_key(
                other,
            ) && now.tags.contains_key(other) == s.tags.contains_key(other)
            &&& other != target && s.overlays.contains_key(other) ==> now.overlays[other]
                == s.overlays[other]
            &&& other != target && s.tags.contains_key(other) ==> now.tags[other] == s.tags[other]
            &&& !s.overlays.contains_key(target) ==> (event == EVENT_SYSTEM_MOVESIZEEND
                && effects == seq![SessionEffect::SetPollInterval(500)]) || effects.len() == 0
        }),
{
}

/// An event of a window that is passed on arrives: the program reacts to this event
/// of this window. It is passed on unless it is about a part of a window, about no
/// window, or an earlier one is still waiting; the end of a move is never held back.
pub proof fn events_arrive(
    to: EventTarget,
    event: u32,
    hwnd: isize,
    object: i32,
    child: i32,
    has_pending: bool,
    forwarded: Option<ForwardedEvent>,
    s: SessionView,
    effects: Seq<SessionEffect>,
    alive: bool,
    position: (i32, i32),
)
    requires
        call_ensures(
            win_event_callback,
            (&to, event, hwnd, object, child, has_pending),
            forwarded,
        ),
    ensures
        forwarded is Some <==> to.hwnd is Some && object == 0 && child == 0 && hwnd != 0 && (
        !has_pending || event == EVENT_SYSTEM_MOVESIZEEND),
        forwarded matches Some(f) ==> {
            &&& Some(f.to) == to.hwnd
            &&& session::is_message_reaction(
                effects,
                s,
                f.msg,
                f.wparam as usize,
                f.lparam as isize,
                alive,
                position,
            ) ==> effects == session::winevent_effects(s, hwnd, event)
            &&& session::after_message(s, f.msg, f.wparam as usize, f.lparam as isize)
                == session::after_winevent(s, hwnd, event)
        },
{
    lemma_handle(hwnd);
    assert((event as isize) as u32 == event) by (bit_vector);
}

/// A look at a badge is about the badge of the window that was looked at: it is
/// closed when its window is gone, and otherwise put in its place, and it is shown
/// when the window can be seen and the badge cannot.
pub proof fn looks_are_about_the_own_badge(s: SessionView, seen: PolledWindow)
    ensures
        ({
            let overlay = s.overlays[seen.target];
            let step = session::poll_step(s, seen);
            &&& !s.overlays.contains_key(seen.target) ==> step == PollStep::Nothing
            &&& s.overlays.contains_key(seen.target) && !seen.alive ==> step
                == (PollStep::Destroy { overlay })
            &&& s.overlays.contains_key(seen.target) && seen.alive ==> step == (PollStep::Sync {
                overlay,
                show: seen.visible && !seen.iconic && !overlay.visible,
            })
        }),
{
}

// ---------------------------------------------------------------------
// Quitting
// ---------------------------------------------------------------------
/// Quitting with tags takes the user's agreement: the user is asked, the question
/// counts the tags, only after the agreement the program quits, and declining
/// changes nothing. Without tags it quits at once.
pub proof fn quitting_takes_agreement(
    s: SessionView,
    app: AppView,
    commands: Vec<IcedCommand>,
    fresh: WindowId,
    later: WindowId,
    current: Option<Settings>,
    position: (i32, i32),
    agreed: Seq<SessionEffect>,
    declined: Seq<SessionEffect>,
    ask: SessionEffect,
)
    requires
        s.tags.len() <= usize::MAX,
        app.confirm is None,
        session::is_gui_reaction(agreed, s, GuiEvent::ConfirmExit, position),
        session::is_gui_reaction(declined, s, GuiEvent::CancelExit, position),
        session::exit_effects(s, false).len() > 0,
        ask == session::exit_effects(s, false)[0],
        ask is Send ==> commands@ == seq![ask->Send_0],
    ensures
        s.tags.len() == 0 ==> session::exit_effects(s, false) == seq![SessionEffect::Quit],
        session::exit_effects(s, true) == seq![SessionEffect::Quit],
        agreed == seq![SessionEffect::Quit],
        declined.len() == 0,
        session::after_gui(s, GuiEvent::ConfirmExit) == s,
        session::after_gui(s, GuiEvent::CancelExit) == s,
        s.tags.len() > 0 ==> {
            let asked = iced_app::app_step(app, Message::Pump(commands), fresh, current);
            let yes = iced_app::app_step(asked.app, Message::ConfirmPressed, later, current);
            let no = iced_app::app_step(asked.app, Message::CancelPressed, later, current);
            &&& session::exit_effects(s, false).len() == 1
            &&& ask is Send
            &&& ask->Send_0 == (IcedCommand::ShowConfirm { count: s.tags.len() as usize })
            &&& yes.effects == seq![
                EffectView::Send(GuiEventView::ConfirmExit),
                EffectView::Close(fresh),
            ]
            &&& no.effects == seq![
                EffectView::Send(GuiEventView::CancelExit),
                EffectView::Close(fresh),
            ]
            &&& yes.app == app
            &&& no.app == app
        },
{
    if s.tags.len() > 0 {
        reveal_with_fuel(iced_app::commands_run, 2);
        assert(commands@.drop_last() =~= Seq::empty());
        let asked = iced_app::app_step(app, Message::Pump(commands), fresh, current);
        let yes = iced_app::app_step(asked.app, Message::ConfirmPressed, later, current);
        let no = iced_app::app_step(asked.app, Message::CancelPressed, later, current);
        assert(yes.effects =~= seq![
            EffectView::Send(GuiEventView::ConfirmExit),
            EffectView::Close(fresh),
        ]);
        assert(no.effects =~= seq![
            EffectView::Send(GuiEventView::CancelExit),
            EffectView::Close(fresh),
        ]);
    }
}

/// The question that is built from controls leads to the same: its agreement makes
/// the program quit, and it asks exactly when tags would be lost unasked.
pub proof fn agreement_makes_the_program_quit(
    s: SessionView,
    event: ConfirmEvent,
    effects: Seq<SessionEffect>,
    position: (i32, i32),
    has_tags: bool,
    confirmed: bool,
    ask: bool,
)
    requires
        call_ensures(should_confirm_exit, (has_tags, confirmed), ask),
        confirm::confirm_reaction(Some(s.hidden_hwnd), event).post matches Some(m)
            ==> session::is_message_reaction(
            effects,
            s,
            m.msg,
            m.wparam as usize,
            0,
            true,
            position,
        ),
    ensures
        confirm::confirm_reaction(Some(s.hidden_hwnd), event).post matches Some(m) ==> m.to
            == s.hidden_hwnd && effects == seq![SessionEffect::Quit],
        ask <==> has_tags && !confirmed,
{
    assert((1isize as usize) != 0) by (bit_vector);
}

/// Whoever asks to quit is treated alike: the entry of the tray, the button of the
/// panel, and the message.
pub proof fn quitting_is_the_same_for_all(
    s: SessionView,
    by_tray: Seq<SessionEffect>,
    by_panel: Seq<SessionEffect>,
    by_message: Seq<SessionEffect>,
    position: (i32, i32),
    lparam: isize,
    alive: bool,
)
    requires
        session::is_command_reaction(by_tray, s, TrayCommand::Exit),
        session::is_gui_reaction(by_panel, s, GuiEvent::PanelExit, position),
        session::is_message_reaction(by_message, s, WM_APP_EXIT, 0, lparam, alive, position),
    ensures
        by_tray == by_panel,
        by_panel == by_message,
        session::after_command(s, TrayCommand::Exit) == s,
        session::after_gui(s, GuiEvent::PanelExit) == s,
{
}

// ---------------------------------------------------------------------
// Preferences
// ---------------------------------------------------------------------
/// Preferences that are saved take effect: they are stored as they are, and after
/// the theme was looked up anew every switch is where the user put it, the window
/// corners have the shape that was chosen, and colours are those of the theme that
/// was chosen, in the user interface as in tooltips.
pub proof fn saved_preferences_take_effect(
    s: SessionView,
    cfg: Settings,
    system_dark: bool,
    position: (i32, i32),
    effects: Seq<SessionEffect>,
)
    requires
        s.settings.value is Some,
        session::is_gui_reaction(effects, s, GuiEvent::SettingsChanged(cfg), position),
    ensures
        ({
            let saved = session::after_gui(s, GuiEvent::SettingsChanged(cfg));
            let now = session::after_theme(saved, system_dark);
            let done = session::theme_effects(saved, system_dark);
            let dark = cfg.theme == ThemeMode::Dark || (cfg.theme == ThemeMode::System
                && system_dark);
            &&& effects == seq![SessionEffect::SaveSettings(cfg), SessionEffect::ReapplyTheme]
            &&& saved == (SessionView { settings: saved.settings, ..s })
            &&& saved.settings.value == Some(cfg)
            &&& now == (SessionView { theme: now.theme, prefs: now.prefs, ..saved })
            &&& now.prefs.value is Some
            &&& now.theme.colors is Some
            &&& now.prefs.value->0.show_title == cfg.show_badge_title
            &&& now.prefs.value->0.badge_always_top == cfg.badge_always_top
            &&& now.prefs.value->0.balloon_enabled == cfg.show_balloon
            &&& now.prefs.value->0.tooltip_bg == now.theme.colors->0.tooltip_bg
            &&& now.prefs.value->0.tooltip_fg == now.theme.colors->0.tooltip_fg
            &&& dark ==> now.theme.colors->0 == theme::dark()
            &&& !dark ==> now.theme.colors->0 == theme::light()
            &&& done == seq![
                SessionEffect::StyleWindow { dark, corner: cfg.corner },
                SessionEffect::Send(IcedCommand::ApplyTheme { dark }),
                SessionEffect::RedrawOverlays,
            ]
        }),
{
    assert(session::theme_effects(
        session::after_gui(s, GuiEvent::SettingsChanged(cfg)),
        system_dark,
    ).len() == 3);
}

/// The preferences for badges, tooltips and the tray say what the user's preferences
/// say, switch by switch.
pub proof fn switches_are_handed_on(
    cfg: Settings,
    system_dark: bool,
    prefs: NativePrefs,
)
    requires
        call_ensures(apply_native_prefs, (cfg, system_dark), prefs),
    ensures
        prefs.show_title == cfg.show_badge_title,
        prefs.badge_always_top == cfg.badge_always_top,
        prefs.balloon_enabled == cfg.show_balloon,
        cfg.theme == ThemeMode::Dark ==> prefs.tooltip_bg == theme::dark().tooltip_bg
            && prefs.tooltip_fg == theme::dark().tooltip_fg,
        cfg.theme == ThemeMode::Light ==> prefs.tooltip_bg == theme::light().tooltip_bg
            && prefs.tooltip_fg == theme::light().tooltip_fg,
        cfg.theme == ThemeMode::System && system_dark ==> prefs.tooltip_bg
            == theme::dark().tooltip_bg,
        cfg.theme == ThemeMode::System && !system_dark ==> prefs.tooltip_bg
            == theme::light().tooltip_bg,
{
}

/// The system's own change is followed when the user wants to follow the system, or
/// while no preferences are known.
pub proof fn the_system_is_followed(
    s: SessionView,
    effects: Seq<SessionEffect>,
    wparam: usize,
    lparam: isize,
    alive: bool,
    position: (i32, i32),
)
    requires
        session::is_message_reaction(
            effects,
            s,
            WM_SETTINGCHANGE,
            wparam,
            lparam,
            alive,
            position,
        ),
    ensures
        s.settings.value is None || s.settings.value->0.theme == ThemeMode::System ==> effects
            == seq![SessionEffect::ReapplyTheme],
        s.settings.value is Some && s.settings.value->0.theme != ThemeMode::System
            ==> effects.len() == 0,
{
}

// ---------------------------------------------------------------------
// Hotkeys, the tray and messages
// ---------------------------------------------------------------------
/// A hotkey does what it is for: tag the window in front, show or hide the panel,
/// open the settings. It is recognised by the number that it was registered under.
pub proof fn hotkeys_do_what_they_are_for(
    s: SessionView,
    key: Hotkey,
    lparam: isize,
    found: Option<Hotkey>,
    effects: Seq<SessionEffect>,
)
    requires
        call_ensures(
            from_message,
            (0x0312u32, hotkey::hotkey_id(key) as usize, lparam),
            found,
        ),
        session::is_command_reaction(effects, s, session::command_of_hotkey(key)),
    ensures
        found == Some(key),
        ({
            let now = session::after_command(s, session::command_of_hotkey(key));
            &&& key == Hotkey::QuickTag ==> effects == seq![SessionEffect::QuickTag] && now == s
            &&& key == Hotkey::OpenSettings ==> effects == seq![
                SessionEffect::Send(IcedCommand::OpenSettings),
            ] && now == s
            &&& key == Hotkey::TogglePanel ==> now == (SessionView {
                panel_visible: !s.panel_visible,
                ..s
            })
            &&& key == Hotkey::TogglePanel && s.panel_visible ==> effects == seq![
                SessionEffect::Send(IcedCommand::HidePanel),
            ]
            &&& key == Hotkey::TogglePanel && !s.panel_visible ==> effects.len() == 2 && effects[0]
                == SessionEffect::Send(IcedCommand::ShowPanel) && effects[1] is Send
                && effects[1]->Send_0 is RefreshTags && session::lists(
                effects[1]->Send_0->RefreshTags_rows@,
                s.tags,
            )
        }),
{
    assert((1i32 as usize) as i32 == 1 && (2i32 as usize) as i32 == 2 && (3i32 as usize) as i32
        == 3) by (bit_vector);
}

/// The entries of the tray menu do what they are for, and a click on the icon shows
/// or hides the panel. The right button opens the menu.
pub proof fn tray_does_what_it_is_for(
    panel: TrayCommand,
    settings: TrayCommand,
    tag: TrayCommand,
    exit: TrayCommand,
    click: TrayAction,
    balloon: TrayAction,
    right: TrayAction,
)
    requires
        call_ensures(menu_command, (100usize,), panel),
        call_ensures(menu_command, (101usize,), settings),
        call_ensures(menu_command, (102usize,), tag),
        call_ensures(menu_command, (103usize,), exit),
        call_ensures(tray_action, (0x0202usize,), click),
        call_ensures(tray_action, (0x0405usize,), balloon),
        call_ensures(tray_action, (0x0205usize,), right),
    ensures
        panel == TrayCommand::OpenPanel,
        settings == TrayCommand::OpenSettings,
        tag == TrayCommand::QuickTag,
        exit == TrayCommand::Exit,
        click == TrayAction::Command(TrayCommand::OpenPanel),
        balloon == TrayAction::Command(TrayCommand::OpenPanel),
        right == TrayAction::Menu,
{
    assert(0x0202usize as u32 == 0x0202 && 0x0405usize as u32 == 0x0405 && 0x0205usize as u32
        == 0x0205) by (bit_vector);
}

/// The choices of the tray lead to what they say.
pub proof fn tray_choices_are_carried_out(
    s: SessionView,
    tag: Seq<SessionEffect>,
    settings: Seq<SessionEffect>,
)
    requires
        session::is_command_reaction(tag, s, TrayCommand::QuickTag),
        session::is_command_reaction(settings, s, TrayCommand::OpenSettings),
    ensures
        tag == seq![SessionEffect::QuickTag],
        settings == seq![SessionEffect::Send(IcedCommand::OpenSettings)],
        session::after_command(s, TrayCommand::QuickTag) == s,
        session::after_command(s, TrayCommand::OpenSettings) == s,
        session::after_command(s, TrayCommand::OpenPanel) == (SessionView {
            panel_visible: !s.panel_visible,
            ..s
        }),
{
}

/// Messages that are about no window do what they are for, and change nothing; a
/// message that is not the program's own is left to the system.
pub proof fn messages_do_what_they_are_for(
    s: SessionView,
    msg: u32,
    wparam: usize,
    lparam: isize,
    alive: bool,
    position: (i32, i32),
    effects: Seq<SessionEffect>,
)
    requires
        session::is_message_reaction(effects, s, msg, wparam, lparam, alive, position),
    ensures
        msg == WM_APP_OPEN_SETTINGS ==> effects == seq![
            SessionEffect::Send(IcedCommand::OpenSettings),
        ],
        msg == WM_APP_THEME_CHANGED ==> effects == seq![SessionEffect::ReapplyTheme],
        msg == WM_TIMER && wparam == 0x1234 ==> effects == seq![SessionEffect::PollOverlays],
        msg == WM_TIMER && wparam == 0x1235 ==> effects == seq![SessionEffect::ShowBalloon],
        msg == WM_TIMER && wparam != 0x1234 && wparam != 0x1235 ==> effects.len() == 0,
        msg < 0x8000 && msg != WM_TIMER && msg != WM_SETTINGCHANGE || msg > WM_APP_EXIT ==> effects
            == seq![SessionEffect::PassOn],
        msg != WM_DESTROY_OVERLAY && msg != WM_APP_WINEVENT ==> session::after_message(
            s,
            msg,
            wparam,
            lparam,
        ) == s,
{
}

// ---------------------------------------------------------------------
// Windows and their tags
// ---------------------------------------------------------------------
/// A click on a badge opens the editor with the tag of the badge's window, at the
/// place where an editor would open.
pub proof fn click_opens_the_editor(
    s: SessionView,
    config: OverlayConfig,
    map: TargetMap,
    badge: isize,
    message: Option<PostedMessage>,
    position: (i32, i32),
    effects: Seq<SessionEffect>,
)
    requires
        call_ensures(click_request, (&config, &map, badge), message),
        config.message_target == Some(s.hidden_hwnd),
        map@.contains_key(badge),
        map@[badge].target_hwnd != 0,
        s.tags.contains_key(map@[badge].target_hwnd),
        message matches Some(m) ==> session::is_message_reaction(
            effects,
            s,
            m.msg,
            m.wparam as usize,
            0,
            true,
            position,
        ),
    ensures
        message is Some,
        message->0.to == s.hidden_hwnd,
        ({
            let target = map@[badge].target_hwnd;
            effects == seq![
                SessionEffect::Send(
                    IcedCommand::EditTag { target, position, tag: s.tags[target] },
                ),
            ]
        }),
{
    lemma_handle(map@[badge].target_hwnd);
}

/// What the panel asks for a window is done for this window: it is brought to the
/// front, or the editor opens with its tag. A window without a tag is not edited.
pub proof fn panel_requests_are_carried_out(
    s: SessionView,
    target: isize,
    position: (i32, i32),
    raised: Seq<SessionEffect>,
    edited: Seq<SessionEffect>,
    alive: bool,
    iconic: bool,
    plan: Option<RaisePlan>,
)
    requires
        session::is_gui_reaction(raised, s, GuiEvent::ActivateWindow { target }, position),
        session::is_gui_reaction(edited, s, GuiEvent::EditTagRequested { target }, position),
        call_ensures(activate_target, (alive, iconic), plan),
    ensures
        raised == seq![SessionEffect::ActivateWindow { target }],
        s.tags.contains_key(target) ==> edited == seq![
            SessionEffect::Send(IcedCommand::EditTag { target, position, tag: s.tags[target] }),
        ],
        !s.tags.contains_key(target) ==> edited.len() == 0,
        session::after_gui(s, GuiEvent::ActivateWindow { target }) == s,
        session::after_gui(s, GuiEvent::EditTagRequested { target }) == s,
        plan is Some <==> alive,
        plan matches Some(p) ==> p.restore == iconic && p.foreground && p.insert_after
            == InsertAfter::Top && p.keep_place && p.keep_size,
{
}

/// What the panel reports about itself is noted, and nothing else changes.
pub proof fn panel_is_known_to_be_shown(s: SessionView, visible: bool)
    ensures
        session::after_gui(s, GuiEvent::PanelVisibilityChanged(visible)) == (SessionView {
            panel_visible: visible,
            ..s
        }),
{
}

/// Tagging the window in front opens the editor for this window, with its title as
/// the title, no note and the first colour; saved as it is, or after anything was
/// typed, it becomes the tag of this window.
pub proof fn quick_tag_tags_the_window_in_front(
    info: WindowInfo,
    position: (i32, i32),
    command: Option<IcedCommand>,
    nothing: Option<IcedCommand>,
    commands: Vec<IcedCommand>,
    app: AppView,
    messages: Seq<Message>,
    fresh: WindowId,
    later: WindowId,
    current: Option<Settings>,
    s: SessionView,
)
    requires
        call_ensures(handle_quick_tag, (Some(info), position), command),
        call_ensures(handle_quick_tag, (None, position), nothing),
        app.popup is None,
        command matches Some(c) ==> commands@ == seq![c],
        forall|i: int| 0 <= i < messages.len() ==> iced_laws::is_typing(#[trigger] messages[i]),
    ensures
        nothing is None,
        command is Some,
        command->0 is EditTag,
        ({
            let tag = command->0->EditTag_tag;
            let opened = iced_app::app_step(app, Message::Pump(commands), fresh, current);
            let saved = iced_app::app_step(
                iced_laws::after(opened.app, messages, later, current),
                Message::PopupSavePressed,
                later,
                current,
            );
            &&& tag.title@ == info.title@
            &&& tag.note@.len() == 0
            &&& tag.color == TagColor::Orange
            &&& tag.window_title@ == info.title@
            &&& tag.process_name@ == info.process_name@
            &&& opened.effects.contains(EffectView::OpenPopup(fresh, position))
            &&& saved.effects.len() == 2
            &&& saved.effects[0] matches EffectView::Send(
                GuiEventView::TagSaved { target, tag: kept },
            ) && {
                &&& target == info.hwnd
                &&& kept.title == iced_laws::last_title(tag.title, messages)
                &&& kept.note == iced_laws::last_note(tag.note, messages)
                &&& kept.color == iced_laws::last_color(tag.color, messages)
                &&& kept.window_title@ == info.title@
                &&& kept.process_name@ == info.process_name@
                &&& session::after_gui(s, GuiEvent::TagSaved { target, tag: kept }).tags
                    == s.tags.insert(info.hwnd, kept)
            }
        }),
{
    let c = command->0;
    iced_laws::opened_editor_shows_the_tag(
        app,
        commands,
        c->EditTag_target,
        c->EditTag_position,
        c->EditTag_tag,
        messages,
        fresh,
        later,
        current,
    );
}

// ---------------------------------------------------------------------
// The program
// ---------------------------------------------------------------------
/// What is said here of reactions is said of the program: what it leaves to do, and
/// the state that it is in afterwards, are those of the reaction.
pub proof fn program_reacts_like_this(
    event: GuiEvent,
    command: TrayCommand,
    key: Hotkey,
    msg: u32,
    wparam: usize,
    lparam: isize,
    alive: bool,
    target: isize,
    happened: u32,
    system_dark: bool,
    position: (i32, i32),
    effects: Vec<SessionEffect>,
)
    ensures
        forall|s: &mut Session| #[trigger]
            call_ensures(Session::dispatch_iced_event, (s, event, position), effects)
                ==> session::is_gui_reaction(effects@, s@, event, position) && final(s)@
                == session::after_gui(s@, event),
        forall|s: &mut Session| #[trigger]
            call_ensures(Session::dispatch_tray_command, (s, command), effects)
                ==> session::is_command_reaction(effects@, s@, command) && final(s)@
                == session::after_command(s@, command),
        forall|s: &mut Session| #[trigger]
            call_ensures(Session::dispatch_hotkey, (s, key), effects)
                ==> session::is_command_reaction(effects@, s@, session::command_of_hotkey(key))
                && final(s)@ == session::after_command(s@, session::command_of_hotkey(key)),
        forall|s: &mut Session| #[trigger]
            call_ensures(
                Session::hidden_wndproc,
                (s, msg, wparam, lparam, alive, position),
                effects,
            ) ==> session::is_message_reaction(
                effects@,
                s@,
                msg,
                wparam,
                lparam,
                alive,
                position,
            ) && final(s)@ == session::after_message(s@, msg, wparam, lparam),
        forall|s: &mut Session| #[trigger]
            call_ensures(Session::handle_winevent, (s, target, happened), effects) ==> effects@
                == session::winevent_effects(s@, target, happened) && final(s)@
                == session::after_winevent(s@, target, happened),
        forall|s: &mut Session| #[trigger]
            call_ensures(Session::reapply_theme, (s, system_dark), effects) ==> effects@
                == session::theme_effects(s@, system_dark) && final(s)@ == session::after_theme(
                s@,
                system_dark,
            ),
        forall|s: &Session| #[trigger]
            call_ensures(Session::request_exit, (s, alive), effects) ==> effects@
                == session::exit_effects(s@, alive),
        forall|s: &Session| #[trigger]
            call_ensures(Session::open_edit_tag, (s, target, position), effects) ==> effects@
                == session::edit_effects(s@, target, position),
        forall|s: &Session| #[trigger]
            call_ensures(Session::create_overlay, (s, target, alive), effects) ==> effects@
                == session::create_effects(s@, target, alive),
{
}

/// A badge that was made is kept under its own window, shown, unless the window has
/// one already or there are 256; a badge that is taken away is closed. No other
/// badge and no tag is concerned.
pub proof fn badges_are_kept_under_their_windows(
    target: isize,
    hwnd: isize,
    other: isize,
    kept: bool,
    effects: Vec<SessionEffect>,
)
    requires
        other != target,
    ensures
        forall|s: &mut Session| #[trigger]
            call_ensures(Session::overlay_created, (s, target, hwnd), kept) ==> {
                &&& kept <==> s@.overlays.len() < 256 && !s@.overlays.contains_key(target)
                &&& !kept ==> final(s)@ == s@
                &&& kept ==> final(s)@.overlays.contains_key(target)
                    && final(s)@.overlays[target].hwnd == hwnd
                    && final(s)@.overlays[target].target_hwnd == target
                    && final(s)@.overlays[target].visible && final(s)@.overlays[target].running
                &&& final(s)@.overlays.contains_key(other) == s@.overlays.contains_key(other)
                &&& s@.overlays.contains_key(other) ==> final(s)@.overlays[other]
                    == s@.overlays[other]
                &&& final(s)@.tags == s@.tags
                &&& final(s)@.panel_visible == s@.panel_visible
            },
        forall|s: &mut Session| #[trigger]
            call_ensures(Session::destroy_overlay, (s, target), effects) ==> {
                &&& !final(s)@.overlays.contains_key(target)
                &&& s@.overlays.contains_key(target) ==> effects@ == seq![
                    SessionEffect::DestroyOverlay { overlay: s@.overlays[target] },
                ]
                &&& !s@.overlays.contains_key(target) ==> effects@.len() == 0
                &&& final(s)@.overlays.contains_key(other) == s@.overlays.contains_key(other)
                &&& s@.overlays.contains_key(other) ==> final(s)@.overlays[other]
                    == s@.overlays[other]
                &&& final(s)@.tags == s@.tags
                &&& final(s)@.panel_visible == s@.panel_visible
            },
        forall|s: &mut Session| #[trigger]
            call_ensures(Session::forget_target, (s, target), effects) ==> {
                &&& !final(s)@.overlays.contains_key(target)
                &&& !final(s)@.tags.contains_key(target)
                &&& final(s)@.tags.contains_key(other) == s@.tags.contains_key(other)
                &&& s@.tags.contains_key(other) ==> final(s)@.tags[other] == s@.tags[other]
                &&& s@.overlays.contains_key(target) ==> effects@ == seq![
                    SessionEffect::DestroyOverlay { overlay: s@.overlays[target] },
                ]
            },
{
}

/// Hiding and showing the badge of a window ends with it hidden or shown, asks for
/// its window only when something changes, and concerns no other badge.
pub proof fn badges_of_windows_are_hidden_and_shown(
    target: isize,
    tooltip: isize,
    other: isize,
    plan: Option<HidePlan>,
    shown: bool,
)
    requires
        other != target,
    ensures
        forall|s: &mut Session| #[trigger]
            call_ensures(Session::hide_overlay, (s, target, tooltip), plan) ==> {
                &&& plan is Some <==> s@.overlays.contains_key(target)
                &&& s@.overlays.contains_key(target) ==> {
                    &&& final(s)@.overlays.contains_key(target)
                    &&& !final(s)@.overlays[target].visible
                    &&& final(s)@.overlays[target].hwnd == s@.overlays[target].hwnd
                    &&& plan->0.hide_window == s@.overlays[target].visible
                    &&& plan->0.close_tooltip is Some <==> s@.overlays[target].visible && tooltip
                        != 0
                    &&& plan->0.close_tooltip matches Some(t) ==> t == tooltip
                }
                &&& final(s)@.overlays.contains_key(other) == s@.overlays.contains_key(other)
                &&& s@.overlays.contains_key(other) ==> final(s)@.overlays[other]
                    == s@.overlays[other]
                &&& final(s)@.tags == s@.tags
            },
        forall|s: &mut Session| #[trigger]
            call_ensures(Session::show_overlay, (s, target), shown) ==> {
                &&& shown <==> s@.overlays.contains_key(target) && !s@.overlays[target].visible
                &&& s@.overlays.contains_key(target) ==> {
                    &&& final(s)@.overlays.contains_key(target)
                    &&& final(s)@.overlays[target].visible
                    &&& final(s)@.overlays[target].hwnd == s@.overlays[target].hwnd
                }
                &&& final(s)@.overlays.contains_key(other) == s@.overlays.contains_key(other)
                &&& s@.overlays.contains_key(other) ==> final(s)@.overlays[other]
                    == s@.overlays[other]
                &&& final(s)@.tags == s@.tags
            },
{
}

/// A look at all badges looks at each of them, in order, and nothing is left of the
/// windows that it finds gone, while everything else stays.
pub proof fn every_badge_is_looked_at(
    seen: &[PolledWindow],
    steps: Vec<PollStep>,
    i: int,
    target: isize,
)
    requires
        0 <= i < seen@.len(),
    ensures
        forall|s: &mut Session| #[trigger]
            call_ensures(Session::poll_overlays, (s, seen), steps) ==> {
                &&& steps@.len() == seen@.len()
                &&& steps@[i] == session::poll_step(s@, seen@[i])
                &&& !seen@[i].alive && s@.overlays.contains_key(seen@[i].target) ==> !final(
                    s)@.overlays.contains_key(seen@[i].target) && !final(s)@.tags.contains_key(
                    seen@[i].target,
                )
                &&& (forall|k: int|
                    0 <= k < seen@.len() && (#[trigger] seen@[k]).target == target
                        ==> seen@[k].alive) ==> final(s)@.tags.contains_key(target)
                    == s@.tags.contains_key(target) && final(s)@.overlays.contains_key(target)
                    == s@.overlays.contains_key(target)
                &&& final(s)@.panel_visible == s@.panel_visible
            },
{
    assert forall|s: &mut Session| #[trigger]
        call_ensures(Session::poll_overlays, (s, seen), steps) implies {
        &&& steps@.len() == seen@.len()
        &&& steps@[i] == session::poll_step(s@, seen@[i])
        &&& !seen@[i].alive && s@.overlays.contains_key(seen@[i].target) ==> session::found_dead(
            s@,
            seen@,
            seen@[i].target,
        )
    } by {
        assert(steps@[i] == seen@.map_values(|w: PolledWindow| session::poll_step(s@, w))[i]);
    }
}

/// The panel is shown or hidden when it is asked for, told of all tags when it
/// appears, and told of changes while it is shown.
pub proof fn panel_is_told_of_all_tags(visible: bool, effects: Vec<SessionEffect>, now: bool)
    ensures
        forall|s: &mut Session| #[trigger]
            call_ensures(Session::toggle_panel_hidden, (s,), effects) ==> {
                &&& final(s)@ == (SessionView { panel_visible: !s@.panel_visible, ..s@ })
                &&& s@.panel_visible ==> effects@ == seq![
                    SessionEffect::Send(IcedCommand::HidePanel),
                ]
                &&& !s@.panel_visible ==> effects@.len() == 2 && effects@[0]
                    == SessionEffect::Send(IcedCommand::ShowPanel) && effects@[1] is Send
                    && effects@[1]->Send_0 is RefreshTags && session::lists(
                    effects@[1]->Send_0->RefreshTags_rows@,
                    s@.tags,
                )
            },
        forall|s: &Session| #[trigger]
            call_ensures(Session::refresh_panel_now, (s,), effects) ==> {
                &&& !s@.panel_visible ==> effects@.len() == 0
                &&& s@.panel_visible ==> effects@.len() == 1 && effects@[0] is Send
                    && effects@[0]->Send_0 is RefreshTags && session::lists(
                    effects@[0]->Send_0->RefreshTags_rows@,
                    s@.tags,
                )
            },
        forall|s: &mut Session| #[trigger]
            call_ensures(Session::set_panel_visible, (s, visible), ()) ==> final(s)@
                == (SessionView { panel_visible: visible, ..s@ }),
        forall|s: &Session| #[trigger]
            call_ensures(Session::panel_visible, (s,), now) ==> now == s@.panel_visible,
{
}

/// The rows of the panel are the tags, each once: a row for every window that has a
/// tag, with this tag.
pub proof fn rows_are_the_tags(tags: TagStore, list: Vec<TagRow>, target: isize, i: int, j: int)
    requires
        call_ensures(build_tag_rows, (&tags,), list),
    ensures
        tags@.contains_key(target) <==> rows::has_row(list@, target),
        0 <= i < list@.len() ==> tags@.contains_key(list@[i].target) && list@[i].tag
            == tags@[list@[i].target],
        0 <= i < j < list@.len() ==> list@[i].target != list@[j].target,
{
}

/// The menu of a tag in the tree leads to the editor with this tag, or takes the
/// badge of its window away.
pub proof fn tree_menu_reaches_the_window(
    s: SessionView,
    target: isize,
    alive: bool,
    iconic: bool,
    position: (i32, i32),
    edited: Seq<SessionEffect>,
    removed: Seq<SessionEffect>,
)
    requires
        target != 0,
        panel::menu_reaction(s.hidden_hwnd, target, 302, alive, iconic) matches
            panel::MenuAction::Post(m) ==> session::is_message_reaction(
            edited,
            s,
            m.msg,
            m.wparam as usize,
            0,
            true,
            position,
        ),
        panel::menu_reaction(s.hidden_hwnd, target, 303, alive, iconic) matches
            panel::MenuAction::PostAndRefresh(m) ==> session::is_message_reaction(
            removed,
            s,
            m.msg,
            m.wparam as usize,
            0,
            true,
            position,
        ),
    ensures
        s.tags.contains_key(target) ==> edited == seq![
            SessionEffect::Send(IcedCommand::EditTag { target, position, tag: s.tags[target] }),
        ],
        s.overlays.contains_key(target) ==> removed == seq![
            SessionEffect::DestroyOverlay { overlay: s.overlays[target] },
        ],
{
    lemma_handle(target);
}

/// The program keeps out of the tray exactly when the command line says so, and runs
/// once.
pub proof fn command_line_and_second_start(
    args: &[Option<String>],
    no_tray: bool,
    err: u32,
    conflict: bool,
)
    requires
        call_ensures(parse_cli_no_tray, (args,), no_tray),
        call_ensures(single_instance_conflict, (err,), conflict),
    ensures
        no_tray ==> exists|i: int|
            0 <= i < args@.len() && (#[trigger] args@[i]) is Some && args@[i]->0@ == "--no-tray"@,
        forall|i: int|
            0 <= i < args@.len() && (#[trigger] args@[i]) is Some && args@[i]->0@ == "--no-tray"@
                ==> no_tray,
        conflict <==> err == 183,
{
    assert(no_tray == session::keeps_out_of_tray(args@));
    assert forall|i: int|
        0 <= i < args@.len() && (#[trigger] args@[i]) is Some && args@[i]->0@
            == "--no-tray"@ implies no_tray by {
        assert(session::is_no_tray(args@[i]));
    }
}

/// The editor opens sixteen pixels to the right of and below the pointer, in the size
/// that it has on this screen, moved only to stay on the screen.
pub proof fn editor_opens_at_the_pointer(
    cursor: (i32, i32),
    dpi: u32,
    work: Rect,
    at: (i32, i32),
    free: (i32, i32),
)
    requires
        call_ensures(popup_position, (cursor, dpi, Some(work)), at),
        call_ensures(popup_position, (cursor, dpi, None), free),
    ensures
        ({
            let w = geo::scaled(420, dpi);
            let h = geo::scaled(320, dpi);
            &&& free.0 == cursor.0 + 16 && free.1 == cursor.1 + 16
            &&& work.left <= cursor.0 + 16 && cursor.0 + 16 + w <= work.right ==> at.0 == cursor.0
                + 16
            &&& work.top <= cursor.1 + 16 && cursor.1 + 16 + h <= work.bottom ==> at.1 == cursor.1
                + 16
            &&& w <= work.right - work.left ==> work.left <= at.0 && at.0 + w <= work.right
            &&& h <= work.bottom - work.top ==> work.top <= at.1 && at.1 + h <= work.bottom
        }),
{
}

/// The program starts with no badge, no tag and a hidden panel, with the preferences
/// that it was given.
pub proof fn program_starts_with_nothing(
    hidden_hwnd: isize,
    settings: SharedSettings,
    s: Session,
    target: isize,
)
    requires
        call_ensures(Session::new, (hidden_hwnd, settings), s),
    ensures
        s@.hidden_hwnd == hidden_hwnd,
        !s@.overlays.contains_key(target),
        !s@.tags.contains_key(target),
        !s@.panel_visible,
        s@.settings == settings,
        s@.theme.colors is None,
        s@.prefs.value is None,
{
}

} // verus!
