//! The order in which a frame is drawn, and the places of what is in it.

use vstd::prelude::*;

use crate::app::{session_fills, AppMode};
use crate::text::chars_of;
use crate::tui::footer::PanelId;
use crate::tui::geometry::{capped, floored, row_in, row_of, Rect};
use crate::tui::popups::FormKind;

verus! {

/// The parts of the dashboard.
#[derive(Debug, Clone, Copy, PartialEq, Eq, Structural)]
pub struct DashboardAreas {
    pub header: Rect,
    pub tab_bar: Rect,
    pub body: Rect,
    pub col_left: Rect,
    pub col_mid: Rect,
    pub col_right: Rect,
    pub footer: Rect,
}

// ---------------------------------------------------------------------------
// Overlays

/// What is drawn over the dashboard.
#[derive(Debug, Clone, Copy, PartialEq, Eq, Structural)]
pub enum Overlay {
    Palette,
    Form(FormKind),
    FieldPicker,
    GroupManage,
    GroupFieldPicker,
    TagFilter,
    TunnelForm,
    TunnelHostPicker,
    SessionPicker,
    PushKeyHostPicker,
    PushKeyIdentityPicker,
    ConfirmDiscard,
    ConfirmDelete,
    Help,
    KeybindEditor,
    Settings,
    TunnelReconnectSettings,
    ConfirmQuit,
    ImportPrompt,
    SftpPrompt,
    BroadcastPickTarget,
    BroadcastCommand,
    BroadcastPreview,
    Notice,
}

/// Which forms are open behind a question or a picker.
#[derive(Debug, Clone, Copy, PartialEq, Eq, Structural)]
pub struct OpenForms {
    pub host: bool,
    pub identity: bool,
    pub tunnel: bool,
    /// The form of a group was opened from the list of groups.
    pub group_from_list: bool,
}

/// What is drawn over the dashboard, from the back to the front.
pub open spec fn overlays_of(mode: AppMode, forms: OpenForms) -> Seq<Overlay> {
    match mode {
        AppMode::Palette => seq![Overlay::Palette],
        AppMode::HostForm => seq![Overlay::Form(FormKind::Host)],
        AppMode::FieldPicker => seq![Overlay::Form(FormKind::Host), Overlay::FieldPicker],
        AppMode::IdentityForm => seq![Overlay::Form(FormKind::Identity)],
        AppMode::KeygenForm => seq![Overlay::Form(FormKind::Keygen)],
        AppMode::GroupManage => seq![Overlay::GroupManage],
        AppMode::GroupForm => group_list_behind(forms) + seq![Overlay::Form(FormKind::Group)],
        AppMode::GroupFieldPicker => group_list_behind(forms) + seq![
            Overlay::Form(FormKind::Group),
            Overlay::GroupFieldPicker,
        ],
        AppMode::TagFilter => seq![Overlay::TagFilter],
        AppMode::TunnelForm => seq![Overlay::TunnelForm],
        AppMode::TunnelHostPicker => seq![Overlay::TunnelForm, Overlay::TunnelHostPicker],
        AppMode::SessionPicker => seq![Overlay::SessionPicker],
        AppMode::PushKeyHostPicker => seq![Overlay::PushKeyHostPicker],
        AppMode::PushKeyIdentityPicker => seq![Overlay::PushKeyIdentityPicker],
        AppMode::ConfirmDiscard => form_behind(forms) + seq![Overlay::ConfirmDiscard],
        AppMode::ConfirmDelete => seq![Overlay::ConfirmDelete],
        AppMode::Help => seq![Overlay::Help],
        AppMode::KeybindEditor => seq![Overlay::KeybindEditor],
        AppMode::Settings => seq![Overlay::Settings],
        AppMode::TunnelReconnectSettings => seq![Overlay::TunnelReconnectSettings],
        AppMode::ConfirmQuit => seq![Overlay::ConfirmQuit],
        AppMode::ImportPrompt => seq![Overlay::ImportPrompt],
        AppMode::SftpPrompt => seq![Overlay::SftpPrompt],
        AppMode::BroadcastPickTarget => seq![Overlay::BroadcastPickTarget],
        AppMode::BroadcastCommand => seq![Overlay::BroadcastCommand],
        AppMode::BroadcastPreview => seq![Overlay::BroadcastPreview],
        AppMode::Notice => seq![Overlay::Notice],
        AppMode::Normal => Seq::empty(),
        AppMode::Connecting => Seq::empty(),
        AppMode::Session => Seq::empty(),
    }
}

/// The list of groups behind the form that was opened from it.
pub open spec fn group_list_behind(forms: OpenForms) -> Seq<Overlay> {
    if forms.group_from_list {
        seq![Overlay::GroupManage]
    } else {
        Seq::empty()
    }
}

/// The form behind the question what to do with its changes.
pub open spec fn form_behind(forms: OpenForms) -> Seq<Overlay> {
    if forms.host {
        seq![Overlay::Form(FormKind::Host)]
    } else if forms.identity {
        seq![Overlay::Form(FormKind::Identity)]
    } else if forms.tunnel {
        seq![Overlay::TunnelForm]
    } else {
        Seq::empty()
    }
}

/// Whether something is drawn over the dashboard.
pub open spec fn draws_popup(mode: AppMode) -> bool {
    mode != AppMode::Normal && !session_fills(mode)
}

/// Whether something is drawn over the dashboard.
pub fn is_overlay_mode(mode: AppMode) -> (r: bool)
    ensures
        r == draws_popup(mode),
{
    mode != AppMode::Normal && mode != AppMode::Connecting && mode != AppMode::Session
}

/// What is drawn over the dashboard, from the back to the front.
pub fn list_overlays(mode: AppMode, forms: OpenForms) -> (r: Vec<Overlay>)
    ensures
        r@ == overlays_of(mode, forms),
{
    let mut v: Vec<Overlay> = Vec::new();
    match mode {
        AppMode::Palette => v.push(Overlay::Palette),
        AppMode::HostForm => v.push(Overlay::Form(FormKind::Host)),
        AppMode::FieldPicker => {
            v.push(Overlay::Form(FormKind::Host));
            v.push(Overlay::FieldPicker);
        },
        AppMode::IdentityForm => v.push(Overlay::Form(FormKind::Identity)),
        AppMode::KeygenForm => v.push(Overlay::Form(FormKind::Keygen)),
        AppMode::GroupManage => v.push(Overlay::GroupManage),
        AppMode::GroupForm => {
            if forms.group_from_list {
                v.push(Overlay::GroupManage);
            }
            v.push(Overlay::Form(FormKind::Group));
        },
        AppMode::GroupFieldPicker => {
            if forms.group_from_list {
                v.push(Overlay::GroupManage);
            }
            v.push(Overlay::Form(FormKind::Group));
            v.push(Overlay::GroupFieldPicker);
        },
        AppMode::TagFilter => v.push(Overlay::TagFilter),
        AppMode::TunnelForm => v.push(Overlay::TunnelForm),
        AppMode::TunnelHostPicker => {
            v.push(Overlay::TunnelForm);
            v.push(Overlay::TunnelHostPicker);
        },
        AppMode::SessionPicker => v.push(Overlay::SessionPicker),
        AppMode::PushKeyHostPicker => v.push(Overlay::PushKeyHostPicker),
        AppMode::PushKeyIdentityPicker => v.push(Overlay::PushKeyIdentityPicker),
        AppMode::ConfirmDiscard => {
            if forms.host {
                v.push(Overlay::Form(FormKind::Host));
            } else if forms.identity {
                v.push(Overlay::Form(FormKind::Identity));
            } else if forms.tunnel {
                v.push(Overlay::TunnelForm);
            }
            v.push(Overlay::ConfirmDiscard);
        },
        AppMode::ConfirmDelete => v.push(Overlay::ConfirmDelete),
        AppMode::Help => v.push(Overlay::Help),
        AppMode::KeybindEditor => v.push(Overlay::KeybindEditor),
        AppMode::Settings => v.push(Overlay::Settings),
        AppMode::TunnelReconnectSettings => v.push(Overlay::TunnelReconnectSettings),
        AppMode::ConfirmQuit => v.push(Overlay::ConfirmQuit),
        AppMode::ImportPrompt => v.push(Overlay::ImportPrompt),
        AppMode::SftpPrompt => v.push(Overlay::SftpPrompt),
        AppMode::BroadcastPickTarget => v.push(Overlay::BroadcastPickTarget),
        AppMode::BroadcastCommand => v.push(Overlay::BroadcastCommand),
        AppMode::BroadcastPreview => v.push(Overlay::BroadcastPreview),
        AppMode::Notice => v.push(Overlay::Notice),
        AppMode::Normal => {},
        AppMode::Connecting => {},
        AppMode::Session => {},
    }
    assert(v@ =~= overlays_of(mode, forms));
    v
}

/// The mode that a popup belongs to: the one in which it has the keys.
pub open spec fn mode_of(overlay: Overlay) -> AppMode {
    match overlay {
        Overlay::Palette => AppMode::Palette,
        Overlay::Form(FormKind::Host) => AppMode::HostForm,
        Overlay::Form(FormKind::Identity) => AppMode::IdentityForm,
        Overlay::Form(FormKind::Keygen) => AppMode::KeygenForm,
        Overlay::Form(FormKind::Group) => AppMode::GroupForm,
        Overlay::FieldPicker => AppMode::FieldPicker,
        Overlay::GroupManage => AppMode::GroupManage,
        Overlay::GroupFieldPicker => AppMode::GroupFieldPicker,
        Overlay::TagFilter => AppMode::TagFilter,
        Overlay::TunnelForm => AppMode::TunnelForm,
        Overlay::TunnelHostPicker => AppMode::TunnelHostPicker,
        Overlay::SessionPicker => AppMode::SessionPicker,
        Overlay::PushKeyHostPicker => AppMode::PushKeyHostPicker,
        Overlay::PushKeyIdentityPicker => AppMode::PushKeyIdentityPicker,
        Overlay::ConfirmDiscard => AppMode::ConfirmDiscard,
        Overlay::ConfirmDelete => AppMode::ConfirmDelete,
        Overlay::Help => AppMode::Help,
        Overlay::KeybindEditor => AppMode::KeybindEditor,
        Overlay::Settings => AppMode::Settings,
        Overlay::TunnelReconnectSettings => AppMode::TunnelReconnectSettings,
        Overlay::ConfirmQuit => AppMode::ConfirmQuit,
        Overlay::ImportPrompt => AppMode::ImportPrompt,
        Overlay::SftpPrompt => AppMode::SftpPrompt,
        Overlay::BroadcastPickTarget => AppMode::BroadcastPickTarget,
        Overlay::BroadcastCommand => AppMode::BroadcastCommand,
        Overlay::BroadcastPreview => AppMode::BroadcastPreview,
        Overlay::Notice => AppMode::Notice,
    }
}

/// The frontmost popup is the one that the mode belongs to.
pub proof fn law_frontmost_popup_is_the_modes_own(mode: AppMode, forms: OpenForms)
    requires
        draws_popup(mode),
    ensures
        mode_of(overlays_of(mode, forms).last()) == mode,
{
}

/// Every form has the mode in which it is filled in, and is in front there.
pub proof fn law_forms_are_in_front(forms: OpenForms)
    ensures
        overlays_of(AppMode::HostForm, forms).last() == Overlay::Form(FormKind::Host),
        overlays_of(AppMode::IdentityForm, forms).last() == Overlay::Form(FormKind::Identity),
        overlays_of(AppMode::KeygenForm, forms).last() == Overlay::Form(FormKind::Keygen),
        overlays_of(AppMode::GroupForm, forms).last() == Overlay::Form(FormKind::Group),
{
}

/// Two modes never show the same popup in front.
pub proof fn law_modes_differ_in_front(
    mode: AppMode,
    forms: OpenForms,
    other: AppMode,
    others: OpenForms,
)
    requires
        draws_popup(mode),
        draws_popup(other),
        mode != other,
    ensures
        overlays_of(mode, forms).last() != overlays_of(other, others).last(),
{
    law_frontmost_popup_is_the_modes_own(mode, forms);
    law_frontmost_popup_is_the_modes_own(other, others);
}

/// What is behind a popup: behind a picker the form that it fills in, as it is drawn by
/// itself; behind the question about changes the form that holds them; behind the form
/// of a group the list that it was opened from; behind any other nothing.
pub proof fn law_popup_keeps_what_it_covers(mode: AppMode, forms: OpenForms)
    requires
        draws_popup(mode),
    ensures
        ({
            let behind = overlays_of(mode, forms).drop_last();
            if mode == AppMode::FieldPicker {
                behind == overlays_of(AppMode::HostForm, forms)
            } else if mode == AppMode::GroupFieldPicker {
                behind == overlays_of(AppMode::GroupForm, forms)
            } else if mode == AppMode::TunnelHostPicker {
                behind == overlays_of(AppMode::TunnelForm, forms)
            } else if mode == AppMode::GroupForm && forms.group_from_list {
                behind == overlays_of(AppMode::GroupManage, forms)
            } else if mode == AppMode::ConfirmDiscard && forms.host {
                behind == overlays_of(AppMode::HostForm, forms)
            } else if mode == AppMode::ConfirmDiscard && forms.identity {
                behind == overlays_of(AppMode::IdentityForm, forms)
            } else if mode == AppMode::ConfirmDiscard && forms.tunnel {
                behind == overlays_of(AppMode::TunnelForm, forms)
            } else {
                behind.len() == 0
            }
        }),
{
    let behind = overlays_of(mode, forms).drop_last();
    assert(mode == AppMode::FieldPicker ==> behind =~= overlays_of(AppMode::HostForm, forms));
    assert(mode == AppMode::GroupFieldPicker ==> behind =~= overlays_of(
        AppMode::GroupForm,
        forms,
    ));
    assert(mode == AppMode::TunnelHostPicker ==> behind =~= overlays_of(
        AppMode::TunnelForm,
        forms,
    ));
    assert(mode == AppMode::GroupForm ==> behind =~= group_list_behind(forms));
    assert(mode == AppMode::ConfirmDiscard ==> behind =~= form_behind(forms));
}

/// Something is drawn over the dashboard in exactly the modes that say so.
pub proof fn law_overlay_modes(mode: AppMode, forms: OpenForms)
    ensures
        draws_popup(mode) <==> overlays_of(mode, forms).len() > 0,
        draws_popup(mode) <==> mode != AppMode::Normal && mode != AppMode::Connecting && mode
            != AppMode::Session,
{
}

// ---------------------------------------------------------------------------
// The screen

/// What the screen depends on.
#[derive(Debug)]
pub struct ScreenState {
    pub mode: AppMode,
    /// The picker of sessions was opened from a session.
    pub picker_from_session: bool,
    /// Surfaces move rather than jump.
    pub motion_enabled: bool,
    pub active_tab: usize,
    /// The body is sliding from one tab to another.
    pub tab_sliding: bool,
    /// A command is being sent to several hosts.
    pub broadcast: bool,
    /// Errors of such a command are being shown.
    pub broadcast_toasts: bool,
    pub panel_zoomed: bool,
    pub focused_panel: PanelId,
    /// There is something to tell the user.
    pub notice: bool,
    pub forms: OpenForms,
}

/// A step in drawing the screen.
#[derive(Debug, Clone, Copy, PartialEq, Eq, Structural)]
pub enum DrawStep {
    /// The session that takes the whole screen.
    Session,
    /// The slide of a session that is coming in.
    SessionEnter,
    /// The slide from one session to another.
    SessionTabSlide,
    /// What is on the screen is kept, to be restored where a popup moves.
    KeepBackdrop,
    Header,
    SessionStrip,
    /// A line over a whole row, a heavy one or not.
    Rule { row: Rect, heavy: bool },
    TabBar,
    TabBody(usize),
    TabSlide,
    BroadcastZoomed,
    BroadcastPanel { focused: bool },
    BroadcastToasts,
    Footer,
    ZoomToast,
    Overlay(Overlay),
}

/// Whether a session is on the screen, alone or behind the picker of sessions.
pub open spec fn shows_session(s: ScreenState) -> bool {
    session_fills(s.mode) || (s.mode == AppMode::SessionPicker && s.picker_from_session)
}

/// The steps in drawing a session.
pub open spec fn session_steps(s: ScreenState) -> Seq<DrawStep> {
    seq![DrawStep::Session] + (if s.mode == AppMode::SessionPicker {
        (if s.motion_enabled {
            seq![DrawStep::KeepBackdrop]
        } else {
            Seq::empty()
        }) + seq![DrawStep::Overlay(Overlay::SessionPicker)]
    } else {
        seq![DrawStep::SessionEnter, DrawStep::SessionTabSlide]
    })
}

/// The steps in drawing the frame of the dashboard and its body.
pub open spec fn chrome_steps(s: ScreenState, area: Rect, areas: DashboardAreas) -> Seq<DrawStep> {
    seq![
        DrawStep::Header,
        DrawStep::SessionStrip,
        DrawStep::Rule {
            row: row_of(area, areas.header.y + areas.header.height),
            heavy: false,
        },
        DrawStep::TabBar,
        DrawStep::Rule {
            row: row_of(area, areas.tab_bar.y + areas.tab_bar.height),
            heavy: false,
        },
        if s.tab_sliding {
            DrawStep::TabSlide
        } else {
            DrawStep::TabBody(s.active_tab)
        },
    ]
}

/// The steps in drawing a command for several hosts, which floats over the body.
pub open spec fn broadcast_steps(s: ScreenState) -> Seq<DrawStep> {
    (if s.broadcast {
        let focused = s.focused_panel == PanelId::Broadcast;
        if s.panel_zoomed && focused {
            seq![DrawStep::BroadcastZoomed]
        } else {
            seq![DrawStep::BroadcastPanel { focused }]
        }
    } else {
        Seq::empty()
    }) + (if s.broadcast_toasts {
        seq![DrawStep::BroadcastToasts]
    } else {
        Seq::empty()
    })
}

/// The steps in drawing the footer. A zoomed panel hides where notices usually stand.
pub open spec fn footer_steps(s: ScreenState, area: Rect, areas: DashboardAreas) -> Seq<DrawStep> {
    seq![
        DrawStep::Rule { row: row_of(area, floored(areas.footer.y as int, 1)), heavy: true },
        DrawStep::Footer,
    ] + (if s.panel_zoomed && s.notice {
        seq![DrawStep::ZoomToast]
    } else {
        Seq::empty()
    })
}

/// The steps in drawing what is over the dashboard.
pub open spec fn overlay_steps(s: ScreenState) -> Seq<DrawStep> {
    (if s.motion_enabled && draws_popup(s.mode) {
        seq![DrawStep::KeepBackdrop]
    } else {
        Seq::empty()
    }) + overlays_of(s.mode, s.forms).map_values(|o: Overlay| DrawStep::Overlay(o))
}

/// The steps in drawing the screen, in order.
pub open spec fn screen_steps(s: ScreenState, area: Rect, areas: DashboardAreas) -> Seq<DrawStep> {
    if shows_session(s) {
        session_steps(s)
    } else {
        chrome_steps(s, area, areas) + broadcast_steps(s) + footer_steps(s, area, areas)
            + overlay_steps(s)
    }
}

fn list_session(s: &ScreenState) -> (r: Vec<DrawStep>)
    ensures
        r@ == session_steps(*s),
{
    let mut v: Vec<DrawStep> = Vec::new();
    v.push(DrawStep::Session);
    if s.mode == AppMode::SessionPicker {
        if s.motion_enabled {
            v.push(DrawStep::KeepBackdrop);
        }
        v.push(DrawStep::Overlay(Overlay::SessionPicker));
    } else {
        v.push(DrawStep::SessionEnter);
        v.push(DrawStep::SessionTabSlide);
    }
    assert(v@ =~= session_steps(*s));
    v
}

fn list_chrome(s: &ScreenState, area: Rect, areas: &DashboardAreas) -> (r: Vec<DrawStep>)
    requires
        area.fits(),
        areas.header.fits(),
        areas.tab_bar.fits(),
    ensures
        r@ == chrome_steps(*s, area, *areas),
{
    let mut v: Vec<DrawStep> = Vec::new();
    v.push(DrawStep::Header);
    v.push(DrawStep::SessionStrip);
    v.push(
        DrawStep::Rule {
            row: row_in(area, areas.header.y + areas.header.height),
            heavy: false,
        },
    );
    v.push(DrawStep::TabBar);
    v.push(
        DrawStep::Rule {
            row: row_in(area, areas.tab_bar.y + areas.tab_bar.height),
            heavy: false,
        },
    );
    if s.tab_sliding {
        v.push(DrawStep::TabSlide);
    } else {
        v.push(DrawStep::TabBody(s.active_tab));
    }
    assert(v@ =~= chrome_steps(*s, area, *areas));
    v
}

fn list_broadcast(s: &ScreenState) -> (r: Vec<DrawStep>)
    ensures
        r@ == broadcast_steps(*s),
{
    let mut v: Vec<DrawStep> = Vec::new();
    if s.broadcast {
        let focused: bool = s.focused_panel == PanelId::Broadcast;
        if s.panel_zoomed && focused {
            v.push(DrawStep::BroadcastZoomed);
        } else {
            v.push(DrawStep::BroadcastPanel { focused });
        }
    }
    if s.broadcast_toasts {
        v.push(DrawStep::BroadcastToasts);
    }
    assert(v@ =~= broadcast_steps(*s));
    v
}

fn list_footer(s: &ScreenState, area: Rect, areas: &DashboardAreas) -> (r: Vec<DrawStep>)
    requires
        area.fits(),
    ensures
        r@ == footer_steps(*s, area, *areas),
{
    let mut v: Vec<DrawStep> = Vec::new();
    v.push(
        DrawStep::Rule { row: row_in(area, areas.footer.y.saturating_sub(1)), heavy: true },
    );
    v.push(DrawStep::Footer);
    if s.panel_zoomed && s.notice {
        v.push(DrawStep::ZoomToast);
    }
    assert(v@ =~= footer_steps(*s, area, *areas));
    v
}

fn list_overlay_steps(s: &ScreenState) -> (r: Vec<DrawStep>)
    ensures
        r@ == overlay_steps(*s),
{
    let mut v: Vec<DrawStep> = Vec::new();
    if s.motion_enabled && is_overlay_mode(s.mode) {
        v.push(DrawStep::KeepBackdrop);
    }
    let ghost kept = v@;
    let overlays = list_overlays(s.mode, s.forms);
    let mut i: usize = 0;
    let ghost mapped = overlays@.map_values(|o: Overlay| DrawStep::Overlay(o));
    assert(v@ =~= kept + mapped.take(0));
    while i < overlays.len()
        invariant
            i <= overlays@.len(),
            mapped == overlays@.map_values(|o: Overlay| DrawStep::Overlay(o)),
            v@ == kept + mapped.take(i as int),
        decreases overlays@.len() - i,
    {
        v.push(DrawStep::Overlay(overlays[i]));
        assert(v@ =~= kept + mapped.take(i + 1));
        i = i + 1;
    }
    assert(mapped.take(i as int) =~= mapped);
    assert(v@ =~= overlay_steps(*s));
    v
}

/// Lay out the steps in drawing the screen. A session takes the whole of it: nothing
/// of the dashboard is drawn.
pub fn render_inner(s: &ScreenState, area: Rect, areas: &DashboardAreas) -> (r: Vec<DrawStep>)
    requires
        area.fits(),
        areas.header.fits(),
        areas.tab_bar.fits(),
    ensures
        r@ == screen_steps(*s, area, *areas),
{
    if s.mode == AppMode::Connecting || s.mode == AppMode::Session || (s.mode
        == AppMode::SessionPicker && s.picker_from_session) {
        return list_session(s);
    }
    let mut v = list_chrome(s, area, areas);
    let mut broadcast = list_broadcast(s);
    let mut footer = list_footer(s, area, areas);
    let mut overlays = list_overlay_steps(s);
    v.append(&mut broadcast);
    v.append(&mut footer);
    v.append(&mut overlays);
    v
}

/// What is over the dashboard is drawn last, with what is behind it kept before that:
/// no step after the first overlay draws anything else.
pub proof fn law_overlays_are_last(
    s: ScreenState,
    area: Rect,
    areas: DashboardAreas,
    i: int,
    j: int,
)
    requires
        0 <= i <= j < screen_steps(s, area, areas).len(),
        screen_steps(s, area, areas)[i] is Overlay,
    ensures
        screen_steps(s, area, areas)[j] is Overlay,
{
    let steps = screen_steps(s, area, areas);
    if !shows_session(s) {
        let under = chrome_steps(s, area, areas) + broadcast_steps(s) + footer_steps(
            s,
            area,
            areas,
        );
        let over = overlay_steps(s);
        assert(steps == under + over);
        assert forall|k: int| 0 <= k < under.len() implies !(#[trigger] under[k] is Overlay) by {
            let c = chrome_steps(s, area, areas);
            let b = broadcast_steps(s);
            if k < c.len() {
                assert(under[k] == c[k]);
            } else if k < c.len() + b.len() {
                assert(under[k] == b[k - c.len()]);
            } else {
                assert(under[k] == footer_steps(s, area, areas)[k - c.len() - b.len()]);
            }
        }
        assert(i >= under.len());
        assert(steps[i] == over[i - under.len()]);
        assert(steps[j] == over[j - under.len()]);
    }
}

/// Whether the dashboard, where it is drawn, has a step.
pub open spec fn belongs(s: ScreenState, step: DrawStep) -> bool {
    match step {
        DrawStep::Header | DrawStep::SessionStrip | DrawStep::TabBar | DrawStep::Footer => true,
        DrawStep::TabBody(tab) => !s.tab_sliding && tab == s.active_tab,
        DrawStep::TabSlide => s.tab_sliding,
        DrawStep::BroadcastZoomed => s.broadcast && s.panel_zoomed && s.focused_panel
            == PanelId::Broadcast,
        DrawStep::BroadcastPanel { focused } => s.broadcast && focused == (s.focused_panel
            == PanelId::Broadcast) && !(focused && s.panel_zoomed),
        DrawStep::BroadcastToasts => s.broadcast_toasts,
        DrawStep::ZoomToast => s.panel_zoomed && s.notice,
        DrawStep::KeepBackdrop => s.motion_enabled && s.mode != AppMode::Normal,
        DrawStep::Overlay(o) => overlays_of(s.mode, s.forms).contains(o),
        DrawStep::Session | DrawStep::SessionEnter | DrawStep::SessionTabSlide => false,
        DrawStep::Rule { row, heavy } => true,
    }
}

/// How far to the front a step of the dashboard draws.
pub open spec fn depth(step: DrawStep) -> int {
    match step {
        DrawStep::Header => 0,
        DrawStep::SessionStrip => 1,
        DrawStep::TabBar => 2,
        DrawStep::TabBody(_) | DrawStep::TabSlide => 3,
        DrawStep::BroadcastZoomed | DrawStep::BroadcastPanel { .. } => 4,
        DrawStep::BroadcastToasts => 5,
        DrawStep::Footer => 7,
        DrawStep::ZoomToast => 8,
        DrawStep::KeepBackdrop => 9,
        DrawStep::Overlay(_) => 10,
        DrawStep::Rule { row, heavy } => 6,
        DrawStep::Session | DrawStep::SessionEnter | DrawStep::SessionTabSlide => 11,
    }
}

/// Which part of the drawing a step of the dashboard comes from.
spec fn part_at(
    s: ScreenState,
    area: Rect,
    areas: DashboardAreas,
    i: int,
) -> (int, int) {
    let c = chrome_steps(s, area, areas).len();
    let b = broadcast_steps(s).len();
    let f = footer_steps(s, area, areas).len();
    if i < c {
        (0, i)
    } else if i < c + b {
        (1, i - c)
    } else if i < c + b + f {
        (2, i - c - b)
    } else {
        (3, i - c - b - f)
    }
}

proof fn lemma_dashboard_parts(s: ScreenState, area: Rect, areas: DashboardAreas, i: int)
    requires
        !shows_session(s),
        0 <= i < screen_steps(s, area, areas).len(),
    ensures
        ({
            let step = screen_steps(s, area, areas)[i];
            let (part, k) = part_at(s, area, areas, i);
            &&& (part == 0 ==> step == chrome_steps(s, area, areas)[k] && 0 <= k < 6 && i == k)
            &&& (part == 1 ==> step == broadcast_steps(s)[k] && 0 <= k < broadcast_steps(s).len())
            &&& (part == 2 ==> step == footer_steps(s, area, areas)[k] && 0 <= k < footer_steps(
                s,
                area,
                areas,
            ).len())
            &&& (part == 3 ==> step == overlay_steps(s)[k] && 0 <= k < overlay_steps(s).len())
            &&& 0 <= part <= 3
        }),
{
}

proof fn lemma_overlay_steps(s: ScreenState, k: int)
    requires
        0 <= k < overlay_steps(s).len(),
    ensures
        ({
            let shown = overlays_of(s.mode, s.forms);
            let kept = s.motion_enabled && s.mode != AppMode::Normal && !session_fills(s.mode);
            if kept && k == 0 {
                overlay_steps(s)[k] == DrawStep::KeepBackdrop
            } else {
                let at = if kept {
                    k - 1
                } else {
                    k
                };
                0 <= at < shown.len() && overlay_steps(s)[k] == DrawStep::Overlay(shown[at])
            }
        }),
{
}

/// The dashboard has no step that does not belong to it.
pub proof fn law_dashboard_has_nothing_else(
    s: ScreenState,
    area: Rect,
    areas: DashboardAreas,
    i: int,
)
    requires
        !session_fills(s.mode),
        s.mode == AppMode::SessionPicker ==> !s.picker_from_session,
        0 <= i < screen_steps(s, area, areas).len(),
    ensures
        belongs(s, screen_steps(s, area, areas)[i]),
{
    lemma_dashboard_parts(s, area, areas, i);
    let (part, k) = part_at(s, area, areas, i);
    if part == 3 {
        lemma_overlay_steps(s, k);
    }
}

/// The dashboard has every step that belongs to it. Its lines are stated by
/// [`law_dashboard_lines`].
pub proof fn law_dashboard_has_everything(
    s: ScreenState,
    area: Rect,
    areas: DashboardAreas,
    d: DrawStep,
)
    requires
        !session_fills(s.mode),
        s.mode == AppMode::SessionPicker ==> !s.picker_from_session,
        belongs(s, d),
        !(d is Rule),
    ensures
        screen_steps(s, area, areas).contains(d),
{
    let steps = screen_steps(s, area, areas);
    let shown = overlays_of(s.mode, s.forms);
    let c = chrome_steps(s, area, areas).len() as int;
    let b = broadcast_steps(s).len() as int;
    let f = footer_steps(s, area, areas).len() as int;
    let kept: int = if s.motion_enabled && s.mode != AppMode::Normal {
        1
    } else {
        0
    };
    let at: int = match d {
        DrawStep::Header => 0,
        DrawStep::SessionStrip => 1,
        DrawStep::TabBar => 3,
        DrawStep::TabBody(_) | DrawStep::TabSlide => 5,
        DrawStep::BroadcastZoomed | DrawStep::BroadcastPanel { .. } => c,
        DrawStep::BroadcastToasts => c + b - 1,
        DrawStep::Footer => c + b + 1,
        DrawStep::ZoomToast => c + b + 2,
        DrawStep::KeepBackdrop => c + b + f,
        DrawStep::Overlay(o) => c + b + f + kept + choose|k: int|
            0 <= k < shown.len() && shown[k] == o,
        _ => 0,
    };
    if d is KeepBackdrop {
        lemma_overlay_steps(s, 0);
    } else if d is Overlay {
        let o = d->Overlay_0;
        let k = choose|k: int| 0 <= k < shown.len() && shown[k] == o;
        lemma_overlay_steps(s, kept + k);
    }
    lemma_dashboard_parts(s, area, areas, at);
    assert(steps[at] == d);
}

proof fn lemma_depth(s: ScreenState, area: Rect, areas: DashboardAreas, i: int)
    requires
        !shows_session(s),
        !session_fills(s.mode),
        0 <= i < screen_steps(s, area, areas).len(),
        i != 2 && i != 4,
    ensures
        ({
            let step = screen_steps(s, area, areas)[i];
            let (part, k) = part_at(s, area, areas, i);
            &&& 0 <= part <= 3 && k >= 0
            &&& (part == 0 ==> i == k && k < 6 && depth(step) == (k + 1) / 2)
            &&& (part == 1 ==> k <= 1 && 4 <= depth(step) <= 5 && (k == 1 ==> depth(step) == 5)
                && (k == 0 && broadcast_steps(s).len() == 2 ==> depth(step) == 4))
            &&& (part == 1 ==> k < broadcast_steps(s).len() <= 2)
            &&& (part == 2 ==> depth(step) == 6 + k && k <= 2)
            &&& (part == 3 ==> (depth(step) == 10 && step is Overlay) || (k == 0 && depth(step)
                == 9))
        }),
{
    lemma_dashboard_parts(s, area, areas, i);
    let (part, k) = part_at(s, area, areas, i);
    if part == 3 {
        lemma_overlay_steps(s, k);
    }
}

/// What is further to the front is drawn later, and nothing but a popup shares its depth
/// with another step; the two light lines stand between the header and the body.
pub proof fn law_dashboard_is_drawn_back_to_front(
    s: ScreenState,
    area: Rect,
    areas: DashboardAreas,
    i: int,
    j: int,
)
    requires
        !session_fills(s.mode),
        s.mode == AppMode::SessionPicker ==> !s.picker_from_session,
        0 <= i < j < screen_steps(s, area, areas).len(),
        i != 2 && i != 4 && j != 2 && j != 4,
    ensures
        ({
            let a = screen_steps(s, area, areas)[i];
            let b = screen_steps(s, area, areas)[j];
            depth(a) < depth(b) || (a is Overlay && b is Overlay)
        }),
{
    lemma_depth(s, area, areas, i);
    lemma_depth(s, area, areas, j);
}

/// A line stands under the header and one under the tabs, and a heavy one over the
/// footer, each on its own row where the screen has it.
pub proof fn law_dashboard_lines(s: ScreenState, area: Rect, areas: DashboardAreas, i: int)
    requires
        !session_fills(s.mode),
        s.mode == AppMode::SessionPicker ==> !s.picker_from_session,
        0 <= i < screen_steps(s, area, areas).len(),
    ensures
        ({
            let step = screen_steps(s, area, areas)[i];
            let y = if i == 2 {
                areas.header.y + areas.header.height
            } else if i == 4 {
                areas.tab_bar.y + areas.tab_bar.height
            } else if areas.footer.y > 0 {
                areas.footer.y - 1
            } else {
                0
            };
            &&& (i == 2 || i == 4 ==> step is Rule)
            &&& (step is Rule ==> step->row == row_of(area, y) && step->heavy == (i != 2 && i
                != 4))
            &&& (step is Footer ==> screen_steps(s, area, areas)[i - 1] is Rule)
        }),
{
    lemma_dashboard_parts(s, area, areas, i);
    let (part, k) = part_at(s, area, areas, i);
    if part == 3 {
        lemma_overlay_steps(s, k);
    }
    if i > 0 {
        lemma_dashboard_parts(s, area, areas, i - 1);
    }
}

/// A popup that is drawn over the dashboard is drawn once, over what it covers.
pub proof fn law_popups_are_drawn_in_order(s: ScreenState, area: Rect, areas: DashboardAreas)
    requires
        !session_fills(s.mode),
        s.mode == AppMode::SessionPicker ==> !s.picker_from_session,
    ensures
        ({
            let steps = screen_steps(s, area, areas);
            let shown = overlays_of(s.mode, s.forms);
            let n = steps.len() - shown.len();
            &&& n >= 0
            &&& forall|k: int|
                0 <= k < shown.len() ==> #[trigger] steps[n + k] == DrawStep::Overlay(shown[k])
            &&& forall|k: int| 0 <= k < n ==> !(#[trigger] steps[k] is Overlay)
            &&& (s.motion_enabled && shown.len() > 0 ==> steps[n - 1] == DrawStep::KeepBackdrop)
        }),
{
    let steps = screen_steps(s, area, areas);
    let shown = overlays_of(s.mode, s.forms);
    let n = steps.len() - shown.len();
    let c = chrome_steps(s, area, areas);
    let b = broadcast_steps(s);
    let f = footer_steps(s, area, areas);
    let o = overlay_steps(s);
    law_overlay_modes(s.mode, s.forms);
    assert(steps == c + b + f + o);
    assert forall|k: int| 0 <= k < n implies !(#[trigger] steps[k] is Overlay) by {
        if k < c.len() {
            assert(steps[k] == c[k]);
        } else if k < c.len() + b.len() {
            assert(steps[k] == b[k - c.len()]);
        } else if k < c.len() + b.len() + f.len() {
            assert(steps[k] == f[k - c.len() - b.len()]);
        } else {
            assert(steps[k] == o[k - c.len() - b.len() - f.len()]);
        }
    }
}

/// A session that is shown is drawn first. Behind the picker of sessions nothing but the
/// picker follows, and otherwise its slides do.
pub proof fn law_session_is_drawn_alone(s: ScreenState, area: Rect, areas: DashboardAreas)
    ensures
        ({
            let steps = screen_steps(s, area, areas);
            let picker = s.mode == AppMode::SessionPicker && s.picker_from_session;
            let alone = s.mode == AppMode::Connecting || s.mode == AppMode::Session;
            &&& (alone || picker <==> steps[0] == DrawStep::Session)
            &&& (alone ==> steps.len() == 3 && steps[1] == DrawStep::SessionEnter && steps[2]
                == DrawStep::SessionTabSlide)
            &&& (picker ==> steps.last() == DrawStep::Overlay(Overlay::SessionPicker)
                && steps.len() == (if s.motion_enabled {
                3int
            } else {
                2int
            }))
            &&& (picker && s.motion_enabled ==> steps[1] == DrawStep::KeepBackdrop)
        }),
{
}

/// While a session takes the screen, nothing of the dashboard is drawn.
pub proof fn law_session_owns_the_screen(
    s: ScreenState,
    area: Rect,
    areas: DashboardAreas,
    i: int,
)
    requires
        session_fills(s.mode),
        0 <= i < screen_steps(s, area, areas).len(),
    ensures
        ({
            let step = screen_steps(s, area, areas)[i];
            step == DrawStep::Session || step == DrawStep::SessionEnter || step
                == DrawStep::SessionTabSlide
        }),
{
}

// ---------------------------------------------------------------------------
// The frame

/// What a frame depends on besides its screen.
#[derive(Debug)]
pub struct FrameState {
    pub mode: AppMode,
    /// The slide from one session to another is playing.
    pub session_switching: bool,
    /// A session is on its way off the screen.
    pub session_leaving: bool,
    /// A popup is on its way to its place.
    pub popup_opening: bool,
    /// A popup is on its way off the screen.
    pub popup_closing: bool,
    pub opaque_background: bool,
    pub panel_zoomed: bool,
    /// The dashboard is fading in over the splash.
    pub fading_in: bool,
}

/// A step in making a frame.
#[derive(Debug, Clone, Copy, PartialEq, Eq, Structural)]
pub enum FrameStep {
    /// No popup was drawn yet.
    ForgetPopup,
    Screen,
    /// The session is kept, to be moved when it is left.
    KeepSession,
    /// The dashboard is kept, to be shown under a session that comes in.
    KeepDashboard,
    SlideSessionOut,
    /// The popup is kept, to be moved.
    KeepPopup,
    DropPopup,
    LiftPopup,
    SolidBackground,
    Selection,
    FadeIn,
}

/// The steps of a list that are made.
pub open spec fn made(list: Seq<(bool, FrameStep)>) -> Seq<FrameStep>
    decreases list.len(),
{
    if list.len() == 0 {
        Seq::empty()
    } else if list.last().0 {
        made(list.drop_last()).push(list.last().1)
    } else {
        made(list.drop_last())
    }
}

/// Every step in making a frame, in order, and whether it is made. A session is not
/// kept while it slides to another: what was kept is the one that is being left.
pub open spec fn possible_steps(s: FrameState) -> Seq<(bool, FrameStep)> {
    let session = session_fills(s.mode);
    seq![
        (true, FrameStep::ForgetPopup),
        (true, FrameStep::Screen),
        (session && !s.session_switching, FrameStep::KeepSession),
        (!session, FrameStep::KeepDashboard),
        (!session && s.session_leaving, FrameStep::SlideSessionOut),
        (draws_popup(s.mode), FrameStep::KeepPopup),
        (draws_popup(s.mode) && s.popup_opening, FrameStep::DropPopup),
        (s.popup_closing, FrameStep::LiftPopup),
        (s.opaque_background, FrameStep::SolidBackground),
        (s.panel_zoomed, FrameStep::Selection),
        (s.fading_in, FrameStep::FadeIn),
    ]
}

/// The steps in making a frame, in order.
pub open spec fn frame_steps(s: FrameState) -> Seq<FrameStep> {
    made(possible_steps(s))
}

/// Lay out the steps in making a frame.
pub fn render(s: &FrameState) -> (r: Vec<FrameStep>)
    ensures
        r@ == frame_steps(*s),
{
    let session: bool = s.mode == AppMode::Connecting || s.mode == AppMode::Session;
    let popup: bool = is_overlay_mode(s.mode);
    let mut list: Vec<(bool, FrameStep)> = Vec::new();
    list.push((true, FrameStep::ForgetPopup));
    list.push((true, FrameStep::Screen));
    list.push((session && !s.session_switching, FrameStep::KeepSession));
    list.push((!session, FrameStep::KeepDashboard));
    list.push((!session && s.session_leaving, FrameStep::SlideSessionOut));
    list.push((popup, FrameStep::KeepPopup));
    list.push((popup && s.popup_opening, FrameStep::DropPopup));
    list.push((s.popup_closing, FrameStep::LiftPopup));
    list.push((s.opaque_background, FrameStep::SolidBackground));
    list.push((s.panel_zoomed, FrameStep::Selection));
    list.push((s.fading_in, FrameStep::FadeIn));
    assert(list@ =~= possible_steps(*s));
    let mut v: Vec<FrameStep> = Vec::new();
    let mut i: usize = 0;
    while i < list.len()
        invariant
            i <= list@.len(),
            v@ == made(list@.take(i as int)),
        decreases list@.len() - i,
    {
        assert(list@.take(i + 1).drop_last() =~= list@.take(i as int));
        let (wanted, step) = list[i];
        if wanted {
            v.push(step);
        }
        i = i + 1;
    }
    assert(list@.take(i as int) =~= list@);
    v
}

/// The place of a step in the order.
pub open spec fn rank(step: FrameStep) -> int {
    match step {
        FrameStep::ForgetPopup => 0,
        FrameStep::Screen => 1,
        FrameStep::KeepSession => 2,
        FrameStep::KeepDashboard => 3,
        FrameStep::SlideSessionOut => 4,
        FrameStep::KeepPopup => 5,
        FrameStep::DropPopup => 6,
        FrameStep::LiftPopup => 7,
        FrameStep::SolidBackground => 8,
        FrameStep::Selection => 9,
        FrameStep::FadeIn => 10,
    }
}

/// What is made of a list comes from the list.
proof fn lemma_made_from(list: Seq<(bool, FrameStep)>, i: int) -> (at: int)
    requires
        0 <= i < made(list).len(),
    ensures
        0 <= at < list.len(),
        list[at] == (true, made(list)[i]),
    decreases list.len(),
{
    if list.last().0 && i == made(list.drop_last()).len() {
        list.len() - 1
    } else {
        lemma_made_from(list.drop_last(), i)
    }
}

proof fn lemma_made_in_order(list: Seq<(bool, FrameStep)>, i: int, j: int)
    requires
        forall|a: int, b: int|
            0 <= a < b < list.len() ==> rank(#[trigger] list[a].1) < rank(#[trigger] list[b].1),
        0 <= i < j < made(list).len(),
    ensures
        rank(made(list)[i]) < rank(made(list)[j]),
    decreases list.len(),
{
    let rest = list.drop_last();
    if list.last().0 && j == made(rest).len() {
        let at = lemma_made_from(rest, i);
        assert(rank(list[at].1) < rank(list[list.len() - 1].1));
    } else {
        assert forall|a: int, b: int| 0 <= a < b < rest.len() implies rank(#[trigger] rest[a].1)
            < rank(#[trigger] rest[b].1) by {
            assert(rank(list[a].1) < rank(list[b].1));
        }
        lemma_made_in_order(rest, i, j);
    }
}

/// The steps of a frame are always made in the same order, each once at most. So the
/// solid background is painted after everything that is drawn or moved, and only the
/// selection and the fade come after it.
pub proof fn law_frame_order(s: FrameState, i: int, j: int)
    requires
        0 <= i < j < frame_steps(s).len(),
    ensures
        rank(frame_steps(s)[i]) < rank(frame_steps(s)[j]),
        frame_steps(s)[i] == FrameStep::SolidBackground ==> frame_steps(s)[j]
            == FrameStep::Selection || frame_steps(s)[j] == FrameStep::FadeIn,
{
    lemma_made_in_order(possible_steps(s), i, j);
}

/// Whether a frame has a step.
pub open spec fn needed(s: FrameState, step: FrameStep) -> bool {
    let session = s.mode == AppMode::Connecting || s.mode == AppMode::Session;
    let popup = !session && s.mode != AppMode::Normal;
    match step {
        FrameStep::ForgetPopup | FrameStep::Screen => true,
        FrameStep::KeepSession => session && !s.session_switching,
        FrameStep::KeepDashboard => !session,
        FrameStep::SlideSessionOut => !session && s.session_leaving,
        FrameStep::KeepPopup => popup,
        FrameStep::DropPopup => popup && s.popup_opening,
        FrameStep::LiftPopup => s.popup_closing,
        FrameStep::SolidBackground => s.opaque_background,
        FrameStep::Selection => s.panel_zoomed,
        FrameStep::FadeIn => s.fading_in,
    }
}

/// A frame has exactly the steps that it needs: a session or the dashboard is kept for a
/// later move, what is moving is moved, and the background, the selection and the fade
/// follow where they are on.
pub proof fn law_frame_has_what_it_needs(s: FrameState, step: FrameStep)
    ensures
        frame_steps(s).contains(step) <==> needed(s, step),
{
    let list = possible_steps(s);
    if frame_steps(s).contains(step) {
        let i = choose|i: int| 0 <= i < frame_steps(s).len() && frame_steps(s)[i] == step;
        let at = lemma_made_from(list, i);
        assert(list[at] == (true, step));
    }
    if needed(s, step) {
        let at = rank(step);
        assert(list[at] == (true, step));
        lemma_made_holds(list, at);
    }
}

proof fn lemma_made_holds(list: Seq<(bool, FrameStep)>, at: int)
    requires
        0 <= at < list.len(),
        list[at].0,
    ensures
        made(list).contains(list[at].1),
    decreases list.len(),
{
    let rest = list.drop_last();
    if at < list.len() - 1 {
        lemma_made_holds(rest, at);
        let i = choose|i: int| 0 <= i < made(rest).len() && made(rest)[i] == list[at].1;
        assert(made(list)[i] == list[at].1);
    } else {
        assert(made(list).last() == list[at].1);
        assert(made(list)[made(list).len() - 1] == list[at].1);
    }
}

// ---------------------------------------------------------------------------
// The body

/// The bodies of the tabs.
#[derive(Debug, Clone, Copy, PartialEq, Eq, Structural)]
pub enum TabBody {
    Hosts,
    Sftp,
    Tunnels,
    Keys,
    Audit,
}

/// The body of a tab. A number that no tab has stands for the first.
pub open spec fn body_of(tab: int) -> TabBody {
    if tab == 1 {
        TabBody::Sftp
    } else if tab == 2 {
        TabBody::Tunnels
    } else if tab == 3 {
        TabBody::Keys
    } else if tab == 4 {
        TabBody::Audit
    } else {
        TabBody::Hosts
    }
}

/// The body of a tab.
pub fn tab_body(tab: usize) -> (r: TabBody)
    ensures
        r == body_of(tab as int),
{
    if tab == 1 {
        TabBody::Sftp
    } else if tab == 2 {
        TabBody::Tunnels
    } else if tab == 3 {
        TabBody::Keys
    } else if tab == 4 {
        TabBody::Audit
    } else {
        TabBody::Hosts
    }
}

/// The number of the tab that has a body.
pub open spec fn tab_of(body: TabBody) -> int {
    match body {
        TabBody::Hosts => 0,
        TabBody::Sftp => 1,
        TabBody::Tunnels => 2,
        TabBody::Keys => 3,
        TabBody::Audit => 4,
    }
}

/// Every body has a tab of its own, and a number without one shows the hosts.
pub proof fn law_tabs_have_their_bodies(tab: int, body: TabBody)
    ensures
        body_of(tab_of(body)) == body,
        0 <= tab <= 4 ==> tab_of(body_of(tab)) == tab,
        tab < 0 || tab > 4 ==> body_of(tab) == TabBody::Hosts,
{
}

/// A rectangle so many columns to the right, cut off at the largest coordinate.
pub open spec fn moved_right(r: Rect, dx: int) -> Rect {
    Rect::cut(capped(r.x as int, dx), r.y as int, r.width as int, r.height as int)
}

fn move_right(r: Rect, dx: u16) -> (m: Rect)
    ensures
        m == moved_right(r, dx as int),
{
    Rect::new(r.x.saturating_add(dx), r.y, r.width, r.height)
}

/// The dashboard with its body so many columns to the right; the rest stays.
pub open spec fn body_moved(areas: DashboardAreas, dx: int) -> DashboardAreas {
    DashboardAreas {
        body: moved_right(areas.body, dx),
        col_left: moved_right(areas.col_left, dx),
        col_mid: moved_right(areas.col_mid, dx),
        col_right: moved_right(areas.col_right, dx),
        ..areas
    }
}

/// The dashboard with its body so many columns to the right.
pub fn shift_body_areas(areas: &DashboardAreas, dx: u16) -> (r: DashboardAreas)
    ensures
        r == body_moved(*areas, dx as int),
{
    DashboardAreas {
        header: areas.header,
        tab_bar: areas.tab_bar,
        body: move_right(areas.body, dx),
        col_left: move_right(areas.col_left, dx),
        col_mid: move_right(areas.col_mid, dx),
        col_right: move_right(areas.col_right, dx),
        footer: areas.footer,
    }
}

/// The layer of a slide that moves: what is cleared for it, its tab and its areas.
#[derive(Debug, Clone, Copy, PartialEq, Eq, Structural)]
pub struct MovingBody {
    pub clear: Rect,
    pub tab: usize,
    pub areas: DashboardAreas,
}

/// A slide from one tab to another: the tab that stands still, and the one that moves
/// over it, unless it is off the screen.
#[derive(Debug, Clone, Copy, PartialEq, Eq, Structural)]
pub struct TabSlide {
    pub backdrop: usize,
    pub moving: Option<MovingBody>,
}

/// The slide from one tab to another, with the moving one so many columns from its
/// place. To the right the new tab comes in over the old one; to the left the old one
/// goes out and the new one is under it.
pub open spec fn tab_slide(areas: DashboardAreas, from: usize, to: usize, off: int) -> TabSlide {
    TabSlide {
        backdrop: if to > from {
            from
        } else {
            to
        },
        moving: if off < areas.body.width {
            Some(
                MovingBody {
                    clear: Rect::cut(
                        areas.body.x + off,
                        areas.body.y as int,
                        areas.body.width - off,
                        areas.body.height as int,
                    ),
                    tab: if to > from {
                        to
                    } else {
                        from
                    },
                    areas: body_moved(areas, off),
                },
            )
        } else {
            None
        },
    }
}

/// Lay out a slide from one tab to another.
pub fn render_tab_slide(areas: &DashboardAreas, from: usize, to: usize, off: u16) -> (r: TabSlide)
    requires
        areas.body.fits(),
    ensures
        r == tab_slide(*areas, from, to, off as int),
{
    let right: bool = to > from;
    let backdrop: usize = if right {
        from
    } else {
        to
    };
    let top: usize = if right {
        to
    } else {
        from
    };
    if off < areas.body.width {
        let clear = Rect::new(
            areas.body.x + off,
            areas.body.y,
            areas.body.width - off,
            areas.body.height,
        );
        TabSlide {
            backdrop,
            moving: Some(MovingBody { clear, tab: top, areas: shift_body_areas(areas, off) }),
        }
    } else {
        TabSlide { backdrop, moving: None }
    }
}

/// A slide ends on the new tab: to the right when the moving tab has come all the way
/// in, and to the left when it has gone all the way out.
pub proof fn law_tab_slide_ends_on_new(areas: DashboardAreas, from: usize, to: usize)
    requires
        areas.body.fits(),
        areas.body.width > 0,
    ensures
        to > from ==> ({
            let end = tab_slide(areas, from, to, 0);
            end.moving is Some && end.moving->0.tab == to && end.moving->0.clear == areas.body
        }),
        to <= from ==> ({
            let end = tab_slide(areas, from, to, areas.body.width as int);
            end.moving is None && end.backdrop == to
        }),
{
}

/// During a slide both tabs are shown, one standing still and one moving. What moves is
/// `off` columns to the right of its place and reaches to the end of the body; the rest
/// of the dashboard stays.
pub proof fn law_tab_slide_shows_both(areas: DashboardAreas, from: usize, to: usize, off: int)
    requires
        areas.body.fits(),
        areas.col_left.x + areas.col_left.width + off <= u16::MAX,
        areas.col_mid.x + areas.col_mid.width + off <= u16::MAX,
        areas.col_right.x + areas.col_right.width + off <= u16::MAX,
        areas.col_left.fits() && areas.col_mid.fits() && areas.col_right.fits(),
        0 <= off,
    ensures
        ({
            let slide = tab_slide(areas, from, to, off);
            &&& (slide.moving is Some <==> off < areas.body.width)
            &&& (to > from ==> slide.backdrop == from)
            &&& (to <= from ==> slide.backdrop == to)
            &&& (slide.moving is Some ==> {
                let m = slide.moving->0;
                &&& (to > from ==> m.tab == to)
                &&& (to <= from ==> m.tab == from)
                &&& m.clear.x == areas.body.x + off && m.clear.y == areas.body.y
                &&& m.clear.x + m.clear.width == areas.body.x + areas.body.width
                &&& m.clear.height == areas.body.height
                &&& m.areas.header == areas.header && m.areas.tab_bar == areas.tab_bar
                &&& m.areas.footer == areas.footer
                &&& m.areas.body.x == areas.body.x + off && m.areas.body.y == areas.body.y
                &&& m.areas.body.height == areas.body.height
                &&& m.areas.col_left == (Rect {
                    x: (areas.col_left.x + off) as u16,
                    ..areas.col_left
                })
                &&& m.areas.col_mid == (Rect {
                    x: (areas.col_mid.x + off) as u16,
                    ..areas.col_mid
                })
                &&& m.areas.col_right == (Rect {
                    x: (areas.col_right.x + off) as u16,
                    ..areas.col_right
                })
            })
        }),
{
}

/// What is drawn in the body of the hosts.
#[derive(Debug, Clone, Copy, PartialEq, Eq, Structural)]
pub struct HostsBody {
    /// The focused panel has the whole body, and nothing else is drawn.
    pub zoomed: Option<Rect>,
    /// The log of connections, under the middle and right columns.
    pub log: Option<Rect>,
    /// The focused panel, over the others, on its way between its place and the whole
    /// body.
    pub morph: Option<Rect>,
}

/// Where the log of connections stands, if there is room for it.
pub open spec fn log_place(areas: DashboardAreas) -> Option<Rect> {
    let top = areas.col_mid.y + 19;
    let bottom = floored(areas.footer.y as int, 2);
    if bottom > top + 3 {
        Some(
            Rect::cut(
                areas.col_mid.x as int,
                top,
                areas.col_mid.width + 1 + areas.col_right.width,
                bottom - top,
            ),
        )
    } else {
        None
    }
}

/// What is drawn in the body of the hosts. A command for several hosts has no place
/// among the panels, so it is never drawn zoomed here.
pub open spec fn hosts_body(
    areas: DashboardAreas,
    zoomed: bool,
    focused: PanelId,
    morph: Option<Rect>,
) -> HostsBody {
    let grid = focused != PanelId::Broadcast;
    let morphing = if grid {
        morph
    } else {
        None
    };
    if zoomed && morphing is None && grid {
        HostsBody { zoomed: Some(areas.body), log: None, morph: None }
    } else {
        HostsBody { zoomed: None, log: log_place(areas), morph: morphing }
    }
}

/// Lay out the body of the hosts. `morph` is where the focused panel is on its way
/// between its place and the whole body, while it is.
pub fn render_hosts_body(
    areas: &DashboardAreas,
    zoomed: bool,
    focused: PanelId,
    morph: Option<Rect>,
) -> (r: HostsBody)
    requires
        hosts_body(*areas, zoomed, focused, morph).zoomed is None ==> areas.col_mid.y + 22
            <= u16::MAX,
        hosts_body(*areas, zoomed, focused, morph).log is Some ==> areas.col_mid.width + 1
            + areas.col_right.width <= u16::MAX,
    ensures
        r == hosts_body(*areas, zoomed, focused, morph),
{
    let grid: bool = focused != PanelId::Broadcast;
    let morphing: Option<Rect> = if grid {
        morph
    } else {
        None
    };
    if zoomed && morphing.is_none() && grid {
        return HostsBody { zoomed: Some(areas.body), log: None, morph: None };
    }
    let top: u16 = areas.col_mid.y + 19;
    let bottom: u16 = areas.footer.y.saturating_sub(2);
    let log: Option<Rect> = if bottom > top + 3 {
        Some(
            Rect::new(
                areas.col_mid.x,
                top,
                areas.col_mid.width + 1 + areas.col_right.width,
                bottom - top,
            ),
        )
    } else {
        None
    };
    HostsBody { zoomed: None, log, morph: morphing }
}

/// A zoomed panel has the whole body to itself once it has arrived, unless it is a
/// command for several hosts. Otherwise the log of connections stands below the panels
/// of the middle and right columns, from the twentieth row of the body to two rows over
/// the footer, if that is more than three rows, and the panel on its way is over it all.
pub proof fn law_hosts_body_parts(
    areas: DashboardAreas,
    zoomed: bool,
    focused: PanelId,
    morph: Option<Rect>,
)
    requires
        areas.col_mid.y + 22 <= u16::MAX,
        areas.col_mid.x + areas.col_mid.width + 1 + areas.col_right.width <= u16::MAX,
    ensures
        ({
            let b = hosts_body(areas, zoomed, focused, morph);
            let top = areas.col_mid.y + 19;
            &&& (focused == PanelId::Broadcast ==> b.zoomed is None && b.morph is None)
            &&& (focused != PanelId::Broadcast ==> b.morph == morph)
            &&& (b.zoomed is Some <==> zoomed && focused != PanelId::Broadcast && morph is None)
            &&& (b.zoomed is Some ==> b.zoomed->0 == areas.body && b.log is None)
            &&& (b.zoomed is None ==> (b.log is Some <==> areas.footer.y - 2 - top > 3))
            &&& (b.log is Some ==> {
                let log = b.log->0;
                &&& log.x == areas.col_mid.x && log.y == top
                &&& log.y + log.height + 2 == areas.footer.y
                &&& log.width == areas.col_mid.width + 1 + areas.col_right.width
            })
        }),
{
}

/// The heights of the panels in the middle and right columns.
#[derive(Debug, Clone, Copy, PartialEq, Eq, Structural)]
pub struct PanelHeights {
    pub host: u16,
    pub agent: u16,
    pub latency: u16,
    pub recent: u16,
    pub auth: u16,
    pub ping: u16,
}

/// The place of a panel among the others, from which it grows when it is zoomed and
/// to which it shrinks back.
pub open spec fn panel_place(
    areas: DashboardAreas,
    panel: PanelId,
    heights: PanelHeights,
    docked: Rect,
) -> Rect {
    let mid = areas.col_mid;
    let right = areas.col_right;
    match panel {
        PanelId::Hosts => areas.col_left,
        PanelId::Detail => Rect::cut(
            mid.x as int,
            mid.y as int,
            mid.width as int,
            heights.host as int,
        ),
        PanelId::Agent => Rect::cut(
            mid.x as int,
            mid.y + heights.host,
            mid.width as int,
            heights.agent as int,
        ),
        PanelId::Latency => Rect::cut(
            mid.x as int,
            mid.y + heights.host + heights.agent,
            mid.width as int,
            heights.latency as int,
        ),
        PanelId::Recent => Rect::cut(
            right.x as int,
            right.y as int,
            right.width as int,
            heights.recent as int,
        ),
        PanelId::Auth => Rect::cut(
            right.x as int,
            right.y + heights.recent,
            right.width as int,
            heights.auth as int,
        ),
        PanelId::Ping => Rect::cut(
            right.x as int,
            right.y + heights.recent + heights.auth,
            right.width as int,
            heights.ping as int,
        ),
        PanelId::SshLog => Rect::cut(
            mid.x as int,
            mid.y + 19,
            mid.width + 1 + right.width,
            floored(areas.body.height as int, 19),
        ),
        PanelId::Broadcast => docked,
    }
}

/// The place of a panel among the others. A command for several hosts has a place of
/// its own, `docked`.
pub fn panel_zoom_source(
    areas: &DashboardAreas,
    panel: PanelId,
    heights: &PanelHeights,
    docked: Rect,
) -> (r: Rect)
    requires
        panel == PanelId::Agent ==> areas.col_mid.y + heights.host <= u16::MAX,
        panel == PanelId::Latency ==> areas.col_mid.y + heights.host + heights.agent <= u16::MAX,
        panel == PanelId::Auth ==> areas.col_right.y + heights.recent <= u16::MAX,
        panel == PanelId::Ping ==> areas.col_right.y + heights.recent + heights.auth <= u16::MAX,
        panel == PanelId::SshLog ==> areas.col_mid.y + 19 <= u16::MAX && areas.col_mid.width + 1
            + areas.col_right.width <= u16::MAX,
    ensures
        r == panel_place(*areas, panel, *heights, docked),
{
    let mid = areas.col_mid;
    let right = areas.col_right;
    match panel {
        PanelId::Hosts => areas.col_left,
        PanelId::Detail => Rect::new(mid.x, mid.y, mid.width, heights.host),
        PanelId::Agent => Rect::new(mid.x, mid.y + heights.host, mid.width, heights.agent),
        PanelId::Latency => Rect::new(
            mid.x,
            mid.y + heights.host + heights.agent,
            mid.width,
            heights.latency,
        ),
        PanelId::Recent => Rect::new(right.x, right.y, right.width, heights.recent),
        PanelId::Auth => Rect::new(right.x, right.y + heights.recent, right.width, heights.auth),
        PanelId::Ping => Rect::new(
            right.x,
            right.y + heights.recent + heights.auth,
            right.width,
            heights.ping,
        ),
        PanelId::SshLog => Rect::new(
            mid.x,
            mid.y + 19,
            mid.width + 1 + right.width,
            areas.body.height.saturating_sub(19),
        ),
        PanelId::Broadcast => docked,
    }
}

/// The panels of a column stand one under the other without a gap.
pub proof fn law_panels_are_stacked(
    areas: DashboardAreas,
    heights: PanelHeights,
    docked: Rect,
)
    requires
        areas.col_mid.y + heights.host + heights.agent + heights.latency <= u16::MAX,
        areas.col_right.y + heights.recent + heights.auth + heights.ping <= u16::MAX,
    ensures
        ({
            let place = |p: PanelId| panel_place(areas, p, heights, docked);
            let detail = place(PanelId::Detail);
            let agent = place(PanelId::Agent);
            let latency = place(PanelId::Latency);
            let recent = place(PanelId::Recent);
            let auth = place(PanelId::Auth);
            let ping = place(PanelId::Ping);
            &&& place(PanelId::Hosts) == areas.col_left
            &&& place(PanelId::Broadcast) == docked
            &&& detail.y == areas.col_mid.y && recent.y == areas.col_right.y
            &&& latency.y + latency.height == areas.col_mid.y + heights.host + heights.agent
                + heights.latency
            &&& ping.y + ping.height == areas.col_right.y + heights.recent + heights.auth
                + heights.ping
            &&& detail.height == heights.host && agent.height == heights.agent
            &&& recent.height == heights.recent && auth.height == heights.auth
            &&& detail.x == areas.col_mid.x && agent.x == detail.x && latency.x == detail.x
            &&& recent.x == areas.col_right.x && auth.x == recent.x && ping.x == recent.x
            &&& (areas.col_mid.fits() ==> detail.width == areas.col_mid.width && agent.width
                == areas.col_mid.width && latency.width == areas.col_mid.width)
            &&& (areas.col_right.fits() ==> recent.width == areas.col_right.width && auth.width
                == areas.col_right.width && ping.width == areas.col_right.width)
            &&& detail.y + detail.height == agent.y
            &&& agent.y + agent.height == latency.y
            &&& recent.y + recent.height == auth.y
            &&& auth.y + auth.height == ping.y
        }),
{
}

/// The log of connections grows from under the middle and right columns, below the rows
/// that their panels take, and has what is left of the body's height.
pub proof fn law_log_panel_is_below(
    areas: DashboardAreas,
    heights: PanelHeights,
    docked: Rect,
)
    requires
        areas.col_mid.y + areas.body.height <= u16::MAX,
        areas.col_mid.y + 19 <= u16::MAX,
        areas.col_mid.x + areas.col_mid.width + 1 + areas.col_right.width <= u16::MAX,
    ensures
        ({
            let log = panel_place(areas, PanelId::SshLog, heights, docked);
            &&& log.x == areas.col_mid.x && log.y == areas.col_mid.y + 19
            &&& log.width == areas.col_mid.width + 1 + areas.col_right.width
            &&& (areas.body.height >= 19 ==> log.y + log.height == areas.col_mid.y
                + areas.body.height)
            &&& (areas.body.height < 19 ==> log.height == 0)
        }),
{
}

// ---------------------------------------------------------------------------
// Transient notices

/// The text of a transient notice.
pub open spec fn toast_text(notice: Seq<char>) -> Seq<char> {
    " "@ + notice + " "@
}

/// The columns that are set aside for a transient notice: its length, cut to the bits
/// of a coordinate.
pub open spec fn toast_width(notice: Seq<char>) -> nat {
    (notice.len() + 2) % 0x10000
}

/// A transient notice on the row above the footer, and how far it may come from.
#[derive(Debug)]
pub struct Toast {
    pub label: String,
    /// The column where it rests.
    pub rest_x: u16,
    pub y: u16,
}

/// Lay out a transient notice: at the right end of the row above the footer, if there
/// is one and the notice fits into it.
pub fn plan_zoom_toast(footer: Rect, notice: &str) -> (r: Option<Toast>)
    requires
        footer.fits(),
    ensures
        r is Some <==> toast_width(notice@) <= footer.width && footer.y > 0,
        r matches Some(t) ==> {
            &&& t.label@ == toast_text(notice@)
            &&& t.label@ == " "@ + notice@ + " "@
            &&& notice@.len() + 2 <= u16::MAX ==> t.rest_x + t.label@.len() == footer.x
                + footer.width
            &&& t.rest_x == footer.x + footer.width - toast_width(notice@)
            &&& t.y == footer.y - 1
        },
{
    let n: usize = chars_of(notice).len();
    let w: u16 = ((n as u128 + 2) % 0x10000) as u16;
    if footer.width < w || footer.y == 0 {
        return None;
    }
    proof {
        reveal_strlit(" ");
    }
    let mut label = " ".to_owned();
    label.push_str(notice);
    label.push_str(" ");
    Some(Toast { label, rest_x: footer.x + footer.width - w, y: footer.y - 1 })
}

/// The text of a transient notice is the notice between two spaces, and as many columns
/// are set aside as it has characters, as long as sixteen bits hold the number.
pub proof fn law_toast_is_as_wide_as_its_text(notice: Seq<char>)
    requires
        notice.len() + 2 <= u16::MAX,
    ensures
        toast_width(notice) == toast_text(notice).len(),
        toast_text(notice).len() == notice.len() + 2,
        toast_text(notice).subrange(1, notice.len() as int + 1) == notice,
        toast_text(notice)[0] == ' ',
        toast_text(notice).last() == ' ',
{
    reveal_strlit(" ");
    assert(toast_text(notice).subrange(1, notice.len() as int + 1) =~= notice);
}

} // verus!
