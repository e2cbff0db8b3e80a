use ratatui::buffer::Buffer;
use ratatui::style::{Color, Modifier, Style};
use sshub::app::{AppMode, Session, SessionPhase};
use sshub::tui::buffer::{
    capture_popup, drop_popup, lift_popup, slide_session_in, slide_session_out, slide_sessions,
};
use sshub::tui::clock::{format_local_time, format_utc_clock};
use sshub::tui::footer::{footer_keybinds, FooterState, KeyHint, PanelId};
use sshub::tui::geometry::{center, fit_popup, row_in, Rect};
use sshub::tui::header::{build_session_chips, compute_header_stats, PingClass};
use sshub::tui::marks::{apply_panel_selection, fill_background};
use sshub::tui::popups::{
    delete_fits, delete_question, help_max_scroll, name_by_id, notice_body, notice_fits,
    plan_confirm_delete, plan_confirm_discard, plan_confirm_quit, plan_form_popup, plan_help_popup,
    plan_import_prompt, plan_notice_popup, plan_sftp_prompt, popup_open_rect, prompt_lines,
    FormKind, PendingDelete, PromptRole, SftpPromptKind,
};
use sshub::tui::screen::{
    is_overlay_mode, list_overlays, panel_zoom_source, plan_zoom_toast, render, render_hosts_body,
    render_inner, render_tab_slide, shift_body_areas, tab_body, DashboardAreas, DrawStep,
    FrameState, FrameStep, OpenForms, Overlay, PanelHeights, ScreenState, TabBody,
};

fn screen(lines: &[&str]) -> Buffer {
    let width = lines[0].chars().count() as u16;
    let mut b = Buffer::empty(ratatui::layout::Rect::new(0, 0, width, lines.len() as u16));
    for (y, line) in lines.iter().enumerate() {
        b.set_string(0, y as u16, line, Style::default());
    }
    b
}

fn rows(b: &Buffer) -> Vec<String> {
    (b.area.y..b.area.y + b.area.height)
        .map(|y| {
            (b.area.x..b.area.x + b.area.width)
                .map(|x| b[(x, y)].symbol())
                .collect()
        })
        .collect()
}

fn rect(x: u16, y: u16, width: u16, height: u16) -> Rect {
    Rect {
        x,
        y,
        width,
        height,
    }
}

#[test]
fn opaque_background_fills_every_cell() {
    let mut b = screen(&["ab", "cd"]);
    b[(1, 0)].set_bg(Color::Blue);
    assert!(rows(&b) == ["ab", "cd"]);
    fill_background(&mut b, 0x0b, 0x0d, 0x10);
    let a = b.area;
    let all_opaque =
        (a.y..a.y + a.height).all(|y| (a.x..a.x + a.width).all(|x| b[(x, y)].bg != Color::Reset));
    assert!(all_opaque, "opaque mode left a transparent cell");
    assert_eq!(b[(0, 0)].bg, Color::Rgb(0x0b, 0x0d, 0x10));
    assert_eq!(b[(1, 0)].bg, Color::Blue);
    assert_eq!(rows(&b), ["ab", "cd"]);
}

#[test]
fn the_session_slides_in_over_the_dashboard_not_over_black() {
    let dashboard = screen(&["web-prod", "db-stage"]);
    let mut sliding = screen(&["session!", "SESSION!"]);
    slide_session_in(&mut sliding, rect(0, 0, 8, 2), Some(&dashboard), 8);
    assert_eq!(
        sliding[(0, 0)].symbol(),
        dashboard[(0, 0)].symbol(),
        "the vacated columns show the dashboard"
    );
    assert_ne!(sliding[(0, 0)].symbol(), " ", "and are not blanked");
}

#[test]
fn one_session_follows_another() {
    let left = screen(&["header", "abcdef"]);
    let body = rect(0, 1, 6, 1);
    // To the right: the new one comes in from the right edge.
    let mut b = screen(&["HEADER", "ABCDEF"]);
    slide_sessions(&mut b, body, &left, 4, -2);
    assert_eq!(rows(&b), ["HEADER", "cdefAB"]);
    // To the left, with a gap between the two.
    let mut b = screen(&["HEADER", "ABCDEF"]);
    slide_sessions(&mut b, body, &left, -4, 3);
    assert_eq!(rows(&b), ["HEADER", "EF abc"]);
    let mut b = screen(&["HEADER", "ABCDEF"]);
    slide_sessions(&mut b, body, &left, 0, -6);
    assert_eq!(rows(&b), ["HEADER", "ABCDEF"]);
    let mut b = screen(&["HEADER", "ABCDEF"]);
    slide_sessions(&mut b, body, &left, 6, 0);
    assert_eq!(rows(&b), ["HEADER", "abcdef"]);
}

#[test]
fn sessions_slide() {
    let dashboard = screen(&["web-prod", "db-stage"]);
    let mut b = screen(&["session!", "SESSION!"]);
    slide_session_in(&mut b, rect(0, 0, 8, 2), Some(&dashboard), 3);
    assert_eq!(rows(&b), ["websessi", "db-SESSI"]);
    let mut b = screen(&["session!", "SESSION!"]);
    slide_session_in(&mut b, rect(0, 0, 8, 2), None, 3);
    assert_eq!(rows(&b), ["   sessi", "   SESSI"]);
    let mut b = screen(&["session!"]);
    slide_session_in(&mut b, rect(0, 0, 8, 1), None, 0);
    assert_eq!(rows(&b), ["session!"]);
    let mut b = screen(&["web-prod", "db-stage"]);
    slide_session_out(&mut b, rect(0, 0, 8, 2), &screen(&["session!", "SESSION!"]), 5);
    assert_eq!(rows(&b), ["web-pses", "db-stSES"]);
    slide_session_out(&mut b, rect(0, 0, 8, 2), &screen(&["session!", "SESSION!"]), 8);
    assert_eq!(rows(&b), ["web-pses", "db-stSES"]);
}

#[test]
fn popups_drop_and_lift() {
    let behind = screen(&["....", "....", "....", "...."]);
    let mut drawn = screen(&["....", ".AB.", ".CD.", "...."]);
    let (place, kept) = capture_popup(&drawn, rect(1, 1, 2, 2), rect(0, 0, 4, 4)).unwrap();
    assert_eq!(place, rect(1, 1, 2, 2));
    assert_eq!(rows(&kept), ["AB", "CD"]);
    drop_popup(&mut drawn, place, &kept, &behind, 1);
    assert_eq!(rows(&drawn), [".AB.", ".CD.", "....", "...."]);
    drop_popup(&mut drawn, place, &kept, &behind, 2);
    assert_eq!(rows(&drawn), [".CD.", "....", "....", "...."]);
    let mut b = screen(&["....", "....", "....", "...."]);
    lift_popup(&mut b, place, &kept, 0);
    assert_eq!(rows(&b), ["....", ".AB.", ".CD.", "...."]);
    let mut b = screen(&["....", "....", "....", "...."]);
    lift_popup(&mut b, place, &kept, 3);
    assert_eq!(rows(&b), ["....", "....", "....", "...."]);
    assert!(capture_popup(&b, rect(9, 9, 2, 2), rect(0, 0, 4, 4)).is_none());
    let mut last: Option<Rect> = None;
    assert_eq!(popup_open_rect(place, &mut last), place);
    assert_eq!(last, Some(place));
}

#[test]
fn text_is_selected_in_reading_order() {
    let mut b = screen(&["one   ", "two   ", "three "]);
    let text = apply_panel_selection(&mut b, rect(0, 0, 6, 3), (1, 2), (1, 0));
    assert_eq!(text, "ne\ntwo\nth");
    assert!(b[(1, 0)].modifier.contains(Modifier::REVERSED));
    assert!(b[(5, 1)].modifier.contains(Modifier::REVERSED));
    assert!(!b[(0, 0)].modifier.contains(Modifier::REVERSED));
    assert!(!b[(2, 2)].modifier.contains(Modifier::REVERSED));
    let mut b = screen(&["one   ", "two   ", "three "]);
    assert_eq!(apply_panel_selection(&mut b, rect(0, 1, 3, 1), (0, 0), (5, 2)), "two");
    assert!(!b[(3, 1)].modifier.contains(Modifier::REVERSED));
    assert_eq!(apply_panel_selection(&mut b, rect(0, 2, 6, 1), (0, 0), (5, 0)), "");
}

#[test]
fn header_stats_count_unreachable_hosts() {
    let [total, online, slow, down] = compute_header_stats(&vec![
        PingClass::Online,
        PingClass::Slow,
        PingClass::Unreachable,
    ]);
    assert_eq!(total, 3);
    assert_eq!(online, 1);
    assert_eq!(slow, 1);
    assert_eq!(down, 1);
    let [total, online, slow, down] = compute_header_stats(&vec![PingClass::Unknown]);
    assert_eq!((total, online, slow, down), (1, 0, 0, 0));
}

#[test]
fn session_chips_mark_the_active_one() {
    let session = |name: &str, phase: SessionPhase| Session {
        display_name: name.to_string(),
        host_name: name.to_string(),
        phase,
    };
    let sessions = vec![
        session("alpha", SessionPhase::Running),
        session("bravo", SessionPhase::Exited),
    ];
    let chips = build_session_chips(&sessions, Some(1));
    assert_eq!(chips.len(), 2);
    assert_eq!(chips[0].name, "alpha");
    assert!(!chips[0].active);
    assert!(chips[1].active);
    assert_eq!(chips[1].phase, SessionPhase::Exited);
    assert!(!build_session_chips(&sessions, None)[1].active);
}

fn footer(tab: usize) -> FooterState {
    FooterState {
        active_tab: tab,
        mode: AppMode::Normal,
        sftp_left_is_remote: false,
        sftp_show_hidden: false,
        panel_zoomed: false,
        focused_panel: PanelId::Hosts,
        broadcast_running: false,
        broadcast_errors: false,
    }
}

fn texts(hints: &[KeyHint]) -> Vec<String> {
    hints.iter().map(|h| format!("{} {}", h.key, h.label)).collect()
}

#[test]
fn dashboard_footer_shows_keybinds() {
    let (hints, pinned) = footer_keybinds(&footer(0), Vec::new());
    let t = texts(&hints);
    assert!(t.iter().any(|h| h.contains("connect")));
    assert!(t.iter().any(|h| h.contains("quit")));
    assert_eq!(pinned, 2);
    assert_eq!(t.len(), 13);
}

#[test]
fn sftp_footer_points_back_to_local_once_the_left_pane_is_remote() {
    let (hints, _) = footer_keybinds(&footer(1), Vec::new());
    let t = texts(&hints);
    assert!(t.iter().any(|h| h.contains("2nd host")));
    assert!(!t.iter().any(|h| h == "O local"));
    let mut s = footer(1);
    s.sftp_left_is_remote = true;
    let (hints, _) = footer_keybinds(&s, Vec::new());
    let t = texts(&hints);
    assert!(t.iter().any(|h| h == "O local"));
    assert!(!t.iter().any(|h| h.contains("2nd host")));
}

#[test]
fn pinned_keys_are_last() {
    let session_hints = vec![
        KeyHint {
            key: "^R".to_string(),
            label: "resume".to_string(),
        },
        KeyHint {
            key: "^N".to_string(),
            label: "next".to_string(),
        },
    ];
    let (hints, pinned) = footer_keybinds(&footer(1), session_hints);
    let t = texts(&hints);
    assert_eq!(pinned, 3);
    assert_eq!(t[t.len() - 3..], ["^R resume", "? help", "q quit"]);
    assert_eq!(t.len(), 21);
    let (hints, pinned) = footer_keybinds(&footer(99), Vec::new());
    assert_eq!(texts(&hints), ["q quit"]);
    assert_eq!(pinned, 1);
}

#[test]
fn session_picker_keeps_the_dashboard_footer() {
    let hints = || {
        vec![KeyHint {
            key: "^R".to_string(),
            label: "resume".to_string(),
        }]
    };
    let mut s = footer(0);
    assert_eq!(s.mode, AppMode::Normal);
    let (without_picker, pinned) = footer_keybinds(&s, hints());
    s.mode = AppMode::SessionPicker;
    let (with_picker, pinned_then) = footer_keybinds(&s, hints());
    assert_eq!(texts(&with_picker), texts(&without_picker));
    assert_eq!(pinned_then, pinned);
    s.mode = AppMode::BroadcastCommand;
    let (wizard, _) = footer_keybinds(&s, hints());
    assert_eq!(wizard.len(), without_picker.len() + 2);
    // The picker is drawn over the dashboard's footer.
    let (area, areas) = dashboard();
    let steps = render_inner(&state(AppMode::SessionPicker), area, &areas);
    assert!(steps.contains(&DrawStep::Footer));
    assert_eq!(steps.last(), Some(&DrawStep::Overlay(Overlay::SessionPicker)));
}

#[test]
fn footer_follows_the_state() {
    let mut s = footer(0);
    s.panel_zoomed = true;
    s.focused_panel = PanelId::Ping;
    s.broadcast_running = true;
    s.mode = AppMode::BroadcastCommand;
    let (hints, _) = footer_keybinds(&s, Vec::new());
    let t = texts(&hints);
    for want in ["z unzoom", "drag copy", "x cancel", "\u{21b5} next", "Esc cancel"] {
        assert!(t.iter().any(|h| h == want), "{want}: {t:?}");
    }
    assert_eq!(t.iter().filter(|h| h.ends_with(" select")).count(), 2);
    let mut s = footer(0);
    s.focused_panel = PanelId::Agent;
    s.broadcast_errors = true;
    let (hints, _) = footer_keybinds(&s, Vec::new());
    let t = texts(&hints);
    assert!(t.iter().any(|h| h == "z zoom"));
    assert!(t.iter().any(|h| h == "x clear errors"));
    s.panel_zoomed = true;
    let (hints, _) = footer_keybinds(&s, Vec::new());
    assert!(texts(&hints).iter().any(|h| h.ends_with(" scroll")));
    for tab in 2..5usize {
        let (hints, pinned) = footer_keybinds(&footer(tab), Vec::new());
        assert_eq!(pinned, 2);
        assert_eq!(hints.last().unwrap().label, "quit");
    }
}

#[test]
fn clocks_are_shown() {
    assert_eq!(format_local_time(7, 5, 59), "07:05:59");
    assert_eq!(format_utc_clock(0), "Thu 00:00:00");
    assert_eq!(format_utc_clock(1_700_000_000), "Tue 22:13:20");
    assert_eq!(format_utc_clock(1_700_000_000 + 604_800), "Tue 22:13:20");
    assert_eq!(format_utc_clock(3 * 86_400 + 3_661), "Sun 01:01:01");
    assert_eq!(format_utc_clock(1_000_000_000), "Sun 01:46:40");
}

#[test]
fn rectangles() {
    assert_eq!(Rect::new(65_530, 0, 10, 1), rect(65_530, 0, 5, 1));
    let a = rect(0, 0, 10, 4);
    assert_eq!(a.intersection(rect(5, 2, 10, 10)), rect(5, 2, 5, 2));
    assert_eq!(a.intersection(rect(20, 20, 1, 1)).width, 0);
    assert_eq!(a.inner(), rect(1, 1, 8, 2));
    assert_eq!(rect(5, 5, 1, 9).inner(), rect(0, 0, 0, 0));
    assert_eq!((a.left(), a.top(), a.right(), a.bottom()), (0, 0, 10, 4));
    assert_eq!(center(a, 4, 2), rect(3, 1, 4, 2));
    assert_eq!(row_in(a, 3), rect(0, 3, 10, 1));
    assert_eq!(row_in(a, 4).height, 0);
    assert_eq!(fit_popup(30, 40, 100), 40);
    assert_eq!(fit_popup(30, 40, 20), 20);
    assert_eq!(fit_popup(50, 40, 100), 50);
    assert_eq!(fit_popup(200, 40, 100), 100);
}

#[test]
fn overlays_do_not_panic_on_a_tiny_terminal() {
    for (w, h) in [(1u16, 1u16), (10, 3), (30, 8), (49, 20)] {
        let area = rect(0, 0, w, h);
        let inside = |r: Rect| r.right() <= w && r.bottom() <= h;
        assert!(inside(plan_notice_popup("a long message\nof two lines", area)));
        assert!(inside(plan_sftp_prompt(area, true)));
        assert!(inside(plan_import_prompt(area, true)));
        assert!(inside(plan_form_popup(area, true, None).place));
        assert!(inside(plan_confirm_quit(area, 2).0));
        assert!(inside(plan_confirm_discard(area)));
        assert!(inside(plan_confirm_delete(area, "Delete host 'a very long name'?")));
        assert!(inside(plan_help_popup(area, 80, 99).place));
        // A screen that is too small for everything: the parts have no rows of their own.
        let areas = DashboardAreas {
            header: rect(0, 0, w, 1),
            tab_bar: rect(0, h, w, 0),
            body: rect(0, h, w, 0),
            col_left: rect(0, h, 0, 0),
            col_mid: rect(0, h, 0, 0),
            col_right: rect(0, h, w, 0),
            footer: rect(0, 0, w, 1),
        };
        for mode in [
            AppMode::Palette,
            AppMode::GroupManage,
            AppMode::Help,
            AppMode::KeybindEditor,
            AppMode::ConfirmQuit,
            AppMode::SessionPicker,
        ] {
            let steps = render_inner(&state(mode), area, &areas);
            let rows = steps.iter().filter_map(|s| match s {
                DrawStep::Rule { row, .. } => Some(*row),
                _ => None,
            });
            for row in rows {
                assert!(inside(row));
            }
            assert!(matches!(steps.last(), Some(DrawStep::Overlay(_))), "{mode:?}");
        }
    }
}

#[test]
fn popups_have_their_sizes() {
    let area = rect(0, 0, 120, 40);
    assert_eq!(plan_notice_popup("short", area), rect(30, 17, 60, 5));
    assert_eq!(plan_notice_popup("a\nb\nc", area).height, 7);
    assert_eq!(plan_notice_popup(&"x".repeat(58), area).height, 6);
    assert_eq!(plan_sftp_prompt(area, false), rect(18, 16, 84, 7));
    assert_eq!(plan_import_prompt(area, true), rect(12, 15, 96, 10));
    assert_eq!(plan_confirm_discard(area), rect(42, 17, 36, 5));
    let (place, text) = plan_confirm_quit(area, 3);
    assert_eq!(place.height, 6);
    assert_eq!(text, "Quit sshub?\n3 active tunnel(s) will be closed.");
    assert_eq!(plan_confirm_quit(area, 0).1, "Quit sshub?");
    assert_eq!(plan_confirm_delete(area, &"x".repeat(52)).height, 5);
    assert_eq!(plan_confirm_delete(area, &"x".repeat(53)).height, 6);
    assert_eq!(plan_confirm_delete(area, "").height, 5);
    // Long texts are laid out as long as their rows can be counted.
    let long = "x".repeat(70_000);
    assert!(notice_fits(&long, area));
    assert_eq!(plan_notice_popup(&long, area), rect(30, 0, 60, 40));
    assert!(delete_fits(area, &long));
    assert_eq!(plan_confirm_delete(area, &long), rect(33, 0, 54, 40));
    assert!(!notice_fits(&"\n".repeat(65_532), area));
    assert!(notice_fits(&"\n".repeat(65_530), area));
    assert!(!delete_fits(rect(0, 0, 1, 1), &"x".repeat(65_532)));
    assert!(delete_fits(rect(0, 0, 1, 1), &"x".repeat(65_531)));
    let form = plan_form_popup(area, true, Some("name is taken".to_string()));
    assert_eq!(form.place, rect(18, 6, 84, 28));
    let (text, place) = form.notice.unwrap();
    assert_eq!(text, "name is taken");
    assert_eq!((place.x, place.y, place.width), (20, 32, 80));
    assert!(plan_form_popup(rect(0, 0, 4, 9), false, Some("x".to_string())).notice.is_none());
    let help = plan_help_popup(area, 50, 99);
    assert_eq!(help.place, rect(18, 8, 84, 24));
    assert_eq!(help.body, rect(19, 10, 82, 20));
    assert_eq!(help.footer_y, 30);
    assert_eq!(help.scroll, 30);
    assert_eq!(help_max_scroll(area, 50), 30);
    assert_eq!(help_max_scroll(area, 5), 0);
}

#[test]
fn popups_say_what_they_ask() {
    let ask = |p: PendingDelete| delete_question(&Some(p));
    assert_eq!(ask(PendingDelete::Host("h".to_string())), "Delete host 'h'?");
    assert_eq!(ask(PendingDelete::Identity("i".to_string())), "Delete identity 'i'?");
    assert_eq!(ask(PendingDelete::Group("g".to_string())), "Delete group 'g'?");
    assert_eq!(ask(PendingDelete::Tunnel("t".to_string())), "Delete tunnel 't'?");
    let entry = |is_dir: bool| PendingDelete::SftpEntry {
        name: "f".to_string(),
        is_dir,
    };
    assert_eq!(ask(entry(true)), "Delete folder 'f' and all its contents?");
    assert_eq!(ask(entry(false)), "Delete 'f'?");
    assert_eq!(delete_question(&None), "Delete?");
    assert_eq!(notice_body("oops"), "oops\n\npress any key to dismiss");
    assert_eq!(SftpPromptKind::Rename.words(), (" Rename ", "Rename to:"));
    assert_eq!(SftpPromptKind::Mkdir.words().0, " New folder ");
    assert_eq!(SftpPromptKind::Chmod.words().0, " Permissions ");
    let lines = prompt_lines("Rename to:", "x|", Some("taken"), "Enter: confirm");
    assert_eq!(lines.len(), 6);
    assert_eq!(lines[3], (PromptRole::Error, "\u{2717} taken".to_string()));
    assert_eq!(lines[5], (PromptRole::Keys, "Enter: confirm".to_string()));
    assert_eq!(prompt_lines("q", "a", None, "k").len(), 4);
    let names = vec![(1i64, "one".to_string()), (2, "two".to_string())];
    assert_eq!(name_by_id(&names, Some(2)), Some("two".to_string()));
    assert_eq!(name_by_id(&names, Some(3)), None);
    assert_eq!(name_by_id(&names, None), None);
}

fn no_forms() -> OpenForms {
    OpenForms {
        host: false,
        identity: false,
        tunnel: false,
        group_from_list: false,
    }
}

fn dashboard() -> (Rect, DashboardAreas) {
    (
        rect(0, 0, 120, 38),
        DashboardAreas {
            header: rect(0, 0, 120, 2),
            tab_bar: rect(0, 3, 120, 1),
            body: rect(0, 5, 120, 30),
            col_left: rect(0, 5, 40, 30),
            col_mid: rect(41, 5, 39, 30),
            col_right: rect(81, 5, 39, 30),
            footer: rect(0, 37, 120, 1),
        },
    )
}

fn state(mode: AppMode) -> ScreenState {
    ScreenState {
        mode,
        picker_from_session: false,
        motion_enabled: true,
        active_tab: 0,
        tab_sliding: false,
        broadcast: false,
        broadcast_toasts: false,
        panel_zoomed: false,
        focused_panel: PanelId::Hosts,
        notice: false,
        forms: no_forms(),
    }
}

#[test]
fn session_picker_draws_dashboard_or_session_behind_it() {
    let (area, areas) = dashboard();
    let mut s = state(AppMode::SessionPicker);
    let steps = render_inner(&s, area, &areas);
    assert!(steps.contains(&DrawStep::Footer));
    assert_eq!(steps.last(), Some(&DrawStep::Overlay(Overlay::SessionPicker)));
    s.picker_from_session = true;
    let steps = render_inner(&s, area, &areas);
    assert_eq!(
        steps,
        vec![
            DrawStep::Session,
            DrawStep::KeepBackdrop,
            DrawStep::Overlay(Overlay::SessionPicker),
        ]
    );
}

#[test]
fn the_screen_is_drawn_in_order() {
    let (area, areas) = dashboard();
    assert_eq!(
        render_inner(&state(AppMode::Session), area, &areas),
        vec![DrawStep::Session, DrawStep::SessionEnter, DrawStep::SessionTabSlide]
    );
    assert_eq!(
        render_inner(&state(AppMode::Normal), area, &areas),
        vec![
            DrawStep::Header,
            DrawStep::SessionStrip,
            DrawStep::Rule {
                row: rect(0, 2, 120, 1),
                heavy: false
            },
            DrawStep::TabBar,
            DrawStep::Rule {
                row: rect(0, 4, 120, 1),
                heavy: false
            },
            DrawStep::TabBody(0),
            DrawStep::Rule {
                row: rect(0, 36, 120, 1),
                heavy: true
            },
            DrawStep::Footer,
        ]
    );
    let mut s = state(AppMode::ConfirmDiscard);
    s.forms.identity = true;
    s.broadcast = true;
    s.broadcast_toasts = true;
    s.panel_zoomed = true;
    s.focused_panel = PanelId::Broadcast;
    s.notice = true;
    s.tab_sliding = true;
    let steps = render_inner(&s, area, &areas);
    for want in [
        DrawStep::TabSlide,
        DrawStep::BroadcastZoomed,
        DrawStep::BroadcastToasts,
        DrawStep::ZoomToast,
        DrawStep::KeepBackdrop,
        DrawStep::Overlay(Overlay::ConfirmDiscard),
    ] {
        assert!(steps.contains(&want), "{want:?}");
    }
}

#[test]
fn overlays_follow_the_mode() {
    let mut forms = no_forms();
    forms.group_from_list = true;
    assert_eq!(
        list_overlays(AppMode::GroupFieldPicker, forms),
        vec![Overlay::GroupManage, Overlay::Form(FormKind::Group), Overlay::GroupFieldPicker]
    );
    assert_eq!(
        list_overlays(AppMode::GroupForm, no_forms()),
        vec![Overlay::Form(FormKind::Group)]
    );
    forms.host = true;
    assert_eq!(
        list_overlays(AppMode::ConfirmDiscard, forms),
        vec![Overlay::Form(FormKind::Host), Overlay::ConfirmDiscard]
    );
    assert!(list_overlays(AppMode::Normal, forms).is_empty());
    assert!(is_overlay_mode(AppMode::Help));
    assert!(!is_overlay_mode(AppMode::Connecting));
}

#[test]
fn frames_are_made_in_order() {
    let mut s = FrameState {
        mode: AppMode::Help,
        session_switching: false,
        session_leaving: true,
        popup_opening: true,
        popup_closing: true,
        opaque_background: true,
        panel_zoomed: true,
        fading_in: true,
    };
    assert_eq!(
        render(&s),
        vec![
            FrameStep::ForgetPopup,
            FrameStep::Screen,
            FrameStep::KeepDashboard,
            FrameStep::SlideSessionOut,
            FrameStep::KeepPopup,
            FrameStep::DropPopup,
            FrameStep::LiftPopup,
            FrameStep::SolidBackground,
            FrameStep::Selection,
            FrameStep::FadeIn,
        ]
    );
    s.mode = AppMode::Session;
    s.session_switching = true;
    s.opaque_background = false;
    s.panel_zoomed = false;
    s.fading_in = false;
    assert_eq!(
        render(&s),
        vec![FrameStep::ForgetPopup, FrameStep::Screen, FrameStep::LiftPopup]
    );
}

#[test]
fn bodies_and_slides() {
    let (_, areas) = dashboard();
    assert_eq!(tab_body(1), TabBody::Sftp);
    assert_eq!(tab_body(4), TabBody::Audit);
    assert_eq!(tab_body(77), TabBody::Hosts);
    let shifted = shift_body_areas(&areas, 10);
    assert_eq!(shifted.body, rect(10, 5, 120, 30));
    assert_eq!(shifted.header, areas.header);
    let slide = render_tab_slide(&areas, 0, 2, 30);
    assert_eq!(slide.backdrop, 0);
    let moving = slide.moving.unwrap();
    assert_eq!(moving.tab, 2);
    assert_eq!(moving.clear, rect(30, 5, 90, 30));
    let slide = render_tab_slide(&areas, 2, 0, 120);
    assert_eq!(slide.backdrop, 0);
    assert!(slide.moving.is_none());

    let body = render_hosts_body(&areas, false, PanelId::Hosts, None);
    assert_eq!(body.log, Some(rect(41, 24, 79, 11)));
    assert_eq!(body.zoomed, None);
    let body = render_hosts_body(&areas, true, PanelId::Ping, None);
    assert_eq!(body.zoomed, Some(areas.body));
    let body = render_hosts_body(&areas, true, PanelId::Ping, Some(rect(1, 1, 1, 1)));
    assert_eq!(body.morph, Some(rect(1, 1, 1, 1)));
    let body = render_hosts_body(&areas, true, PanelId::Broadcast, Some(rect(1, 1, 1, 1)));
    assert_eq!((body.zoomed, body.morph), (None, None));
}

#[test]
fn panels_have_their_places() {
    let (_, areas) = dashboard();
    let heights = PanelHeights {
        host: 9,
        agent: 5,
        latency: 5,
        recent: 7,
        auth: 6,
        ping: 6,
    };
    let docked = rect(80, 20, 40, 10);
    let place = |p: PanelId| panel_zoom_source(&areas, p, &heights, docked);
    assert_eq!(place(PanelId::Hosts), areas.col_left);
    assert_eq!(place(PanelId::Detail), rect(41, 5, 39, 9));
    assert_eq!(place(PanelId::Agent), rect(41, 14, 39, 5));
    assert_eq!(place(PanelId::Latency), rect(41, 19, 39, 5));
    assert_eq!(place(PanelId::Recent), rect(81, 5, 39, 7));
    assert_eq!(place(PanelId::Auth), rect(81, 12, 39, 6));
    assert_eq!(place(PanelId::Ping), rect(81, 18, 39, 6));
    assert_eq!(place(PanelId::SshLog), rect(41, 24, 79, 11));
    assert_eq!(place(PanelId::Broadcast), docked);
}

#[test]
fn transient_notices_rest_at_the_right() {
    let toast = plan_zoom_toast(rect(0, 37, 120, 1), "copied 3 chars").unwrap();
    assert_eq!(toast.label, " copied 3 chars ");
    assert_eq!((toast.rest_x, toast.y), (104, 36));
    assert!(plan_zoom_toast(rect(0, 37, 5, 1), "copied").is_none());
    assert!(plan_zoom_toast(rect(0, 0, 50, 1), "copied").is_none());
}
