//! Popups: where they stand, and what they say.

use vstd::prelude::*;

use crate::text::{chars_of, decimal, format_u64, split_on, split_text, str_opt, texts};
use crate::tui::geometry::{center, centered, floored, larger, smaller, Rect};

verus! {

/// A share of what there is, in percent, but at least a minimum and never more than
/// there is.
pub open spec fn share(avail: int, percent: int, min: int) -> int {
    smaller(larger(avail * percent / 100, min), avail)
}

/// The largest width or height of which so many percent can be taken.
pub open spec fn share_fits(avail: int, percent: int) -> bool {
    avail * percent <= u16::MAX
}

fn take_share(avail: u16, percent: u16, min: u16) -> (r: u16)
    requires
        share_fits(avail as int, percent as int),
    ensures
        r == share(avail as int, percent as int, min as int),
{
    let part: u16 = avail * percent / 100;
    let wanted: u16 = if part > min {
        part
    } else {
        min
    };
    if wanted < avail {
        wanted
    } else {
        avail
    }
}

/// Note where a popup is drawn, so that it can be moved later. It is always drawn in
/// its place; moving it is a pass of its own.
pub fn popup_open_rect(target: Rect, last: &mut Option<Rect>) -> (r: Rect)
    ensures
        r == target,
        *final(last) == Some(target),
{
    *last = Some(target);
    target
}

fn at_most(a: u16, b: u16) -> (r: u16)
    ensures
        r == smaller(a as int, b as int),
{
    if a < b {
        a
    } else {
        b
    }
}

/// The forms.
#[derive(Debug, Clone, Copy, PartialEq, Eq, Structural)]
pub enum FormKind {
    Host,
    Identity,
    Keygen,
    Group,
}

/// The place of a form.
pub open spec fn form_place(area: Rect) -> Rect {
    centered(area, share(area.width as int, 70, 50), share(area.height as int, 70, 18))
}

/// Where a form says what is wrong with it: its column and row, and the room for it.
#[derive(Debug, Clone, Copy, PartialEq, Eq, Structural)]
pub struct NoticePlace {
    pub x: u16,
    pub y: u16,
    pub width: u16,
}

/// Where a form says what is wrong with it: on its last line but one, inside its
/// border, if there is room.
pub open spec fn form_notice(popup: Rect) -> Option<NoticePlace> {
    let y = popup.y + floored(popup.height as int, 2);
    if y > popup.y && popup.width > 4 {
        Some(NoticePlace { x: (popup.x + 2) as u16, y: y as u16, width: (popup.width - 4) as u16 })
    } else {
        None
    }
}

/// Everything that is laid out for a form.
#[derive(Debug)]
pub struct FormPopup {
    pub place: Rect,
    /// The form itself is drawn; the popup is empty where there is none.
    pub form: bool,
    /// What is wrong with the form, and where it is said.
    pub notice: Option<(String, NoticePlace)>,
}

/// Lay out a form: whether there is one of its kind, and what is wrong with it.
pub fn plan_form_popup(area: Rect, form_open: bool, notice: Option<String>) -> (r: FormPopup)
    requires
        area.fits(),
        share_fits(area.width as int, 70),
        share_fits(area.height as int, 70),
    ensures
        r.place == form_place(area),
        r.form == form_open,
        r.notice is Some <==> notice is Some && form_notice(form_place(area)) is Some,
        r.notice matches Some((text, place)) ==> Some(text) == notice && Some(place)
            == form_notice(form_place(area)),
{
    let place = center(area, take_share(area.width, 70, 50), take_share(area.height, 70, 18));
    let y: u16 = place.y + place.height.saturating_sub(2);
    let notice = match notice {
        Some(text) => {
            if y > place.y && place.width > 4 {
                Some((text, NoticePlace { x: place.x + 2, y, width: place.width - 4 }))
            } else {
                None
            }
        },
        None => None,
    };
    FormPopup { place, form: form_open, notice }
}

/// What is wrong with a form is said inside of it.
pub proof fn law_form_notice_inside(area: Rect)
    requires
        area.fits(),
        share_fits(area.width as int, 70),
        share_fits(area.height as int, 70),
        form_notice(form_place(area)) is Some,
    ensures
        ({
            let popup = form_place(area);
            let place = form_notice(popup)->0;
            &&& popup.x < place.x
            &&& place.x + place.width < popup.x + popup.width
            &&& popup.y < place.y < popup.y + popup.height - 1
        }),
{
}

/// The name under a number in a list of numbered names.
pub open spec fn name_under(list: Seq<(i64, String)>, id: i64) -> Option<String>
    decreases list.len(),
{
    if list.len() == 0 {
        None
    } else if list[0].0 == id {
        Some(list[0].1)
    } else {
        name_under(list.skip(1), id)
    }
}

/// Look up the name under a number, if one is given.
pub fn name_by_id(list: &Vec<(i64, String)>, given: Option<i64>) -> (r: Option<String>)
    ensures
        given is None ==> r is None,
        given is Some ==> r == name_under(list@, given->0),
{
    match given {
        Some(id) => {
            let mut i: usize = 0;
            assert(list@.skip(0) =~= list@);
            while i < list.len()
                invariant
                    i <= list@.len(),
                    given == Some(id),
                    name_under(list@, id) == name_under(list@.skip(i as int), id),
                decreases list@.len() - i,
            {
                if list[i].0 == id {
                    return Some(list[i].1.clone());
                }
                assert(list@.skip(i as int).skip(1) =~= list@.skip(i + 1));
                i = i + 1;
            }
            None
        },
        None => None,
    }
}

// ---------------------------------------------------------------------------
// Messages

/// The lines of a text that is broken into so many columns, roughly: each line counts
/// once more than it fills.
pub open spec fn rough_lines(lines: Seq<Seq<char>>, width: int) -> int
    decreases lines.len(),
{
    if lines.len() == 0 {
        0
    } else {
        rough_lines(lines.drop_last(), width) + lines.last().len() as int / width + 1
    }
}

/// The width of a message: sixty columns, or what there is.
pub open spec fn notice_width(area: Rect) -> int {
    smaller(60, area.width as int)
}

/// The lines of a message in a popup with a border.
pub open spec fn notice_lines(message: Seq<char>, area: Rect) -> int {
    rough_lines(split_on(message, '\n'), larger(notice_width(area) - 2, 1))
}

/// The rows of a message, with its border and how to get rid of it. The number of its
/// lines is kept in sixteen bits.
pub open spec fn notice_rows(message: Seq<char>, area: Rect) -> int {
    notice_lines(message, area) % 0x10000 + 4
}

/// The place of a message.
pub open spec fn notice_place(message: Seq<char>, area: Rect) -> Rect {
    centered(
        area,
        notice_width(area),
        larger(
            smaller(notice_rows(message, area), area.height as int),
            smaller(5, area.height as int),
        ),
    )
}

/// Count the lines of a text that is broken into so many columns, as far as sixteen
/// bits hold the number.
fn count_lines(lines: &Vec<String>, width: usize) -> (r: u16)
    requires
        width > 0,
    ensures
        r == rough_lines(texts(lines@), width as int) % 0x10000,
{
    let mut total: u128 = 0;
    let mut i: usize = 0;
    let ghost all = texts(lines@);
    assert(all.take(0) =~= Seq::empty());
    while i < lines.len()
        invariant
            i <= lines@.len(),
            width > 0,
            all == texts(lines@),
            total <= i * 0x1_0000_0000_0000_0000,
            total == rough_lines(all.take(i as int), width as int),
        decreases lines@.len() - i,
    {
        let n: usize = chars_of(lines[i].as_str()).len();
        let more: usize = n / width;
        proof {
            assert(all.take(i + 1).drop_last() =~= all.take(i as int));
            assert(all.take(i + 1).last() == lines@[i as int]@);
        }
        total = total + more as u128 + 1;
        i = i + 1;
    }
    assert(all.take(i as int) =~= all);
    (total % 0x10000) as u16
}

proof fn lemma_rough_lines_nonneg(lines: Seq<Seq<char>>, width: int)
    requires
        width > 0,
    ensures
        rough_lines(lines, width) >= 0,
    decreases lines.len(),
{
    if lines.len() > 0 {
        lemma_rough_lines_nonneg(lines.drop_last(), width);
        assert(lines.last().len() as int / width >= 0) by (nonlinear_arith)
            requires
                width > 0,
                lines.last().len() >= 0,
        ;
    }
}

/// Count the lines of a message in a popup with a border, as far as sixteen bits hold
/// the number.
fn count_notice_lines(message: &str, area: Rect) -> (r: u16)
    ensures
        r == notice_lines(message@, area) % 0x10000,
{
    let width: u16 = at_most(60, area.width);
    let inner: u16 = if width > 3 {
        width - 2
    } else {
        1
    };
    count_lines(&split_text(message, '\n'), inner as usize)
}

/// Lay out a message.
pub fn plan_notice_popup(message: &str, area: Rect) -> (r: Rect)
    requires
        area.fits(),
        notice_rows(message@, area) <= u16::MAX,
    ensures
        r == notice_place(message@, area),
{
    let width: u16 = at_most(60, area.width);
    let wanted: u16 = count_notice_lines(message, area) + 4;
    let low: u16 = at_most(5, area.height);
    let mut height: u16 = at_most(wanted, area.height);
    if height < low {
        height = low;
    }
    center(area, width, height)
}

/// Whether the rows of a message can be counted, so that it can be laid out.
pub fn notice_fits(message: &str, area: Rect) -> (r: bool)
    ensures
        r == (notice_rows(message@, area) <= u16::MAX),
{
    count_notice_lines(message, area) <= u16::MAX - 4
}

/// The text of a message, with how to get rid of it.
pub fn notice_body(message: &str) -> (r: String)
    ensures
        r@ == message@ + "\n\npress any key to dismiss"@,
{
    let mut r = message.to_owned();
    r.push_str("\n\npress any key to dismiss");
    r
}

// ---------------------------------------------------------------------------
// Prompts

/// The place of a prompt in the file transfer; an error takes two more lines.
pub open spec fn sftp_prompt_place(area: Rect, error: bool) -> Rect {
    centered(
        area,
        share(area.width as int, 70, 40),
        smaller(
            if error {
                9
            } else {
                7
            },
            area.height as int,
        ),
    )
}

/// Lay out a prompt in the file transfer.
pub fn plan_sftp_prompt(area: Rect, error: bool) -> (r: Rect)
    requires
        area.fits(),
        share_fits(area.width as int, 70),
    ensures
        r == sftp_prompt_place(area, error),
{
    let height: u16 = if error {
        9
    } else {
        7
    };
    center(area, take_share(area.width, 70, 40), at_most(height, area.height))
}

/// The place of the prompt for an import; an error takes two more lines.
pub open spec fn import_prompt_place(area: Rect, error: bool) -> Rect {
    centered(
        area,
        share(area.width as int, 80, 50),
        smaller(
            if error {
                10
            } else {
                8
            },
            area.height as int,
        ),
    )
}

/// Lay out the prompt for an import.
pub fn plan_import_prompt(area: Rect, error: bool) -> (r: Rect)
    requires
        area.fits(),
        share_fits(area.width as int, 80),
    ensures
        r == import_prompt_place(area, error),
{
    let height: u16 = if error {
        10
    } else {
        8
    };
    center(area, take_share(area.width, 80, 50), at_most(height, area.height))
}

/// What is asked for in the file transfer.
#[derive(Debug, Clone, Copy, PartialEq, Eq, Structural)]
pub enum SftpPromptKind {
    Mkdir,
    Rename,
    Chmod,
}

impl SftpPromptKind {
    /// The title of the prompt, and its question.
    pub fn words(self) -> (r: (&'static str, &'static str))
        ensures
            self == SftpPromptKind::Mkdir ==> r.0@ == " New folder "@ && r.1@
                == "New folder name:"@,
            self == SftpPromptKind::Rename ==> r.0@ == " Rename "@ && r.1@ == "Rename to:"@,
            self == SftpPromptKind::Chmod ==> r.0@ == " Permissions "@ && r.1@
                == "Permissions (octal, e.g. 755):"@,
            (r.0@, r.1@) == prompt_words(self),
    {
        match self {
            SftpPromptKind::Mkdir => (" New folder ", "New folder name:"),
            SftpPromptKind::Rename => (" Rename ", "Rename to:"),
            SftpPromptKind::Chmod => (" Permissions ", "Permissions (octal, e.g. 755):"),
        }
    }
}

/// What a line of a prompt is.
#[derive(Debug, Clone, Copy, PartialEq, Eq, Structural)]
pub enum PromptRole {
    Question,
    Answer,
    Blank,
    Error,
    Keys,
}

/// The lines of a prompt: the question, the answer so far, what is wrong with it if
/// anything is, and the keys.
pub open spec fn prompt_text(
    question: Seq<char>,
    answer: Seq<char>,
    error: Option<Seq<char>>,
    keys: Seq<char>,
) -> Seq<(PromptRole, Seq<char>)> {
    seq![
        (PromptRole::Question, question),
        (PromptRole::Answer, answer),
        (PromptRole::Blank, Seq::empty()),
    ] + (if error is Some {
        seq![
            (PromptRole::Error, "\u{2717} "@ + error->0),
            (PromptRole::Blank, Seq::empty()),
        ]
    } else {
        Seq::empty()
    }) + seq![(PromptRole::Keys, keys)]
}

/// Lines with their roles, as texts.
pub open spec fn role_texts(v: Seq<(PromptRole, String)>) -> Seq<(PromptRole, Seq<char>)> {
    v.map_values(|p: (PromptRole, String)| (p.0, p.1@))
}

/// The lines of a prompt.
pub fn prompt_lines(question: &str, answer: &str, error: Option<&str>, keys: &str) -> (r: Vec<
    (PromptRole, String),
>)
    ensures
        role_texts(r@) == prompt_text(question@, answer@, str_opt(error), keys@),
{
    let mut v: Vec<(PromptRole, String)> = Vec::new();
    v.push((PromptRole::Question, question.to_owned()));
    v.push((PromptRole::Answer, answer.to_owned()));
    v.push((PromptRole::Blank, String::new()));
    if let Some(e) = error {
        let mut text = "\u{2717} ".to_owned();
        text.push_str(e);
        v.push((PromptRole::Error, text));
        v.push((PromptRole::Blank, String::new()));
    }
    v.push((PromptRole::Keys, keys.to_owned()));
    assert(role_texts(v@) =~= prompt_text(question@, answer@, str_opt(error), keys@));
    v
}

// ---------------------------------------------------------------------------
// Questions

/// What is asked before the program ends.
pub open spec fn quit_text(active_tunnels: nat) -> Seq<char> {
    if active_tunnels > 0 {
        "Quit sshub?\n"@ + decimal(active_tunnels) + " active tunnel(s) will be closed."@
    } else {
        "Quit sshub?"@
    }
}

/// What is asked before the program ends, and where. Open tunnels take another line.
pub fn plan_confirm_quit(area: Rect, active_tunnels: u64) -> (r: (Rect, String))
    requires
        area.fits(),
    ensures
        r.0 == centered(
            area,
            smaller(44, area.width as int),
            smaller(
                if active_tunnels > 0 {
                    6
                } else {
                    5
                },
                area.height as int,
            ),
        ),
        r.1@ == quit_text(active_tunnels as nat),
        r.0 == quit_place(area, active_tunnels as nat),
{
    let height: u16 = if active_tunnels > 0 {
        6
    } else {
        5
    };
    let place = center(area, at_most(44, area.width), at_most(height, area.height));
    if active_tunnels > 0 {
        let mut text = "Quit sshub?\n".to_owned();
        text.push_str(format_u64(active_tunnels).as_str());
        text.push_str(" active tunnel(s) will be closed.");
        (place, text)
    } else {
        (place, "Quit sshub?".to_owned())
    }
}

/// Where it is asked what to do with unsaved changes.
pub fn plan_confirm_discard(area: Rect) -> (r: Rect)
    requires
        area.fits(),
    ensures
        r == centered(area, smaller(36, area.width as int), smaller(5, area.height as int)),
        r == discard_place(area),
{
    center(area, at_most(36, area.width), at_most(5, area.height))
}

/// What is about to be deleted.
#[derive(Debug)]
pub enum PendingDelete {
    Host(String),
    Identity(String),
    Group(String),
    Tunnel(String),
    SftpEntry { name: String, is_dir: bool },
}

/// What is asked before something is deleted.
pub open spec fn delete_text(pending: Option<PendingDelete>) -> Seq<char> {
    match pending {
        Some(PendingDelete::Host(name)) => "Delete host '"@ + name@ + "'?"@,
        Some(PendingDelete::Identity(name)) => "Delete identity '"@ + name@ + "'?"@,
        Some(PendingDelete::Group(name)) => "Delete group '"@ + name@ + "'?"@,
        Some(PendingDelete::Tunnel(name)) => "Delete tunnel '"@ + name@ + "'?"@,
        Some(PendingDelete::SftpEntry { name, is_dir }) => if is_dir {
            "Delete folder '"@ + name@ + "' and all its contents?"@
        } else {
            "Delete '"@ + name@ + "'?"@
        },
        None => "Delete?"@,
    }
}

fn question(before: &str, name: &String, after: &str) -> (r: String)
    ensures
        r@ == before@ + name@ + after@,
{
    let mut text = before.to_owned();
    text.push_str(name.as_str());
    text.push_str(after);
    text
}

/// What is asked before something is deleted.
pub fn delete_question(pending: &Option<PendingDelete>) -> (r: String)
    ensures
        r@ == delete_text(*pending),
{
    match pending {
        Some(PendingDelete::Host(name)) => question("Delete host '", name, "'?"),
        Some(PendingDelete::Identity(name)) => question("Delete identity '", name, "'?"),
        Some(PendingDelete::Group(name)) => question("Delete group '", name, "'?"),
        Some(PendingDelete::Tunnel(name)) => question("Delete tunnel '", name, "'?"),
        Some(PendingDelete::SftpEntry { name, is_dir }) => {
            if *is_dir {
                question("Delete folder '", name, "' and all its contents?")
            } else {
                question("Delete '", name, "'?")
            }
        },
        None => "Delete?".to_owned(),
    }
}

/// The rows that a text fills when it is broken into so many columns: one at least.
pub open spec fn rows_filled(len: int, width: int) -> int {
    larger((len + width - 1) / width, 1)
}

/// The rows of the question before something is deleted, with its border and the
/// answers. The number of rows that the question fills is kept in sixteen bits.
pub open spec fn delete_rows(area: Rect, message_len: int) -> int {
    rows_filled(message_len, larger(smaller(54, area.width as int) - 2, 1)) % 0x10000 + 4
}

/// The place of the question before something is deleted.
pub open spec fn delete_place(area: Rect, message_len: int) -> Rect {
    centered(
        area,
        smaller(54, area.width as int),
        smaller(delete_rows(area, message_len), area.height as int),
    )
}

/// Count the rows that the question before something is deleted fills, as far as
/// sixteen bits hold the number.
fn count_delete_rows(area: Rect, message: &str) -> (r: u16)
    ensures
        r + 4 == delete_rows(area, message@.len() as int),
{
    let width: u16 = at_most(54, area.width);
    let inner: usize = if width > 3 {
        (width - 2) as usize
    } else {
        1
    };
    let len: usize = chars_of(message).len();
    proof {
        lemma_rows_filled(len as int, inner as int);
    }
    let full: usize = len / inner;
    let rows: usize = if len % inner > 0 {
        full + 1
    } else if full > 0 {
        full
    } else {
        1
    };
    (rows % 0x10000) as u16
}

/// Lay out the question before something is deleted.
pub fn plan_confirm_delete(area: Rect, message: &str) -> (r: Rect)
    requires
        area.fits(),
        delete_rows(area, message@.len() as int) <= u16::MAX,
    ensures
        r == delete_place(area, message@.len() as int),
{
    let wanted: u16 = count_delete_rows(area, message) + 4;
    center(area, at_most(54, area.width), at_most(wanted, area.height))
}

/// Whether the rows of the question before something is deleted can be counted, so
/// that it can be laid out.
pub fn delete_fits(area: Rect, message: &str) -> (r: bool)
    ensures
        r == (delete_rows(area, message@.len() as int) <= u16::MAX),
{
    count_delete_rows(area, message) <= u16::MAX - 4
}

proof fn lemma_rows_filled(len: int, width: int)
    requires
        len >= 0,
        width > 0,
    ensures
        len / width <= len,
        len % width > 0 ==> rows_filled(len, width) == len / width + 1,
        len % width == 0 && len / width > 0 ==> rows_filled(len, width) == len / width,
        len % width == 0 && len / width == 0 ==> rows_filled(len, width) == 1,
        len % width > 0 && width > 1 ==> len / width + 1 <= len,
        width == 1 ==> len % width == 0,
{
    let q = len / width;
    let m = len % width;
    vstd::arithmetic::div_mod::lemma_fundamental_div_mod(len, width);
    vstd::arithmetic::div_mod::lemma_mod_bound(len, width);
    assert(q >= 0) by (nonlinear_arith)
        requires
            len >= 0,
            width > 0,
            q == len / width,
    ;
    assert(q <= len) by (nonlinear_arith)
        requires
            len == width * q + m,
            m >= 0,
            width >= 1,
            q >= 0,
    ;
    if m > 0 {
        assert((len + width - 1) / width == q + 1) by {
            assert(len + width - 1 == (q + 1) * width + (m - 1)) by (nonlinear_arith)
                requires
                    len == width * q + m,
            ;
            vstd::arithmetic::div_mod::lemma_fundamental_div_mod_converse(
                len + width - 1,
                width,
                q + 1,
                m - 1,
            );
        }
        if width > 1 {
            assert(q + 1 <= len) by (nonlinear_arith)
                requires
                    len == width * q + m,
                    m >= 1,
                    width >= 2,
                    q >= 0,
            ;
        }
    } else {
        assert((len + width - 1) / width == q) by {
            assert(len + width - 1 == q * width + (width - 1)) by (nonlinear_arith)
                requires
                    len == width * q + m,
                    m == 0,
            ;
            vstd::arithmetic::div_mod::lemma_fundamental_div_mod_converse(
                len + width - 1,
                width,
                q,
                width - 1,
            );
        }
    }
    if width == 1 {
        assert(m == 0);
    }
}

// ---------------------------------------------------------------------------
// Help

/// The place of the help.
pub open spec fn help_place(area: Rect) -> Rect {
    centered(area, share(area.width as int, 70, 40), share(area.height as int, 60, 16))
}

/// How far the help can be scrolled: what does not fit between its borders, its query
/// and its footer.
pub open spec fn help_scroll_limit(area: Rect, line_count: int) -> int {
    floored(line_count, floored(share(area.height as int, 60, 16), 4))
}

/// How far the help can be scrolled, given how many lines it has.
pub fn help_max_scroll(area: Rect, line_count: u16) -> (r: u16)
    requires
        share_fits(area.height as int, 60),
    ensures
        r == help_scroll_limit(area, line_count as int),
{
    let height: u16 = take_share(area.height, 60, 16);
    line_count.saturating_sub(height.saturating_sub(4))
}

/// Everything that is laid out for the help.
#[derive(Debug, Clone, Copy, PartialEq, Eq, Structural)]
pub struct HelpPopup {
    pub place: Rect,
    /// Where the query starts; it has the width of `inner`.
    pub inner: Rect,
    pub body: Rect,
    pub footer_y: u16,
    pub scroll: u16,
}

/// Lay out the help, scrolled so far.
pub fn plan_help_popup(area: Rect, line_count: u16, scroll: u16) -> (r: HelpPopup)
    requires
        area.fits(),
        share_fits(area.width as int, 70),
        share_fits(area.height as int, 60),
    ensures
        r.place == help_place(area),
        r.inner == help_place(area).inside_border(),
        r.body == Rect::cut(
            r.inner.x as int,
            crate::tui::geometry::capped(r.inner.y as int, 1),
            r.inner.width as int,
            floored(r.inner.height as int, 2),
        ),
        r.footer_y == r.inner.y + floored(r.inner.height as int, 1),
        r.scroll == smaller(scroll as int, help_scroll_limit(area, line_count as int)),
        r == help_layout(area, line_count as int, scroll as int),
{
    let place = center(area, take_share(area.width, 70, 40), take_share(area.height, 60, 16));
    let inner = place.inner();
    let body = Rect::new(
        inner.x,
        inner.y.saturating_add(1),
        inner.width,
        inner.height.saturating_sub(2),
    );
    let footer_y: u16 = inner.y + inner.height.saturating_sub(1);
    let limit: u16 = help_max_scroll(area, line_count);
    HelpPopup { place, inner, body, footer_y, scroll: at_most(scroll, limit) }
}

/// No popup reaches beyond the screen, however small it is.
pub proof fn law_popups_stay_inside(area: Rect, message: Seq<char>, error: bool)
    requires
        area.fits(),
    ensures
        area.covers(form_place(area)),
        area.covers(notice_place(message, area)),
        area.covers(sftp_prompt_place(area, error)),
        area.covers(import_prompt_place(area, error)),
        area.covers(delete_place(area, message.len() as int)),
        area.covers(help_place(area)),
{
    let width = smaller(54, area.width as int);
    lemma_rows_filled(message.len() as int, larger(width - 2, 1));
    lemma_rough_lines_nonneg(
        split_on(message, '\n'),
        larger(notice_width(area) - 2, 1),
    );
}

/// A size is so many percent of what there is, rounded down, wherever that is more than
/// a minimum; where it is not, it is the minimum; and it is what there is where that is
/// no more than the minimum.
pub open spec fn takes(size: int, avail: int, percent: int, min: int) -> bool {
    &&& avail <= min ==> size == avail
    &&& avail > min ==> min <= size <= avail
    &&& avail > min && avail * percent < (min + 1) * 100 ==> size == min
    &&& avail > min && avail * percent >= (min + 1) * 100 ==> size * 100 <= avail * percent < (size
        + 1) * 100
}

/// A form takes seven tenths of the screen, but fifty columns and eighteen rows at
/// least.
pub proof fn law_form_takes(area: Rect)
    requires
        area.fits(),
    ensures
        takes(form_place(area).width as int, area.width as int, 70, 50),
        takes(form_place(area).height as int, area.height as int, 70, 18),
{
}

/// The help takes seven tenths of the columns and six tenths of the rows, but forty
/// columns and sixteen rows at least.
pub proof fn law_help_takes(area: Rect)
    requires
        area.fits(),
    ensures
        takes(help_place(area).width as int, area.width as int, 70, 40),
        takes(help_place(area).height as int, area.height as int, 60, 16),
{
}

/// A prompt in the file transfer takes seven tenths of the columns, but forty at least,
/// and the prompt for an import eight tenths, but fifty at least. The first has seven
/// rows and the second has eight, if there are so many, and two more with an error.
pub proof fn law_prompts_take(area: Rect, error: bool)
    requires
        area.fits(),
    ensures
        ({
            let more: int = if error {
                2
            } else {
                0
            };
            let sftp = sftp_prompt_place(area, error);
            let import = import_prompt_place(area, error);
            &&& takes(sftp.width as int, area.width as int, 70, 40)
            &&& takes(import.width as int, area.width as int, 80, 50)
            &&& area.height >= 7 + more ==> sftp.height == 7 + more
            &&& area.height < 7 + more ==> sftp.height == area.height
            &&& area.height >= 8 + more ==> import.height == 8 + more
            &&& area.height < 8 + more ==> import.height == area.height
        }),
{
}

/// What is wrong with a form is said two cells inside of its left and right edges, on
/// the row above its lower border, wherever the form has more than four columns and
/// more than two rows.
pub proof fn law_form_notice_place(popup: Rect)
    requires
        popup.fits(),
    ensures
        form_notice(popup) is Some <==> popup.width > 4 && popup.height > 2,
        form_notice(popup) is Some ==> {
            let place = form_notice(popup)->0;
            &&& place.x - popup.x == 2
            &&& place.x + place.width + 2 == popup.x + popup.width
            &&& place.y + 2 == popup.y + popup.height
        },
{
}

/// The name that is found is that of the first entry with the number, and none is found
/// only where no entry has it.
pub proof fn law_name_is_the_first(list: Seq<(i64, String)>, id: i64)
    ensures
        name_under(list, id) is None <==> forall|i: int|
            0 <= i < list.len() ==> (#[trigger] list[i]).0 != id,
        forall|i: int|
            0 <= i < list.len() && (#[trigger] list[i]).0 == id && (forall|k: int|
                0 <= k < i ==> (#[trigger] list[k]).0 != id) ==> name_under(list, id) == Some(
                list[i].1,
            ),
    decreases list.len(),
{
    if list.len() > 0 && list[0].0 != id {
        let rest = list.skip(1);
        law_name_is_the_first(rest, id);
        assert(forall|i: int| 0 <= i < rest.len() ==> (#[trigger] rest[i]) == list[i + 1]);
        assert forall|i: int|
            0 <= i < list.len() && (#[trigger] list[i]).0 == id && (forall|k: int|
                0 <= k < i ==> (#[trigger] list[k]).0 != id) implies name_under(list, id) == Some(
            list[i].1,
        ) by {
            assert(rest[i - 1] == list[i]);
            assert forall|k: int| 0 <= k < i - 1 implies (#[trigger] rest[k]).0 != id by {
                assert(list[k + 1].0 != id);
            }
        }
        if name_under(list, id) is None {
            assert forall|i: int| 0 <= i < list.len() implies (#[trigger] list[i]).0 != id by {
                if i > 0 {
                    assert(rest[i - 1] == list[i]);
                }
            }
        } else if forall|i: int| 0 <= i < list.len() ==> (#[trigger] list[i]).0 != id {
            assert forall|i: int| 0 <= i < rest.len() implies (#[trigger] rest[i]).0 != id by {
                assert(list[i + 1].0 != id);
            }
        }
    }
}

/// A message of one line counts one row, and another for every time that it fills the
/// columns between the borders: fifty-eight on a screen of sixty columns or more, two
/// less than there are on a smaller one, and one at least. Another line adds as many as
/// it counts alone.
pub proof fn law_message_lines_add_up(message: Seq<char>, line: Seq<char>, area: Rect)
    requires
        !line.contains('\n'),
    ensures
        ({
            let rows = notice_lines(line, area);
            &&& notice_lines(message + seq!['\n'] + line, area) == notice_lines(message, area) + rows
            &&& area.width >= 60 ==> (rows - 1) * 58 <= line.len() < rows * 58
            &&& 3 <= area.width < 60 ==> (rows - 1) * (area.width - 2) <= line.len() < rows * (
            area.width - 2)
            &&& area.width < 3 ==> rows == line.len() + 1
        }),
{
    crate::text::law_split_one_more(message, line, '\n');
    let width = larger(notice_width(area) - 2, 1);
    let lines = split_on(message, '\n');
    assert(lines.push(line).drop_last() =~= lines);
    assert(seq![line].drop_last() =~= Seq::empty());
    assert(rough_lines(seq![line].drop_last(), width) == 0);
    let rows = notice_lines(line, area);
    let n = line.len() as int;
    assert(rows == n / width + 1);
    vstd::arithmetic::div_mod::lemma_fundamental_div_mod(n, width);
    vstd::arithmetic::div_mod::lemma_mod_bound(n, width);
    assert((rows - 1) * width <= n < rows * width) by (nonlinear_arith)
        requires
            rows == n / width + 1,
            n == width * (n / width) + n % width,
            0 <= n % width < width,
    ;
    if area.width >= 60 {
        assert(width == 58);
    } else if area.width >= 3 {
        assert(width == area.width - 2);
    } else {
        assert(width == 1);
        assert(n / width == n);
    }
}

/// A message has sixty columns, or all that there are. It has four rows more than its
/// lines, but five at least, as far as there are so many.
pub proof fn law_message_takes(message: Seq<char>, area: Rect)
    requires
        area.fits(),
        notice_lines(message, area) <= 0xffff,
    ensures
        ({
            let place = notice_place(message, area);
            let wanted = notice_lines(message, area) + 4;
            &&& area.width >= 60 ==> place.width == 60
            &&& area.width < 60 ==> place.width == area.width
            &&& wanted >= area.height ==> place.height == area.height
            &&& 5 <= wanted < area.height ==> place.height == wanted
            &&& wanted < 5 <= area.height ==> place.height == 5
            &&& wanted < area.height < 5 ==> place.height == area.height
        }),
{
    lemma_rough_lines_nonneg(split_on(message, '\n'), larger(notice_width(area) - 2, 1));
}

/// A prompt begins with its question, the answer so far and a blank line, and ends with
/// its keys. Between them nothing stands but what is wrong, behind a cross and a space,
/// and another blank line.
pub proof fn law_prompt_line_by_line(
    question: Seq<char>,
    answer: Seq<char>,
    error: Option<Seq<char>>,
    keys: Seq<char>,
)
    ensures
        ({
            let lines = prompt_text(question, answer, error, keys);
            &&& lines.len() == (if error is Some {
                6int
            } else {
                4int
            })
            &&& lines[0] == (PromptRole::Question, question)
            &&& lines[1] == (PromptRole::Answer, answer)
            &&& lines[2].0 == PromptRole::Blank && lines[2].1.len() == 0
            &&& lines.last() == (PromptRole::Keys, keys)
            &&& error is Some ==> {
                &&& lines[3].0 == PromptRole::Error
                &&& lines[3].1.len() == error->0.len() + 2
                &&& lines[3].1[0] as int == 0x2717
                &&& lines[3].1[1] as int == 32
                &&& lines[3].1.skip(2) == error->0
                &&& lines[4].0 == PromptRole::Blank && lines[4].1.len() == 0
            }
        }),
{
    reveal_strlit("\u{2717} ");
    if error is Some {
        assert(("\u{2717} "@ + error->0).skip(2) =~= error->0);
    }
}

/// Before the program ends it is asked whether it should. Open tunnels take a second
/// line, which begins with their number.
pub proof fn law_quit_names_the_tunnels(active_tunnels: nat)
    ensures
        ({
            let text = quit_text(active_tunnels);
            let question = "Quit sshub?"@;
            &&& active_tunnels == 0 ==> text == question
            &&& active_tunnels > 0 ==> {
                let lines = split_on(text, '\n');
                let number = decimal(active_tunnels);
                &&& lines.len() == 2
                &&& lines[0] == question
                &&& lines[1] == number + " active tunnel(s) will be closed."@
                &&& crate::text::digits_value(number) == active_tunnels
            }
        }),
{
    if active_tunnels > 0 {
        let text = quit_text(active_tunnels);
        let question = "Quit sshub?"@;
        let number = decimal(active_tunnels);
        let line = number + " active tunnel(s) will be closed."@;
        crate::text::law_decimal_reads_back(active_tunnels);
        reveal_strlit("Quit sshub?");
        reveal_strlit("Quit sshub?\n");
        reveal_strlit(" active tunnel(s) will be closed.");
        assert(text =~= question + seq!['\n'] + line);
        assert forall|i: int| 0 <= i < line.len() implies line[i] != '\n' by {
            if i < number.len() {
                assert(crate::text::is_digit(number[i]));
            }
        }
        assert forall|i: int| 0 <= i < question.len() implies question[i] != '\n' by {}
        crate::text::law_split_one_more(question, line, '\n');
        crate::text::law_split_one_more(Seq::empty(), question, '\n');
    }
}

/// Where it is asked whether the program should end.
pub open spec fn quit_place(area: Rect, active_tunnels: nat) -> Rect {
    centered(
        area,
        smaller(44, area.width as int),
        smaller(
            if active_tunnels > 0 {
                6
            } else {
                5
            },
            area.height as int,
        ),
    )
}

/// Where it is asked what to do with unsaved changes.
pub open spec fn discard_place(area: Rect) -> Rect {
    centered(area, smaller(36, area.width as int), smaller(5, area.height as int))
}

/// On a screen with room for it, the question whether the program should end has
/// forty-four columns and five rows, and a sixth with open tunnels; that about unsaved
/// changes has thirty-six columns and five rows. A smaller screen is filled.
pub proof fn law_questions_take(area: Rect, active_tunnels: nat)
    requires
        area.fits(),
    ensures
        ({
            let quit = quit_place(area, active_tunnels);
            let discard = discard_place(area);
            &&& area.covers(quit)
            &&& area.covers(discard)
            &&& area.width >= 44 ==> quit.width == 44
            &&& area.width < 44 ==> quit.width == area.width
            &&& area.height >= 6 && active_tunnels > 0 ==> quit.height == 6
            &&& area.height >= 5 && active_tunnels == 0 ==> quit.height == 5
            &&& area.height < 5 ==> quit.height == area.height
            &&& area.height == 5 ==> quit.height == 5
            &&& area.width >= 36 ==> discard.width == 36
            &&& area.width < 36 ==> discard.width == area.width
            &&& area.height >= 5 ==> discard.height == 5
            &&& area.height < 5 ==> discard.height == area.height
        }),
{
}

/// Whether a text begins with another, has a name behind it and ends with a third.
pub open spec fn asks(
    text: Seq<char>,
    before: Seq<char>,
    name: Seq<char>,
    after: Seq<char>,
) -> bool {
    &&& text.len() == before.len() + name.len() + after.len()
    &&& text.take(before.len() as int) == before
    &&& text.subrange(before.len() as int, (before.len() + name.len()) as int) == name
    &&& text.skip((before.len() + name.len()) as int) == after
}

proof fn lemma_asks(before: Seq<char>, name: Seq<char>, after: Seq<char>)
    ensures
        asks(before + name + after, before, name, after),
{
    let text = before + name + after;
    assert(text.take(before.len() as int) =~= before);
    assert(text.subrange(before.len() as int, (before.len() + name.len()) as int) =~= name);
    assert(text.skip((before.len() + name.len()) as int) =~= after);
}

/// What is asked before something is deleted has its name in quotes, behind what it is;
/// of a folder it adds that everything in it goes too.
pub proof fn law_delete_names_what_goes(name: String)
    ensures
        asks(
            delete_text(Some(PendingDelete::Host(name))),
            seq!['D', 'e', 'l', 'e', 't', 'e', ' ', 'h', 'o', 's', 't', ' ', '\''],
            name@,
            seq!['\'', '?'],
        ),
        asks(
            delete_text(Some(PendingDelete::Identity(name))),
            "Delete identity '"@,
            name@,
            seq!['\'', '?'],
        ),
        asks(
            delete_text(Some(PendingDelete::Group(name))),
            "Delete group '"@,
            name@,
            seq!['\'', '?'],
        ),
        asks(
            delete_text(Some(PendingDelete::Tunnel(name))),
            "Delete tunnel '"@,
            name@,
            seq!['\'', '?'],
        ),
        asks(
            delete_text(Some(PendingDelete::SftpEntry { name, is_dir: false })),
            "Delete '"@,
            name@,
            seq!['\'', '?'],
        ),
        asks(
            delete_text(Some(PendingDelete::SftpEntry { name, is_dir: true })),
            "Delete folder '"@,
            name@,
            "' and all its contents?"@,
        ),
        delete_text(None) == seq!['D', 'e', 'l', 'e', 't', 'e', '?'],
{
    reveal_strlit("Delete host '");
    reveal_strlit("'?");
    reveal_strlit("Delete?");
    assert("'?"@ =~= seq!['\'', '?']);
    assert("Delete?"@ =~= seq!['D', 'e', 'l', 'e', 't', 'e', '?']);
    assert("Delete host '"@ =~= seq![
        'D',
        'e',
        'l',
        'e',
        't',
        'e',
        ' ',
        'h',
        'o',
        's',
        't',
        ' ',
        '\'',
    ]);
    lemma_asks("Delete host '"@, name@, "'?"@);
    lemma_asks("Delete identity '"@, name@, "'?"@);
    lemma_asks("Delete group '"@, name@, "'?"@);
    lemma_asks("Delete tunnel '"@, name@, "'?"@);
    lemma_asks("Delete '"@, name@, "'?"@);
    lemma_asks("Delete folder '"@, name@, "' and all its contents?"@);
}

/// The question before something is deleted has fifty-four columns, or all that there
/// are. It has four rows more than its text fills between the borders, as far as there
/// are so many: each row but the last is filled, and the last is empty only where the
/// text is.
pub proof fn law_delete_question_takes(area: Rect, message_len: int)
    requires
        area.fits(),
        message_len >= 0,
        rows_filled(message_len, larger(smaller(54, area.width as int) - 2, 1)) <= 0xffff,
    ensures
        ({
            let place = delete_place(area, message_len);
            let rows = delete_rows(area, message_len) - 4;
            &&& area.width >= 54 ==> place.width == 54
            &&& area.width < 54 ==> place.width == area.width
            &&& rows + 4 <= area.height ==> place.height == rows + 4
            &&& rows + 4 > area.height ==> place.height == area.height
            &&& rows >= 1
            &&& area.width >= 54 ==> message_len <= rows * 52 && (rows > 1 ==> (rows - 1) * 52
                < message_len)
            &&& 3 <= area.width < 54 ==> message_len <= rows * (area.width - 2) && (rows > 1 ==> (
            rows - 1) * (area.width - 2) < message_len)
            &&& area.width < 3 && message_len > 0 ==> rows == message_len
        }),
{
    let width = larger(smaller(54, area.width as int) - 2, 1);
    let rows = rows_filled(message_len, width);
    lemma_rows_filled(message_len, width);
    let q = message_len / width;
    let m = message_len % width;
    vstd::arithmetic::div_mod::lemma_fundamental_div_mod(message_len, width);
    vstd::arithmetic::div_mod::lemma_mod_bound(message_len, width);
    assert(q >= 0) by (nonlinear_arith)
        requires
            message_len >= 0,
            width > 0,
            q == message_len / width,
    ;
    assert(delete_rows(area, message_len) - 4 == rows);
    assert(message_len <= rows * width && (rows > 1 ==> (rows - 1) * width < message_len)) by (
    nonlinear_arith)
        requires
            message_len == width * q + m,
            0 <= m < width,
            q >= 0,
            m > 0 ==> rows == q + 1,
            m == 0 && q > 0 ==> rows == q,
            m == 0 && q == 0 ==> rows == 1,
    ;
    if area.width < 3 {
        assert(width == 1);
        assert(message_len <= rows && (rows > 1 ==> rows - 1 < message_len));
    }
}

/// The title and the question of a prompt in the file transfer.
pub open spec fn prompt_words(kind: SftpPromptKind) -> (Seq<char>, Seq<char>) {
    match kind {
        SftpPromptKind::Mkdir => (" New folder "@, "New folder name:"@),
        SftpPromptKind::Rename => (" Rename "@, "Rename to:"@),
        SftpPromptKind::Chmod => (" Permissions "@, "Permissions (octal, e.g. 755):"@),
    }
}

/// Each prompt in the file transfer is told apart by its title and by its question. A
/// title stands between two spaces, and its question begins with the title and ends
/// with a colon.
pub proof fn law_prompts_are_told_apart(kind: SftpPromptKind, other: SftpPromptKind)
    ensures
        ({
            let (title, question) = prompt_words(kind);
            let n = title.len() as int;
            &&& n >= 8
            &&& title[0] as int == 32 && title[n - 1] as int == 32
            &&& question.take(n - 2) == title.subrange(1, n - 1)
            &&& question.last() as int == 58
            &&& kind == SftpPromptKind::Mkdir ==> title[1] == 'N'
            &&& kind == SftpPromptKind::Rename ==> title[1] == 'R'
            &&& kind == SftpPromptKind::Chmod ==> title[1] == 'P'
            &&& kind != other ==> title != prompt_words(other).0 && question != prompt_words(
                other,
            ).1
        }),
{
    reveal_strlit(" New folder ");
    reveal_strlit("New folder name:");
    reveal_strlit(" Rename ");
    reveal_strlit("Rename to:");
    reveal_strlit(" Permissions ");
    reveal_strlit("Permissions (octal, e.g. 755):");
    let (title, question) = prompt_words(kind);
    assert(question.take(title.len() - 2) =~= title.subrange(1, title.len() - 1));
    assert(" New folder "@[1] == 'N' && " Rename "@[1] == 'R' && " Permissions "@[1] == 'P');
    assert("New folder name:"@[0] == 'N' && "Rename to:"@[0] == 'R'
        && "Permissions (octal, e.g. 755):"@[0] == 'P');
}

/// How the help is laid out.
pub open spec fn help_layout(area: Rect, line_count: int, scroll: int) -> HelpPopup {
    let inner = help_place(area).inside_border();
    HelpPopup {
        place: help_place(area),
        inner,
        body: Rect::cut(
            inner.x as int,
            crate::tui::geometry::capped(inner.y as int, 1),
            inner.width as int,
            floored(inner.height as int, 2),
        ),
        footer_y: (inner.y + floored(inner.height as int, 1)) as u16,
        scroll: smaller(scroll, help_scroll_limit(area, line_count)) as u16,
    }
}

/// In a help with room for it, the text has every row inside the border but the first,
/// which is the query, and the last, which is the footer. The help is scrolled as far as
/// is asked, but its last line is never above the last row of the text, unless all lines
/// fit: then it is not scrolled.
pub proof fn law_help_is_laid_out(area: Rect, line_count: int, scroll: int)
    requires
        area.fits(),
        0 <= line_count <= u16::MAX,
        0 <= scroll <= u16::MAX,
        help_place(area).height >= 5,
        help_place(area).width >= 3,
    ensures
        ({
            let r = help_layout(area, line_count, scroll);
            &&& r.place == help_place(area)
            &&& r.inner.x == r.place.x + 1
            &&& r.inner.y == r.place.y + 1
            &&& r.inner.width == r.place.width - 2
            &&& r.inner.height == r.place.height - 2
            &&& r.body.x == r.inner.x
            &&& r.body.width == r.inner.width
            &&& r.body.y == r.inner.y + 1
            &&& r.body.y + r.body.height == r.footer_y
            &&& r.footer_y + 1 == r.inner.y + r.inner.height
            &&& r.scroll <= scroll
            &&& line_count <= r.body.height ==> r.scroll == 0
            &&& line_count > r.body.height ==> r.scroll + r.body.height <= line_count
            &&& r.scroll < scroll && line_count > r.body.height ==> r.scroll + r.body.height
                == line_count
        }),
{
}

/// The lines of a prompt are read one by one: what each is, and its text.
pub proof fn law_lines_are_read_as_they_are(v: Seq<(PromptRole, String)>, i: int)
    ensures
        role_texts(v).len() == v.len(),
        0 <= i < v.len() ==> role_texts(v)[i].0 == v[i].0 && role_texts(v)[i].1 == v[i].1@,
{
}

/// The lines of a message are counted in sixteen bits: the count starts again at zero
/// when they are full. Four rows are added to it.
pub proof fn law_message_rows_start_again(message: Seq<char>, area: Rect)
    ensures
        ({
            let lines = notice_lines(message, area);
            let rows = notice_rows(message, area);
            &&& lines < 0x10000 ==> rows == lines + 4
            &&& 0x10000 <= lines < 0x20000 ==> rows == lines - 0x10000 + 4
            &&& 4 <= rows <= 0xffff + 4
        }),
{
    lemma_rough_lines_nonneg(split_on(message, '\n'), larger(notice_width(area) - 2, 1));
}

} // verus!
