//! What the screen shows, as styled text segments: the hint line, the
//! list's title and rows, the quit prompt and the item composer. Drawing
//! them is left to the terminal front end.

use vstd::prelude::*;

use crate::app::{AddFocus, AddState, App, Mode, ModeView, add_complete};
use crate::item::{Item, ItemOption, OptionKind, all_kinds, kind_name, lemma_all_kinds};
use crate::layout::{compute_offset, cursor_parts, cursor_split, display_width, offset_spec, pad_kind, padded};
use crate::text::{all_ascii, format_i32, format_usize, int_decimal, nat_digits};
use crate::app::{AddView, AppView};

verus! {

/// The colour role of a piece of text.
#[derive(Debug, Clone, Copy, PartialEq, Eq, Structural)]
pub enum Tone {
    Plain,
    Accent,
    AccentDim,
    Muted,
    Warn,
    Danger,
    Good,
}

/// A run of text with one style.
#[derive(Debug, Clone)]
pub struct Segment {
    pub text: String,
    pub tone: Tone,
    pub bold: bool,
    pub underline: bool,
    pub reversed: bool,
}

/// A segment with its text as characters.
pub struct SegView {
    pub text: Seq<char>,
    pub tone: Tone,
    pub bold: bool,
    pub underline: bool,
    pub reversed: bool,
}

impl View for Segment {
    type V = SegView;

    open spec fn view(&self) -> SegView {
        SegView {
            text: self.text@,
            tone: self.tone,
            bold: self.bold,
            underline: self.underline,
            reversed: self.reversed,
        }
    }
}

pub open spec fn seg_views(s: Seq<Segment>) -> Seq<SegView> {
    s.map_values(|x: Segment| x@)
}

/// Plain-styled text in a tone.
pub open spec fn sv(text: Seq<char>, tone: Tone) -> SegView {
    SegView { text, tone, bold: false, underline: false, reversed: false }
}

/// Bold text in a tone.
pub open spec fn svb(text: Seq<char>, tone: Tone) -> SegView {
    SegView { text, tone, bold: true, underline: false, reversed: false }
}

fn seg(text: &str, tone: Tone) -> (r: Segment)
    ensures
        r@ == sv(text@, tone),
{
    Segment { text: String::from_str(text), tone, bold: false, underline: false, reversed: false }
}

fn seg_bold(text: &str, tone: Tone) -> (r: Segment)
    ensures
        r@ == svb(text@, tone),
{
    Segment { text: String::from_str(text), tone, bold: true, underline: false, reversed: false }
}

fn seg_owned(text: String, tone: Tone) -> (r: Segment)
    ensures
        r@ == sv(text@, tone),
{
    Segment { text, tone, bold: false, underline: false, reversed: false }
}

fn push_seg(v: &mut Vec<Segment>, s: Segment)
    ensures
        seg_views(final(v)@) == seg_views(old(v)@).push(s@),
{
    v.push(s);
    assert(seg_views(v@) =~= seg_views(old(v)@).push(s@));
}

fn append_segs(v: &mut Vec<Segment>, w: Vec<Segment>)
    ensures
        seg_views(final(v)@) == seg_views(old(v)@) + seg_views(w@),
{
    let mut w = w;
    let ghost w0 = w@;
    v.append(&mut w);
    assert(seg_views(v@) =~= seg_views(old(v)@) + seg_views(w0));
}

// ---------------------------------------------------------------------------
// Hint line
// ---------------------------------------------------------------------------

/// A key and what it does, shown as the key in the accent colour and the
/// description muted.
pub open spec fn pair_segs(key: Seq<char>, desc: Seq<char>) -> Seq<SegView> {
    seq![sv(key, Tone::Accent), sv(": "@ + desc, Tone::Muted)]
}

/// Key hints, separated by muted bars.
pub open spec fn hint_line_spec(pairs: Seq<(Seq<char>, Seq<char>)>) -> Seq<SegView>
    decreases pairs.len(),
{
    if pairs.len() == 0 {
        Seq::empty()
    } else {
        hint_line_spec(pairs.drop_last()) + (if pairs.len() > 1 {
            seq![sv("  |  "@, Tone::Muted)]
        } else {
            Seq::empty()
        }) + pair_segs(pairs.last().0, pairs.last().1)
    }
}

pub open spec fn pair_views(pairs: Seq<(&str, &str)>) -> Seq<(Seq<char>, Seq<char>)> {
    pairs.map_values(|p: (&str, &str)| (p.0@, p.1@))
}

fn hint_line(pairs: Vec<(&str, &str)>) -> (r: Vec<Segment>)
    ensures
        seg_views(r@) == hint_line_spec(pair_views(pairs@)),
{
    let mut r: Vec<Segment> = Vec::new();
    let ghost pv = pair_views(pairs@);
    let mut i: usize = 0;
    assert(pv.take(0) =~= Seq::<(Seq<char>, Seq<char>)>::empty());
    assert(seg_views(r@) =~= Seq::<SegView>::empty());
    while i < pairs.len()
        invariant
            i <= pairs@.len(),
            pv == pair_views(pairs@),
            seg_views(r@) == hint_line_spec(pv.take(i as int)),
        decreases pairs@.len() - i,
    {
        let (key, desc) = pairs[i];
        assert(pv.take(i + 1).drop_last() =~= pv.take(i as int));
        if i > 0 {
            push_seg(&mut r, seg("  |  ", Tone::Muted));
        }
        push_seg(&mut r, seg(key, Tone::Accent));
        let d = String::from_str(": ").concat(desc);
        push_seg(&mut r, seg_owned(d, Tone::Muted));
        i = i + 1;
        assert(seg_views(r@) =~= hint_line_spec(pv.take(i as int)));
    }
    assert(pv.take(pairs@.len() as int) =~= pv);
    r
}

pub open spec fn value_pairs() -> Seq<(Seq<char>, Seq<char>)> {
    seq![
        ("숫자/-"@, "입력"@),
        ("←→"@, "커서"@),
        ("Backspace"@, "삭제"@),
        ("Enter"@, "적용"@),
        ("Esc"@, "뒤로"@),
    ]
}

pub open spec fn pick_pairs() -> Seq<(Seq<char>, Seq<char>)> {
    seq![("↑↓"@, "선택"@), ("Enter"@, "확정"@), ("Esc"@, "뒤로"@)]
}

/// The hint line shown at the bottom for each mode.
pub open spec fn hint_spec(m: ModeView, dirty: bool) -> Seq<SegView> {
    match m {
        ModeView::Home { .. } => hint_line_spec(
            seq![("↑↓"@, "이동"@), ("Enter"@, "선택"@), ("q"@, "종료"@)],
        ),
        ModeView::List => hint_line_spec(
            seq![
                ("↑↓"@, "이동"@),
                ("Enter"@, "편집"@),
                ("a"@, "추가"@),
                ("d"@, "삭제"@),
                ("s"@, "저장"@),
                ("u"@, "되돌리기"@),
                ("q"@, "종료"@),
            ],
        ),
        ModeView::Stats { .. } => hint_line_spec(
            seq![
                ("↑↓"@, "이동"@),
                ("Enter"@, "편집"@),
                ("s"@, "저장"@),
                ("Esc"@, "뒤로"@),
                ("q"@, "종료"@),
            ],
        ),
        ModeView::EditStatValue { .. } => hint_line_spec(value_pairs()),
        ModeView::Edit { .. } => hint_line_spec(
            seq![
                ("←→"@, "옵션 이동"@),
                ("Enter"@, "값 편집"@),
                ("↑↓"@, "복귀+이동"@),
                ("Esc"@, "복귀"@),
            ],
        ),
        ModeView::EditKind { .. } => hint_line_spec(pick_pairs()),
        ModeView::EditValue { .. } => hint_line_spec(value_pairs()),
        ModeView::Adding(st) => match st.focus {
            AddFocus::SelectRow => seq![sv("추가 중  "@, Tone::Accent)] + hint_line_spec(
                seq![
                    ("↑↓"@, "이동"@),
                    ("Enter"@, if add_complete(st) {
                        "완료"@
                    } else {
                        "옵션 설정"@
                    }),
                    ("Esc"@, "취소"@),
                ],
            ),
            AddFocus::SelectKind(_) => hint_line_spec(pick_pairs()),
            AddFocus::InputValue(_) => hint_line_spec(
                seq![("숫자"@, "입력"@), ("←→"@, "커서"@), ("Enter"@, "확정"@), ("Esc"@, "뒤로"@)],
            ),
        },
        ModeView::ConfirmDelete { .. } => seq![
            sv("한 번 더 "@, Tone::Muted),
            svb("d"@, Tone::Danger),
            sv(": 삭제 확정"@, Tone::Warn),
            sv("  |  "@, Tone::Muted),
            sv("Esc"@, Tone::Accent),
            sv(": 취소"@, Tone::Muted),
        ],
        ModeView::QuitConfirm => if dirty {
            seq![
                sv("s"@, Tone::Accent),
                sv(": 저장 후 종료  "@, Tone::Muted),
                sv("q"@, Tone::Accent),
                sv(": 그냥 종료  "@, Tone::Muted),
                sv("Esc"@, Tone::Accent),
                sv(": 취소"@, Tone::Muted),
            ]
        } else {
            seq![
                sv("q"@, Tone::Accent),
                sv(": 종료  "@, Tone::Muted),
                sv("Esc"@, Tone::Accent),
                sv(": 취소"@, Tone::Muted),
            ]
        },
    }
}

fn value_hint() -> (r: Vec<Segment>)
    ensures
        seg_views(r@) == hint_line_spec(value_pairs()),
{
    let pairs = vec![("숫자/-", "입력"), ("←→", "커서"), ("Backspace", "삭제"), ("Enter", "적용"), ("Esc", "뒤로")];
    assert(pair_views(pairs@) =~= value_pairs());
    hint_line(pairs)
}

fn pick_hint() -> (r: Vec<Segment>)
    ensures
        seg_views(r@) == hint_line_spec(pick_pairs()),
{
    let pairs = vec![("↑↓", "선택"), ("Enter", "확정"), ("Esc", "뒤로")];
    assert(pair_views(pairs@) =~= pick_pairs());
    hint_line(pairs)
}

/// The hint line for the editor's mode.
pub fn hint_segments(mode: &Mode, dirty: bool) -> (r: Vec<Segment>)
    ensures
        seg_views(r@) == hint_spec(mode@, dirty),
{
    match mode {
        Mode::Home { .. } => {
            let pairs = vec![("↑↓", "이동"), ("Enter", "선택"), ("q", "종료")];
            assert(pair_views(pairs@) =~= seq![("↑↓"@, "이동"@), ("Enter"@, "선택"@), ("q"@, "종료"@)]);
            hint_line(pairs)
        },
        Mode::List => {
            let pairs = vec![
                ("↑↓", "이동"),
                ("Enter", "편집"),
                ("a", "추가"),
                ("d", "삭제"),
                ("s", "저장"),
                ("u", "되돌리기"),
                ("q", "종료"),
            ];
            assert(pair_views(pairs@) =~= seq![
                ("↑↓"@, "이동"@),
                ("Enter"@, "편집"@),
                ("a"@, "추가"@),
                ("d"@, "삭제"@),
                ("s"@, "저장"@),
                ("u"@, "되돌리기"@),
                ("q"@, "종료"@),
            ]);
            hint_line(pairs)
        },
        Mode::Stats { .. } => {
            let pairs = vec![("↑↓", "이동"), ("Enter", "편집"), ("s", "저장"), ("Esc", "뒤로"), ("q", "종료")];
            assert(pair_views(pairs@) =~= seq![
                ("↑↓"@, "이동"@),
                ("Enter"@, "편집"@),
                ("s"@, "저장"@),
                ("Esc"@, "뒤로"@),
                ("q"@, "종료"@),
            ]);
            hint_line(pairs)
        },
        Mode::EditStatValue { .. } => value_hint(),
        Mode::Edit { .. } => {
            let pairs = vec![("←→", "옵션 이동"), ("Enter", "값 편집"), ("↑↓", "복귀+이동"), ("Esc", "복귀")];
            assert(pair_views(pairs@) =~= seq![
                ("←→"@, "옵션 이동"@),
                ("Enter"@, "값 편집"@),
                ("↑↓"@, "복귀+이동"@),
                ("Esc"@, "복귀"@),
            ]);
            hint_line(pairs)
        },
        Mode::EditKind { .. } => pick_hint(),
        Mode::EditValue { .. } => value_hint(),
        Mode::Adding(state) => match state.focus {
            AddFocus::SelectRow => {
                let enter_desc = if state.both_complete() {
                    "완료"
                } else {
                    "옵션 설정"
                };
                let pairs = vec![("↑↓", "이동"), ("Enter", enter_desc), ("Esc", "취소")];
                assert(pair_views(pairs@) =~= seq![
                    ("↑↓"@, "이동"@),
                    ("Enter"@, if add_complete(state@) {
                        "완료"@
                    } else {
                        "옵션 설정"@
                    }),
                    ("Esc"@, "취소"@),
                ]);
                let mut r: Vec<Segment> = Vec::new();
                push_seg(&mut r, seg("추가 중  ", Tone::Accent));
                append_segs(&mut r, hint_line(pairs));
                r
            },
            AddFocus::SelectKind(_) => pick_hint(),
            AddFocus::InputValue(_) => {
                let pairs = vec![("숫자", "입력"), ("←→", "커서"), ("Enter", "확정"), ("Esc", "뒤로")];
                assert(pair_views(pairs@) =~= seq![
                    ("숫자"@, "입력"@),
                    ("←→"@, "커서"@),
                    ("Enter"@, "확정"@),
                    ("Esc"@, "뒤로"@),
                ]);
                hint_line(pairs)
            },
        },
        Mode::ConfirmDelete { .. } => {
            let mut r: Vec<Segment> = Vec::new();
            push_seg(&mut r, seg("한 번 더 ", Tone::Muted));
            push_seg(&mut r, seg_bold("d", Tone::Danger));
            push_seg(&mut r, seg(": 삭제 확정", Tone::Warn));
            push_seg(&mut r, seg("  |  ", Tone::Muted));
            push_seg(&mut r, seg("Esc", Tone::Accent));
            push_seg(&mut r, seg(": 취소", Tone::Muted));
            assert(seg_views(r@) =~= hint_spec(mode@, dirty));
            r
        },
        Mode::QuitConfirm => {
            let mut r: Vec<Segment> = Vec::new();
            if dirty {
                push_seg(&mut r, seg("s", Tone::Accent));
                push_seg(&mut r, seg(": 저장 후 종료  ", Tone::Muted));
                push_seg(&mut r, seg("q", Tone::Accent));
                push_seg(&mut r, seg(": 그냥 종료  ", Tone::Muted));
            } else {
                push_seg(&mut r, seg("q", Tone::Accent));
                push_seg(&mut r, seg(": 종료  ", Tone::Muted));
            }
            push_seg(&mut r, seg("Esc", Tone::Accent));
            push_seg(&mut r, seg(": 취소", Tone::Muted));
            assert(seg_views(r@) =~= hint_spec(mode@, dirty));
            r
        },
    }
}


// ---------------------------------------------------------------------------
// List title and empty list
// ---------------------------------------------------------------------------

/// The list's title: how many items there are, then the notice on screen,
/// or else a mark for unsaved changes.
pub open spec fn title_spec(n: nat, flash: Option<Seq<char>>, dirty: bool) -> Seq<SegView> {
    seq![
        svb(" Items ("@ + nat_digits(n) + ")"@, Tone::Accent),
        sv("  "@, Tone::Plain),
        match flash {
            Some(m) => sv(m, Tone::Good),
            None => if dirty {
                sv("● 저장 안 됨"@, Tone::Warn)
            } else {
                sv(Seq::empty(), Tone::Plain)
            },
        },
    ]
}

/// The title of the item list.
pub fn title_segments(app: &App) -> (r: Vec<Segment>)
    ensures
        seg_views(r@) == title_spec(app@.items.len(), app@.flash, app@.dirty),
{
    let mut count = String::from_str(" Items (");
    count.append(format_usize(app.items.len()).as_str());
    count.append(")");
    let mut r: Vec<Segment> = Vec::new();
    push_seg(&mut r, Segment { text: count, tone: Tone::Accent, bold: true, underline: false, reversed: false });
    push_seg(&mut r, seg("  ", Tone::Plain));
    let last = match &app.flash {
        Some((msg, _)) => seg_owned(msg.clone(), Tone::Good),
        None => if app.dirty {
            seg("● 저장 안 됨", Tone::Warn)
        } else {
            seg_owned(String::new(), Tone::Plain)
        },
    };
    push_seg(&mut r, last);
    assert(seg_views(r@) =~= title_spec(app@.items.len(), app@.flash, app@.dirty));
    r
}

/// What the list shows when it holds no item.
pub open spec fn empty_list_spec() -> Seq<SegView> {
    seq![
        sv("아이템이 없습니다. "@, Tone::Plain),
        svb("a"@, Tone::Accent),
        sv("를 눌러 추가하세요."@, Tone::Plain),
    ]
}

/// The line shown in place of an empty list.
pub fn empty_list_segments() -> (r: Vec<Segment>)
    ensures
        seg_views(r@) == empty_list_spec(),
{
    let mut r: Vec<Segment> = Vec::new();
    push_seg(&mut r, seg("아이템이 없습니다. ", Tone::Plain));
    push_seg(&mut r, seg_bold("a", Tone::Accent));
    push_seg(&mut r, seg("를 눌러 추가하세요.", Tone::Plain));
    assert(seg_views(r@) =~= empty_list_spec());
    r
}

// ---------------------------------------------------------------------------
// Quit prompt
// ---------------------------------------------------------------------------

/// The quit prompt's border tone, title and text; it warns when changes
/// are unsaved.
pub open spec fn quit_prompt_spec(dirty: bool) -> (Tone, Seq<char>, Seq<SegView>) {
    if dirty {
        (
            Tone::Warn,
            " 저장 안 된 변경이 있습니다 "@,
            seq![
                sv("s"@, Tone::Accent),
                sv(": 저장 후 종료  "@, Tone::Plain),
                sv("q"@, Tone::Accent),
                sv(": 그냥 종료  "@, Tone::Plain),
                sv("Esc"@, Tone::Accent),
                sv(": 취소"@, Tone::Plain),
            ],
        )
    } else {
        (
            Tone::Accent,
            " 종료 확인 "@,
            seq![
                sv("q"@, Tone::Accent),
                sv(": 종료  "@, Tone::Plain),
                sv("Esc"@, Tone::Accent),
                sv(": 취소"@, Tone::Plain),
            ],
        )
    }
}

/// The quit prompt: its border tone, its title and its text.
pub fn quit_prompt(dirty: bool) -> (r: (Tone, String, Vec<Segment>))
    ensures
        (r.0, r.1@, seg_views(r.2@)) == quit_prompt_spec(dirty),
{
    let mut body: Vec<Segment> = Vec::new();
    if dirty {
        push_seg(&mut body, seg("s", Tone::Accent));
        push_seg(&mut body, seg(": 저장 후 종료  ", Tone::Plain));
        push_seg(&mut body, seg("q", Tone::Accent));
        push_seg(&mut body, seg(": 그냥 종료  ", Tone::Plain));
        push_seg(&mut body, seg("Esc", Tone::Accent));
        push_seg(&mut body, seg(": 취소", Tone::Plain));
        assert(seg_views(body@) =~= quit_prompt_spec(dirty).2);
        (Tone::Warn, String::from_str(" 저장 안 된 변경이 있습니다 "), body)
    } else {
        push_seg(&mut body, seg("q", Tone::Accent));
        push_seg(&mut body, seg(": 종료  ", Tone::Plain));
        push_seg(&mut body, seg("Esc", Tone::Accent));
        push_seg(&mut body, seg(": 취소", Tone::Plain));
        assert(seg_views(body@) =~= quit_prompt_spec(dirty).2);
        (Tone::Accent, String::from_str(" 종료 확인 "), body)
    }
}

/// `a - b`, or zero where `b` is larger.
pub open spec fn sat_sub(a: int, b: int) -> int {
    if a >= b {
        a - b
    } else {
        0
    }
}

/// A popup of `w` by `h` cells centred in an area at (`ax`, `ay`) of `aw`
/// by `ah` cells, at most as wide as the area less four cells: its left
/// edge, top edge, width and height.
pub open spec fn popup_spec(ax: u16, ay: u16, aw: u16, ah: u16, w: u16, h: u16) -> (int, int, int, int) {
    let pw = if w <= sat_sub(aw as int, 4) {
        w as int
    } else {
        sat_sub(aw as int, 4)
    };
    (ax + sat_sub(aw as int, pw) / 2, ay + sat_sub(ah as int, h as int) / 2, pw, h as int)
}

/// Places a popup of `w` by `h` cells in the middle of an area.
pub fn centered_popup(ax: u16, ay: u16, aw: u16, ah: u16, w: u16, h: u16) -> (r: (u16, u16, u16, u16))
    requires
        popup_spec(ax, ay, aw, ah, w, h).0 <= u16::MAX,
        popup_spec(ax, ay, aw, ah, w, h).1 <= u16::MAX,
    ensures
        (r.0 as int, r.1 as int, r.2 as int, r.3 as int) == popup_spec(ax, ay, aw, ah, w, h),
{
    let room = aw.saturating_sub(4);
    let pw = if w <= room {
        w
    } else {
        room
    };
    let x = ax + aw.saturating_sub(pw) / 2;
    let y = ay + ah.saturating_sub(h) / 2;
    (x, y, pw, h)
}


// ---------------------------------------------------------------------------
// List rows
// ---------------------------------------------------------------------------

/// Text in reverse video, as a text cursor is drawn.
pub open spec fn svr(text: Seq<char>) -> SegView {
    SegView { text, tone: Tone::Plain, bold: false, underline: false, reversed: true }
}

/// A buffer with its text cursor: the text before it, the character under
/// it in reverse video, and the text after it where the cursor is inside.
pub open spec fn cursor_segs(buf: Seq<char>, cursor: usize) -> Seq<SegView> {
    let parts = cursor_split(buf, cursor);
    seq![sv(parts.0, Tone::Plain), svr(parts.1)] + if cursor < buf.len() {
        seq![sv(parts.2, Tone::Plain)]
    } else {
        Seq::empty()
    }
}

/// Draws an ASCII buffer with its text cursor.
fn cursor_segments(buf: &String, cursor: usize) -> (r: Vec<Segment>)
    requires
        all_ascii(buf@),
    ensures
        seg_views(r@) == cursor_segs(buf@, cursor),
{
    let (before, at, after) = cursor_parts(buf.as_str(), cursor);
    let mut r: Vec<Segment> = Vec::new();
    push_seg(&mut r, seg_owned(before, Tone::Plain));
    push_seg(&mut r, Segment { text: at, tone: Tone::Plain, bold: false, underline: false, reversed: true });
    if cursor < buf.unicode_len() {
        push_seg(&mut r, seg_owned(after, Tone::Plain));
    }
    assert(seg_views(r@) =~= cursor_segs(buf@, cursor));
    r
}

/// One option of an item in the list: its name and its value, lit up when
/// the item is being edited, with the text cursor when its value is.
pub open spec fn option_segs(m: ModeView, item_idx: int, opt_idx: int, opt: ItemOption) -> Seq<SegView> {
    let label = kind_name(opt.kind) + ": "@;
    let value = int_decimal(opt.value as int);
    let plain = seq![sv(label, Tone::Plain), sv(value, Tone::Plain)];
    let dim = seq![sv(label, Tone::AccentDim), sv(value, Tone::Plain)];
    match m {
        ModeView::Edit { item_idx: i, option_idx: o } => if i == item_idx {
            if o == opt_idx {
                seq![
                    sv(label, Tone::Accent),
                    SegView { text: value, tone: Tone::Accent, bold: false, underline: true, reversed: false },
                ]
            } else {
                dim
            }
        } else {
            plain
        },
        ModeView::EditValue { item_idx: i, option_idx: o, buffer, cursor } => if i == item_idx {
            if o == opt_idx {
                seq![sv(label, Tone::Accent)] + cursor_segs(buffer, cursor)
            } else {
                dim
            }
        } else {
            plain
        },
        _ => plain,
    }
}

/// The value editor's buffer is ASCII.
pub open spec fn value_buffer_ascii(m: ModeView) -> bool {
    match m {
        ModeView::EditValue { buffer, .. } => all_ascii(buffer),
        _ => true,
    }
}

fn option_segments(mode: &Mode, item_idx: usize, opt_idx: usize, opt: ItemOption) -> (r: Vec<Segment>)
    requires
        value_buffer_ascii(mode@),
    ensures
        seg_views(r@) == option_segs(mode@, item_idx as int, opt_idx as int, opt),
{
    let mut label = String::from_str(opt.kind.display_name());
    label.append(": ");
    let value = format_i32(opt.value);
    let mut r: Vec<Segment> = Vec::new();
    match mode {
        Mode::Edit { item_idx: i, option_idx: o } if *i == item_idx => {
            if *o == opt_idx {
                push_seg(&mut r, seg_owned(label, Tone::Accent));
                push_seg(
                    &mut r,
                    Segment { text: value, tone: Tone::Accent, bold: false, underline: true, reversed: false },
                );
            } else {
                push_seg(&mut r, seg_owned(label, Tone::AccentDim));
                push_seg(&mut r, seg_owned(value, Tone::Plain));
            }
        },
        Mode::EditValue { item_idx: i, option_idx: o, buffer, cursor } if *i == item_idx => {
            if *o == opt_idx {
                push_seg(&mut r, seg_owned(label, Tone::Accent));
                append_segs(&mut r, cursor_segments(buffer, *cursor));
            } else {
                push_seg(&mut r, seg_owned(label, Tone::AccentDim));
                push_seg(&mut r, seg_owned(value, Tone::Plain));
            }
        },
        _ => {
            push_seg(&mut r, seg_owned(label, Tone::Plain));
            push_seg(&mut r, seg_owned(value, Tone::Plain));
        },
    }
    assert(seg_views(r@) =~= option_segs(mode@, item_idx as int, opt_idx as int, opt));
    r
}

/// Whether item `k` is the one waiting for a second delete key.
pub open spec fn deleting(m: ModeView, k: int) -> bool {
    match m {
        ModeView::ConfirmDelete { item_idx } => item_idx == k,
        _ => false,
    }
}

/// The two lines that item `k` takes in the list: a marker on the
/// selection (red while a delete waits for confirmation), the item's
/// number and its first option, then its second option indented.
pub open spec fn row_spec(s: AppView, k: int) -> (Seq<SegView>, Seq<SegView>) {
    let item = s.items[k];
    let selected = k == s.selected;
    let confirm = deleting(s.mode, k);
    let arrow = if selected {
        sv(" ▶ "@, if confirm {
            Tone::Danger
        } else {
            Tone::Accent
        })
    } else {
        sv("   "@, Tone::Plain)
    };
    let num = sv(
        nat_digits((k + 1) as nat) + ". "@,
        if confirm {
            Tone::Danger
        } else if selected {
            Tone::Accent
        } else {
            Tone::Plain
        },
    );
    (
        seq![arrow, num] + option_segs(s.mode, k, 0, item.options[0]) + if confirm {
            seq![sv("  (삭제하려면 d 한 번 더)"@, Tone::Warn)]
        } else {
            Seq::empty()
        },
        seq![sv("      "@, Tone::Plain)] + option_segs(s.mode, k, 1, item.options[1]),
    )
}

fn row_segments(app: &App, k: usize) -> (r: (Vec<Segment>, Vec<Segment>))
    requires
        app.inv(),
        k < app.items@.len(),
    ensures
        (seg_views(r.0@), seg_views(r.1@)) == row_spec(app@, k as int),
{
    let n = app.items.len();
    let item: Item = app.items[k];
    let selected = k == app.selected;
    let confirm = match &app.mode {
        Mode::ConfirmDelete { item_idx } => *item_idx == k,
        _ => false,
    };
    let mut line0: Vec<Segment> = Vec::new();
    if selected {
        push_seg(&mut line0, seg(" ▶ ", if confirm {
            Tone::Danger
        } else {
            Tone::Accent
        }));
    } else {
        push_seg(&mut line0, seg("   ", Tone::Plain));
    }
    let mut num = format_usize(k + 1);
    num.append(". ");
    let num_tone = if confirm {
        Tone::Danger
    } else if selected {
        Tone::Accent
    } else {
        Tone::Plain
    };
    push_seg(&mut line0, seg_owned(num, num_tone));
    append_segs(&mut line0, option_segments(&app.mode, k, 0, item.options[0]));
    if confirm {
        push_seg(&mut line0, seg("  (삭제하려면 d 한 번 더)", Tone::Warn));
    }
    let mut line1: Vec<Segment> = Vec::new();
    push_seg(&mut line1, seg("      ", Tone::Plain));
    append_segs(&mut line1, option_segments(&app.mode, k, 1, item.options[1]));
    assert(seg_views(line0@) =~= row_spec(app@, k as int).0);
    assert(seg_views(line1@) =~= row_spec(app@, k as int).1);
    (line0, line1)
}

pub open spec fn rows_view(rows: Seq<(Vec<Segment>, Vec<Segment>)>) -> Seq<(Seq<SegView>, Seq<SegView>)> {
    rows.map_values(|p: (Vec<Segment>, Vec<Segment>)| (seg_views(p.0@), seg_views(p.1@)))
}

/// The rows in view from `offset` on: up to `visible` items, as many as
/// the list still holds.
pub open spec fn rows_spec(s: AppView, offset: int, visible: nat) -> Seq<(Seq<SegView>, Seq<SegView>)> {
    let end = if offset + visible <= s.items.len() {
        offset + visible
    } else {
        s.items.len() as int
    };
    let count = if end >= offset {
        end - offset
    } else {
        0
    };
    Seq::new(count as nat, |d: int| row_spec(s, offset + d))
}

/// Scrolls the list so that the selection is in view of `visible`
/// two-line rows: stores the new offset in `scroll_offset` and returns it
/// with the rows in view.
pub fn visible_rows(app: &mut App, visible: usize) -> (r: (usize, Vec<(Vec<Segment>, Vec<Segment>)>))
    requires
        old(app).inv(),
        old(app)@.scroll_offset + visible <= usize::MAX,
        visible > 0 ==> old(app)@.selected < usize::MAX,
    ensures
        r.0 == offset_spec(old(app)@.selected, old(app)@.scroll_offset, visible),
        final(app)@ == (AppView { scroll_offset: r.0, ..old(app)@ }),
        final(app).flash == old(app).flash,
        final(app).inv(),
        rows_view(r.1@) == rows_spec(final(app)@, r.0 as int, visible as nat),
{
    let offset = compute_offset(app.selected, app.scroll_offset, visible);
    app.scroll_offset = offset;
    let app: &App = app;
    let n = app.items.len();
    let end = if visible <= n && offset <= n - visible {
        offset + visible
    } else {
        n
    };
    let mut rows: Vec<(Vec<Segment>, Vec<Segment>)> = Vec::new();
    let mut k: usize = offset;
    let ghost want = rows_spec(app@, offset as int, visible as nat);
    assert(want.len() == if end >= offset { end - offset } else { 0 });
    while k < end
        invariant
            app.inv(),
            n == app.items@.len(),
            end <= n,
            offset <= k <= end || (k == offset && end < offset),
            want == rows_spec(app@, offset as int, visible as nat),
            want.len() == if end >= offset { end - offset } else { 0 },
            rows_view(rows@) == want.take(k - offset),
        decreases end - k,
    {
        let row = row_segments(app, k);
        let ghost before = rows@;
        let ghost row_v = (seg_views(row.0@), seg_views(row.1@));
        rows.push(row);
        assert(rows_view(rows@) =~= rows_view(before).push(row_v));
        assert(want[k - offset] == row_spec(app@, k as int));
        k = k + 1;
        assert(rows_view(rows@) =~= want.take(k - offset));
    }
    assert(rows_view(rows@) =~= want);
    (offset, rows)
}


// ---------------------------------------------------------------------------
// Item composer
// ---------------------------------------------------------------------------

/// Whether option row `row` of the composer has the focus.
pub open spec fn row_active(a: AddView, row: int) -> bool {
    match a.focus {
        AddFocus::SelectRow => a.row_cursor == row,
        AddFocus::SelectKind(r) => r == row,
        AddFocus::InputValue(r) => r == row,
    }
}

/// A name padded to the option-name column.
pub open spec fn kind_cell(name: Seq<char>) -> Seq<char> {
    padded(name, display_width(name))
}

/// Row `opt_num` (1 or 2) of the composer: a marker and the number where
/// the row has the focus, the option's name (or a placeholder), then its
/// value, with the text cursor while it is typed, or a placeholder. Other
/// row numbers draw nothing.
pub open spec fn add_row_spec(a: AddView, opt_num: u8) -> Seq<SegView> {
    let row = opt_num - 1;
    let active = row_active(a, row);
    let typing = a.focus == AddFocus::InputValue(row as u8);
    let kind = if opt_num == 1 {
        a.kind1
    } else {
        a.kind2
    };
    let buf = if opt_num == 1 {
        a.value1
    } else {
        a.value2
    };
    if opt_num != 1 && opt_num != 2 {
        Seq::empty()
    } else {
        seq![
            if active {
                sv(" ▶ "@, Tone::Accent)
            } else {
                sv("   "@, Tone::Plain)
            },
            sv(nat_digits(opt_num as nat) + ". "@, if active {
                Tone::Accent
            } else {
                Tone::Muted
            }),
            match kind {
                Some(k) => sv(kind_cell(kind_name(k)), if active {
                    Tone::Accent
                } else {
                    Tone::Plain
                }),
                None => sv(kind_cell("<옵션 선택>"@), Tone::Muted),
            },
            sv("    "@, Tone::Plain),
        ] + if typing {
            cursor_segs(buf, a.val_cursor)
        } else if kind is Some && buf.len() > 0 {
            seq![sv(buf, Tone::Plain)]
        } else {
            seq![sv("<값 입력>"@, Tone::Muted)]
        }
    }
}

/// The value being typed in the composer, if any, is ASCII.
pub open spec fn typed_ascii(a: AddView) -> bool {
    match a.focus {
        AddFocus::InputValue(r) => (r == 0 ==> all_ascii(a.value1)) && (r == 1 ==> all_ascii(a.value2)),
        _ => true,
    }
}

/// One option row of the item composer.
pub fn add_option_row(state: &AddState, opt_num: u8) -> (r: Vec<Segment>)
    requires
        typed_ascii(state@),
        opt_num >= 1,
    ensures
        seg_views(r@) == add_row_spec(state@, opt_num),
{
    let row = opt_num - 1;
    let active = match state.focus {
        AddFocus::SelectRow => state.row_cursor == row as usize,
        AddFocus::SelectKind(r) => r == row,
        AddFocus::InputValue(r) => r == row,
    };
    let typing = match state.focus {
        AddFocus::InputValue(r) => r == row,
        _ => false,
    };
    let (kind, buf) = if opt_num == 1 {
        (state.kind1, &state.value1)
    } else if opt_num == 2 {
        (state.kind2, &state.value2)
    } else {
        return Vec::new();
    };
    let mut r: Vec<Segment> = Vec::new();
    if active {
        push_seg(&mut r, seg(" ▶ ", Tone::Accent));
    } else {
        push_seg(&mut r, seg("   ", Tone::Plain));
    }
    let mut label = format_usize(opt_num as usize);
    label.append(". ");
    push_seg(&mut r, seg_owned(label, if active {
        Tone::Accent
    } else {
        Tone::Muted
    }));
    match kind {
        Some(k) => push_seg(&mut r, seg_owned(pad_kind(k.display_name()), if active {
            Tone::Accent
        } else {
            Tone::Plain
        })),
        None => push_seg(&mut r, seg_owned(pad_kind("<옵션 선택>"), Tone::Muted)),
    }
    push_seg(&mut r, seg("    ", Tone::Plain));
    if typing {
        append_segs(&mut r, cursor_segments(buf, state.val_cursor));
    } else if kind.is_some() && buf.unicode_len() > 0 {
        push_seg(&mut r, seg_owned(buf.clone(), Tone::Plain));
    } else {
        push_seg(&mut r, seg("<값 입력>", Tone::Muted));
    }
    assert(seg_views(r@) =~= add_row_spec(state@, opt_num));
    r
}

/// Line `i` of the kind list: the kind under the cursor is marked and bold.
pub open spec fn kind_line_spec(i: int, kind_cursor: usize) -> Seq<SegView> {
    if i == kind_cursor {
        seq![sv("   ▶ "@, Tone::Accent), svb(kind_name(all_kinds()[i]), Tone::Accent)]
    } else {
        seq![sv("     "@, Tone::Plain), sv(kind_name(all_kinds()[i]), Tone::Plain)]
    }
}

pub open spec fn lines_view(lines: Seq<Vec<Segment>>) -> Seq<Seq<SegView>> {
    lines.map_values(|l: Vec<Segment>| seg_views(l@))
}

/// The composer's lines: its two option rows and an empty line, then,
/// while a kind is chosen, a heading and the six kinds; otherwise seven
/// empty lines, so that the popup keeps its height.
pub open spec fn overlay_spec(a: AddView) -> Seq<Seq<SegView>> {
    seq![add_row_spec(a, 1), add_row_spec(a, 2), Seq::empty()] + match a.focus {
        AddFocus::SelectKind(row) => seq![
            seq![sv(if row == 0 {
                "  옵션 1 선택:"@
            } else {
                "  옵션 2 선택:"@
            }, Tone::Muted)],
        ] + Seq::new(6, |i: int| kind_line_spec(i, a.kind_cursor)),
        _ => Seq::new(7, |i: int| Seq::<SegView>::empty()),
    }
}

/// The lines of the item composer.
pub fn add_overlay_lines(state: &AddState) -> (r: Vec<Vec<Segment>>)
    requires
        typed_ascii(state@),
    ensures
        lines_view(r@) == overlay_spec(state@),
{
    let mut lines: Vec<Vec<Segment>> = Vec::new();
    lines.push(add_option_row(state, 1));
    lines.push(add_option_row(state, 2));
    let blank: Vec<Segment> = Vec::new();
    assert(seg_views(blank@) =~= Seq::<SegView>::empty());
    lines.push(blank);
    let ghost head = seq![add_row_spec(state@, 1), add_row_spec(state@, 2), Seq::<SegView>::empty()];
    assert(lines_view(lines@) =~= head);
    match state.focus {
        AddFocus::SelectKind(row) => {
            let mut heading: Vec<Segment> = Vec::new();
            push_seg(&mut heading, seg(if row == 0 {
                "  옵션 1 선택:"
            } else {
                "  옵션 2 선택:"
            }, Tone::Muted));
            lines.push(heading);
            let ghost start = lines_view(lines@);
            proof {
                lemma_all_kinds();
            }
            let mut i: usize = 0;
            while i < 6
                invariant
                    i <= 6,
                    lines_view(lines@) == start + Seq::new(i as nat, |j: int| kind_line_spec(j, state.kind_cursor)),
                    OptionKind::ALL@ == all_kinds(),
                decreases 6 - i,
            {
                let kind = OptionKind::ALL[i];
                let mut line: Vec<Segment> = Vec::new();
                if i == state.kind_cursor {
                    push_seg(&mut line, seg("   ▶ ", Tone::Accent));
                    push_seg(&mut line, seg_bold(kind.display_name(), Tone::Accent));
                } else {
                    push_seg(&mut line, seg("     ", Tone::Plain));
                    push_seg(&mut line, seg(kind.display_name(), Tone::Plain));
                }
                assert(seg_views(line@) =~= kind_line_spec(i as int, state.kind_cursor));
                let ghost before = lines@;
                lines.push(line);
                assert(lines_view(lines@) =~= lines_view(before).push(seg_views(line@)));
                i = i + 1;
                assert(lines_view(lines@) =~= start + Seq::new(
                    i as nat,
                    |j: int| kind_line_spec(j, state.kind_cursor),
                ));
            }
        },
        _ => {
            let mut i: usize = 0;
            while i < 7
                invariant
                    i <= 7,
                    lines_view(lines@) == head + Seq::new(i as nat, |j: int| Seq::<SegView>::empty()),
                decreases 7 - i,
            {
                let ghost before = lines@;
                let blank: Vec<Segment> = Vec::new();
                assert(seg_views(blank@) =~= Seq::<SegView>::empty());
                lines.push(blank);
                assert(lines_view(lines@) =~= lines_view(before).push(Seq::<SegView>::empty()));
                i = i + 1;
                assert(lines_view(lines@) =~= head + Seq::new(i as nat, |j: int| Seq::<SegView>::empty()));
            }
        },
    }
    assert(lines_view(lines@) =~= overlay_spec(state@));
    lines
}

} // verus!
