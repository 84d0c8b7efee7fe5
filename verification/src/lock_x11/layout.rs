//! Where the X11 lock surface draws its card: sizes and positions computed from the font, the
//! monitor and the widths of the texts, exactly as the i16 arithmetic of the X protocol does it.
//! The card has 32 pixels of padding, rows are 8 pixels apart, and a choice row pads its text by
//! 8 pixels above and below.
use vstd::prelude::*;

verus! {

/// The measures of the core font the prompt is drawn with.
#[derive(Debug, Clone, Copy, PartialEq, Eq, Structural)]
pub struct FontMetrics {
    pub cell_w: i16,
    pub ascent: i16,
    pub height: i16,
}

/// The font measures for a font whose query reported `ascent`, `descent` and the widest cell:
/// fonts without ascent or width are unusable; cells are at least 6 wide and 12 high.
pub fn font_metrics(ascent: i16, descent: i16, max_char_width: i16) -> (r: Option<FontMetrics>)
    ensures
        !(ascent > 0 && max_char_width > 0) ==> r is None,
        ascent > 0 && max_char_width > 0 && ascent + descent <= i16::MAX ==> r == Some(FontMetrics {
            cell_w: if max_char_width >= 6 { max_char_width } else { 6 },
            ascent,
            height: if ascent + descent >= 12 { (ascent + descent) as i16 } else { 12 },
        }),
        ascent > 0 && max_char_width > 0 && ascent + descent > i16::MAX ==> r is None,
{
    if !(ascent > 0 && max_char_width > 0) {
        return None;
    }
    let sum: i32 = ascent as i32 + descent as i32;
    if sum > i16::MAX as i32 {
        return None;
    }
    let cell_w = if max_char_width >= 6 {
        max_char_width
    } else {
        6
    };
    let height = if sum >= 12 {
        sum as i16
    } else {
        12
    };
    Some(FontMetrics { cell_w, ascent, height })
}

/// The number of ASCII characters in a text (the only ones the core font draws).
pub open spec fn ascii_count(s: Seq<char>) -> nat
    decreases s.len(),
{
    if s.len() == 0 {
        0
    } else {
        ascii_count(s.drop_last()) + if (s.last() as u32) < 128 {
            1nat
        } else {
            0nat
        }
    }
}

proof fn lemma_ascii_count_bound(s: Seq<char>)
    ensures
        ascii_count(s) <= s.len(),
    decreases s.len(),
{
    if s.len() > 0 {
        lemma_ascii_count_bound(s.drop_last());
    }
}

/// The width of a text in pixels: its ASCII characters (at most `i16::MAX` of them counted)
/// times the cell width, or `None` when that does not fit in an i16.
#[verifier::opaque]
pub open spec fn text_width_spec(cell_w: i16, text: Seq<char>) -> Option<i16> {
    let n = if ascii_count(text) > i16::MAX {
        i16::MAX as int
    } else {
        ascii_count(text) as int
    };
    if i16::MIN <= n * cell_w <= i16::MAX {
        Some((n * cell_w) as i16)
    } else {
        None
    }
}

/// The drawn width of a text.
pub fn text_width(font: &FontMetrics, text: &str) -> (r: Option<i16>)
    ensures
        r == text_width_spec(font.cell_w, text@),
{
    let len = text.unicode_len();
    let mut count: usize = 0;
    for i in 0..len
        invariant
            len == text@.len(),
            count == ascii_count(text@.take(i as int)),
            count <= i,
    {
        assert(text@.take(i + 1).drop_last() =~= text@.take(i as int));
        let c = text.get_char(i);
        if (c as u32) < 128 {
            count = count + 1;
        }
    }
    assert(text@.take(len as int) =~= text@);
    let n: i32 = if count > 32767 {
        32767
    } else {
        count as i32
    };
    let c: i32 = font.cell_w as i32;
    assert(-1073741824 <= n * c <= 1073741824) by (nonlinear_arith)
        requires
            0 <= n <= 32767,
            -32768 <= c <= 32767,
    ;
    let w: i32 = n * c;
    proof {
        reveal(text_width_spec);
    }
    if w < i16::MIN as i32 || w > i16::MAX as i32 {
        return None;
    }
    Some(w as i16)
}

/// A packed 24-bit colour.
pub fn rgb(r: u8, g: u8, b: u8) -> (out: u32)
    ensures
        out == r * 65536 + g * 256 + b,
{
    let out = (r as u32) << 16 | (g as u32) << 8 | (b as u32);
    assert(((r as u32) << 16 | (g as u32) << 8 | (b as u32)) == r * 65536 + g * 256 + b) by (bit_vector);
    out
}

/// The colours of the lock surface.
#[derive(Debug, Clone, Copy, PartialEq, Eq, Structural)]
pub struct Palette {
    pub bg: u32,
    pub card: u32,
    pub border: u32,
    pub row: u32,
    pub text: u32,
    pub muted: u32,
    pub accent: u32,
    pub warn: u32,
}

/// The dark palette on screens of 24 bits or more; black and white otherwise.
pub fn palette_for(root_depth: u8, black_pixel: u32, white_pixel: u32) -> (r: Palette)
    ensures
        root_depth >= 24 ==> r.bg == 0x0d1117 && r.card == 0x161b22 && r.border == 0x30363d && r.row
            == 0x212730 && r.text == 0xe6edf3 && r.muted == 0x8b949e && r.accent == 0x58a6ff && r.warn
            == 0xf85149,
        root_depth < 24 ==> r == (Palette {
            bg: black_pixel,
            card: black_pixel,
            border: white_pixel,
            row: black_pixel,
            text: white_pixel,
            muted: white_pixel,
            accent: white_pixel,
            warn: white_pixel,
        }),
{
    if root_depth >= 24 {
        Palette {
            bg: rgb(0x0d, 0x11, 0x17),
            card: rgb(0x16, 0x1b, 0x22),
            border: rgb(0x30, 0x36, 0x3d),
            row: rgb(0x21, 0x27, 0x30),
            text: rgb(0xe6, 0xed, 0xf3),
            muted: rgb(0x8b, 0x94, 0x9e),
            accent: rgb(0x58, 0xa6, 0xff),
            warn: rgb(0xf8, 0x51, 0x49),
        }
    } else {
        Palette {
            bg: black_pixel,
            card: black_pixel,
            border: white_pixel,
            row: black_pixel,
            text: white_pixel,
            muted: white_pixel,
            accent: white_pixel,
            warn: white_pixel,
        }
    }
}

/// Control and Shift from an X modifier state (masks 4 and 1).
pub fn x_mods(state: u16) -> (r: (bool, bool))
    ensures
        r == ((state & 4u16) != 0, (state & 1u16) != 0),
{
    (state & 4 != 0, state & 1 != 0)
}

/// The letter a keysym types, for the ASCII letters (their keysyms are their codes).
pub fn char_from_keysym(keysym: u32) -> (r: Option<char>)
    ensures
        (0x41 <= keysym <= 0x5a || 0x61 <= keysym <= 0x7a) ==> r == Some(keysym as char),
        !(0x41 <= keysym <= 0x5a || 0x61 <= keysym <= 0x7a) ==> r is None,
{
    if (0x41 <= keysym && keysym <= 0x5a) || (0x61 <= keysym && keysym <= 0x7a) {
        let b = keysym as u8;
        Some(b as char)
    } else {
        None
    }
}

/// Where the card and its texts go.
#[derive(Debug, Clone, Copy, PartialEq, Eq)]
pub struct PromptLayout {
    pub card_x: i16,
    pub card_y: i16,
    pub card_w: u16,
    pub card_h: u16,
    /// Left edge of the texts.
    pub text_x: i16,
    /// Baseline of the stem.
    pub stem_y: i16,
    /// Left edge, width and height of the four choice rows.
    pub row_x: i16,
    pub row_w: u16,
    pub row_h: u16,
    /// Top edge of each choice row.
    pub row_y: [i16; 4],
    /// Baseline of the key digit and of the choice text in each row.
    pub label_y: [i16; 4],
    /// Left edge of the choice texts.
    pub choice_x: i16,
    /// Baseline of the right-answer line, when one is shown.
    pub flash_y: Option<i16>,
    /// Baseline of the abort confirmation line, when it is shown.
    pub abort_y: Option<i16>,
}

pub open spec fn in_i16(x: int) -> bool {
    i16::MIN <= x <= i16::MAX
}

pub open spec fn max_int(a: int, b: int) -> int {
    if a >= b { a } else { b }
}

pub open spec fn min_int(a: int, b: int) -> int {
    if a <= b { a } else { b }
}

/// The card's width for a widest text of `inner_w` on a monitor `sw` wide.
pub open spec fn card_w_spec(inner_w: int, sw: int) -> int {
    min_int(max_int(inner_w + 64, 320), max_int(sw - 48, 320))
}

/// Number of text rows: stem, four choices, and the optional lines.
pub open spec fn row_count(flash: bool, abort: bool) -> int {
    5 + (if flash { 1int } else { 0int }) + (if abort { 1int } else { 0int })
}

/// The card's wanted height.
pub open spec fn wanted_h_spec(rows: int, rh: int) -> int {
    64 + rows * rh + (rows - 1) * 8
}

/// The card's height: the wanted height, or the monitor height if that is negative.
pub open spec fn card_h_spec(wh: int, sh: int) -> int {
    if wh >= 0 { wh } else { sh }
}

/// The card's left (or top) edge: centred, at 0 when the card is larger than the monitor.
pub open spec fn centre_spec(screen: int, card: int) -> int {
    max_int(screen - card, 0) / 2
}

/// The card's height for a font and monitor height.
pub open spec fn card_h_for(font: FontMetrics, sh: u16, flash: bool, abort: bool) -> int {
    card_h_spec(wanted_h_spec(row_count(flash, abort), font.height + 16), sh as int)
}

/// The steps of the rows that can overflow: each row's top, and its text baselines.
pub open spec fn rows_fit(y0: int, s: int, a: int) -> bool {
    &&& in_i16(y0 + s) && in_i16(y0 + 2 * s) && in_i16(y0 + 3 * s) && in_i16(y0 + 4 * s) && in_i16(y0 + 5 * s)
    &&& in_i16(y0 + s + a) && in_i16(y0 + s + a + 8)
    &&& in_i16(y0 + 2 * s + a) && in_i16(y0 + 2 * s + a + 8)
    &&& in_i16(y0 + 3 * s + a) && in_i16(y0 + 3 * s + a + 8)
    &&& in_i16(y0 + 4 * s + a) && in_i16(y0 + 4 * s + a + 8)
}

/// The steps after the rows that can overflow: the right-answer line and the abort line.
pub open spec fn tail_fits(y0: int, s: int, a: int, flash: bool, abort: bool) -> bool {
    &&& (flash ==> in_i16(y0 + 5 * s + a) && in_i16(y0 + 6 * s))
    &&& (abort ==> in_i16(y0 + (if flash { 6int } else { 5int }) * s + a))
}

/// Whether the protocol's i16 arithmetic fits at every step of the drawing.
pub open spec fn layout_fits(font: FontMetrics, sw: u16, sh: u16, inner_w: i16, flash: bool, abort: bool) -> bool {
    let rh = font.height + 16;
    let rows = row_count(flash, abort);
    let cx = centre_spec(sw as int, card_w_spec(inner_w as int, sw as int));
    let cy = centre_spec(sh as int, card_h_for(font, sh, flash, abort));
    let tx = cx + 32;
    let y0 = cy + 32;
    let s = rh + 8;
    &&& in_i16(rh)
    &&& in_i16(inner_w + 64)
    &&& in_i16(rows * rh)
    &&& in_i16(64 + rows * rh)
    &&& in_i16(wanted_h_spec(rows, rh))
    &&& in_i16(tx)
    &&& in_i16(y0)
    &&& in_i16(y0 + font.ascent)
    &&& in_i16(s)
    &&& in_i16(tx - 8)
    &&& in_i16(font.cell_w * 3)
    &&& in_i16(tx + font.cell_w * 3)
    &&& rows_fit(y0, s, font.ascent as int)
    &&& tail_fits(y0, s, font.ascent as int, flash, abort)
}

/// The layout, for inputs on which it fits.
pub open spec fn layout_holds(
    l: PromptLayout,
    font: FontMetrics,
    sw: u16,
    sh: u16,
    inner_w: i16,
    flash: bool,
    abort: bool,
) -> bool {
    let rh = font.height + 16;
    let cw = card_w_spec(inner_w as int, sw as int);
    let ch = card_h_for(font, sh, flash, abort);
    let cx = centre_spec(sw as int, cw);
    let cy = centre_spec(sh as int, ch);
    let tx = cx + 32;
    let y0 = cy + 32;
    let s = rh + 8;
    let a = font.ascent as int;
    &&& l.card_x == cx && l.card_y == cy && l.card_w == cw && l.card_h == ch
    &&& l.text_x == tx && l.stem_y == y0 + a
    &&& l.row_x == tx - 8 && l.row_w == max_int(cw - 48, 0) && l.row_h == (if rh >= 0 { rh } else { rh + 65536 })
    &&& l.row_y@ == seq![(y0 + s) as i16, (y0 + 2 * s) as i16, (y0 + 3 * s) as i16, (y0 + 4 * s) as i16]
    &&& l.label_y@ == seq![
        (y0 + s + a + 8) as i16,
        (y0 + 2 * s + a + 8) as i16,
        (y0 + 3 * s + a + 8) as i16,
        (y0 + 4 * s + a + 8) as i16,
    ]
    &&& l.choice_x == tx + font.cell_w * 3
    &&& (if flash { l.flash_y == Some((y0 + 5 * s + a) as i16) } else { l.flash_y is None })
    &&& (if abort {
        l.abort_y == Some((y0 + (if flash { 6int } else { 5int }) * s + a) as i16)
    } else {
        l.abort_y is None
    })
}

fn fits(x: i32) -> (r: bool)
    ensures
        r == in_i16(x as int),
{
    x >= -32768 && x <= 32767
}

/// The card's size and its centred position.
fn card_geometry(font: FontMetrics, sw: u16, sh: u16, inner_w: i16, flash: bool, abort: bool) -> (r: (
    i32,
    i32,
    i32,
    i32,
    i32,
))
    ensures
        r.0 == card_w_spec(inner_w as int, sw as int),
        r.1 == card_h_for(font, sh, flash, abort),
        r.2 == centre_spec(sw as int, r.0 as int),
        r.3 == centre_spec(sh as int, r.1 as int),
        r.4 == wanted_h_spec(row_count(flash, abort), font.height + 16),
        0 <= r.2 <= 32767,
        0 <= r.3 <= 32767,
        320 <= r.0 <= 32831,
{
    let rh: i32 = font.height as i32 + 16;
    let rows: i32 = 5 + (if flash { 1i32 } else { 0i32 }) + (if abort { 1i32 } else { 0i32 });
    let wanted_w: i32 = if inner_w as i32 + 64 >= 320 {
        inner_w as i32 + 64
    } else {
        320
    };
    let max_w: i32 = if sw as i32 - 48 >= 320 {
        sw as i32 - 48
    } else {
        320
    };
    let cw: i32 = if wanted_w <= max_w {
        wanted_w
    } else {
        max_w
    };
    assert(-262144 <= rows * rh <= 262144) by (nonlinear_arith)
        requires
            5 <= rows <= 7,
            -32752 <= rh <= 32783,
    ;
    let wh: i32 = 64 + rows * rh + (rows - 1) * 8;
    let ch: i32 = if wh >= 0 {
        wh
    } else {
        sh as i32
    };
    let cx: i32 = (if sw as i32 - cw >= 0 {
        sw as i32 - cw
    } else {
        0
    }) / 2;
    let cy: i32 = (if sh as i32 - ch >= 0 {
        sh as i32 - ch
    } else {
        0
    }) / 2;
    (cw, ch, cx, cy, wh)
}

fn rows_fit_check(y0: i32, s: i32, a: i32) -> (r: bool)
    requires
        -100000 <= y0 <= 100000,
        -100000 <= s <= 100000,
        -100000 <= a <= 100000,
    ensures
        r == rows_fit(y0 as int, s as int, a as int),
{
    fits(y0 + s) && fits(y0 + 2 * s) && fits(y0 + 3 * s) && fits(y0 + 4 * s) && fits(y0 + 5 * s)
        && fits(y0 + s + a) && fits(y0 + s + a + 8) && fits(y0 + 2 * s + a) && fits(y0 + 2 * s + a + 8)
        && fits(y0 + 3 * s + a) && fits(y0 + 3 * s + a + 8) && fits(y0 + 4 * s + a) && fits(
        y0 + 4 * s + a + 8,
    )
}

fn tail_fit_check(y0: i32, s: i32, a: i32, flash: bool, abort: bool) -> (r: bool)
    requires
        -100000 <= y0 <= 100000,
        -100000 <= s <= 100000,
        -100000 <= a <= 100000,
    ensures
        r == tail_fits(y0 as int, s as int, a as int, flash, abort),
{
    (!flash || (fits(y0 + 5 * s + a) && fits(y0 + 6 * s))) && (!abort || fits(
        y0 + (if flash { 6i32 } else { 5i32 }) * s + a,
    ))
}

/// Lays out the card for a monitor of `sw` by `sh` pixels, the widest text `inner_w`, and
/// whether the right-answer line and the abort line are shown. `None` exactly when the i16
/// arithmetic of the drawing would overflow.
pub fn prompt_layout(
    font: FontMetrics,
    sw: u16,
    sh: u16,
    inner_w: i16,
    flash: bool,
    abort: bool,
) -> (r: Option<PromptLayout>)
    ensures
        r is Some <==> layout_fits(font, sw, sh, inner_w, flash, abort),
        r matches Some(l) ==> layout_holds(l, font, sw, sh, inner_w, flash, abort),
{
    let (cw, ch, cx, cy, wh) = card_geometry(font, sw, sh, inner_w, flash, abort);
    let rh: i32 = font.height as i32 + 16;
    let rows: i32 = 5 + (if flash { 1i32 } else { 0i32 }) + (if abort { 1i32 } else { 0i32 });
    assert(-262144 <= rows * rh <= 262144) by (nonlinear_arith)
        requires
            5 <= rows <= 7,
            -32752 <= rh <= 32783,
    ;
    let tx: i32 = cx + 32;
    let y0: i32 = cy + 32;
    let s: i32 = rh + 8;
    let a: i32 = font.ascent as i32;
    let cell3: i32 = font.cell_w as i32 * 3;
    let head = fits(rh) && fits(inner_w as i32 + 64) && fits(rows * rh) && fits(64 + rows * rh) && fits(wh)
        && fits(tx) && fits(y0) && fits(y0 + a) && fits(s) && fits(tx - 8) && fits(cell3) && fits(
        tx + cell3,
    );
    let ok = head && rows_fit_check(y0, s, a) && tail_fit_check(y0, s, a, flash, abort);
    assert(rows as int == row_count(flash, abort));
    if !ok {
        return None;
    }
    let rh16 = rh as i16;
    #[verifier::truncate]
    let row_h = rh16 as u16;
    proof {
        assert(row_h == (if rh >= 0 { rh as int } else { rh + 65536 })) by (bit_vector)
            requires
                row_h == rh16 as u16,
                rh16 == rh as i16,
                -32768 <= rh <= 32767,
        ;
    }
    let row_w: i32 = if cw - 48 >= 0 {
        cw - 48
    } else {
        0
    };
    let flash_y = if flash {
        Some((y0 + 5 * s + a) as i16)
    } else {
        None
    };
    let abort_y = if abort {
        Some((y0 + (if flash { 6i32 } else { 5i32 }) * s + a) as i16)
    } else {
        None
    };
    let row_y: [i16; 4] = [
        (y0 + s) as i16,
        (y0 + 2 * s) as i16,
        (y0 + 3 * s) as i16,
        (y0 + 4 * s) as i16,
    ];
    let label_y: [i16; 4] = [
        (y0 + s + a + 8) as i16,
        (y0 + 2 * s + a + 8) as i16,
        (y0 + 3 * s + a + 8) as i16,
        (y0 + 4 * s + a + 8) as i16,
    ];
    assert(row_y@ =~= seq![(y0 + s) as i16, (y0 + 2 * s) as i16, (y0 + 3 * s) as i16, (y0 + 4 * s) as i16]);
    assert(label_y@ =~= seq![
        (y0 + s + a + 8) as i16,
        (y0 + 2 * s + a + 8) as i16,
        (y0 + 3 * s + a + 8) as i16,
        (y0 + 4 * s + a + 8) as i16,
    ]);
    Some(
        PromptLayout {
            card_x: cx as i16,
            card_y: cy as i16,
            card_w: cw as u16,
            card_h: ch as u16,
            text_x: tx as i16,
            stem_y: (y0 + a) as i16,
            row_x: (tx - 8) as i16,
            row_w: row_w as u16,
            row_h,
            row_y,
            label_y,
            choice_x: (tx + cell3) as i16,
            flash_y,
            abort_y,
        },
    )
}

/// A choice row's rectangle on the surface.
#[derive(Debug, Clone, Copy, PartialEq, Eq, Structural)]
pub struct RowRect {
    pub x: i16,
    pub y: i16,
    pub width: u16,
    pub height: u16,
}

/// Whether a surface point is inside a row (the rectangle's right and bottom edges excluded).
pub open spec fn point_in_row(row: RowRect, x: int, y: int) -> bool {
    row.x <= x < row.x + row.width && row.y <= y < row.y + row.height
}

/// The first choice row that contains the point `(root_x, root_y)` of the root window, on a
/// surface whose origin is `(origin_x, origin_y)`.
pub fn choice_at(origin_x: i16, origin_y: i16, rows: &[RowRect; 4], root_x: i16, root_y: i16) -> (r: Option<u8>)
    requires
        in_i16(root_x - origin_x),
        in_i16(root_y - origin_y),
        forall|k: int| 0 <= k < 4 ==> in_i16((#[trigger] rows@[k]).x + rows@[k].width as i16) && in_i16(
            rows@[k].y + rows@[k].height as i16,
        ),
        forall|k: int| 0 <= k < 4 ==> (#[trigger] rows@[k]).width <= i16::MAX && rows@[k].height <= i16::MAX,
    ensures
        (match r {
            Some(k) => k < 4 && point_in_row(rows@[k as int], root_x - origin_x, root_y - origin_y)
                && forall|j: int| 0 <= j < k ==> !point_in_row(#[trigger] rows@[j], root_x - origin_x, root_y - origin_y),
            None => forall|j: int| 0 <= j < 4 ==> !point_in_row(#[trigger] rows@[j], root_x - origin_x, root_y - origin_y),
        }),
{
    let x = root_x - origin_x;
    let y = root_y - origin_y;
    for k in 0..4usize
        invariant
            x == root_x - origin_x,
            y == root_y - origin_y,
            forall|k: int| 0 <= k < 4 ==> in_i16((#[trigger] rows@[k]).x + rows@[k].width as i16) && in_i16(
                rows@[k].y + rows@[k].height as i16,
            ),
            forall|k: int| 0 <= k < 4 ==> (#[trigger] rows@[k]).width <= i16::MAX && rows@[k].height <= i16::MAX,
            forall|j: int| 0 <= j < k ==> !point_in_row(#[trigger] rows@[j], x as int, y as int),
    {
        let row = rows[k];
        assert(row == rows@[k as int]);
        let right = row.x + row.width as i16;
        let bottom = row.y + row.height as i16;
        if x >= row.x && y >= row.y && x < right && y < bottom {
            return Some(k as u8);
        }
    }
    None
}

/// The line that shows the right answer after a wrong choice.
pub fn flash_text(answer: &str) -> (r: String)
    ensures
        r@ == "Correct: "@ + answer@,
{
    let mut text = String::from_str("Correct: ");
    text.append(answer);
    text
}

/// The line shown while the abort confirmation is open.
pub const ABORT_PROMPT_TEXT: &'static str = "Type ABORT then Enter";

/// The label of a choice row as measured for the card width: its key digit, two spaces, the
/// choice.
pub fn choice_label(index: usize, choice: &str) -> (r: String)
    requires
        index < 4,
    ensures
        r@ == seq![(49 + index) as char] + "  "@ + choice@,
{
    proof {
        reveal_strlit("1");
        reveal_strlit("2");
        reveal_strlit("3");
        reveal_strlit("4");
        reveal_strlit("  ");
    }
    let mut text = String::from_str(match index {
        0 => "1",
        1 => "2",
        2 => "3",
        _ => "4",
    });
    text.append("  ");
    text.append(choice);
    text
}

fn max_opt(a: Option<i16>, b: Option<i16>) -> (r: Option<i16>)
    ensures
        r == (match (a, b) {
            (Some(x), Some(y)) => Some(if x >= y { x } else { y }),
            _ => None::<i16>,
        }),
{
    match (a, b) {
        (Some(x), Some(y)) => Some(if x >= y { x } else { y }),
        _ => None,
    }
}

pub open spec fn max_opt_spec(a: Option<i16>, b: Option<i16>) -> Option<i16> {
    match (a, b) {
        (Some(x), Some(y)) => Some(if x >= y { x } else { y }),
        _ => None::<i16>,
    }
}

/// The width of the widest text on the card: the stem, the four choice labels, the right-answer
/// line when one is shown and the abort line when it is shown; `None` when a width overflows.
pub fn inner_width(
    font: &FontMetrics,
    stem: &str,
    choices: &[String],
    flash: Option<&str>,
    abort: bool,
) -> (r: Option<i16>)
    requires
        choices@.len() == 4,
    ensures
        ({
            let w0 = text_width_spec(font.cell_w, stem@);
            let w1 = max_opt_spec(w0, text_width_spec(font.cell_w, seq!['1'] + "  "@ + choices@[0]@));
            let w2 = max_opt_spec(w1, text_width_spec(font.cell_w, seq!['2'] + "  "@ + choices@[1]@));
            let w3 = max_opt_spec(w2, text_width_spec(font.cell_w, seq!['3'] + "  "@ + choices@[2]@));
            let w4 = max_opt_spec(w3, text_width_spec(font.cell_w, seq!['4'] + "  "@ + choices@[3]@));
            let w5 = match flash {
                Some(f) => max_opt_spec(w4, text_width_spec(font.cell_w, f@)),
                None => w4,
            };
            let w6 = if abort {
                max_opt_spec(w5, text_width_spec(font.cell_w, ABORT_PROMPT_TEXT@))
            } else {
                w5
            };
            r == w6
        }),
{
    let mut w = text_width(font, stem);
    let l0 = choice_label(0, choices[0].as_str());
    w = max_opt(w, text_width(font, l0.as_str()));
    let l1 = choice_label(1, choices[1].as_str());
    w = max_opt(w, text_width(font, l1.as_str()));
    let l2 = choice_label(2, choices[2].as_str());
    w = max_opt(w, text_width(font, l2.as_str()));
    let l3 = choice_label(3, choices[3].as_str());
    w = max_opt(w, text_width(font, l3.as_str()));
    assert(seq![(49 + 0usize) as char] == seq!['1']);
    assert(seq![(49 + 1usize) as char] == seq!['2']);
    assert(seq![(49 + 2usize) as char] == seq!['3']);
    assert(seq![(49 + 3usize) as char] == seq!['4']);
    if let Some(f) = flash {
        w = max_opt(w, text_width(font, f));
    }
    if abort {
        w = max_opt(w, text_width(font, ABORT_PROMPT_TEXT));
    }
    w
}

/// A monitor's rectangle on the root window.
#[derive(Debug, Clone, Copy, PartialEq, Eq, Structural)]
pub struct MonitorRect {
    pub x: i16,
    pub y: i16,
    pub width: u16,
    pub height: u16,
}

/// The monitors to cover: those RandR reported, or the whole screen when it reported none (or
/// could not be asked).
pub fn monitors_or_screen(monitors: Vec<MonitorRect>, width: u16, height: u16) -> (r: Vec<MonitorRect>)
    ensures
        monitors@.len() == 0 ==> r@ == seq![MonitorRect { x: 0, y: 0, width, height }],
        monitors@.len() > 0 ==> r@ == monitors@,
{
    if monitors.len() == 0 {
        let mut v: Vec<MonitorRect> = Vec::new();
        v.push(MonitorRect { x: 0, y: 0, width, height });
        assert(v@ =~= seq![MonitorRect { x: 0, y: 0, width, height }]);
        return v;
    }
    monitors
}

/// The bytes the core font draws for a text: its ASCII characters, in order.
pub open spec fn ascii_bytes_spec(s: Seq<char>) -> Seq<u8>
    decreases s.len(),
{
    if s.len() == 0 {
        Seq::empty()
    } else if (s.last() as u32) < 128 {
        ascii_bytes_spec(s.drop_last()).push(s.last() as u8)
    } else {
        ascii_bytes_spec(s.drop_last())
    }
}

/// The ASCII bytes of a text, as a label is drawn.
pub fn ascii_bytes(text: &str) -> (r: Vec<u8>)
    ensures
        r@ == ascii_bytes_spec(text@),
{
    let len = text.unicode_len();
    let mut out: Vec<u8> = Vec::new();
    for i in 0..len
        invariant
            len == text@.len(),
            out@ == ascii_bytes_spec(text@.take(i as int)),
    {
        assert(text@.take(i + 1).drop_last() =~= text@.take(i as int));
        let c = text.get_char(i);
        let code = c as u32;
        if code < 128 {
            out.push(code as u8);
        }
    }
    assert(text@.take(len as int) =~= text@);
    out
}

/// The core fonts tried first, in order, before those the server lists.
pub const FONT_FALLBACKS: [&'static str; 7] = [
    "10x20",
    "-misc-fixed-medium-r-normal--20-200-75-75-c-100-iso8859-1",
    "9x15",
    "-misc-fixed-medium-r-normal--15-140-75-75-c-90-iso8859-1",
    "fixed",
    "6x13",
    "-misc-fixed-medium-r-normal--13-120-75-75-c-80-iso8859-1",
];

/// The pattern of the fonts asked from the server after the fallbacks.
pub const FONT_PATTERN: &'static str = "*-iso8859-1";

/// The name of the cursor font, which is never used for text.
pub open spec fn cursor_font_name() -> Seq<u8> {
    seq![99u8, 117u8, 114u8, 115u8, 111u8, 114u8]
}

/// Whether a font name is skipped: the cursor font draws no letters.
pub fn skip_font(name: &[u8]) -> (r: bool)
    ensures
        r == (name@ == cursor_font_name()),
{
    let ok = name.len() == 6 && name[0] == 99u8 && name[1] == 117u8 && name[2] == 114u8
        && name[3] == 115u8 && name[4] == 111u8 && name[5] == 114u8;
    if ok {
        assert(name@ =~= cursor_font_name());
    }
    ok
}

/// Where the choices go in a laid-out card: the four rows stand one under the other, each a row
/// height (the font height and 16) plus an 8 pixel gap below the previous one, the first that
/// far below the stem's line; and each row's key digit and text sit on a baseline inside that
/// row, the font's ascent and 8 pixels below the row's top. So each label is in its own row,
/// and the labels go down the card with the rows.
pub proof fn law_each_label_in_its_row(
    l: PromptLayout,
    font: FontMetrics,
    sw: u16,
    sh: u16,
    inner_w: i16,
    flash: bool,
    abort: bool,
)
    requires
        layout_fits(font, sw, sh, inner_w, flash, abort),
        layout_holds(l, font, sw, sh, inner_w, flash, abort),
    ensures
        l.row_y[0] == l.stem_y - font.ascent + font.height + 24,
        forall|k: int| 0 <= k < 3 ==> l.row_y[k + 1] == #[trigger] l.row_y[k] + font.height + 24,
        forall|k: int| 0 <= k < 4 ==> #[trigger] l.label_y[k] == l.row_y[k] + font.ascent + 8,
        font.height >= 0 ==> forall|k: int| 0 <= k < 3 ==> #[trigger] l.label_y[k] < l.label_y[k + 1],
        font.height >= 0 ==> l.row_h == font.height + 16,
{
}

} // verus!
