//! The logo, with glitches: channels of colour, corrupted characters, jolted lines and glints. They
//! stay within the logo, so that the rest of the launcher is calm.

use vstd::prelude::*;

use super::brand::{Rgb, ACCENT_AMBER, ACCENT_VIOLET, BLOOM_BONE, BRAND_A, BRAND_B};
use super::canvas::{all_stay_in, bold, cell_at, stays_in, Canvas, DrawModel, Rect, Style};
use crate::parse::split_lines;
use crate::text::{chars_of, views};

verus! {

// Pseudo-random numbers

/// A number that looks unrelated to `x`.
pub open spec fn mixed(x: u32) -> u32 {
    let a = x ^ (x >> 16);
    let b = a.wrapping_mul(0x7feb352d);
    let c = b ^ (b >> 15);
    let d = c.wrapping_mul(0x846ca68b);
    d ^ (d >> 16)
}

/// A number that looks unrelated to `x`.
pub fn hash(x: u32) -> (r: u32)
    ensures
        r == mixed(x),
{
    let mut h: u32 = x;
    h = h ^ (h >> 16);
    h = h.wrapping_mul(0x7feb352d);
    h = h ^ (h >> 15);
    h = h.wrapping_mul(0x846ca68b);
    h = h ^ (h >> 16);
    h
}

/// How far a burst of glitches has come at `frame`, if one is under way.
pub open spec fn burst(frame: u64) -> Option<u64> {
    let period = (62 + mixed((frame / 211) as u32) % 57) as u64;
    let local = frame % period;
    let window = (4 + mixed((frame / period) as u32 ^ 0x8b57) % 11) as u64;
    if local < window {
        Some(local)
    } else {
        None
    }
}

/// How far a burst of glitches has come at `frame`, if one is under way.
pub fn burst_frame(frame: u64) -> (r: Option<u64>)
    ensures
        r == burst(frame),
        r matches Some(b) ==> b < 15,
{
    let period: u64 = 62 + (hash((frame / 211) as u32) % 57) as u64;
    let local: u64 = frame % period;
    let window: u64 = 4 + (hash((frame / period) as u32 ^ 0x8b57) % 11) as u64;
    if local < window {
        Some(local)
    } else {
        None
    }
}

/// The line at `row` flickers out at `frame`.
pub open spec fn flickers_out(frame: u64, row: u32) -> bool {
    let period = (89 + mixed((frame / 197) as u32 ^ 0x51a7) % 53) as u64;
    let window = (2 + mixed((frame / period) as u32 ^ 0xa49b) % 5) as u64;
    frame % period < window && mixed(row ^ (frame as u32) ^ 0x7c15) % 10 < 3
}

/// Whether the line at `row` flickers out at `frame`.
pub fn flicker_hidden_line(frame: u64, row: u32) -> (r: bool)
    ensures
        r == flickers_out(frame, row),
{
    let period: u64 = 89 + (hash((frame / 197) as u32 ^ 0x51a7) % 53) as u64;
    let local: u64 = frame % period;
    let window: u64 = 2 + (hash((frame / period) as u32 ^ 0xa49b) % 5) as u64;
    local < window && hash(row ^ (frame as u32) ^ 0x7c15) % 10 < 3
}

/// By how many places the line at `row` is jolted at `frame`.
pub open spec fn jolt(frame: u64, row: u32) -> int {
    let period = (67 + mixed(row ^ (frame / 173) as u32) % 71) as u64;
    if frame % period > 4 || mixed(row ^ (frame as u32)) % 10 > 3 {
        0
    } else {
        let mag = mixed(row.wrapping_mul(31) ^ (frame as u32)) % 7 + 1;
        if mixed(row ^ 0x51f1 ^ (frame as u32)) % 2 == 0 {
            mag
        } else {
            -mag
        }
    }
}

/// By how many places the line at `row` is jolted at `frame`.
pub fn line_shift(frame: u64, row: u32) -> (r: i16)
    ensures
        r == jolt(frame, row),
        -7 <= r <= 7,
{
    let period: u64 = 67 + (hash(row ^ (frame / 173) as u32) % 71) as u64;
    if frame % period > 4 || hash(row ^ (frame as u32)) % 10 > 3 {
        return 0;
    }
    let mag: i16 = (hash(row.wrapping_mul(31) ^ (frame as u32)) % 7 + 1) as i16;
    if hash(row ^ 0x51f1 ^ (frame as u32)) % 2 == 0 {
        mag
    } else {
        -mag
    }
}

/// `x` moved by `shift` places, as far as places can be counted.
pub open spec fn moved(x: u16, shift: int) -> int {
    if x + shift < 0 {
        0
    } else if x + shift > u16::MAX {
        u16::MAX as int
    } else {
        x + shift
    }
}

/// `x` moved by `shift` places, as far as places can be counted.
pub fn shifted_x(x: u16, shift: i16) -> (r: u16)
    ensures
        r == moved(x, shift as int),
{
    if shift < 0 {
        let back: i32 = -(shift as i32);
        x.saturating_sub(back as u16)
    } else {
        x.saturating_add(shift as u16)
    }
}

/// A colour of glitches.
pub open spec fn glitch(seed: u32) -> Rgb {
    let i = seed % 5;
    if i == 0 {
        BRAND_B
    } else if i == 1 {
        BRAND_A
    } else if i == 2 {
        ACCENT_AMBER
    } else if i == 3 {
        ACCENT_VIOLET
    } else {
        BLOOM_BONE
    }
}

/// A colour of glitches.
pub fn glitch_color(seed: u32) -> (r: Rgb)
    ensures
        r == glitch(seed),
{
    let i: u32 = seed % 5;
    if i == 0 {
        BRAND_B
    } else if i == 1 {
        BRAND_A
    } else if i == 2 {
        ACCENT_AMBER
    } else if i == 3 {
        ACCENT_VIOLET
    } else {
        BLOOM_BONE
    }
}

/// A character of corruption.
pub open spec fn junk(seed: u32) -> char {
    let i = seed % 13;
    if i == 0 {
        '@'
    } else if i == 1 {
        '#'
    } else if i == 2 {
        '$'
    } else if i == 3 {
        '%'
    } else if i == 4 {
        '&'
    } else if i == 5 {
        '?'
    } else if i == 6 {
        '!'
    } else if i == 7 {
        '<'
    } else if i == 8 {
        '>'
    } else if i == 9 {
        '{'
    } else if i == 10 {
        '}'
    } else if i == 11 {
        '['
    } else {
        ']'
    }
}

fn junk_char(seed: u32) -> (r: char)
    ensures
        r == junk(seed),
{
    let i: u32 = seed % 13;
    if i == 0 {
        '@'
    } else if i == 1 {
        '#'
    } else if i == 2 {
        '$'
    } else if i == 3 {
        '%'
    } else if i == 4 {
        '&'
    } else if i == 5 {
        '?'
    } else if i == 6 {
        '!'
    } else if i == 7 {
        '<'
    } else if i == 8 {
        '>'
    } else if i == 9 {
        '{'
    } else if i == 10 {
        '}'
    } else if i == 11 {
        '['
    } else {
        ']'
    }
}

// The picture

/// The lines of a logo.
pub fn lines(logo: &str) -> (r: Vec<String>)
    ensures
        views(r@) == crate::parse::lines(logo@),
{
    split_lines(logo)
}

/// The places of each line can be counted.
pub open spec fn lines_count(lines: Seq<Seq<char>>) -> bool {
    forall|i: int| 0 <= i < lines.len() ==> (#[trigger] lines[i]).len() <= 0xffff
}

/// A picture whose places can be counted.
pub open spec fn countable(lines: Seq<Seq<char>>) -> bool {
    &&& lines.len() <= 0xfff0
    &&& lines_count(lines)
}

/// The width of the widest line.
pub open spec fn widest_line(lines: Seq<Seq<char>>) -> nat
    decreases lines.len(),
{
    if lines.len() == 0 {
        0
    } else {
        let w = widest_line(lines.drop_last());
        if lines.last().len() > w {
            lines.last().len()
        } else {
            w
        }
    }
}

/// No line is wider than the widest.
pub proof fn lemma_widest_line(lines: Seq<Seq<char>>, i: int)
    requires
        0 <= i < lines.len(),
    ensures
        lines[i].len() <= widest_line(lines),
    decreases lines.len(),
{
    if i < lines.len() - 1 {
        lemma_widest_line(lines.drop_last(), i);
    }
}

/// A picture whose lines can be counted is no wider than that.
proof fn lemma_widest_countable(lines: Seq<Seq<char>>)
    requires
        lines_count(lines),
    ensures
        widest_line(lines) <= 0xffff,
    decreases lines.len(),
{
    if lines.len() > 0 {
        assert forall|i: int| 0 <= i < lines.drop_last().len() implies (
        #[trigger] lines.drop_last()[i]).len() <= 0xffff by {
            assert(lines[i].len() <= 0xffff);
        }
        assert(lines[lines.len() - 1].len() <= 0xffff);
        lemma_widest_countable(lines.drop_last());
    }
}

/// The width of a picture.
pub fn width(lines: &Vec<String>) -> (r: u16)
    requires
        lines_count(views(lines@)),
    ensures
        r == widest_line(views(lines@)),
{
    let ghost all = views(lines@);
    let mut w: usize = 0;
    let mut i: usize = 0;
    assert(all.take(0) =~= Seq::<Seq<char>>::empty());
    while i < lines.len()
        invariant
            i <= lines@.len(),
            all == views(lines@),
            w == widest_line(all.take(i as int)),
        decreases lines@.len() - i,
    {
        let ghost t = all.take(i as int + 1);
        assert(t.drop_last() =~= all.take(i as int));
        assert(t.last() == lines@[i as int]@);
        let n: usize = lines[i].as_str().unicode_len();
        if n > w {
            w = n;
        }
        i = i + 1;
    }
    assert(all.take(i as int) =~= all);
    proof {
        lemma_widest_countable(all);
    }
    w as u16
}

/// The height of a picture.
pub fn height(lines: &Vec<String>) -> (r: u16)
    requires
        lines@.len() <= u16::MAX,
    ensures
        r == views(lines@).len(),
{
    lines.len() as u16
}

/// Where a picture's upper left corner lies, in the middle of `area`.
pub open spec fn origin_x(area: Rect, lines: Seq<Seq<char>>) -> int {
    area.x + (area.width - widest_line(lines)) / 2
}

/// Where a picture's upper left corner lies, in the middle of `area`.
pub open spec fn origin_y(area: Rect, lines: Seq<Seq<char>>) -> int {
    area.y + (area.height - lines.len()) / 2
}

/// The picture is there and fits into `area`.
pub open spec fn fits(area: Rect, lines: Seq<Seq<char>>) -> bool {
    &&& lines.len() > 0
    &&& widest_line(lines) > 0
    &&& widest_line(lines) <= area.width
    &&& lines.len() <= area.height
}

/// A line from the place `x` on, as far as it lies in `area`.
pub open spec fn line_cells(area: Rect, x: int, y: int, line: Seq<char>, style: Style) -> Seq<DrawModel> {
    let from = if x < area.x {
        area.x - x
    } else {
        0
    };
    let to = if x + line.len() > area.x + area.width {
        area.x + area.width - x
    } else {
        line.len() as int
    };
    if y < area.y || y >= area.y + area.height || from >= to {
        Seq::empty()
    } else {
        Seq::new((to - from) as nat, |i: int| cell_at(x + from + i, y, line[from + i], style))
    }
}

fn draw_line(canvas: &mut Canvas, area: Rect, origin: u16, y: u16, shift: i16, line: &str, style: Style)
    requires
        area.counts(),
    ensures
        final(canvas)@ == old(canvas)@ + line_cells(
            area,
            moved(origin, shift as int),
            y as int,
            line@,
            style,
        ),
{
    let x: u16 = shifted_x(origin, shift);
    let ghost before = canvas@;
    let ghost cells = line_cells(area, x as int, y as int, line@, style);
    assert(before + Seq::<DrawModel>::empty() =~= before);
    if y < area.y || y >= area.y + area.height {
        return ;
    }
    let right: u16 = area.x + area.width;
    let chars = chars_of(line);
    let ghost from = if x < area.x {
        area.x - x
    } else {
        0
    };
    let mut col: usize = 0;
    while col < chars.len() && x as u64 + (col as u64) < right as u64
        invariant
            area.counts(),
            right == area.x + area.width,
            chars@ == line@,
            col <= chars@.len(),
            col == 0 || x + col <= right,
            from == if x < area.x {
                area.x - x
            } else {
                0
            },
            area.y <= y < area.y + area.height,
            cells == line_cells(area, x as int, y as int, line@, style),
            canvas@ == before + cells.take(
                if col <= from {
                    0
                } else {
                    col - from
                },
            ),
            col > from ==> col - from <= cells.len(),
        decreases chars@.len() - col,
    {
        let at: u16 = (x as u64 + col as u64) as u16;
        if at >= area.x {
            canvas.cell(at, y, chars[col], style);
            assert(cells[col - from] == cell_at(at as int, y as int, line@[col as int], style));
            assert(canvas@ =~= before + cells.take(col + 1 - from));
        }
        col = col + 1;
    }
    assert(canvas@ =~= before + cells);
}

/// The first `n` lines of a channel of colour.
pub open spec fn channel_cells(
    area: Rect,
    lines: Seq<Seq<char>>,
    frame: u64,
    color: Rgb,
    dir: int,
    n: nat,
) -> Seq<DrawModel>
    decreases n,
{
    let start = (mixed(frame as u32) % (lines.len() as u32)) as int;
    let shift = dir * (mixed((frame as u32) ^ 0x4f2d) % 6 + 1);
    let row = start + n - 1;
    if n == 0 {
        Seq::empty()
    } else {
        let before = channel_cells(area, lines, frame, color, dir, (n - 1) as nat);
        if row < lines.len() {
            before + line_cells(
                area,
                moved(origin_x(area, lines) as u16, shift),
                origin_y(area, lines) + row,
                lines[row],
                bold(color),
            )
        } else {
            before
        }
    }
}

/// How many lines a channel takes.
pub open spec fn band_height(frame: u64) -> nat {
    (mixed((frame as u32) ^ 0x8a13) % 6 + 1) as nat
}

fn draw_channel(
    canvas: &mut Canvas,
    area: Rect,
    ox: u16,
    oy: u16,
    lines: &Vec<String>,
    frame: u64,
    color: Rgb,
    dir: i16,
)
    requires
        area.counts(),
        countable(views(lines@)),
        fits(area, views(lines@)),
        ox == origin_x(area, views(lines@)),
        oy == origin_y(area, views(lines@)),
        dir == 1 || dir == -1,
    ensures
        final(canvas)@ == old(canvas)@ + channel_cells(
            area,
            views(lines@),
            frame,
            color,
            dir as int,
            band_height(frame),
        ),
{
    let ghost all = views(lines@);
    let ghost first = canvas@;
    let start: usize = (hash(frame as u32) % (lines.len() as u32)) as usize;
    let band: usize = (hash((frame as u32) ^ 0x8a13) % 6 + 1) as usize;
    let mag: i16 = (hash((frame as u32) ^ 0x4f2d) % 6 + 1) as i16;
    let shift: i16 = if dir == 1 {
        mag
    } else {
        -mag
    };
    proof {
        assert(1int * mag == mag && (-1int) * mag == -mag) by (nonlinear_arith);
    }
    let style = Style { fg: color, bold: true };
    let mut n: usize = 0;
    assert(first + channel_cells(area, all, frame, color, dir as int, 0) =~= first);
    while n < band
        invariant
            area.counts(),
            all == views(lines@),
            countable(all),
            fits(area, all),
            ox == origin_x(area, all),
            oy == origin_y(area, all),
            n <= band <= 6,
            start == mixed(frame as u32) % (all.len() as u32),
            shift == dir * (mixed((frame as u32) ^ 0x4f2d) % 6 + 1),
            style == bold(color),
            canvas@ == first + channel_cells(area, all, frame, color, dir as int, n as nat),
        decreases band - n,
    {
        let row: usize = start + n;
        let ghost before = channel_cells(area, all, frame, color, dir as int, n as nat);
        if row < lines.len() {
            let y: u16 = oy + row as u16;
            draw_line(canvas, area, ox, y, shift, lines[row].as_str(), style);
            assert(all[row as int] == lines@[row as int]@);
        }
        n = n + 1;
        assert(canvas@ =~= first + channel_cells(area, all, frame, color, dir as int, n as nat));
    }
}

/// The seed of a channel of colour.
pub open spec fn channel_seed(frame: u64, channel: u32) -> u32 {
    mixed(mixed((frame / 37) as u32 ^ 0x4d2f) ^ channel.wrapping_mul(0x9e37))
}

/// One of the channels of colour of a burst.
pub open spec fn one_channel(area: Rect, lines: Seq<Seq<char>>, frame: u64, b: u64, channel: u32) -> Seq<
    DrawModel,
> {
    let seed = channel_seed(frame, channel);
    let at = (frame + b + channel * 11) as u64;
    channel_cells(
        area,
        lines,
        at,
        glitch(seed),
        if seed % 2 == 0 {
            1
        } else {
            -1
        },
        band_height(at),
    )
}

/// The channels of colour of a burst, one or two.
pub open spec fn channels(area: Rect, lines: Seq<Seq<char>>, frame: u64) -> Seq<DrawModel> {
    match burst(frame) {
        None => Seq::empty(),
        Some(b) => one_channel(area, lines, frame, b, 0) + (if mixed(
            (frame / 37) as u32 ^ 0x4d2f,
        ) % 2 == 1 {
            one_channel(area, lines, frame, b, 1)
        } else {
            Seq::empty()
        }),
    }
}

/// A frame from which glitches can be counted on.
pub open spec fn countable_frame(frame: u64) -> bool {
    frame <= u64::MAX - 64
}

fn draw_one_channel(
    canvas: &mut Canvas,
    area: Rect,
    ox: u16,
    oy: u16,
    lines: &Vec<String>,
    frame: u64,
    b: u64,
    channel: u32,
)
    requires
        area.counts(),
        countable(views(lines@)),
        fits(area, views(lines@)),
        ox == origin_x(area, views(lines@)),
        oy == origin_y(area, views(lines@)),
        countable_frame(frame),
        b < 15,
        channel < 2,
    ensures
        final(canvas)@ == old(canvas)@ + one_channel(area, views(lines@), frame, b, channel),
{
    let seed: u32 = hash(hash((frame / 37) as u32 ^ 0x4d2f) ^ channel.wrapping_mul(0x9e37));
    let dir: i16 = if seed % 2 == 0 {
        1
    } else {
        -1
    };
    let at: u64 = frame + b + channel as u64 * 11;
    draw_channel(canvas, area, ox, oy, lines, at, glitch_color(seed), dir);
}

fn draw_channels(canvas: &mut Canvas, area: Rect, ox: u16, oy: u16, lines: &Vec<String>, frame: u64)
    requires
        area.counts(),
        countable(views(lines@)),
        fits(area, views(lines@)),
        ox == origin_x(area, views(lines@)),
        oy == origin_y(area, views(lines@)),
        countable_frame(frame),
    ensures
        final(canvas)@ == old(canvas)@ + channels(area, views(lines@), frame),
{
    let ghost first = canvas@;
    let b: u64 = match burst_frame(frame) {
        Some(b) => b,
        None => {
            assert(first + Seq::<DrawModel>::empty() =~= first);
            return ;
        },
    };
    draw_one_channel(canvas, area, ox, oy, lines, frame, b, 0);
    if hash((frame / 37) as u32 ^ 0x4d2f) % 2 == 1 {
        draw_one_channel(canvas, area, ox, oy, lines, frame, b, 1);
    }
    assert(canvas@ =~= first + channels(area, views(lines@), frame));
}

/// The row of the picture that a seed points to.
pub open spec fn seed_row(lines: Seq<Seq<char>>, seed: u32) -> int {
    (seed % (lines.len() as u32)) as int
}

/// The column of that row that another seed points to.
pub open spec fn seed_col(lines: Seq<Seq<char>>, row: int, seed: u32) -> int {
    let w = if lines[row].len() >= 1 {
        lines[row].len() as u32
    } else {
        1
    };
    (seed % w) as int
}

/// A corrupted character.
pub open spec fn corrupted(area: Rect, lines: Seq<Seq<char>>, frame: u64, i: u32) -> DrawModel {
    let seed = mixed((frame as u32) ^ i.wrapping_mul(0x9e37));
    let row = seed_row(lines, seed);
    cell_at(
        origin_x(area, lines) + seed_col(lines, row, mixed(seed ^ 0x41)),
        origin_y(area, lines) + row,
        junk(mixed(seed ^ 0x91)),
        bold(glitch(seed ^ 0xa17)),
    )
}

/// The corrupted characters of a frame.
pub open spec fn corruption(area: Rect, lines: Seq<Seq<char>>, frame: u64) -> Seq<DrawModel> {
    if frame % ((7 + mixed((frame / 23) as u32) % 9) as u64) != 0 {
        Seq::empty()
    } else {
        Seq::new(
            (mixed((frame as u32) ^ 0x73f1) % 7 + 1) as nat,
            |i: int| corrupted(area, lines, frame, i as u32),
        )
    }
}

/// Where a seed points to lies in `area`.
proof fn lemma_seed_place(area: Rect, lines: Seq<Seq<char>>, seed: u32, other: u32)
    requires
        area.counts(),
        countable(lines),
        fits(area, lines),
    ensures
        0 <= seed_row(lines, seed) < lines.len(),
        0 <= seed_col(lines, seed_row(lines, seed), other) < widest_line(lines),
        area.has_place(
            origin_x(area, lines) + seed_col(lines, seed_row(lines, seed), other),
            origin_y(area, lines) + seed_row(lines, seed),
        ),
{
    let row = seed_row(lines, seed);
    lemma_widest_line(lines, row);
    assert(lines[row].len() <= 0xffff);
}

fn draw_corruption(canvas: &mut Canvas, area: Rect, ox: u16, oy: u16, lines: &Vec<String>, frame: u64)
    requires
        area.counts(),
        countable(views(lines@)),
        fits(area, views(lines@)),
        ox == origin_x(area, views(lines@)),
        oy == origin_y(area, views(lines@)),
    ensures
        final(canvas)@ == old(canvas)@ + corruption(area, views(lines@), frame),
{
    let ghost all = views(lines@);
    let ghost first = canvas@;
    let every: u64 = 7 + (hash((frame / 23) as u32) % 9) as u64;
    assert(first + Seq::<DrawModel>::empty() =~= first);
    if frame % every != 0 {
        return ;
    }
    let count: u32 = hash((frame as u32) ^ 0x73f1) % 7 + 1;
    let ghost cells = corruption(area, all, frame);
    let mut i: u32 = 0;
    assert(first + cells.take(0) =~= first);
    while i < count
        invariant
            area.counts(),
            all == views(lines@),
            countable(all),
            fits(area, all),
            ox == origin_x(area, all),
            oy == origin_y(area, all),
            i <= count == cells.len(),
            cells == Seq::new(count as nat, |i: int| corrupted(area, all, frame, i as u32)),
            canvas@ == first + cells.take(i as int),
        decreases count - i,
    {
        let seed: u32 = hash((frame as u32) ^ i.wrapping_mul(0x9e37));
        let row: usize = (seed % (lines.len() as u32)) as usize;
        proof {
            lemma_seed_place(area, all, seed, mixed(seed ^ 0x41));
            assert(all[row as int] == lines@[row as int]@);
        }
        let n: usize = lines[row].as_str().unicode_len();
        let w: u32 = if n < 1 {
            1
        } else {
            n as u32
        };
        let col: u32 = hash(seed ^ 0x41) % w;
        let ch = junk_char(hash(seed ^ 0x91));
        let style = Style { fg: glitch_color(seed ^ 0xa17), bold: true };
        canvas.cell(ox + col as u16, oy + row as u16, ch, style);
        assert(cells[i as int] == corrupted(area, all, frame, i));
        i = i + 1;
        assert(canvas@ =~= first + cells.take(i as int));
    }
    assert(cells.take(i as int) =~= cells);
}

/// A glint: a character of the picture in another colour.
pub open spec fn glint(area: Rect, lines: Seq<Seq<char>>, frame: u64, i: u32) -> DrawModel {
    let seed = mixed((frame as u32) ^ i.wrapping_mul(0x85eb));
    let row = seed_row(lines, seed);
    let col = seed_col(lines, row, mixed(seed ^ 0xb7));
    cell_at(
        origin_x(area, lines) + col,
        origin_y(area, lines) + row,
        if col < lines[row].len() {
            lines[row][col]
        } else {
            ' '
        },
        bold(glitch(seed ^ 0xc2)),
    )
}

/// The glints of a frame.
pub open spec fn glints(area: Rect, lines: Seq<Seq<char>>, frame: u64) -> Seq<DrawModel> {
    if frame % 19 > 2 + mixed((frame / 31) as u32) % 3 {
        Seq::empty()
    } else {
        Seq::new(
            (mixed((frame as u32) ^ 0x5bd1) % 8 + 2) as nat,
            |i: int| glint(area, lines, frame, i as u32),
        )
    }
}

fn draw_glints(canvas: &mut Canvas, area: Rect, ox: u16, oy: u16, lines: &Vec<String>, frame: u64)
    requires
        area.counts(),
        countable(views(lines@)),
        fits(area, views(lines@)),
        ox == origin_x(area, views(lines@)),
        oy == origin_y(area, views(lines@)),
    ensures
        final(canvas)@ == old(canvas)@ + glints(area, views(lines@), frame),
{
    let ghost all = views(lines@);
    let ghost first = canvas@;
    let window: u64 = 2 + (hash((frame / 31) as u32) % 3) as u64;
    assert(first + Seq::<DrawModel>::empty() =~= first);
    if frame % 19 > window {
        return ;
    }
    let count: u32 = hash((frame as u32) ^ 0x5bd1) % 8 + 2;
    let ghost cells = glints(area, all, frame);
    let mut i: u32 = 0;
    assert(first + cells.take(0) =~= first);
    while i < count
        invariant
            area.counts(),
            all == views(lines@),
            countable(all),
            fits(area, all),
            ox == origin_x(area, all),
            oy == origin_y(area, all),
            i <= count == cells.len(),
            cells == Seq::new(count as nat, |i: int| glint(area, all, frame, i as u32)),
            canvas@ == first + cells.take(i as int),
        decreases count - i,
    {
        let seed: u32 = hash((frame as u32) ^ i.wrapping_mul(0x85eb));
        let row: usize = (seed % (lines.len() as u32)) as usize;
        proof {
            lemma_seed_place(area, all, seed, mixed(seed ^ 0xb7));
            assert(all[row as int] == lines@[row as int]@);
        }
        let n: usize = lines[row].as_str().unicode_len();
        let w: u32 = if n < 1 {
            1
        } else {
            n as u32
        };
        let col: u32 = hash(seed ^ 0xb7) % w;
        let ch = if (col as usize) < n {
            lines[row].as_str().get_char(col as usize)
        } else {
            ' '
        };
        let style = Style { fg: glitch_color(seed ^ 0xc2), bold: true };
        canvas.cell(ox + col as u16, oy + row as u16, ch, style);
        assert(cells[i as int] == glint(area, all, frame, i));
        i = i + 1;
        assert(canvas@ =~= first + cells.take(i as int));
    }
    assert(cells.take(i as int) =~= cells);
}

/// The first `n` lines of the picture, but for those that flicker out.
pub open spec fn base_cells(area: Rect, lines: Seq<Seq<char>>, frame: u64, base: Style, n: nat) -> Seq<
    DrawModel,
>
    decreases n,
{
    if n == 0 {
        Seq::empty()
    } else {
        let before = base_cells(area, lines, frame, base, (n - 1) as nat);
        let row = n - 1;
        if flickers_out(frame, row as u32) {
            before
        } else {
            before + line_cells(
                area,
                moved(origin_x(area, lines) as u16, jolt(frame, row as u32)),
                origin_y(area, lines) + row,
                lines[row],
                base,
            )
        }
    }
}

/// The logo in the middle of `area`, or nothing where it does not fit.
pub open spec fn logo_cells(area: Rect, lines: Seq<Seq<char>>, frame: u64, base: Style) -> Seq<DrawModel> {
    if fits(area, lines) {
        base_cells(area, lines, frame, base, lines.len()) + channels(area, lines, frame) + corruption(
            area,
            lines,
            frame,
        ) + glints(area, lines, frame)
    } else {
        Seq::empty()
    }
}

/// Draws the logo in the middle of `area`, where it fits, its lines in the style `base`.
pub fn draw(canvas: &mut Canvas, area: Rect, lines: &Vec<String>, frame: u64, base: Style)
    requires
        area.counts(),
        countable(views(lines@)),
        countable_frame(frame),
    ensures
        final(canvas)@ == old(canvas)@ + logo_cells(area, views(lines@), frame, base),
{
    let ghost all = views(lines@);
    let ghost first = canvas@;
    assert(first + Seq::<DrawModel>::empty() =~= first);
    let logo_w: u16 = width(lines);
    let logo_h: u16 = height(lines);
    if logo_w == 0 || logo_h == 0 || area.width < logo_w || area.height < logo_h {
        return ;
    }
    let ox: u16 = area.x + (area.width - logo_w) / 2;
    let oy: u16 = area.y + (area.height - logo_h) / 2;
    let mut row: usize = 0;
    while row < lines.len()
        invariant
            area.counts(),
            all == views(lines@),
            countable(all),
            fits(area, all),
            ox == origin_x(area, all),
            oy == origin_y(area, all),
            row <= lines@.len(),
            canvas@ == first + base_cells(area, all, frame, base, row as nat),
        decreases lines@.len() - row,
    {
        let ghost before = base_cells(area, all, frame, base, row as nat);
        if !flicker_hidden_line(frame, row as u32) {
            let shift: i16 = line_shift(frame, row as u32);
            let y: u16 = oy + row as u16;
            draw_line(canvas, area, ox, y, shift, lines[row].as_str(), base);
            assert(all[row as int] == lines@[row as int]@);
        }
        row = row + 1;
        assert(canvas@ =~= first + base_cells(area, all, frame, base, row as nat));
    }
    draw_channels(canvas, area, ox, oy, lines, frame);
    draw_corruption(canvas, area, ox, oy, lines, frame);
    draw_glints(canvas, area, ox, oy, lines, frame);
    assert(canvas@ =~= first + logo_cells(area, all, frame, base));
}

/// A line, cut off at the edges of `area`, stays in it.
proof fn lemma_line_stays(area: Rect, x: int, y: int, line: Seq<char>, style: Style)
    requires
        area.counts(),
        0 <= x,
    ensures
        all_stay_in(line_cells(area, x, y, line, style), area),
{
}

/// Lists that stay in a window stay in it together.
pub proof fn lemma_stay_concat(a: Seq<DrawModel>, b: Seq<DrawModel>, window: Rect)
    requires
        all_stay_in(a, window),
        all_stay_in(b, window),
    ensures
        all_stay_in(a + b, window),
{
    assert forall|i: int| 0 <= i < (a + b).len() implies stays_in(
        #[trigger] (a + b)[i],
        window,
    ) by {
        if i < a.len() {
            assert((a + b)[i] == a[i]);
        } else {
            assert((a + b)[i] == b[i - a.len()]);
        }
    }
}

proof fn lemma_base_stays(area: Rect, lines: Seq<Seq<char>>, frame: u64, base: Style, n: nat)
    requires
        area.counts(),
        n <= lines.len(),
    ensures
        all_stay_in(base_cells(area, lines, frame, base, n), area),
    decreases n,
{
    if n > 0 {
        lemma_base_stays(area, lines, frame, base, (n - 1) as nat);
        let row = n - 1;
        let x = moved(origin_x(area, lines) as u16, jolt(frame, row as u32));
        let y = origin_y(area, lines) + row;
        lemma_line_stays(area, x, y, lines[row], base);
        lemma_stay_concat(
            base_cells(area, lines, frame, base, (n - 1) as nat),
            line_cells(area, x, y, lines[row], base),
            area,
        );
    }
}

proof fn lemma_channel_stays(
    area: Rect,
    lines: Seq<Seq<char>>,
    frame: u64,
    color: Rgb,
    dir: int,
    n: nat,
)
    requires
        area.counts(),
    ensures
        all_stay_in(channel_cells(area, lines, frame, color, dir, n), area),
    decreases n,
{
    if n > 0 {
        lemma_channel_stays(area, lines, frame, color, dir, (n - 1) as nat);
        let start = (mixed(frame as u32) % (lines.len() as u32)) as int;
        let shift = dir * (mixed((frame as u32) ^ 0x4f2d) % 6 + 1);
        let row = start + n - 1;
        let x = moved(origin_x(area, lines) as u16, shift);
        let y = origin_y(area, lines) + row;
        if row < lines.len() {
            lemma_line_stays(area, x, y, lines[row], bold(color));
            lemma_stay_concat(
                channel_cells(area, lines, frame, color, dir, (n - 1) as nat),
                line_cells(area, x, y, lines[row], bold(color)),
                area,
            );
        }
    }
}

proof fn lemma_one_channel_stays(
    area: Rect,
    lines: Seq<Seq<char>>,
    frame: u64,
    b: u64,
    channel: u32,
)
    requires
        area.counts(),
    ensures
        all_stay_in(one_channel(area, lines, frame, b, channel), area),
{
    let seed = channel_seed(frame, channel);
    let at = (frame + b + channel * 11) as u64;
    lemma_channel_stays(
        area,
        lines,
        at,
        glitch(seed),
        if seed % 2 == 0 {
            1
        } else {
            -1
        },
        band_height(at),
    );
}

/// The logo stays in its area, however it glitches.
pub proof fn law_logo_stays_in_its_area(area: Rect, lines: Seq<Seq<char>>, frame: u64, base: Style)
    requires
        area.counts(),
        countable(lines),
    ensures
        all_stay_in(logo_cells(area, lines, frame, base), area),
{
    if fits(area, lines) {
        let a = base_cells(area, lines, frame, base, lines.len());
        let b = channels(area, lines, frame);
        let c = corruption(area, lines, frame);
        let d = glints(area, lines, frame);
        lemma_base_stays(area, lines, frame, base, lines.len());
        if let Some(at) = burst(frame) {
            lemma_one_channel_stays(area, lines, frame, at, 0);
            lemma_one_channel_stays(area, lines, frame, at, 1);
            lemma_stay_concat(
                one_channel(area, lines, frame, at, 0),
                one_channel(area, lines, frame, at, 1),
                area,
            );
            assert(one_channel(area, lines, frame, at, 0) + Seq::<DrawModel>::empty()
                =~= one_channel(area, lines, frame, at, 0));
        }
        assert forall|i: int| 0 <= i < c.len() implies stays_in(
            #[trigger] c[i],
            area,
        ) by {
            let seed = mixed((frame as u32) ^ (i as u32).wrapping_mul(0x9e37));
            lemma_seed_place(area, lines, seed, mixed(seed ^ 0x41));
            assert(c[i] == corrupted(area, lines, frame, i as u32));
        }
        assert forall|i: int| 0 <= i < d.len() implies stays_in(
            #[trigger] d[i],
            area,
        ) by {
            let seed = mixed((frame as u32) ^ (i as u32).wrapping_mul(0x85eb));
            lemma_seed_place(area, lines, seed, mixed(seed ^ 0xb7));
            assert(d[i] == glint(area, lines, frame, i as u32));
        }
        lemma_stay_concat(a, b, area);
        lemma_stay_concat(a + b, c, area);
        lemma_stay_concat(a + b + c, d, area);
    }
}

} // verus!
