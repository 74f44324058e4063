//! Where drawings stand, and how the logo glitches.

use vstd::prelude::*;

use super::brand::{Rgb, ACCENT_AMBER, ACCENT_VIOLET, BLOOM_BONE, BRAND_A, BRAND_B, PANEL_HI};
use super::canvas::{bold, cell_at, ink, places, text_at, Canvas, Draw, DrawModel, Rect, Style};
use super::layout::{fixed_height, is_middle_of, share_sum, RowSize};
use super::logo::{
    band_height, burst, channel_cells, channel_seed, channels, corrupted, corruption, fits,
    flickers_out, glint, glints, glitch, jolt, junk, lemma_widest_line, line_cells, logo_cells, mixed,
    base_cells, moved, one_channel, origin_x, origin_y, seed_col, seed_row, widest_line,
};
use super::screens::{
    around, block, centered_line, form_area, light_length, logo_area, logo_is_shown, middle_column,
    pitch_is_shown, spinner_of, stacked, strokes, underline_width, widest_places,
};

verus! {

// Rectangles and drawings

/// A rectangle holds the places from its corner on, as many as it is wide and high; and what lies in
/// another reaches beyond none of its edges.
pub proof fn law_rectangles_hold_their_places(r: Rect, outer: Rect, x: int, y: int)
    ensures
        r.has_place(x, y) <==> 0 <= x - r.x < r.width && 0 <= y - r.y < r.height,
        r.lies_in(outer) <==> {
            &&& r.x >= outer.x
            &&& r.y >= outer.y
            &&& r.x + r.width <= outer.x + outer.width
            &&& r.y + r.height <= outer.y + outer.height
        },
        r.lies_in(outer) && r.has_place(x, y) ==> outer.has_place(x, y),
        r.counts() <==> r.x + r.width <= 0xffff && r.y + r.height <= 0xffff,
{
}

/// A drawing is seen as it was put: where it stands, what it says, and how it stands out.
pub proof fn law_drawings_are_seen_as_they_are(d: Draw)
    ensures
        match d {
            Draw::Text { x, y, text, style } => d@ == (DrawModel::Text { x, y, text: text@, style }),
            Draw::Cell { x, y, ch, style } => d@ == (DrawModel::Cell { x, y, ch, style }),
            Draw::Panel { area, border, title, fill, centered, lines } => {
                &&& d@ is Panel
                &&& d@->area == area
                &&& d@->border == border
                &&& d@->fill == fill
                &&& d@->centered == centered
                &&& title matches Some((text, color)) ==> d@->title == Some((text@, color))
                &&& title is None ==> d@->title is None
                &&& d@->lines.len() == lines@.len()
                &&& forall|i: int|
                    0 <= i < lines@.len() ==> (#[trigger] d@->lines[i]).0 == lines@[i].0@
                        && d@->lines[i].1 == lines@[i].1
            },
        },
{
}

/// A canvas is seen drawing by drawing, in order.
pub proof fn law_canvases_are_seen_in_order(c: Canvas, i: int)
    ensures
        c@.len() == c.draws@.len(),
        0 <= i < c.draws@.len() ==> c@[i] == c.draws@[i]@,
{
}

/// A text takes a place for each of its characters.
pub proof fn law_texts_take_a_place_for_each_character(s: Seq<char>)
    ensures
        s.len() <= u16::MAX ==> places(s) == s.len(),
        places(s) as int == s.len() as int % 65536,
{
}

/// Texts and characters stand where they are put, bold or not.
pub proof fn law_texts_stand_where_they_are_put(x: u16, y: u16, text: Seq<char>, ch: char, fg: Rgb)
    ensures
        text_at(x as int, y as int, text, bold(fg)) == (DrawModel::Text {
            x,
            y,
            text,
            style: Style { fg, bold: true },
        }),
        cell_at(x as int, y as int, ch, ink(fg)) == (DrawModel::Cell {
            x,
            y,
            ch,
            style: Style { fg, bold: false },
        }),
{
}

// Rows

/// Rows of fixed height add up, and so do shares.
pub proof fn law_rows_add_up(rows: Seq<RowSize>, n: u16)
    ensures
        fixed_height(Seq::<RowSize>::empty()) == 0,
        fixed_height(rows.push(RowSize::Length(n))) == fixed_height(rows) + n,
        fixed_height(rows.push(RowSize::Min(n))) == fixed_height(rows),
        fixed_height(rows.push(RowSize::Percentage(n))) == fixed_height(rows),
        share_sum(Seq::<RowSize>::empty()) == 0,
        share_sum(rows.push(RowSize::Percentage(n))) == share_sum(rows) + n,
{
    assert(rows.push(RowSize::Length(n)).drop_last() =~= rows);
    assert(rows.push(RowSize::Min(n)).drop_last() =~= rows);
    assert(rows.push(RowSize::Percentage(n)).drop_last() =~= rows);
}

/// The middle keeps the width, begins a fifth of the height below the top and is three fifths high,
/// each but for less than two rows.
pub proof fn law_the_middle_is_three_fifths(r: Rect, area: Rect)
    requires
        is_middle_of(r, area),
    ensures
        r.x == area.x,
        r.width == area.width,
        -5 <= 5 * (r.y - area.y) - area.height <= 5,
        -5 <= 5 * r.height - 3 * area.height <= 5,
        r.lies_in(area),
{
}

/// What is as wide as an area, begins a fifth below its top and takes three fifths of it, is its middle.
pub proof fn law_three_fifths_are_the_middle(area: Rect, fifth: u16)
    requires
        area.height == 5 * fifth,
    ensures
        is_middle_of(
            Rect {
                x: area.x,
                y: (area.y + fifth) as u16,
                width: area.width,
                height: (3 * fifth) as u16,
            },
            area,
        ) || area.y + area.height > u16::MAX,
{
}

// Places on screens

/// The middle column has as many columns to its left as to its right, but for one.
pub proof fn law_the_middle_column_halves_the_area(area: Rect)
    requires
        area.width > 0,
    ensures
        ({
            let left = middle_column(area) - area.x;
            let right = area.width - left;
            left <= right <= left + 1
        }),
{
}

/// A text around a column has half of its places to the left, as far as there are columns.
pub proof fn law_texts_stand_around_their_column(column: u16, y: u16, text: Seq<char>, style: Style)
    ensures
        around(column as int, y as int, text, style) == (DrawModel::Text {
            x: if places(text) / 2 <= column {
                (column - places(text) / 2) as u16
            } else {
                0
            },
            y,
            text,
            style,
        }),
{
}

/// A text in the middle of a row has as many places to its left as to its right, but for one; one that
/// is too wide begins at the left edge. Below the area nothing is said.
pub proof fn law_lines_are_centered(area: Rect, y: u16, text: Seq<char>, style: Style)
    requires
        area.counts(),
    ensures
        y >= area.y + area.height ==> centered_line(area, y as int, text, style).len() == 0,
        y < area.y + area.height ==> {
            let all = centered_line(area, y as int, text, style);
            &&& all.len() == 1
            &&& all[0] is Text
            &&& all[0]->Text_y == y
            &&& all[0]->text == text
            &&& all[0]->Text_style == style
            &&& places(text) <= area.width ==> {
                let left = all[0]->Text_x - area.x;
                left <= area.width - places(text) - left <= left + 1
            }
            &&& places(text) > area.width ==> all[0]->Text_x == area.x
        },
{
}

/// Strokes follow each other along a row.
pub proof fn law_strokes_follow_each_other(x: u16, y: u16, n: u16, i: int)
    requires
        x + n <= u16::MAX,
        0 <= i < n,
    ensures
        strokes(x as int, y as int, n as int).len() == n,
        strokes(x as int, y as int, n as int)[i] == (DrawModel::Cell {
            x: (x + i) as u16,
            y,
            ch: '─',
            style: Style { fg: PANEL_HI, bold: false },
        }),
{
}

/// A title is underlined as far as it goes, by ten strokes at least, and leaves two places at each edge.
pub proof fn law_titles_are_underlined(area: Rect, title: Seq<char>)
    requires
        area.width >= 4,
    ensures
        ({
            let w = underline_width(area, title);
            &&& w <= area.width - 4
            &&& w < area.width - 4 ==> w >= 10 && w >= places(title)
            &&& w <= 10 || w <= places(title)
        }),
{
}

/// The widest of texts is one of them, and none is wider.
pub proof fn law_the_widest_is_one_of_them(lines: Seq<Seq<char>>, i: int)
    requires
        0 <= i < lines.len(),
    ensures
        places(lines[i]) <= widest_places(lines),
        exists|k: int| 0 <= k < lines.len() && places(#[trigger] lines[k]) == widest_places(lines),
    decreases lines.len(),
{
    let before = lines.drop_last();
    if before.len() > 0 {
        law_the_widest_is_one_of_them(
            before,
            if i < before.len() {
                i
            } else {
                0
            },
        );
        let k = choose|k: int|
            0 <= k < before.len() && places(#[trigger] before[k]) == widest_places(before);
        assert(lines[k] == before[k]);
        if i < before.len() {
            assert(lines[i] == before[i]);
        }
        assert(places(lines[lines.len() - 1]) == places(lines.last()));
    } else {
        assert(widest_places(before) == 0);
        assert(lines[0] == lines.last());
        assert(places(lines[0]) == widest_places(lines));
    }
}

/// The texts of a block stand below each other, and begin where the widest would stand around the
/// column.
pub proof fn law_blocks_stand_around_their_column(
    column: u16,
    y: u16,
    lines: Seq<Seq<char>>,
    style: Style,
    i: int,
)
    requires
        y + lines.len() <= u16::MAX,
        0 <= i < lines.len(),
        widest_places(lines) / 2 <= column,
    ensures
        block(column as int, y as int, lines, style).len() == lines.len(),
        block(column as int, y as int, lines, style)[i] == (DrawModel::Text {
            x: (column - widest_places(lines) / 2) as u16,
            y: (y + i) as u16,
            text: lines[i],
            style,
        }),
        stacked(column as int, y as int, lines, style)[i] == (DrawModel::Text {
            x: column,
            y: (y + i) as u16,
            text: lines[i],
            style,
        }),
{
}

/// The logo is shown where it leaves two rows, and the text below it where five more are left. What is
/// shown stands in the middle of the rows above the last two.
pub proof fn law_the_logo_stands_in_the_middle(area: Rect, logo: Seq<Seq<char>>)
    requires
        area.counts(),
        logo_is_shown(area, logo),
    ensures
        widest_line(logo) <= area.width,
        logo.len() + 2 <= area.height,
        pitch_is_shown(area, logo) <==> logo.len() + 7 <= area.height,
        ({
            let at = logo_area(area, logo);
            let taken = if pitch_is_shown(area, logo) {
                logo.len() + 5
            } else {
                logo.len()
            };
            let above = at.y - area.y;
            &&& at.x == area.x
            &&& at.width == area.width
            &&& at.height == logo.len()
            &&& above <= area.height - 2 - taken - above <= above + 1
        }),
{
}

/// Where there is room for the logo and two rows, it is shown.
pub proof fn law_logos_that_fit_are_shown(area: Rect, logo: Seq<Seq<char>>)
    ensures
        widest_line(logo) <= area.width && logo.len() + 2 <= area.height <==> logo_is_shown(area, logo),
{
}

/// The form leaves two columns at each side, four rows above and one below.
pub proof fn law_the_form_leaves_a_margin(area: Rect)
    requires
        area.counts(),
        area.width >= 4,
        area.height >= 5,
    ensures
        form_area(area).x == area.x + 2,
        form_area(area).x + form_area(area).width == area.x + area.width - 2,
        form_area(area).y == area.y + 4,
        form_area(area).y + form_area(area).height == area.y + area.height - 1,
{
}

/// The spinner goes round once in ten frames.
pub proof fn law_the_spinner_goes_round(frame: u64)
    ensures
        spinner_of(frame) == seq![
            "⠋"@,
            "⠙"@,
            "⠹"@,
            "⠸"@,
            "⠼"@,
            "⠴"@,
            "⠦"@,
            "⠧"@,
            "⠇"@,
            "⠏"@,
        ][frame as int % 10],
{
}

/// The light of a progress bar takes ten places, or all where there are fewer.
pub proof fn law_the_light_takes_ten_places(width: u16)
    ensures
        width >= 10 ==> light_length(width) == 10,
        width < 10 ==> light_length(width) == width,
{
}

// The logo

/// The width of a picture is that of one of its lines, and none is wider.
pub proof fn law_pictures_are_as_wide_as_their_widest_line(lines: Seq<Seq<char>>, i: int)
    requires
        0 <= i < lines.len(),
    ensures
        lines[i].len() <= widest_line(lines),
        exists|k: int| 0 <= k < lines.len() && (#[trigger] lines[k]).len() == widest_line(lines),
    decreases lines.len(),
{
    lemma_widest_line(lines, i);
    let before = lines.drop_last();
    if before.len() > 0 {
        law_pictures_are_as_wide_as_their_widest_line(before, 0);
        let k = choose|k: int|
            0 <= k < before.len() && (#[trigger] before[k]).len() == widest_line(before);
        assert(lines[k] == before[k]);
    } else {
        assert(widest_line(before) == 0);
    }
    assert(lines[lines.len() - 1] == lines.last());
}

/// A picture is shown where it is not empty and not larger than the area, and then in its middle.
pub proof fn law_pictures_are_centered(area: Rect, lines: Seq<Seq<char>>, frame: u64, base: Style)
    ensures
        fits(area, lines) <==> 0 < widest_line(lines) <= area.width && 0 < lines.len() <= area.height,
        !fits(area, lines) ==> logo_cells(area, lines, frame, base).len() == 0,
        fits(area, lines) ==> {
            let left = origin_x(area, lines) - area.x;
            let above = origin_y(area, lines) - area.y;
            &&& left <= area.width - widest_line(lines) - left <= left + 1
            &&& above <= area.height - lines.len() - above <= above + 1
        },
{
}

/// The logo is drawn first, then the channels of colour, then what is corrupted, and the glints last.
pub proof fn law_glitches_lie_above_the_logo(area: Rect, lines: Seq<Seq<char>>, frame: u64, base: Style)
    requires
        fits(area, lines),
    ensures
        ({
            let a = base_cells(area, lines, frame, base, lines.len());
            let b = channels(area, lines, frame);
            let c = corruption(area, lines, frame);
            let d = glints(area, lines, frame);
            let all = logo_cells(area, lines, frame, base);
            &&& all.len() == a.len() + b.len() + c.len() + d.len()
            &&& all.take(a.len() as int) == a
            &&& all.skip(a.len() as int).take(b.len() as int) == b
            &&& all.skip((a.len() + b.len()) as int).take(c.len() as int) == c
            &&& all.skip((a.len() + b.len() + c.len()) as int) == d
        }),
{
}

/// A line of the logo is drawn in its row and jolted, unless it flickers out.
pub proof fn law_lines_are_drawn_in_their_rows(
    area: Rect,
    lines: Seq<Seq<char>>,
    frame: u64,
    base: Style,
    row: u32,
)
    ensures
        base_cells(area, lines, frame, base, 0).len() == 0,
        base_cells(area, lines, frame, base, row as nat + 1) == base_cells(
            area,
            lines,
            frame,
            base,
            row as nat,
        ) + (if flickers_out(frame, row) {
            Seq::empty()
        } else {
            line_cells(
                area,
                moved(origin_x(area, lines) as u16, jolt(frame, row)),
                origin_y(area, lines) + row,
                lines[row as int],
                base,
            )
        }),
{
}

/// A number is mixed by folding it onto itself and multiplying it, twice, and folding it once more.
pub proof fn law_numbers_are_mixed_in_five_steps(x: u32, a: u32, b: u32, c: u32, d: u32)
    requires
        a == x ^ (x >> 16u32),
        b == a.wrapping_mul(2146121005),
        c == b ^ (b >> 15u32),
        d == c.wrapping_mul(2221713035),
    ensures
        mixed(x) == d ^ (d >> 16u32),
{
}

/// A burst begins with each period of 62 to 118 frames, and lasts for 4 to 14 of them.
pub proof fn law_bursts_begin_with_their_periods(frame: u64, period: u64, length: u64)
    requires
        period == 62 + mixed((frame / 211) as u32) as int % 57,
        length == 4 + mixed((frame / period) as u32 ^ 35671u32) as int % 11,
    ensures
        62 <= period <= 118,
        4 <= length <= 14,
        burst(frame) is Some <==> frame % period < length,
        burst(frame) matches Some(b) ==> b == frame % period,
{
}

/// Lines flicker out in the first 2 to 6 frames of each period of 89 to 141, and three in ten of them.
pub proof fn law_lines_flicker_at_times(frame: u64, row: u32, period: u64, length: u64)
    requires
        period == 89 + mixed((frame / 197) as u32 ^ 20903u32) as int % 53,
        length == 2 + mixed((frame / period) as u32 ^ 42139u32) as int % 5,
    ensures
        flickers_out(frame, row) <==> frame % period < length && mixed(
            row ^ (frame as u32) ^ 31765u32,
        ) % 10 <= 2,
{
}

/// Lines are jolted in the first five frames of each period of 67 to 137, four in ten of them, by one
/// to seven places to either side.
pub proof fn law_lines_are_jolted_at_times(frame: u64, row: u32, period: u64)
    requires
        period == 67 + mixed(row ^ (frame / 173) as u32) as int % 71,
    ensures
        jolt(frame, row) != 0 <==> frame % period <= 4 && mixed(row ^ (frame as u32)) % 10 <= 3,
        jolt(frame, row) != 0 ==> {
            let places = mixed(row.wrapping_mul(31) ^ (frame as u32)) as int % 7 + 1;
            let right = mixed(row ^ 20977u32 ^ (frame as u32)) % 2 == 0;
            jolt(frame, row) == (if right {
                places
            } else {
                -places
            })
        },
{
}

/// The colours of glitches take turns, and so do the characters of corruption.
pub proof fn law_colours_and_characters_take_turns(seed: u32)
    ensures
        glitch(seed) == seq![
            BRAND_B,
            BRAND_A,
            ACCENT_AMBER,
            ACCENT_VIOLET,
            BLOOM_BONE,
        ][seed as int % 5],
        junk(seed) == seq!['@', '#', '$', '%', '&', '?', '!', '<', '>', '{', '}', '[', ']'][seed as int
            % 13],
{
}

/// A burst has a channel of colour, or two; else there is none.
pub proof fn law_bursts_have_one_channel_or_two(area: Rect, lines: Seq<Seq<char>>, frame: u64)
    ensures
        burst(frame) is None ==> channels(area, lines, frame).len() == 0,
        burst(frame) matches Some(b) ==> {
            let second = mixed((frame / 37) as u32 ^ 19759u32) % 2 != 0;
            &&& !second ==> channels(area, lines, frame) == one_channel(area, lines, frame, b, 0)
            &&& second ==> channels(area, lines, frame) == one_channel(area, lines, frame, b, 0)
                + one_channel(area, lines, frame, b, 1)
        },
{
}

/// A channel takes its colour and its side from its seed, and one to six lines.
pub proof fn law_channels_follow_their_seeds(
    area: Rect,
    lines: Seq<Seq<char>>,
    frame: u64,
    b: u64,
    channel: u32,
    at: u64,
    seed: u32,
)
    requires
        at == frame + b + 11 * channel,
        seed == mixed(mixed((frame / 37) as u32 ^ 19759u32) ^ channel.wrapping_mul(40503)),
    ensures
        channel_seed(frame, channel) == seed,
        band_height(at) == mixed((at as u32) ^ 35347u32) as int % 6 + 1,
        seed % 2 == 0 ==> one_channel(area, lines, frame, b, channel) == channel_cells(
            area,
            lines,
            at,
            glitch(seed),
            1,
            band_height(at),
        ),
        seed % 2 == 1 ==> one_channel(area, lines, frame, b, channel) == channel_cells(
            area,
            lines,
            at,
            glitch(seed),
            -1,
            band_height(at),
        ),
{
}

/// The lines of a channel follow each other from the one that its frame points to, as far as there are
/// lines, bold, and moved by one to six places to the channel's side.
pub proof fn law_channels_show_lines_of_the_logo(
    area: Rect,
    lines: Seq<Seq<char>>,
    frame: u64,
    color: Rgb,
    dir: int,
    k: nat,
)
    requires
        0 < lines.len() <= u32::MAX,
    ensures
        channel_cells(area, lines, frame, color, dir, 0).len() == 0,
        ({
            let row = mixed(frame as u32) as int % lines.len() as int + k;
            let by = mixed((frame as u32) ^ 20269u32) as int % 6 + 1;
            channel_cells(area, lines, frame, color, dir, k + 1) == channel_cells(
                area,
                lines,
                frame,
                color,
                dir,
                k,
            ) + (if row < lines.len() {
                line_cells(
                    area,
                    moved(origin_x(area, lines) as u16, dir * by),
                    origin_y(area, lines) + row,
                    lines[row],
                    Style { fg: color, bold: true },
                )
            } else {
                Seq::empty()
            })
        }),
{
}

/// Seeds point to the rows of the picture in turn, and to the places of a row.
pub proof fn law_seeds_point_into_the_picture(lines: Seq<Seq<char>>, row: int, seed: u32)
    requires
        0 < lines.len() <= u32::MAX,
        0 <= row < lines.len(),
        lines[row].len() <= u32::MAX,
    ensures
        seed_row(lines, seed) == seed as int % lines.len() as int,
        lines[row].len() > 0 ==> seed_col(lines, row, seed) == seed as int % lines[row].len() as int,
        lines[row].len() == 0 ==> seed_col(lines, row, seed) == 0,
{
}

/// In one frame of 7 to 15, one to seven characters are corrupted; in the others none is.
pub proof fn law_characters_are_corrupted_at_times(
    area: Rect,
    lines: Seq<Seq<char>>,
    frame: u64,
    period: u64,
    i: u32,
)
    requires
        period == 7 + mixed((frame / 23) as u32) as int % 9,
    ensures
        frame % period > 0 ==> corruption(area, lines, frame).len() == 0,
        frame % period == 0 ==> {
            let n = mixed((frame as u32) ^ 29681u32) as int % 7 + 1;
            &&& corruption(area, lines, frame).len() == n
            &&& i < n ==> corruption(area, lines, frame)[i as int] == corrupted(area, lines, frame, i)
        },
        ({
            let seed = mixed((frame as u32) ^ i.wrapping_mul(40503));
            let row = seed_row(lines, seed);
            corrupted(area, lines, frame, i) == cell_at(
                origin_x(area, lines) + seed_col(lines, row, mixed(seed ^ 65u32)),
                origin_y(area, lines) + row,
                junk(mixed(seed ^ 145u32)),
                Style { fg: glitch(seed ^ 2583u32), bold: true },
            )
        }),
{
}

/// In the first three to five of nineteen frames, two to nine characters of the logo glint; in the
/// others none does.
pub proof fn law_characters_glint_at_times(area: Rect, lines: Seq<Seq<char>>, frame: u64, i: u32)
    ensures
        ({
            let shown = 3 + mixed((frame / 31) as u32) as int % 3;
            let n = mixed((frame as u32) ^ 23505u32) as int % 8 + 2;
            &&& frame % 19 >= shown ==> glints(area, lines, frame).len() == 0
            &&& frame % 19 < shown ==> {
                &&& glints(area, lines, frame).len() == n
                &&& i < n ==> glints(area, lines, frame)[i as int] == glint(area, lines, frame, i)
            }
        }),
        ({
            let seed = mixed((frame as u32) ^ i.wrapping_mul(34283));
            let row = seed_row(lines, seed);
            let col = seed_col(lines, row, mixed(seed ^ 183u32));
            let place = |ch: char|
                cell_at(
                    origin_x(area, lines) + col,
                    origin_y(area, lines) + row,
                    ch,
                    Style { fg: glitch(seed ^ 194u32), bold: true },
                );
            &&& col < lines[row].len() ==> glint(area, lines, frame, i) == place(lines[row][col])
            &&& col >= lines[row].len() ==> glint(area, lines, frame, i) == place(' ')
        }),
{
}

} // verus!
