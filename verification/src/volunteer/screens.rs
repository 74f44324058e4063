//! What the launcher's screens show.

use vstd::prelude::*;
use vstd::string::StringExecFns;

use super::app::{App, AppModel, Screen, START};
use super::brand::{Rgb, BRAND_A, BRAND_B, DANGER, DIM, INK, PANEL, PANEL_HI, SUCCESS, WARN};
use super::canvas::{
    bold, bold_style, cell_at, ink, lines_view, places, plain_style, str_w, text_at, Canvas,
    DrawModel, Rect, Style,
};
use super::config::{client_bin, client_bin_of};
use super::layout::{between, is_middle_of, middle, topmost, whole};
use super::logo::{countable, countable_frame, draw, height, logo_cells, widest_line, width};
use super::prepare::{BuildSnapshot, BuildState};
use crate::text::{chars_of, decimal, decimal_text, fill, filled, holds_at, mentions, views};

verus! {

/// The least width that the screens need.
pub const MIN_W: u16 = 78;

/// The least height that the screens need.
pub const MIN_H: u16 = 28;

/// What the screens show beside the launcher's state.
#[derive(Debug)]
pub struct Scene {
    pub manifest_dir: String,
    /// The lines of the logo.
    pub logo: Vec<String>,
    /// The style that the logo's lines glow in.
    pub glow: Style,
    /// How far the progress bar's light has come.
    pub sweep: usize,
    /// The colours of the light, from its head backwards.
    pub shades: Vec<Rgb>,
}

/// `x` less `by`, or 0.
pub open spec fn less(x: int, by: int) -> int {
    if x >= by {
        x - by
    } else {
        0
    }
}

/// The middle column.
pub open spec fn middle_column(area: Rect) -> int {
    area.x + area.width as int / 2
}

/// A text around a column.
pub open spec fn around(column: int, y: int, text: Seq<char>, style: Style) -> DrawModel {
    text_at(less(column, places(text) as int / 2), y, text, style)
}

/// A row of horizontal strokes.
pub open spec fn strokes(x: int, y: int, n: int) -> Seq<DrawModel> {
    Seq::new(n as nat, |i: int| cell_at(x + i, y, '─', ink(PANEL_HI)))
}

fn draw_strokes(canvas: &mut Canvas, x: u16, y: u16, n: u16)
    requires
        x + n <= u16::MAX,
    ensures
        final(canvas)@ == old(canvas)@ + strokes(x as int, y as int, n as int),
{
    let ghost first = canvas@;
    let mut i: u16 = 0;
    assert(first + strokes(x as int, y as int, 0) =~= first);
    while i < n
        invariant
            i <= n,
            x + n <= u16::MAX,
            canvas@ == first + strokes(x as int, y as int, i as int),
        decreases n - i,
    {
        canvas.cell(x + i, y, '─', plain_style(PANEL_HI));
        i = i + 1;
        assert(canvas@ =~= first + strokes(x as int, y as int, i as int));
    }
}

/// A text around a column.
fn draw_around(canvas: &mut Canvas, column: u16, y: u16, text: &str, style: Style)
    ensures
        final(canvas)@ == old(canvas)@.push(around(column as int, y as int, text@, style)),
{
    canvas.text(column.saturating_sub(str_w(text) / 2), y, text, style);
}

/// The project's mark.
pub const WORDMARK: &'static str = "◆ AETHERCOMPUTE";

/// The launcher's step, out of five.
pub open spec fn step_of(screen: Screen) -> Seq<char> {
    match screen {
        Screen::Welcome => "Step 1/5 of 5"@,
        Screen::Form => "Step 2/5 of 5"@,
        Screen::Identity => "Step 3/5 of 5"@,
        Screen::Build => "Step 4/5 of 5"@,
        Screen::Ready | Screen::Error => "Step 5/5 of 5"@,
    }
}

/// The header: the mark, the host, the step and a line below.
pub open spec fn header(area: Rect, host: Seq<char>, screen: Screen) -> Seq<DrawModel> {
    seq![
        text_at(area.x + 3, 1, WORDMARK@, bold(BRAND_A)),
        text_at(area.x + 3 + places(WORDMARK@) + 2, 1, host, ink(DIM)),
        text_at(
            area.x + less(area.width as int, places(step_of(screen)) + 2),
            1,
            step_of(screen),
            ink(DIM),
        ),
    ] + strokes(area.x as int, 3, area.width as int)
}

/// The lengths of the fixed texts of the header and the footer.
proof fn lemma_fixed_texts()
    ensures
        WORDMARK@.len() == 15,
        forall|s: Screen| (#[trigger] step_of(s)).len() == 13,
        "aethercompute.org"@.len() == 17,
{
    reveal_strlit("◆ AETHERCOMPUTE");
    reveal_strlit("Step 1/5 of 5");
    reveal_strlit("Step 2/5 of 5");
    reveal_strlit("Step 3/5 of 5");
    reveal_strlit("Step 4/5 of 5");
    reveal_strlit("Step 5/5 of 5");
    reveal_strlit("aethercompute.org");
}

/// Draws the header.
pub fn draw_header(canvas: &mut Canvas, area: Rect, host: &str, screen: Screen)
    requires
        area.counts(),
        area.width >= MIN_W,
        area.height >= 4,
    ensures
        final(canvas)@ == old(canvas)@ + header(area, host@, screen),
{
    let ghost first = canvas@;
    proof {
        lemma_fixed_texts();
    }
    let h = topmost(area, 4);
    canvas.text(h.x + 3, 1, WORDMARK, bold_style(BRAND_A));
    let after_wm: u16 = h.x + 3 + str_w(WORDMARK) + 2;
    canvas.text(after_wm, 1, host, plain_style(DIM));
    let s: &str = match screen {
        Screen::Welcome => "Step 1/5 of 5",
        Screen::Form => "Step 2/5 of 5",
        Screen::Identity => "Step 3/5 of 5",
        Screen::Build => "Step 4/5 of 5",
        Screen::Ready | Screen::Error => "Step 5/5 of 5",
    };
    assert(s@ == step_of(screen));
    canvas.text(h.x + h.width.saturating_sub(str_w(s) + 2), 1, s, plain_style(DIM));
    draw_strokes(canvas, h.x, 3, h.width);
    assert(canvas@ =~= first + header(area, host@, screen));
}

/// What the keys do on a screen.
pub open spec fn hint_of(screen: Screen) -> Seq<char> {
    match screen {
        Screen::Welcome => "Enter: continue · Q: quit"@,
        Screen::Form => "Up/Down: navigate · Left/Right: device · Enter: next · Q: quit"@,
        Screen::Identity => "Enter: build and launch · B: back · Q: quit"@,
        Screen::Build => "Compiling… · Q: abort"@,
        Screen::Ready => "Enter: launch · Q: quit"@,
        Screen::Error => "R: retry · Q: quit"@,
    }
}

/// The footer: what the keys do, and the project's address.
pub open spec fn footer(area: Rect, screen: Screen) -> Seq<DrawModel> {
    let y = area.y + less(area.height as int, 1);
    seq![
        text_at(area.x + 2, y, hint_of(screen), ink(DIM)),
        text_at(area.x + less(area.width as int, 19), y, "aethercompute.org"@, ink(BRAND_B)),
    ]
}

/// Draws the footer.
pub fn draw_footer(canvas: &mut Canvas, area: Rect, screen: Screen)
    requires
        area.counts(),
        area.width >= 2,
    ensures
        final(canvas)@ == old(canvas)@ + footer(area, screen),
{
    let ghost first = canvas@;
    proof {
        lemma_fixed_texts();
    }
    let y: u16 = area.y + area.height.saturating_sub(1);
    let hint: &str = match screen {
        Screen::Welcome => "Enter: continue · Q: quit",
        Screen::Form => "Up/Down: navigate · Left/Right: device · Enter: next · Q: quit",
        Screen::Identity => "Enter: build and launch · B: back · Q: quit",
        Screen::Build => "Compiling… · Q: abort",
        Screen::Ready => "Enter: launch · Q: quit",
        Screen::Error => "R: retry · Q: quit",
    };
    assert(hint@ == hint_of(screen));
    canvas.text(area.x + 2, y, hint, plain_style(DIM));
    let url = "aethercompute.org";
    canvas.text(
        area.x + area.width.saturating_sub(str_w(url) + 2),
        y,
        url,
        plain_style(BRAND_B),
    );
    assert(canvas@ =~= first + footer(area, screen));
}

/// How long the line under a section's title is.
pub open spec fn underline_width(area: Rect, title: Seq<char>) -> int {
    let w = if places(title) > 10 {
        places(title) as int
    } else {
        10
    };
    if w < less(area.width as int, 4) {
        w
    } else {
        less(area.width as int, 4)
    }
}

/// A section's title, underlined.
pub open spec fn section_title(area: Rect, title: Seq<char>) -> Seq<DrawModel> {
    seq![text_at(area.x + 2, area.y + 1, title, bold(INK))] + strokes(
        area.x + 2,
        area.y + 2,
        underline_width(area, title),
    )
}

/// Draws a section's title.
pub fn draw_section_title(canvas: &mut Canvas, area: Rect, title: &str)
    requires
        area.counts(),
        area.width >= 4,
        area.height >= 3,
    ensures
        final(canvas)@ == old(canvas)@ + section_title(area, title@),
{
    let ghost first = canvas@;
    let x: u16 = area.x + 2;
    let y: u16 = area.y + 1;
    canvas.text(x, y, title, bold_style(INK));
    let w: u16 = str_w(title);
    let underline_w: u16 = if w > 10 {
        w
    } else {
        10
    };
    let max_w: u16 = area.width.saturating_sub(4);
    let n: u16 = if underline_w < max_w {
        underline_w
    } else {
        max_w
    };
    draw_strokes(canvas, x, y + 1, n);
    assert(canvas@ =~= first + section_title(area, title@));
}

/// A text in the middle of a row of `area`, or nothing below it.
pub open spec fn centered_line(area: Rect, y: int, text: Seq<char>, style: Style) -> Seq<DrawModel> {
    if y >= area.y + area.height {
        Seq::empty()
    } else {
        seq![
            text_at(
                area.x + less(area.width as int, places(text) as int) / 2,
                y,
                text,
                style,
            ),
        ]
    }
}

/// Draws a text in the middle of a row.
pub fn draw_centered_line(canvas: &mut Canvas, area: Rect, y: u16, text: &str, style: Style)
    requires
        area.counts(),
    ensures
        final(canvas)@ == old(canvas)@ + centered_line(area, y as int, text@, style),
{
    let ghost first = canvas@;
    if y >= area.y + area.height {
        assert(first + Seq::<DrawModel>::empty() =~= first);
        return ;
    }
    let x: u16 = area.x + area.width.saturating_sub(str_w(text)) / 2;
    canvas.text(x, y, text, style);
    assert(canvas@ =~= first + centered_line(area, y as int, text@, style));
}

/// How long the light of a progress bar is.
pub open spec fn light_length(width: u16) -> int {
    if width < 10 {
        width as int
    } else {
        10
    }
}

/// Where the light of a progress bar has its head; it leaves on the right before it comes again.
pub open spec fn light_head(width: u16, sweep: usize) -> int {
    sweep as int % (width + light_length(width))
}

/// One place of a progress bar.
pub open spec fn bar_place(area: Rect, sweep: usize, shades: Seq<Rgb>, i: int) -> DrawModel {
    let d = light_head(area.width, sweep) - i;
    if 0 <= d < light_length(area.width) {
        text_at(area.x + i, area.y as int, seq!['█'], ink(shades[d]))
    } else {
        text_at(area.x + i, area.y as int, seq!['░'], ink(PANEL_HI))
    }
}

/// A progress bar without an end: a light that runs along it.
pub open spec fn progress_bar(area: Rect, sweep: usize, shades: Seq<Rgb>, n: int) -> Seq<DrawModel> {
    Seq::new(n as nat, |i: int| bar_place(area, sweep, shades, i))
}

/// How long the light of a progress bar is.
pub fn bar_light(width: u16) -> (r: u16)
    ensures
        r == light_length(width),
{
    if width < 10 {
        width
    } else {
        10
    }
}

/// Draws a progress bar.
pub fn draw_progress_bar(canvas: &mut Canvas, area: Rect, sweep: usize, shades: &Vec<Rgb>)
    requires
        area.counts(),
        shades@.len() >= light_length(area.width),
    ensures
        final(canvas)@ == old(canvas)@ + progress_bar(area, sweep, shades@, area.width as int),
{
    let ghost first = canvas@;
    assert(first + progress_bar(area, sweep, shades@, 0) =~= first);
    if area.width == 0 {
        return ;
    }
    let tail: usize = bar_light(area.width) as usize;
    let span: usize = area.width as usize + tail;
    let head: usize = sweep % span;
    let mut i: u16 = 0;
    while i < area.width
        invariant
            i <= area.width,
            area.counts(),
            tail == light_length(area.width),
            head == light_head(area.width, sweep),
            shades@.len() >= tail,
            canvas@ == first + progress_bar(area, sweep, shades@, i as int),
        decreases area.width - i,
    {
        proof {
            reveal_strlit("█");
            reveal_strlit("░");
            assert("█"@ =~= seq!['█']);
            assert("░"@ =~= seq!['░']);
        }
        if head >= i as usize && head - (i as usize) < tail {
            canvas.text(area.x + i, area.y, "█", plain_style(shades[head - i as usize]));
        } else {
            canvas.text(area.x + i, area.y, "░", plain_style(PANEL_HI));
        }
        i = i + 1;
        assert(canvas@ =~= first + progress_bar(area, sweep, shades@, i as int));
    }
}

/// What is shown in a window that is too small.
pub const RESIZE_TEMPLATE: &'static str =
    "please resize your terminal (need ≥{}x{}, have {}x{})";

/// What is shown in a window that is too small.
pub open spec fn resize_message(area: Rect) -> Seq<char> {
    filled(
        RESIZE_TEMPLATE@,
        seq![
            decimal(MIN_W as nat),
            decimal(MIN_H as nat),
            decimal(area.width as nat),
            decimal(area.height as nat),
        ],
    )
}

/// What is shown in a window that is too small, in its middle.
pub open spec fn too_small(area: Rect) -> Seq<DrawModel> {
    seq![
        text_at(
            area.x + less(area.width as int, places(resize_message(area)) as int) / 2,
            area.y + area.height as int / 2,
            resize_message(area),
            ink(WARN),
        ),
    ]
}

/// Asks for a larger window.
pub fn draw_too_small(canvas: &mut Canvas, area: Rect)
    requires
        area.counts(),
    ensures
        final(canvas)@ == old(canvas)@ + too_small(area),
{
    let ghost first = canvas@;
    let fields = vec![
        decimal_text(MIN_W as u64),
        decimal_text(MIN_H as u64),
        decimal_text(area.width as u64),
        decimal_text(area.height as u64),
    ];
    assert(views(fields@) == seq![
        decimal(MIN_W as nat),
        decimal(MIN_H as nat),
        decimal(area.width as nat),
        decimal(area.height as nat),
    ]);
    let msg = fill(RESIZE_TEMPLATE, &fields);
    assert(msg@ == resize_message(area));
    let x: u16 = area.x + area.width.saturating_sub(str_w(msg.as_str())) / 2;
    let y: u16 = area.y + area.height / 2;
    canvas.text(x, y, msg.as_str(), plain_style(WARN));
    assert(canvas@ =~= first + too_small(area));
}

/// The widest of some texts.
pub open spec fn widest_places(lines: Seq<Seq<char>>) -> u16
    decreases lines.len(),
{
    if lines.len() == 0 {
        0
    } else {
        let w = widest_places(lines.drop_last());
        if places(lines.last()) > w {
            places(lines.last())
        } else {
            w
        }
    }
}

/// Texts below each other.
pub open spec fn stacked(x: int, y: int, lines: Seq<Seq<char>>, style: Style) -> Seq<DrawModel> {
    Seq::new(lines.len(), |i: int| text_at(x, y + i, lines[i], style))
}

/// A block of texts around a column, their beginnings below each other.
pub open spec fn block(column: int, y: int, lines: Seq<Seq<char>>, style: Style) -> Seq<DrawModel> {
    stacked(less(column, widest_places(lines) as int / 2), y, lines, style)
}

fn draw_block(canvas: &mut Canvas, column: u16, y: u16, lines: &Vec<String>, style: Style)
    requires
        y + lines@.len() <= u16::MAX,
    ensures
        final(canvas)@ == old(canvas)@ + block(column as int, y as int, views(lines@), style),
{
    let ghost first = canvas@;
    let ghost all = views(lines@);
    let mut w: u16 = 0;
    let mut i: usize = 0;
    assert(all.take(0) =~= Seq::<Seq<char>>::empty());
    while i < lines.len()
        invariant
            i <= lines@.len(),
            all == views(lines@),
            w == widest_places(all.take(i as int)),
        decreases lines@.len() - i,
    {
        let ghost t = all.take(i as int + 1);
        assert(t.drop_last() =~= all.take(i as int));
        assert(t.last() == lines@[i as int]@);
        let n: u16 = str_w(lines[i].as_str());
        if n > w {
            w = n;
        }
        i = i + 1;
    }
    assert(all.take(i as int) =~= all);
    let x: u16 = column.saturating_sub(w / 2);
    let mut k: usize = 0;
    assert(first + stacked(x as int, y as int, all.take(0), style) =~= first);
    while k < lines.len()
        invariant
            k <= lines@.len(),
            y + lines@.len() <= u16::MAX,
            all == views(lines@),
            canvas@ == first + stacked(x as int, y as int, all.take(k as int), style),
        decreases lines@.len() - k,
    {
        assert(all[k as int] == lines@[k as int]@);
        canvas.text(x, y + k as u16, lines[k].as_str(), style);
        k = k + 1;
        assert(canvas@ =~= first + stacked(x as int, y as int, all.take(k as int), style));
    }
    assert(all.take(k as int) =~= all);
}

/// The host, as the welcome shows it.
pub open spec fn host_line(host: Seq<char>) -> Seq<char> {
    "Host: "@ + host
}

/// What the welcome asks for.
pub const WELCOME_CTA: &'static str = "Press Enter to configure your node";

/// The logo is shown where there is room for it.
pub open spec fn logo_is_shown(area: Rect, logo: Seq<Seq<char>>) -> bool {
    area.width >= widest_line(logo) && area.height >= logo.len() + 2
}

/// The text below the logo is shown where there is room for it too.
pub open spec fn pitch_is_shown(area: Rect, logo: Seq<Seq<char>>) -> bool {
    area.height - 2 >= logo.len() + 5
}

/// Where the logo is shown.
pub open spec fn logo_area(area: Rect, logo: Seq<Seq<char>>) -> Rect {
    let room = area.height - 2;
    let taken = if pitch_is_shown(area, logo) {
        logo.len() + 5
    } else {
        logo.len()
    };
    Rect {
        x: area.x,
        y: (area.y + (room - taken) / 2) as u16,
        width: area.width,
        height: logo.len() as u16,
    }
}

/// What is said below the logo.
pub open spec fn pitch(area: Rect, y: int, host: Seq<char>) -> Seq<DrawModel> {
    centered_line(
        area,
        y,
        "Donate idle compute to train open foundation models."@,
        ink(INK),
    ) + centered_line(
        area,
        y + 1,
        "No account. No data leaves your machine beyond model weights."@,
        ink(INK),
    ) + centered_line(area, y + 3, host_line(host), ink(DIM))
}

/// The welcome, with the logo.
pub open spec fn welcome_with_logo(
    area: Rect,
    host: Seq<char>,
    logo: Seq<Seq<char>>,
    frame: u64,
    glow: Style,
) -> Seq<DrawModel> {
    let at = logo_area(area, logo);
    logo_cells(at, logo, frame, glow) + (if pitch_is_shown(area, logo) {
        pitch(area, at.y + at.height + 1, host)
    } else {
        Seq::empty()
    }) + seq![
        around(
            middle_column(area),
            area.y + less(area.height as int, 1),
            WELCOME_CTA@,
            bold(INK),
        ),
    ]
}

/// What is said where there is no room for the logo.
pub open spec fn long_pitch() -> Seq<Seq<char>> {
    seq![
        "Donate your idle GPU to train open foundation models."@,
        "Your node joins a global, decentralized training run and"@,
        "contributes gradients alongside hundreds of other volunteers."@,
        ""@,
        "No account. No data leaves your machine beyond model weights."@,
        "Quit any time — your spot opens for the next epoch."@,
    ]
}

/// The welcome, where there is no room for the logo.
pub open spec fn welcome_without_logo(mid: Rect, host: Seq<char>) -> Seq<DrawModel> {
    let cx = middle_column(mid);
    seq![around(cx, mid.y as int, WORDMARK@, bold(BRAND_A))] + block(
        cx,
        mid.y + 3,
        long_pitch(),
        ink(INK),
    ) + seq![
        around(cx, mid.y + less(mid.height as int, 3), host_line(host), ink(DIM)),
        around(cx, mid.y + less(mid.height as int, 1), WELCOME_CTA@, bold(BRAND_A)),
    ]
}

/// The host, as the welcome shows it.
fn host_text(host: &str) -> (r: String)
    ensures
        r@ == host_line(host@),
{
    let mut s = "Host: ".to_string();
    s.append(host);
    s
}

/// Draws the welcome where there is no room for the logo.
pub fn draw_welcome_text(canvas: &mut Canvas, mid: Rect, host: &str)
    requires
        mid.counts(),
        mid.y + 9 <= u16::MAX,
    ensures
        final(canvas)@ == old(canvas)@ + welcome_without_logo(mid, host@),
{
    let ghost first = canvas@;
    let cx: u16 = mid.x + mid.width / 2;
    draw_around(canvas, cx, mid.y, WORDMARK, bold_style(BRAND_A));
    let said = vec![
        "Donate your idle GPU to train open foundation models.".to_string(),
        "Your node joins a global, decentralized training run and".to_string(),
        "contributes gradients alongside hundreds of other volunteers.".to_string(),
        "".to_string(),
        "No account. No data leaves your machine beyond model weights.".to_string(),
        "Quit any time — your spot opens for the next epoch.".to_string(),
    ];
    assert(views(said@) =~= long_pitch());
    draw_block(canvas, cx, mid.y + 3, &said, plain_style(INK));
    let host_line_text = host_text(host);
    draw_around(
        canvas,
        cx,
        mid.y + mid.height.saturating_sub(3),
        host_line_text.as_str(),
        plain_style(DIM),
    );
    draw_around(
        canvas,
        cx,
        mid.y + mid.height.saturating_sub(1),
        WELCOME_CTA,
        bold_style(BRAND_A),
    );
    assert(canvas@ =~= first + welcome_without_logo(mid, host@));
}

impl App {
    /// Draws the welcome.
    pub fn render_welcome(&self, canvas: &mut Canvas, area: Rect, scene: &Scene)
        requires
            area.counts(),
            area.height >= 17,
            countable(views(scene.logo@)),
            countable_frame(self.frame),
        ensures
            logo_is_shown(area, views(scene.logo@)) ==> final(canvas)@ == old(canvas)@
                + welcome_with_logo(
                area,
                self@.host_summary,
                views(scene.logo@),
                self@.frame,
                scene.glow,
            ),
            !logo_is_shown(area, views(scene.logo@)) ==> exists|mid: Rect|
                #![trigger is_middle_of(mid, area)]
                is_middle_of(mid, area) && final(canvas)@ == old(canvas)@ + welcome_without_logo(
                    mid,
                    self@.host_summary,
                ),
    {
        let ghost first = canvas@;
        let ghost logo = views(scene.logo@);
        let ghost host = self@.host_summary;
        let cx: u16 = area.x + area.width / 2;
        let logo_w: u16 = width(&scene.logo);
        let logo_h: u16 = height(&scene.logo);
        if area.width >= logo_w && area.height >= logo_h + 2 {
            let group_h: u16 = logo_h + 1 + 2 + 1 + 1;
            let content_h: u16 = area.height.saturating_sub(2);
            let show_text = content_h >= group_h;
            let logo_y: u16 = if show_text {
                area.y + content_h.saturating_sub(group_h) / 2
            } else {
                area.y + content_h.saturating_sub(logo_h) / 2
            };
            let at = Rect { x: area.x, y: logo_y, width: area.width, height: logo_h };
            assert(at == logo_area(area, logo));
            draw(canvas, at, &scene.logo, self.frame, scene.glow);
            let ghost drawn = canvas@;
            assert(drawn + Seq::<DrawModel>::empty() =~= drawn);
            if show_text {
                let text_y: u16 = logo_y + logo_h + 1;
                draw_centered_line(
                    canvas,
                    area,
                    text_y,
                    "Donate idle compute to train open foundation models.",
                    plain_style(INK),
                );
                draw_centered_line(
                    canvas,
                    area,
                    text_y + 1,
                    "No account. No data leaves your machine beyond model weights.",
                    plain_style(INK),
                );
                let host_line_text = host_text(self.host_summary.as_str());
                draw_centered_line(
                    canvas,
                    area,
                    text_y + 3,
                    host_line_text.as_str(),
                    plain_style(DIM),
                );
                assert(canvas@ =~= drawn + pitch(area, text_y as int, host));
            }
            draw_around(
                canvas,
                cx,
                area.y + area.height.saturating_sub(1),
                WELCOME_CTA,
                bold_style(INK),
            );
            assert(canvas@ =~= first + welcome_with_logo(area, host, logo, self.frame, scene.glow));
        } else {
            let mid = middle(area);
            draw_welcome_text(canvas, mid, self.host_summary.as_str());
            assert(is_middle_of(mid, area));
        }
    }
}

/// A field of the form.
pub open spec fn field_panel(
    inner: Rect,
    i: int,
    label: Seq<char>,
    value: Seq<char>,
    focus: usize,
) -> DrawModel {
    DrawModel::Panel {
        area: Rect { x: inner.x, y: (inner.y + 3 * i) as u16, width: inner.width, height: 3 },
        border: if focus == i {
            DIM
        } else {
            PANEL_HI
        },
        title: Some(
            (
                " "@ + label + " "@,
                if focus == i {
                    INK
                } else {
                    DIM
                },
            ),
        ),
        fill: None,
        centered: false,
        lines: seq![(value, INK)],
    }
}

/// Where the form stands.
pub open spec fn form_area(area: Rect) -> Rect {
    Rect {
        x: (area.x + 2) as u16,
        y: (area.y + 4) as u16,
        width: less(area.width as int, 4) as u16,
        height: less(area.height as int, 5) as u16,
    }
}

/// The start button.
pub open spec fn start_button(inner: Rect, focus: usize) -> DrawModel {
    DrawModel::Panel {
        area: Rect { x: inner.x, y: (inner.y + 19) as u16, width: inner.width, height: 3 },
        border: if focus == START {
            DIM
        } else {
            PANEL_HI
        },
        title: None,
        fill: None,
        centered: true,
        lines: seq![
            (
                "Start Training"@,
                if focus == START {
                    INK
                } else {
                    DIM
                },
            ),
        ],
    }
}

/// The form: its fields, the start button, and what is said of the device.
pub open spec fn form_screen(m: AppModel, area: Rect) -> Seq<DrawModel> {
    let inner = form_area(area);
    let focus = m.form.focus;
    section_title(area, "Configure Your Node"@) + seq![
        field_panel(inner, 0, "Run ID"@, m.form.run_id, focus),
        field_panel(inner, 1, "Server Host"@, m.form.server_host, focus),
        field_panel(inner, 2, "Server Port"@, m.form.server_port, focus),
        field_panel(inner, 3, "Client Slot"@, m.form.slot, focus),
        field_panel(inner, 4, "Device"@, m.device().label, focus),
        field_panel(inner, 5, "Micro Batch Size"@, m.form.micro_batch, focus),
        start_button(inner, focus),
    ] + (match m.form_error {
        Some(msg) => centered_line(inner, inner.y + 22, msg, ink(DANGER)),
        None => Seq::empty(),
    })
}

impl App {
    fn draw_field(&self, canvas: &mut Canvas, inner: Rect, i: u16, label: &str, value: &str)
        requires
            inner.y + 3 * i <= u16::MAX,
            i < 6,
        ensures
            final(canvas)@ == old(canvas)@.push(
                field_panel(inner, i as int, label@, value@, self@.form.focus),
            ),
    {
        let focused = self.form.focus == i as usize;
        let area = Rect { x: inner.x, y: inner.y + 3 * i, width: inner.width, height: 3 };
        let mut title = " ".to_string();
        title.append(label);
        title.append(" ");
        let border: Rgb = if focused {
            DIM
        } else {
            PANEL_HI
        };
        let title_color: Rgb = if focused {
            INK
        } else {
            DIM
        };
        let lines: Vec<(String, Rgb)> = vec![(value.to_string(), INK)];
        assert(lines_view(lines@) =~= seq![(value@, INK)]);
        canvas.panel(area, border, Some((title, title_color)), None, false, lines);
    }

    /// Draws the form.
    pub fn render_form(&self, canvas: &mut Canvas, area: Rect)
        requires
            self@.wf(),
            area.counts(),
            area.width >= 4,
            area.height >= 5,
            area.y + 26 <= u16::MAX,
        ensures
            final(canvas)@ == old(canvas)@ + form_screen(self@, area),
    {
        let ghost first = canvas@;
        draw_section_title(canvas, area, "Configure Your Node");
        let idx: usize = self.form.device_idx;
        assert(self@.device() == self.devices@[idx as int]@);
        let inner = Rect {
            x: area.x + 2,
            y: area.y + 4,
            width: area.width.saturating_sub(4),
            height: area.height.saturating_sub(5),
        };
        self.draw_field(canvas, inner, 0, "Run ID", self.form.run_id.as_str());
        self.draw_field(canvas, inner, 1, "Server Host", self.form.server_host.as_str());
        self.draw_field(canvas, inner, 2, "Server Port", self.form.server_port.as_str());
        self.draw_field(canvas, inner, 3, "Client Slot", self.form.slot.as_str());
        self.draw_field(canvas, inner, 4, "Device", self.devices[idx].label.as_str());
        self.draw_field(canvas, inner, 5, "Micro Batch Size", self.form.micro_batch.as_str());
        let btn = Rect { x: inner.x, y: inner.y + 19, width: inner.width, height: 3 };
        let focused = self.form.focus == START;
        let border: Rgb = if focused {
            DIM
        } else {
            PANEL_HI
        };
        let color: Rgb = if focused {
            INK
        } else {
            DIM
        };
        let lines: Vec<(String, Rgb)> = vec![("Start Training".to_string(), color)];
        assert(lines_view(lines@) =~= seq![("Start Training"@, color)]);
        canvas.panel(btn, border, None, None, true, lines);
        if let Some(msg) = &self.form_error {
            draw_centered_line(canvas, inner, btn.y + btn.height, msg.as_str(), plain_style(DANGER));
        }
        assert(canvas@ =~= first + form_screen(self@, area));
    }
}

/// What the identity is.
pub open spec fn identity_banner(created: Option<bool>) -> (Seq<char>, Rgb) {
    match created {
        Some(true) => ("Generated a fresh identity"@, SUCCESS),
        Some(false) => ("Using existing identity"@, INK),
        None => ("Identity"@, INK),
    }
}

/// What is said of an identity.
pub open spec fn identity_note() -> Seq<Seq<char>> {
    seq![
        "Your identity key is a 32-byte secret stored on disk. It is your"@,
        "membership in the run — back it up if you care about your node ID."@,
        "It never leaves this machine."@,
    ]
}

/// The identity: where it is kept, what went wrong with it, and what it is for.
pub open spec fn identity_screen(m: AppModel, area: Rect) -> Seq<DrawModel> {
    let cx = middle_column(area);
    let banner = identity_banner(m.identity_created);
    section_title(area, "Node Identity"@) + seq![around(cx, area.y + 4, banner.0, bold(banner.1))] + (
    match m.identity_path {
        Some(p) => seq![around(cx, area.y + 6, "Key: "@ + p, ink(DIM))],
        None => Seq::empty(),
    }) + (match m.identity_error {
        Some(e) => seq![text_at(area.x + 2, area.y + 8, e, ink(DANGER))],
        None => Seq::empty(),
    }) + block(cx, area.y + 9, identity_note(), ink(DIM)) + seq![
        around(
            cx,
            area.y + less(area.height as int, 2),
            "Enter: build and launch · B: back · Q: quit"@,
            bold(BRAND_A),
        ),
    ]
}

impl App {
    /// Draws the identity.
    pub fn render_identity(&self, canvas: &mut Canvas, area: Rect)
        requires
            area.counts(),
            area.width >= 4,
            area.height >= 12,
        ensures
            final(canvas)@ == old(canvas)@ + identity_screen(self@, area),
    {
        let ghost first = canvas@;
        draw_section_title(canvas, area, "Node Identity");
        let b = whole(area);
        let cx: u16 = b.x + b.width / 2;
        let (banner, color): (&str, Rgb) = match self.identity_created {
            Some(true) => ("Generated a fresh identity", SUCCESS),
            Some(false) => ("Using existing identity", INK),
            None => ("Identity", INK),
        };
        assert((banner@, color) == identity_banner(self@.identity_created));
        draw_around(canvas, cx, b.y + 4, banner, bold_style(color));
        if let Some(p) = &self.identity_path {
            let mut s = "Key: ".to_string();
            s.append(p.as_str());
            draw_around(canvas, cx, b.y + 6, s.as_str(), plain_style(DIM));
        }
        if let Some(e) = &self.identity_error {
            canvas.text(b.x + 2, b.y + 8, e.as_str(), plain_style(DANGER));
        }
        let note = vec![
            "Your identity key is a 32-byte secret stored on disk. It is your".to_string(),
            "membership in the run — back it up if you care about your node ID.".to_string(),
            "It never leaves this machine.".to_string(),
        ];
        assert(views(note@) =~= identity_note());
        draw_block(canvas, cx, b.y + 9, &note, plain_style(DIM));
        draw_around(
            canvas,
            cx,
            b.y + b.height.saturating_sub(2),
            "Enter: build and launch · B: back · Q: quit",
            bold_style(BRAND_A),
        );
        assert(canvas@ =~= first + identity_screen(self@, area));
    }
}

/// Whether one text holds another.
pub fn mentions_text(text: &str, part: &str) -> (r: bool)
    ensures
        r == mentions(text@, part@),
{
    let t = chars_of(text);
    let p = chars_of(part);
    if p.len() > t.len() {
        return false;
    }
    let mut i: usize = 0;
    while i <= t.len() - p.len()
        invariant
            t@ == text@,
            p@ == part@,
            p@.len() <= t@.len(),
            i <= t@.len() - p@.len() + 1,
            forall|j: int| 0 <= j < i ==> !holds_at(text@, part@, j),
        decreases t@.len() - p@.len() + 1 - i,
    {
        let mut k: usize = 0;
        while k < p.len() && t[i + k] == p[k]
            invariant
                t@ == text@,
                p@ == part@,
                k <= p@.len(),
                i + p@.len() <= t@.len() <= usize::MAX,
                forall|j: int| 0 <= j < k ==> t@[i + j] == p@[j],
            decreases p@.len() - k,
        {
            k = k + 1;
        }
        if k == p.len() {
            assert(text@.subrange(i as int, i + p@.len() as int) =~= part@);
            assert(holds_at(text@, part@, i as int));
            return true;
        }
        assert(!holds_at(text@, part@, i as int)) by {
            if holds_at(text@, part@, i as int) {
                assert(text@.subrange(i as int, i + p@.len() as int)[k as int] == part@[k as int]);
            }
        }
        if i == t.len() - p.len() {
            assert forall|j: int| !holds_at(text@, part@, j) by {
                if holds_at(text@, part@, j) {
                    assert(0 <= j <= i);
                }
            }
            return false;
        }
        i = i + 1;
    }
    false
}

/// The spinner, one turn in ten frames.
pub open spec fn spinner_of(frame: u64) -> Seq<char> {
    let i = frame % 10;
    if i == 0 {
        "⠋"@
    } else if i == 1 {
        "⠙"@
    } else if i == 2 {
        "⠹"@
    } else if i == 3 {
        "⠸"@
    } else if i == 4 {
        "⠼"@
    } else if i == 5 {
        "⠴"@
    } else if i == 6 {
        "⠦"@
    } else if i == 7 {
        "⠧"@
    } else if i == 8 {
        "⠇"@
    } else {
        "⠏"@
    }
}

fn spinner(frame: u64) -> (r: &'static str)
    ensures
        r@ == spinner_of(frame),
{
    match frame % 10 {
        0 => "⠋",
        1 => "⠙",
        2 => "⠹",
        3 => "⠸",
        4 => "⠼",
        5 => "⠴",
        6 => "⠦",
        7 => "⠧",
        8 => "⠇",
        _ => "⠏",
    }
}

/// What is said while crates are compiled.
pub const COMPILING_TEMPLATE: &'static str = "Compiling {} crates…";

/// What is said of a build.
pub open spec fn build_message(build: Option<BuildSnapshot>) -> Seq<char> {
    match build {
        Some(s) if s.state is Success => "Engine ready"@,
        Some(s) => filled(COMPILING_TEMPLATE@, seq![decimal(s.compiles as nat)]),
        None => filled(COMPILING_TEMPLATE@, seq![decimal(0)]),
    }
}

fn build_message_text(build: &Option<BuildSnapshot>) -> (r: String)
    ensures
        r@ == build_message(*build),
{
    let mut compiles: usize = 0;
    if let Some(s) = build {
        if matches!(s.state, BuildState::Success) {
            return "Engine ready".to_string();
        }
        compiles = s.compiles;
    }
    let fields = vec![decimal_text(compiles as u64)];
    assert(views(fields@) == seq![decimal(compiles as nat)]);
    fill(COMPILING_TEMPLATE, &fields)
}

/// A line of a build, with its colour: those that speak of errors or warnings stand out.
pub open spec fn log_line(line: Seq<char>) -> (Seq<char>, Rgb) {
    (
        line,
        if mentions(line, "error"@) || mentions(line, "warning"@) {
            WARN
        } else {
            DIM
        },
    )
}

/// The lines of a build.
pub open spec fn log_lines(lines: Seq<Seq<char>>) -> Seq<(Seq<char>, Rgb)> {
    lines.map_values(|l: Seq<char>| log_line(l))
}

fn log_line_texts(lines: &Vec<String>) -> (r: Vec<(String, Rgb)>)
    ensures
        lines_view(r@) == log_lines(views(lines@)),
{
    let ghost all = views(lines@);
    let mut r: Vec<(String, Rgb)> = Vec::new();
    let mut i: usize = 0;
    assert(lines_view(r@) =~= log_lines(all.take(0)));
    while i < lines.len()
        invariant
            i <= lines@.len(),
            all == views(lines@),
            lines_view(r@) == log_lines(all.take(i as int)),
        decreases lines@.len() - i,
    {
        let l = &lines[i];
        assert(all[i as int] == l@);
        let color: Rgb = if mentions_text(l.as_str(), "error") || mentions_text(
            l.as_str(),
            "warning",
        ) {
            WARN
        } else {
            DIM
        };
        let ghost before = lines_view(r@);
        r.push((l.clone(), color));
        i = i + 1;
        assert(lines_view(r@) =~= before.push((l@, color)));
        assert(lines_view(r@) =~= log_lines(all.take(i as int)));
    }
    assert(all.take(i as int) =~= all);
    r
}

/// A frame for the lines of a build.
pub open spec fn log_panel(
    area: Rect,
    title: Seq<char>,
    lines: Seq<(Seq<char>, Rgb)>,
) -> DrawModel {
    DrawModel::Panel {
        area,
        border: PANEL_HI,
        title: Some((title, DIM)),
        fill: Some(PANEL),
        centered: false,
        lines,
    }
}

/// How high a frame for lines is, where `taken` of the rows are taken: four at least.
pub open spec fn log_height(area: Rect, taken: int) -> int {
    if less(area.height as int, taken) > 4 {
        less(area.height as int, taken)
    } else {
        4
    }
}

/// A time, as `std` prints it for debugging.
pub uninterp spec fn duration_text(nanos: u64) -> Seq<char>;

/// A time, as `std` prints it for debugging.
///
/// `std::time::Duration::from_nanos` and its `Debug` in the alternate form: the text is a function
/// of the time alone. What it looks like is not said.
#[verifier::external_body]
fn print_duration(nanos: u64) -> (r: String)
    ensures
        r@ == duration_text(nanos),
{
    format!("{:#?}", std::time::Duration::from_nanos(nanos))
}

/// The build: how far it is, for how long it has gone on (`elapsed`), and what it says.
pub open spec fn build_screen(
    frame: u64,
    build: Option<BuildSnapshot>,
    area: Rect,
    sweep: usize,
    shades: Seq<Rgb>,
    elapsed: Seq<char>,
) -> Seq<DrawModel> {
    let msg = build_message(build);
    let x = less(middle_column(area), (3 + places(msg)) / 2);
    let bar = Rect {
        x: (area.x + 4) as u16,
        y: (area.y + 6) as u16,
        width: less(area.width as int, 8) as u16,
        height: 1,
    };
    section_title(area, "Compile Training Engine"@) + seq![
        text_at(x, area.y + 4, spinner_of(frame), bold(BRAND_B)),
        text_at(x + 3, area.y + 4, msg, ink(INK)),
    ] + progress_bar(bar, sweep, shades, bar.width as int) + (match build {
        Some(snap) => seq![
            text_at(area.x + 4, area.y + 8, "Elapsed "@ + elapsed, ink(DIM)),
            log_panel(
                Rect {
                    x: (area.x + 4) as u16,
                    y: (area.y + 10) as u16,
                    width: less(area.width as int, 8) as u16,
                    height: log_height(area, 13) as u16,
                },
                " Build Log "@,
                log_lines(views(snap.lines@)),
            ),
        ],
        None => Seq::empty(),
    })
}

/// Draws a build that has gone on for `elapsed`.
pub fn draw_build(
    canvas: &mut Canvas,
    area: Rect,
    frame: u64,
    build: &Option<BuildSnapshot>,
    scene: &Scene,
    elapsed: &str,
)
    requires
        area.counts(),
        area.width >= 8,
        area.height >= 10,
        scene.shades@.len() >= light_length((area.width - 8) as u16),
    ensures
        final(canvas)@ == old(canvas)@ + build_screen(
            frame,
            *build,
            area,
            scene.sweep,
            scene.shades@,
            elapsed@,
        ),
{
    let ghost first = canvas@;
    draw_section_title(canvas, area, "Compile Training Engine");
    let cx: u16 = area.x + area.width / 2;
    let msg = build_message_text(build);
    let half: u16 = ((3 + str_w(msg.as_str()) as u32) / 2) as u16;
    let unit_x: u16 = cx.saturating_sub(half);
    canvas.text(unit_x, area.y + 4, spinner(frame), bold_style(BRAND_B));
    canvas.text(unit_x + 3, area.y + 4, msg.as_str(), plain_style(INK));
    let bar_w: u16 = area.width.saturating_sub(8);
    let bar = Rect { x: area.x + 4, y: area.y + 6, width: bar_w, height: 1 };
    draw_progress_bar(canvas, bar, scene.sweep, &scene.shades);
    if let Some(snap) = build {
        let mut t = "Elapsed ".to_string();
        t.append(elapsed);
        canvas.text(area.x + 4, area.y + 8, t.as_str(), plain_style(DIM));
        let rest: u16 = area.height.saturating_sub(13);
        let log = Rect {
            x: area.x + 4,
            y: area.y + 10,
            width: area.width.saturating_sub(8),
            height: if rest > 4 {
                rest
            } else {
                4
            },
        };
        let lines = log_line_texts(&snap.lines);
        canvas.panel(log, PANEL_HI, Some((" Build Log ".to_string(), DIM)), Some(PANEL), false, lines);
    }
    assert(canvas@ =~= first + build_screen(
        frame,
        *build,
        area,
        scene.sweep,
        scene.shades@,
        elapsed@,
    ));
}

/// A time that a build has taken so far, as it is shown.
pub open spec fn elapsed_of(build: Option<BuildSnapshot>) -> Seq<char> {
    match build {
        Some(snap) => duration_text(snap.elapsed),
        None => Seq::empty(),
    }
}

impl App {
    /// Draws the build.
    pub fn render_build(&self, canvas: &mut Canvas, area: Rect, scene: &Scene)
        requires
            area.counts(),
            area.width >= 8,
            area.height >= 10,
            scene.shades@.len() >= light_length((area.width - 8) as u16),
        ensures
            final(canvas)@ == old(canvas)@ + build_screen(
                self@.frame,
                self@.build,
                area,
                scene.sweep,
                scene.shades@,
                elapsed_of(self@.build),
            ),
    {
        let elapsed = match &self.build {
            Some(snap) => print_duration(snap.elapsed),
            None => String::new(),
        };
        assert(elapsed@ =~= elapsed_of(self.build));
        draw_build(canvas, area, self.frame, &self.build, scene, elapsed.as_str());
    }
}

/// What is launched, line by line.
pub open spec fn ready_rows(m: AppModel, manifest_dir: Seq<char>) -> Seq<(Seq<char>, Seq<char>)> {
    seq![
        ("Run ID"@, m.form.run_id),
        ("Server"@, m.form.server_host + ":"@ + m.form.server_port),
        ("Device"@, m.device().value),
        ("Micro Batch Size"@, m.form.micro_batch),
    ] + (match m.identity_path {
        Some(p) => seq![("Identity Key"@, p)],
        None => Seq::empty(),
    }) + seq![("Engine"@, client_bin_of(manifest_dir))]
}

/// Names and values in two columns.
pub open spec fn two_columns(
    area: Rect,
    y: int,
    rows: Seq<(Seq<char>, Seq<char>)>,
) -> Seq<DrawModel>
    decreases rows.len(),
{
    if rows.len() == 0 {
        Seq::empty()
    } else {
        two_columns(area, y, rows.drop_last()).push(
            text_at(area.x + 6, y + rows.len() - 1, rows.last().0, ink(DIM)),
        ).push(text_at(area.x + 22, y + rows.len() - 1, rows.last().1, ink(INK)))
    }
}

/// Draws the next of the rows in two columns.
fn draw_row(
    canvas: &mut Canvas,
    area: Rect,
    y: u16,
    key: &str,
    value: &str,
    Ghost(first): Ghost<Seq<DrawModel>>,
    Ghost(rows): Ghost<Seq<(Seq<char>, Seq<char>)>>,
)
    requires
        area.x + 22 <= u16::MAX,
        y >= rows.len(),
        old(canvas)@ == first + two_columns(area, y - rows.len(), rows),
    ensures
        final(canvas)@ == first + two_columns(area, y - rows.len(), rows.push((key@, value@))),
{
    canvas.text(area.x + 6, y, key, plain_style(DIM));
    canvas.text(area.x + 22, y, value, plain_style(INK));
    assert(rows.push((key@, value@)).drop_last() =~= rows);
    assert(canvas@ =~= first + two_columns(area, y - rows.len(), rows.push((key@, value@))));
}

/// What is launched, and how.
pub open spec fn ready_screen(m: AppModel, area: Rect, manifest_dir: Seq<char>) -> Seq<DrawModel> {
    let cx = middle_column(area);
    section_title(area, "Ready to Train"@) + two_columns(
        area,
        area.y + 4,
        ready_rows(m, manifest_dir),
    ) + seq![
        around(
            cx,
            area.y + less(area.height as int, 3),
            "Press Enter to launch the client"@,
            bold(BRAND_A),
        ),
        around(
            cx,
            area.y + less(area.height as int, 1),
            "The terminal will switch to the training dashboard."@,
            ink(DIM),
        ),
    ]
}

impl App {
    /// Draws what is launched.
    pub fn render_ready(&self, canvas: &mut Canvas, area: Rect, scene: &Scene)
        requires
            self@.wf(),
            area.counts(),
            area.width >= 22,
            area.height >= 10,
        ensures
            final(canvas)@ == old(canvas)@ + ready_screen(self@, area, scene.manifest_dir@),
    {
        let ghost first = canvas@;
        draw_section_title(canvas, area, "Ready to Train");
        let b = whole(area);
        let idx: usize = self.form.device_idx;
        assert(self@.device() == self.devices@[idx as int]@);
        let mut server = self.form.server_host.clone();
        server.append(":");
        server.append(self.form.server_port.as_str());
        let engine = client_bin(scene.manifest_dir.as_str());
        let mut y: u16 = b.y + 4;
        let ghost titled = canvas@;
        let ghost rows = Seq::<(Seq<char>, Seq<char>)>::empty();
        assert(titled + two_columns(b, y as int, rows) =~= titled);
        draw_row(canvas, b, y, "Run ID", self.form.run_id.as_str(), Ghost(titled), Ghost(rows));
        proof {
            rows = rows.push(("Run ID"@, self@.form.run_id));
        }
        draw_row(canvas, b, y + 1, "Server", server.as_str(), Ghost(titled), Ghost(rows));
        proof {
            rows = rows.push(("Server"@, server@));
        }
        draw_row(
            canvas,
            b,
            y + 2,
            "Device",
            self.devices[idx].value.as_str(),
            Ghost(titled),
            Ghost(rows),
        );
        proof {
            rows = rows.push(("Device"@, self@.device().value));
        }
        draw_row(
            canvas,
            b,
            y + 3,
            "Micro Batch Size",
            self.form.micro_batch.as_str(),
            Ghost(titled),
            Ghost(rows),
        );
        proof {
            rows = rows.push(("Micro Batch Size"@, self@.form.micro_batch));
        }
        y = y + 4;
        if let Some(p) = &self.identity_path {
            draw_row(canvas, b, y, "Identity Key", p.as_str(), Ghost(titled), Ghost(rows));
            proof {
                rows = rows.push(("Identity Key"@, p@));
            }
            y = y + 1;
        }
        draw_row(canvas, b, y, "Engine", engine.as_str(), Ghost(titled), Ghost(rows));
        assert(rows.push(("Engine"@, engine@)) =~= ready_rows(self@, scene.manifest_dir@));
        let cx: u16 = b.x + b.width / 2;
        draw_around(
            canvas,
            cx,
            b.y + b.height.saturating_sub(3),
            "Press Enter to launch the client",
            bold_style(BRAND_A),
        );
        draw_around(
            canvas,
            cx,
            b.y + b.height.saturating_sub(1),
            "The terminal will switch to the training dashboard.",
            plain_style(DIM),
        );
        assert(canvas@ =~= first + ready_screen(self@, area, scene.manifest_dir@));
    }
}

/// The lines of a build that failed.
pub open spec fn failed_lines(build: Option<BuildSnapshot>) -> Seq<(Seq<char>, Rgb)> {
    match build {
        Some(snap) => views(snap.lines@).map_values(|l: Seq<char>| (l, INK)),
        None => Seq::empty(),
    }
}

fn failed_line_texts(build: &Option<BuildSnapshot>) -> (r: Vec<(String, Rgb)>)
    ensures
        lines_view(r@) == failed_lines(*build),
{
    let mut r: Vec<(String, Rgb)> = Vec::new();
    assert(lines_view(r@) =~= Seq::<(Seq<char>, Rgb)>::empty());
    if let Some(snap) = build {
        let ghost all = views(snap.lines@);
        let mut i: usize = 0;
        assert(lines_view(r@) =~= all.take(0).map_values(|l: Seq<char>| (l, INK)));
        while i < snap.lines.len()
            invariant
                i <= snap.lines@.len(),
                all == views(snap.lines@),
                lines_view(r@) == all.take(i as int).map_values(|l: Seq<char>| (l, INK)),
            decreases snap.lines@.len() - i,
        {
            let ghost before = lines_view(r@);
            assert(all[i as int] == snap.lines@[i as int]@);
            r.push((snap.lines[i].clone(), INK));
            i = i + 1;
            assert(lines_view(r@) =~= before.push((all[i - 1], INK)));
            assert(lines_view(r@) =~= all.take(i as int).map_values(|l: Seq<char>| (l, INK)));
        }
        assert(all.take(i as int) =~= all);
    }
    r
}

/// What went wrong with the build.
pub open spec fn error_screen(m: AppModel, area: Rect) -> Seq<DrawModel> {
    section_title(area, "Build Failed"@) + seq![
        text_at(area.x + 2, area.y + 4, m.build_failed_msg, bold(DANGER)),
        log_panel(
            Rect {
                x: (area.x + 2) as u16,
                y: (area.y + 6) as u16,
                width: less(area.width as int, 4) as u16,
                height: log_height(area, 9) as u16,
            },
            " Recent output "@,
            failed_lines(m.build),
        ),
        around(
            middle_column(area),
            area.y + less(area.height as int, 2),
            "R: retry · Q: quit"@,
            bold(WARN),
        ),
    ]
}

impl App {
    /// Draws what went wrong with the build.
    pub fn render_error(&self, canvas: &mut Canvas, area: Rect)
        requires
            area.counts(),
            area.width >= 4,
            area.height >= 6,
        ensures
            final(canvas)@ == old(canvas)@ + error_screen(self@, area),
    {
        let ghost first = canvas@;
        draw_section_title(canvas, area, "Build Failed");
        let b = whole(area);
        canvas.text(b.x + 2, b.y + 4, self.build_failed_msg.as_str(), bold_style(DANGER));
        let rest: u16 = b.height.saturating_sub(9);
        let log = Rect {
            x: b.x + 2,
            y: b.y + 6,
            width: b.width.saturating_sub(4),
            height: if rest > 4 {
                rest
            } else {
                4
            },
        };
        let lines = failed_line_texts(&self.build);
        canvas.panel(
            log,
            PANEL_HI,
            Some((" Recent output ".to_string(), DIM)),
            Some(PANEL),
            false,
            lines,
        );
        let cx: u16 = b.x + b.width / 2;
        draw_around(
            canvas,
            cx,
            b.y + b.height.saturating_sub(2),
            "R: retry · Q: quit",
            bold_style(WARN),
        );
        assert(canvas@ =~= first + error_screen(self@, area));
    }
}

/// The window is too small for the screens.
pub open spec fn is_too_small(area: Rect) -> bool {
    area.width < MIN_W || area.height < MIN_H
}

/// What is left between the header and the footer.
pub open spec fn inner_area(area: Rect) -> Rect {
    Rect {
        x: area.x,
        y: (area.y + 4) as u16,
        width: area.width,
        height: (area.height - 5) as u16,
    }
}

/// The welcome is shown without the logo, in the middle of what is left.
pub open spec fn needs_middle(m: AppModel, area: Rect, scene: Scene) -> bool {
    m.screen == Screen::Welcome && !logo_is_shown(inner_area(area), views(scene.logo@))
}

/// What a screen shows between the header and the footer.
pub open spec fn body(m: AppModel, inner: Rect, scene: Scene) -> Seq<DrawModel> {
    match m.screen {
        Screen::Welcome => welcome_with_logo(
            inner,
            m.host_summary,
            views(scene.logo@),
            m.frame,
            scene.glow,
        ),
        Screen::Form => form_screen(m, inner),
        Screen::Identity => identity_screen(m, inner),
        Screen::Build => build_screen(
            m.frame,
            m.build,
            inner,
            scene.sweep,
            scene.shades@,
            elapsed_of(m.build),
        ),
        Screen::Ready => ready_screen(m, inner, scene.manifest_dir@),
        Screen::Error => error_screen(m, inner),
    }
}

/// A screen: the header, what `shown` says, the footer.
pub open spec fn framed(m: AppModel, area: Rect, shown: Seq<DrawModel>) -> Seq<DrawModel> {
    header(area, m.host_summary, m.screen) + shown + footer(area, m.screen)
}

/// The scene has what the screens of a window need: a logo that can be counted, and the colours of
/// the progress bar.
pub open spec fn suits(scene: Scene, area: Rect) -> bool {
    &&& countable(views(scene.logo@))
    &&& area.width >= 8 ==> scene.shades@.len() >= light_length((area.width - 8) as u16)
}

/// Concatenation of four, from either side.
proof fn lemma_four(a: Seq<DrawModel>, b: Seq<DrawModel>, c: Seq<DrawModel>, d: Seq<DrawModel>)
    ensures
        a + b + c + d == a + (b + c + d),
{
    assert(a + b + c + d =~= a + (b + c + d));
}

impl App {
    /// Draws what the screen that the launcher is on shows between the header and the footer.
    fn render_body(&self, canvas: &mut Canvas, inner: Rect, scene: &Scene)
        requires
            self@.wf(),
            inner.counts(),
            inner.width >= MIN_W,
            inner.height >= MIN_H - 5,
            inner.y + 26 <= u16::MAX,
            suits(*scene, inner),
            countable_frame(self.frame),
        ensures
            !(self@.screen == Screen::Welcome && !logo_is_shown(inner, views(scene.logo@)))
                ==> final(canvas)@ == old(canvas)@ + body(self@, inner, *scene),
            self@.screen == Screen::Welcome && !logo_is_shown(inner, views(scene.logo@))
                ==> exists|mid: Rect|
                #![trigger is_middle_of(mid, inner)]
                is_middle_of(mid, inner) && final(canvas)@ == old(canvas)@ + welcome_without_logo(
                    mid,
                    self@.host_summary,
                ),
    {
        match self.screen {
            Screen::Welcome => self.render_welcome(canvas, inner, scene),
            Screen::Form => self.render_form(canvas, inner),
            Screen::Identity => self.render_identity(canvas, inner),
            Screen::Build => self.render_build(canvas, inner, scene),
            Screen::Ready => self.render_ready(canvas, inner, scene),
            Screen::Error => self.render_error(canvas, inner),
        }
    }

    /// Draws the screen that the launcher is on.
    pub fn render(&self, canvas: &mut Canvas, area: Rect, scene: &Scene)
        requires
            self@.wf(),
            area.counts(),
            area.y + 30 <= u16::MAX,
            suits(*scene, area),
            countable_frame(self.frame),
        ensures
            is_too_small(area) ==> final(canvas)@ == old(canvas)@ + too_small(area),
            !is_too_small(area) && !needs_middle(self@, area, *scene) ==> final(canvas)@
                == old(canvas)@ + framed(self@, area, body(self@, inner_area(area), *scene)),
            !is_too_small(area) && needs_middle(self@, area, *scene) ==> exists|mid: Rect|
                #![trigger is_middle_of(mid, inner_area(area))]
                is_middle_of(mid, inner_area(area)) && final(canvas)@ == old(canvas)@ + framed(
                    self@,
                    area,
                    welcome_without_logo(mid, self@.host_summary),
                ),
    {
        let ghost first = canvas@;
        if area.width < MIN_W || area.height < MIN_H {
            draw_too_small(canvas, area);
            return ;
        }
        draw_header(canvas, area, self.host_summary.as_str(), self.screen);
        let inner = between(area, 4, 1);
        assert(inner == inner_area(area));
        let ghost headed = canvas@;
        self.render_body(canvas, inner, scene);
        let ghost shown = canvas@;
        draw_footer(canvas, area, self.screen);
        proof {
            if needs_middle(self@, area, *scene) {
                let mid = choose|mid: Rect|
                    #![trigger is_middle_of(mid, inner_area(area))]
                    is_middle_of(mid, inner_area(area)) && shown == headed + welcome_without_logo(
                        mid,
                        self@.host_summary,
                    );
                assert(is_middle_of(mid, inner_area(area)));
                lemma_four(
                    first,
                    header(area, self@.host_summary, self@.screen),
                    welcome_without_logo(mid, self@.host_summary),
                    footer(area, self@.screen),
                );
            } else {
                lemma_four(
                    first,
                    header(area, self@.host_summary, self@.screen),
                    body(self@, inner_area(area), *scene),
                    footer(area, self@.screen),
                );
            }
        }
    }
}

} // verus!
